//! The command line: which arguments there are, and what they come to.

use crate::clap_items::{
    accepted, add_flag, add_help, add_number16, add_number64, add_text, add_words,
    asks_for_help, attached, clap_outcome, command_items, escape_at, get_flag, get_number16,
    get_number64, get_text, get_words, help_markdown_command, is_minus_zero, markdown_text, match_values,
    mentions, names, new_command, number_in, opt_literal, plain_options, program_name_is_plain,
    try_get_matches_from, value_fits, values_fit, ArgSpec, ArgSpecV, ArgValue, CommandItem, Header,
    HeaderV, ValueKind, without_plus,
};
use crate::text::{digits_value, join, opt_text, words};
use vstd::prelude::*;

verus! {

/// What the command line asks for.
#[derive(Debug)]
pub struct Args {
    /// The port to listen on.
    pub port: u16,
    /// The host address to listen on.
    pub host: String,
    /// The command to run, with its arguments.
    pub command: Vec<String>,
    /// Whether help in Markdown is asked for, and nothing else.
    pub markdown_help: bool,
    /// The shell command that has to succeed before a restart.
    pub restart_condition: Option<String>,
    /// Whether that command has to fail once before it may succeed.
    pub fail_atleast_once: bool,
    /// Milliseconds between two checks of that command.
    pub restart_condition_sleep: u64,
    /// Whether the log is suppressed.
    pub quiet: bool,
}

/// What [`Args`] hold.
pub struct ArgsV {
    pub port: u16,
    pub host: Seq<char>,
    pub command: Seq<Seq<char>>,
    pub markdown_help: bool,
    pub restart_condition: Option<Seq<char>>,
    pub fail_atleast_once: bool,
    pub restart_condition_sleep: u64,
    pub quiet: bool,
}

impl View for Args {
    type V = ArgsV;

    open spec fn view(&self) -> ArgsV {
        ArgsV {
            port: self.port,
            host: self.host@,
            command: words(self.command@),
            markdown_help: self.markdown_help,
            restart_condition: opt_text(self.restart_condition),
            fail_atleast_once: self.fail_atleast_once,
            restart_condition_sleep: self.restart_condition_sleep,
            quiet: self.quiet,
        }
    }
}

/// A command line that is not carried out: what to print, and the code to exit with. A request
/// for help or for the version is one, with code 0.
#[derive(Debug)]
pub struct UsageError {
    pub exit_code: i32,
    pub message: String,
}

/// The values of the arguments as they were read, before it is checked that none is missing.
#[derive(Debug)]
pub struct ParsedArgs {
    pub port: Option<u16>,
    pub host: Option<String>,
    pub command: Option<Vec<String>>,
    pub markdown_help: bool,
    pub restart_condition: Option<String>,
    pub fail_atleast_once: bool,
    pub restart_condition_sleep: Option<u64>,
    pub quiet: bool,
}

/// The name and description of the program.
pub open spec fn header_item() -> CommandItem {
    CommandItem::Header(
        HeaderV {
            name: "run-http"@,
            version: "0.1.0"@,
            author: "jld.adriano@gmail.com"@,
            about: "A CLI tool to run and control commands via http"@,
            disable_help_flag: true,
        },
    )
}

/// An option that takes a value.
pub open spec fn option_v(
    id: Seq<char>,
    short: Option<char>,
    long: Seq<char>,
    value_name: Seq<char>,
    default: Option<Seq<char>>,
    help: Seq<char>,
) -> ArgSpecV {
    ArgSpecV {
        id,
        short,
        long: Some(long),
        value_name: Some(value_name),
        default,
        help,
        required: false,
        last: false,
        hide_short_help: false,
    }
}

/// A flag.
pub open spec fn flag_v(id: Seq<char>, long: Seq<char>, help: Seq<char>, hide_short_help: bool) -> ArgSpecV {
    ArgSpecV {
        id,
        short: None,
        long: Some(long),
        value_name: None,
        default: None,
        help,
        required: false,
        last: false,
        hide_short_help,
    }
}

/// `-p`, `--port <PORT>`.
pub open spec fn port_v() -> ArgSpecV {
    option_v(
        "port"@,
        Some('p'),
        "port"@,
        "PORT"@,
        Some("30067"@),
        "Port to run the web server on"@,
    )
}

/// `-h`, `--host <HOST>`.
pub open spec fn host_v() -> ArgSpecV {
    option_v(
        "host"@,
        Some('h'),
        "host"@,
        "HOST"@,
        Some("127.0.0.1"@),
        "Host address to bind the web server to"@,
    )
}

/// `-- <COMMAND>...`.
pub open spec fn command_v() -> ArgSpecV {
    ArgSpecV {
        id: "command"@,
        short: None,
        long: None,
        value_name: Some("COMMAND"@),
        default: None,
        help: "The command to run and monitor"@,
        required: true,
        last: true,
        hide_short_help: false,
    }
}

/// `--markdown-help`.
pub open spec fn markdown_help_v() -> ArgSpecV {
    flag_v("markdown_help"@, "markdown-help"@, "Generate markdown help"@, true)
}

/// `--restart-condition <RESTART_CONDITION>`.
pub open spec fn restart_condition_v() -> ArgSpecV {
    option_v(
        "restart_condition"@,
        None,
        "restart-condition"@,
        "RESTART_CONDITION"@,
        None,
        "Condition command to run before restarting"@,
    )
}

/// `--fail-atleast-once`.
pub open spec fn fail_atleast_once_v() -> ArgSpecV {
    flag_v(
        "fail_atleast_once"@,
        "fail-atleast-once"@,
        "Ensure restart condition fails at least once before passing"@,
        false,
    )
}

/// `--restart-condition-sleep <RESTART_CONDITION_SLEEP>`.
pub open spec fn restart_condition_sleep_v() -> ArgSpecV {
    option_v(
        "restart_condition_sleep"@,
        None,
        "restart-condition-sleep"@,
        "RESTART_CONDITION_SLEEP"@,
        Some("300"@),
        "Sleep duration in milliseconds between restart condition checks"@,
    )
}

/// `--quiet`.
pub open spec fn quiet_v() -> ArgSpecV {
    flag_v(
        "quiet"@,
        "quiet"@,
        "Suppress all logging output, only show command output"@,
        false,
    )
}

/// `--help`.
pub open spec fn help_v() -> ArgSpecV {
    flag_v("help"@, "help"@, "Print help"@, false)
}

/// The program and its arguments, as the documentation lists them.
pub open spec fn documented_items() -> Seq<CommandItem> {
    seq![
        header_item(),
        CommandItem::Arg(ValueKind::Number16, port_v()),
        CommandItem::Arg(ValueKind::Text, host_v()),
        CommandItem::Arg(ValueKind::Words, command_v()),
        CommandItem::Arg(ValueKind::Text, restart_condition_v()),
        CommandItem::Arg(ValueKind::Flag, fail_atleast_once_v()),
        CommandItem::Arg(ValueKind::Number64, restart_condition_sleep_v()),
        CommandItem::Arg(ValueKind::Flag, quiet_v()),
    ]
}

/// The program and all its arguments.
pub open spec fn full_items() -> Seq<CommandItem> {
    documented_items().push(CommandItem::Arg(ValueKind::Flag, markdown_help_v())).push(
        CommandItem::Arg(ValueKind::Help, help_v()),
    )
}

/// What the values of an accepted command line come to.
pub open spec fn args_of(values: Map<Seq<char>, ArgValue>) -> ArgsV {
    ArgsV {
        port: values["port"@]->Number16_0->0,
        host: values["host"@]->Text_0->0,
        command: values["command"@]->Words_0->0,
        markdown_help: values["markdown_help"@]->Flag_0,
        restart_condition: values["restart_condition"@]->Text_0,
        fail_atleast_once: values["fail_atleast_once"@]->Flag_0,
        restart_condition_sleep: values["restart_condition_sleep"@]->Number64_0->0,
        quiet: values["quiet"@]->Flag_0,
    }
}

/// What the words before the `--` say of an option that takes a number: the number after its
/// name, or the one attached to its name, or its default where it is not mentioned.
pub open spec fn says_number(
    options: Seq<Seq<char>>,
    kind: ValueKind,
    spec: ArgSpecV,
    default: int,
    number: int,
) -> bool {
    &&& !mentions(options, spec) ==> number == default
    &&& forall|i: int|
        0 <= i < options.len() && (#[trigger] names(options[i], spec)) ==> i + 1 < options.len()
            && number_in(kind, options[i + 1]) == Some(number)
    &&& forall|i: int|
        0 <= i < options.len() && (#[trigger] attached(options[i], spec)) is Some ==> number_in(
            kind,
            attached(options[i], spec)->0,
        ) == Some(number)
}

/// What the words before the `--` say of an option that takes a text: the word after its name,
/// or the text attached to its name, or its default where it is not mentioned.
pub open spec fn says_text(
    options: Seq<Seq<char>>,
    spec: ArgSpecV,
    text: Option<Seq<char>>,
) -> bool {
    &&& !mentions(options, spec) ==> text == spec.default
    &&& forall|i: int|
        0 <= i < options.len() && (#[trigger] names(options[i], spec)) ==> i + 1 < options.len()
            && text == Some(options[i + 1])
    &&& forall|i: int|
        0 <= i < options.len() && (#[trigger] attached(options[i], spec)) is Some ==> text
            == attached(options[i], spec)
}

/// What an accepted command line says, `k` being the place of its first lone `--`: the words
/// after it are the command, a flag is set where it is one of the words before it, and so are
/// the options given.
pub open spec fn says(argv: Seq<Seq<char>>, k: int, args: ArgsV) -> bool {
    let options = argv.subrange(1, k);
    &&& args.command == argv.skip(k + 1)
    &&& args.command.len() > 0
    &&& says_number(options, ValueKind::Number16, port_v(), 30067, args.port as int)
    &&& says_text(options, host_v(), Some(args.host))
    &&& says_text(options, restart_condition_v(), args.restart_condition)
    &&& says_number(
        options,
        ValueKind::Number64,
        restart_condition_sleep_v(),
        300,
        args.restart_condition_sleep as int,
    )
    &&& args.markdown_help == options.contains("--"@ + "markdown-help"@)
    &&& args.fail_atleast_once == options.contains("--"@ + "fail-atleast-once"@)
    &&& args.quiet == options.contains("--"@ + "quiet"@)
}

/// The first value that is missing, by its id.
pub open spec fn missing_value(p: ParsedArgs) -> Option<Seq<char>> {
    if p.port is None {
        Some("port"@)
    } else if p.host is None {
        Some("host"@)
    } else if p.command is None {
        Some("command"@)
    } else if p.restart_condition_sleep is None {
        Some("restart_condition_sleep"@)
    } else {
        None
    }
}

/// An option that takes a value.
fn option_spec(
    id: &'static str,
    short: Option<char>,
    long: &'static str,
    value_name: &'static str,
    default: Option<&'static str>,
    help: &'static str,
) -> (res: ArgSpec)
    ensures
        res@ == option_v(
            id@,
            short,
            long@,
            value_name@,
            opt_literal(default),
            help@,
        ),
        res.short == short,
{
    ArgSpec {
        id,
        short,
        long: Some(long),
        value_name: Some(value_name),
        default,
        help,
        required: false,
        last: false,
        hide_short_help: false,
    }
}

/// A flag.
fn flag_spec(id: &'static str, long: &'static str, help: &'static str, hide_short_help: bool) -> (res: ArgSpec)
    ensures
        res@ == flag_v(id@, long@, help@, hide_short_help),
        res.short is None,
{
    ArgSpec {
        id,
        short: None,
        long: Some(long),
        value_name: None,
        default: None,
        help,
        required: false,
        last: false,
        hide_short_help,
    }
}

/// The error for a value that is missing.
fn missing(id: &str) -> (res: UsageError)
    ensures
        res.exit_code == 2,
        res.message@ == "the following required argument was not provided: "@ + id@,
{
    UsageError {
        exit_code: 2,
        message: join("the following required argument was not provided: ", id),
    }
}

proof fn lemma_default_numbers()
    ensures
        digits_value("30067"@) == 30067,
        digits_value("300"@) == 300,
{
    reveal_strlit("30067");
    reveal_strlit("300");
    assert("30067"@ =~= seq!['3', '0', '0', '6', '7']);
    assert("300"@ =~= seq!['3', '0', '0']);
    let e = Seq::<char>::empty();
    let a = seq!['3'];
    let b = seq!['3', '0'];
    let c = seq!['3', '0', '0'];
    let d = seq!['3', '0', '0', '6'];
    let f = seq!['3', '0', '0', '6', '7'];
    assert(a.drop_last() =~= e);
    assert(b.drop_last() =~= a);
    assert(c.drop_last() =~= b);
    assert(d.drop_last() =~= c);
    assert(f.drop_last() =~= d);
    assert(digits_value(e) == 0);
    assert(digits_value(a) == 3);
    assert(digits_value(b) == 30);
    assert(digits_value(c) == 300);
    assert(digits_value(d) == 3006);
    assert(digits_value(f) == 30067);
}

/// Digits denote no negative number.
proof fn lemma_digits_are_natural(word: Seq<char>)
    requires
        forall|i: int| 0 <= i < word.len() ==> '0' <= #[trigger] word[i] <= '9',
    ensures
        digits_value(word) >= 0,
    decreases word.len(),
{
    if word.len() > 0 {
        lemma_digits_are_natural(word.drop_last());
    }
}

/// The number that a word says is one of the kind.
proof fn lemma_number_fits(kind: ValueKind, word: Seq<char>)
    requires
        kind is Number16 || kind is Number64,
    ensures
        number_in(kind, word) matches Some(n) ==> 0 <= n <= (if kind is Number16 {
            u16::MAX as int
        } else {
            u64::MAX as int
        }),
{
    if number_in(kind, word) is Some && !is_minus_zero(word) {
        lemma_digits_are_natural(without_plus(word));
    }
}

/// What fits an option that takes a number below 2^16 is what the command line says of it.
proof fn lemma_number16_says(
    argv: Seq<Seq<char>>,
    k: int,
    spec: ArgSpecV,
    values: Map<Seq<char>, ArgValue>,
)
    requires
        value_fits(argv, k, ValueKind::Number16, spec, values),
        spec.default is Some,
        0 <= digits_value(spec.default->0) <= u16::MAX,
    ensures
        says_number(
            argv.subrange(1, k),
            ValueKind::Number16,
            spec,
            digits_value(spec.default->0),
            values[spec.id]->Number16_0->0 as int,
        ),
{
    assert forall|word: Seq<char>|
        (#[trigger] number_in(ValueKind::Number16, word)) is Some implies 0 <= number_in(
        ValueKind::Number16,
        word,
    )->0 <= u16::MAX by {
        lemma_number_fits(ValueKind::Number16, word);
    }
}

/// What fits an option that takes a number below 2^64 is what the command line says of it.
proof fn lemma_number64_says(
    argv: Seq<Seq<char>>,
    k: int,
    spec: ArgSpecV,
    values: Map<Seq<char>, ArgValue>,
)
    requires
        value_fits(argv, k, ValueKind::Number64, spec, values),
        spec.default is Some,
        0 <= digits_value(spec.default->0) <= u64::MAX,
    ensures
        says_number(
            argv.subrange(1, k),
            ValueKind::Number64,
            spec,
            digits_value(spec.default->0),
            values[spec.id]->Number64_0->0 as int,
        ),
{
    assert forall|word: Seq<char>|
        (#[trigger] number_in(ValueKind::Number64, word)) is Some implies 0 <= number_in(
        ValueKind::Number64,
        word,
    )->0 <= u64::MAX by {
        lemma_number_fits(ValueKind::Number64, word);
    }
}

/// What fits an option that takes a text is what the command line says of it.
proof fn lemma_text_says(
    argv: Seq<Seq<char>>,
    k: int,
    spec: ArgSpecV,
    values: Map<Seq<char>, ArgValue>,
)
    requires
        value_fits(argv, k, ValueKind::Text, spec, values),
    ensures
        says_text(argv.subrange(1, k), spec, values[spec.id]->Text_0),
{
}

/// What fits each argument of this program is what the command line says.
proof fn lemma_values_say(argv: Seq<Seq<char>>, k: int, values: Map<Seq<char>, ArgValue>)
    requires
        escape_at(argv, k),
        k + 1 < argv.len(),
        values_fit(full_items(), argv, k, values),
    ensures
        value_fits(argv, k, ValueKind::Number16, port_v(), values),
        value_fits(argv, k, ValueKind::Text, host_v(), values),
        value_fits(argv, k, ValueKind::Words, command_v(), values),
        value_fits(argv, k, ValueKind::Flag, markdown_help_v(), values),
        value_fits(argv, k, ValueKind::Text, restart_condition_v(), values),
        value_fits(argv, k, ValueKind::Flag, fail_atleast_once_v(), values),
        value_fits(argv, k, ValueKind::Number64, restart_condition_sleep_v(), values),
        value_fits(argv, k, ValueKind::Flag, quiet_v(), values),
        says(argv, k, args_of(values)),
{
    let items = full_items();
    assert(items[1] == CommandItem::Arg(ValueKind::Number16, port_v()));
    assert(items[2] == CommandItem::Arg(ValueKind::Text, host_v()));
    assert(items[3] == CommandItem::Arg(ValueKind::Words, command_v()));
    assert(items[4] == CommandItem::Arg(ValueKind::Text, restart_condition_v()));
    assert(items[5] == CommandItem::Arg(ValueKind::Flag, fail_atleast_once_v()));
    assert(items[6] == CommandItem::Arg(ValueKind::Number64, restart_condition_sleep_v()));
    assert(items[7] == CommandItem::Arg(ValueKind::Flag, quiet_v()));
    assert(items[8] == CommandItem::Arg(ValueKind::Flag, markdown_help_v()));
    lemma_default_numbers();
    lemma_number16_says(argv, k, port_v(), values);
    lemma_text_says(argv, k, host_v(), values);
    lemma_text_says(argv, k, restart_condition_v(), values);
    lemma_number64_says(argv, k, restart_condition_sleep_v(), values);
}

impl Args {
    /// The program and its arguments, as the documentation lists them.
    pub fn command() -> (res: clap::Command)
        ensures
            command_items(res) == documented_items(),
    {
        let command = new_command(
            &Header {
                name: "run-http",
                version: "0.1.0",
                author: "jld.adriano@gmail.com",
                about: "A CLI tool to run and control commands via http",
                disable_help_flag: true,
            },
        );
        let command = add_number16(
            command,
            &option_spec(
                "port",
                Some('p'),
                "port",
                "PORT",
                Some("30067"),
                "Port to run the web server on",
            ),
        );
        let command = add_text(
            command,
            &option_spec(
                "host",
                Some('h'),
                "host",
                "HOST",
                Some("127.0.0.1"),
                "Host address to bind the web server to",
            ),
        );
        let command = add_words(
            command,
            &ArgSpec {
                id: "command",
                short: None,
                long: None,
                value_name: Some("COMMAND"),
                default: None,
                help: "The command to run and monitor",
                required: true,
                last: true,
                hide_short_help: false,
            },
        );
        let command = add_text(
            command,
            &option_spec(
                "restart_condition",
                None,
                "restart-condition",
                "RESTART_CONDITION",
                None,
                "Condition command to run before restarting",
            ),
        );
        let command = add_flag(
            command,
            &flag_spec(
                "fail_atleast_once",
                "fail-atleast-once",
                "Ensure restart condition fails at least once before passing",
                false,
            ),
        );
        let command = add_number64(
            command,
            &option_spec(
                "restart_condition_sleep",
                None,
                "restart-condition-sleep",
                "RESTART_CONDITION_SLEEP",
                Some("300"),
                "Sleep duration in milliseconds between restart condition checks",
            ),
        );
        let command = add_flag(
            command,
            &flag_spec(
                "quiet",
                "quiet",
                "Suppress all logging output, only show command output",
                false,
            ),
        );
        assert(command_items(command) =~= documented_items());
        command
    }

    /// All that a command line can hold, with the arguments that the documentation leaves out.
    pub fn full_command() -> (res: clap::Command)
        ensures
            command_items(res) == full_items(),
    {
        let command = add_flag(
            Args::command(),
            &flag_spec("markdown_help", "markdown-help", "Generate markdown help", true),
        );
        let command = add_help(command, &flag_spec("help", "help", "Print help", false));
        assert(command_items(command) =~= full_items());
        command
    }

    /// Reads a command line, whose first word is the name of the program.
    pub fn parse_from(argv: &Vec<String>) -> (res: Result<Args, UsageError>)
        ensures
            match clap_outcome(full_items(), words(argv@)) {
                Ok(values) => res matches Ok(args) && args@ == args_of(values),
                Err((exit_code, message)) => res matches Err(e) && e.exit_code == exit_code && (
                program_name_is_plain(words(argv@)) ==> e.message@ == message),
            },
            res is Ok <==> accepted(full_items(), words(argv@)),
            res matches Ok(args) ==> forall|k: int| #[trigger]
                escape_at(words(argv@), k) ==> says(words(argv@), k, args@),
            res matches Err(e) ==> e.exit_code == (if asks_for_help(full_items(), words(argv@)) {
                0i32
            } else {
                2i32
            }),
    {
        let matches = match try_get_matches_from(Args::full_command(), argv) {
            Ok(matches) => matches,
            Err(e) => {
                return Err(e);
            },
        };
        let ghost line = words(argv@);
        let ghost values = match_values(matches);
        let ghost k = choose|k: int| #[trigger]
            escape_at(line, k) && k + 1 < line.len() && plain_options(
                full_items(),
                line.subrange(1, k),
            );
        proof {
            lemma_values_say(line, k, values);
        }
        let parsed = ParsedArgs {
            port: get_number16(&matches, "port"),
            host: get_text(&matches, "host"),
            command: get_words(&matches, "command"),
            markdown_help: get_flag(&matches, "markdown_help"),
            restart_condition: get_text(&matches, "restart_condition"),
            fail_atleast_once: get_flag(&matches, "fail_atleast_once"),
            restart_condition_sleep: get_number64(&matches, "restart_condition_sleep"),
            quiet: get_flag(&matches, "quiet"),
        };
        let res = Args::from_parsed(parsed);
        assert(res is Ok);
        assert(res->Ok_0@ == args_of(values));
        assert forall|i: int| #[trigger] escape_at(line, i) implies says(line, i, res->Ok_0@) by {
            assert(i == k);
        }
        res
    }

    /// Puts the values together; a value that has to be there and is not is an error.
    pub fn from_parsed(p: ParsedArgs) -> (res: Result<Args, UsageError>)
        ensures
            match missing_value(p) {
                None => res matches Ok(args) && args@ == (ArgsV {
                    port: p.port->0,
                    host: p.host->0@,
                    command: words(p.command->0@),
                    markdown_help: p.markdown_help,
                    restart_condition: opt_text(p.restart_condition),
                    fail_atleast_once: p.fail_atleast_once,
                    restart_condition_sleep: p.restart_condition_sleep->0,
                    quiet: p.quiet,
                }),
                Some(id) => res matches Err(e) && e.exit_code == 2 && e.message@
                    == "the following required argument was not provided: "@ + id,
            },
    {
        let port: u16 = match p.port {
            Some(port) => port,
            None => {
                return Err(missing("port"));
            },
        };
        let host = match p.host {
            Some(host) => host,
            None => {
                return Err(missing("host"));
            },
        };
        let command = match p.command {
            Some(command) => command,
            None => {
                return Err(missing("command"));
            },
        };
        let restart_condition_sleep: u64 = match p.restart_condition_sleep {
            Some(sleep) => sleep,
            None => {
                return Err(missing("restart_condition_sleep"));
            },
        };
        Ok(
            Args {
                port,
                host,
                command,
                markdown_help: p.markdown_help,
                restart_condition: p.restart_condition,
                fail_atleast_once: p.fail_atleast_once,
                restart_condition_sleep,
                quiet: p.quiet,
            },
        )
    }
}

/// The examples at the end of the help in Markdown.
pub open spec fn examples_text() -> Seq<char> {
    "# Examples\n\n```\nrun-http -- python -c 'import time; i=0; while True: print(f\"Count: {i}\"); i+=1; time.sleep(1)'\ncurl http://localhost:30067/start\ncurl http://localhost:30067/status\ncurl http://localhost:30067/stop\ncurl http://localhost:30067/restart\n```\n"@
}

/// The help in Markdown: the part on the arguments, an end of line, and the examples.
pub fn markdown_document(arguments: &str) -> (res: String)
    ensures
        res@ == arguments@ + "\n"@ + examples_text(),
{
    let mut res = join(arguments, "\n");
    res.append(
        "# Examples\n\n```\nrun-http -- python -c 'import time; i=0; while True: print(f\"Count: {i}\"); i+=1; time.sleep(1)'\ncurl http://localhost:30067/start\ncurl http://localhost:30067/status\ncurl http://localhost:30067/stop\ncurl http://localhost:30067/restart\n```\n",
    );
    res
}

/// The help in Markdown.
pub fn help_markdown() -> (res: String)
    ensures
        res@ == markdown_text(documented_items()) + "\n"@ + examples_text(),
{
    markdown_document(help_markdown_command(&Args::command()).as_str())
}

} // verus!
