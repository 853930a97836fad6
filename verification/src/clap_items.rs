//! The command-line parser `clap` and the help writer `clap_markdown`, as far as they are used.
//!
//! A `clap::Command` is a list of items: a header, and then the arguments in the order in which
//! they were added. What was read off a command line is a map from argument ids to values.
//! Nothing in this file is proved; every contract says what the outside code does.

use crate::cli::{full_items, documented_items, UsageError};
use crate::text::{digits_value, opt_text, words};
use vstd::prelude::*;

verus! {

/// `clap::Command`, opaque.
#[verifier::external_type_specification]
#[verifier::external_body]
pub struct ExCommand(clap::Command);

/// `clap::ArgMatches`, opaque.
#[verifier::external_type_specification]
#[verifier::external_body]
pub struct ExArgMatches(clap::ArgMatches);

/// What a command is called and says of itself.
#[derive(Debug)]
pub struct Header {
    pub name: &'static str,
    pub version: &'static str,
    pub author: &'static str,
    pub about: &'static str,
    /// Whether the flag for help that every command has is left out.
    pub disable_help_flag: bool,
}

/// What a [`Header`] says.
pub struct HeaderV {
    pub name: Seq<char>,
    pub version: Seq<char>,
    pub author: Seq<char>,
    pub about: Seq<char>,
    pub disable_help_flag: bool,
}

impl View for Header {
    type V = HeaderV;

    open spec fn view(&self) -> HeaderV {
        HeaderV {
            name: self.name@,
            version: self.version@,
            author: self.author@,
            about: self.about@,
            disable_help_flag: self.disable_help_flag,
        }
    }
}

/// One argument of a command.
#[derive(Debug)]
pub struct ArgSpec {
    pub id: &'static str,
    pub short: Option<char>,
    pub long: Option<&'static str>,
    pub value_name: Option<&'static str>,
    pub default: Option<&'static str>,
    pub help: &'static str,
    pub required: bool,
    /// Whether it takes what follows a lone `--`.
    pub last: bool,
    /// Whether the short form of the help leaves it out.
    pub hide_short_help: bool,
}

/// What an [`ArgSpec`] says.
pub struct ArgSpecV {
    pub id: Seq<char>,
    pub short: Option<char>,
    pub long: Option<Seq<char>>,
    pub value_name: Option<Seq<char>>,
    pub default: Option<Seq<char>>,
    pub help: Seq<char>,
    pub required: bool,
    pub last: bool,
    pub hide_short_help: bool,
}

/// The text of an optional literal.
pub open spec fn opt_literal(text: Option<&'static str>) -> Option<Seq<char>> {
    match text {
        Some(s) => Some(s@),
        None => None,
    }
}

impl View for ArgSpec {
    type V = ArgSpecV;

    open spec fn view(&self) -> ArgSpecV {
        ArgSpecV {
            id: self.id@,
            short: self.short,
            long: opt_literal(self.long),
            value_name: opt_literal(self.value_name),
            default: opt_literal(self.default),
            help: self.help@,
            required: self.required,
            last: self.last,
            hide_short_help: self.hide_short_help,
        }
    }
}

/// What an argument takes.
pub enum ValueKind {
    /// Nothing: it is given or not.
    Flag,
    /// One number below 2^16.
    Number16,
    /// One number below 2^64.
    Number64,
    /// One text.
    Text,
    /// One text or more.
    Words,
    /// Nothing: it asks for help.
    Help,
}

/// An item of a command.
pub enum CommandItem {
    Header(HeaderV),
    Arg(ValueKind, ArgSpecV),
}

/// The value that was read for an argument, where one was.
pub enum ArgValue {
    Flag(bool),
    Number16(Option<u16>),
    Number64(Option<u64>),
    Text(Option<Seq<char>>),
    Words(Option<Seq<Seq<char>>>),
}

/// The items of a `clap::Command`.
pub uninterp spec fn command_items(command: clap::Command) -> Seq<CommandItem>;

/// The values in a `clap::ArgMatches`, by argument id.
pub uninterp spec fn match_values(matches: clap::ArgMatches) -> Map<Seq<char>, ArgValue>;

/// What `clap` makes of a command line, whose first word is the name of the program: the
/// values, or an exit code and a message.
pub uninterp spec fn clap_outcome(items: Seq<CommandItem>, argv: Seq<Seq<char>>) -> Result<
    Map<Seq<char>, ArgValue>,
    (i32, Seq<char>),
>;

/// The help that `clap_markdown` writes for a command.
pub uninterp spec fn markdown_text(items: Seq<CommandItem>) -> Seq<char>;

/// The first word of a command line, if there is one, is taken apart as a path in the same way on
/// all platforms: messages show its last part. The `/` separates parts everywhere; a backslash, a
/// colon, and two `/` at the beginning mean something on some platforms only.
pub open spec fn program_name_is_plain(argv: Seq<Seq<char>>) -> bool {
    argv.len() > 0 ==> !argv[0].contains('\\') && !argv[0].contains(':') && !(argv[0].len() >= 2
        && argv[0][0] == '/' && argv[0][1] == '/')
}

/// The first lone `--` of a command line, after the name of the program.
pub open spec fn escape_at(argv: Seq<Seq<char>>, k: int) -> bool {
    &&& 1 <= k < argv.len()
    &&& argv[k] == "--"@
    &&& forall|j: int| 1 <= j < k ==> #[trigger] argv[j] != "--"@
}

/// The word is the long or the short name of the argument.
pub open spec fn names(word: Seq<char>, spec: ArgSpecV) -> bool {
    ||| spec.long matches Some(long) && word == "--"@ + long
    ||| spec.short matches Some(short) && word == "-"@.push(short)
}

/// The long name of the argument, with the `=` that attaches a value to it.
pub open spec fn attaching(spec: ArgSpecV) -> Seq<char> {
    "--"@ + spec.long->0 + "="@
}

/// The value attached to a name of the argument, where the word is such a name with a value
/// attached: by `=` to the long name, or to the short one with or without `=`.
pub open spec fn attached(word: Seq<char>, spec: ArgSpecV) -> Option<Seq<char>> {
    if spec.long is Some && attaching(spec).is_prefix_of(word) {
        Some(word.skip(attaching(spec).len() as int))
    } else if spec.short is Some && "-"@.push(spec.short->0).is_prefix_of(word) && word.len() > 2 {
        if word[2] == '=' {
            Some(word.skip(3))
        } else {
            Some(word.skip(2))
        }
    } else {
        None
    }
}

/// The word is the name of the argument, or the name with a value attached.
pub open spec fn mentions_in(word: Seq<char>, spec: ArgSpecV) -> bool {
    names(word, spec) || attached(word, spec) is Some
}

/// Some word is the name of the argument, or the name with a value attached.
pub open spec fn mentions(options: Seq<Seq<char>>, spec: ArgSpecV) -> bool {
    exists|i: int| 0 <= i < options.len() && mentions_in(#[trigger] options[i], spec)
}

/// One decimal digit or more, and nothing else.
pub open spec fn is_number(word: Seq<char>) -> bool {
    word.len() > 0 && forall|i: int| 0 <= i < word.len() ==> '0' <= #[trigger] word[i] <= '9'
}

/// The word without the `+` that it may begin with.
pub open spec fn without_plus(word: Seq<char>) -> Seq<char> {
    if word.len() > 0 && word[0] == '+' {
        word.skip(1)
    } else {
        word
    }
}

/// The word is zero with a `-` before it.
pub open spec fn is_minus_zero(word: Seq<char>) -> bool {
    word.len() > 0 && word[0] == '-' && is_number(word.skip(1)) && digits_value(word.skip(1)) == 0
}

/// The number that the word says, where it says one of the kind: digits, which a `+` may stand
/// before, up to the greatest number of the kind. Numbers below 2^16 are read as signed ones, so
/// that zero may have a `-` before it.
pub open spec fn number_in(kind: ValueKind, word: Seq<char>) -> Option<int> {
    let number = without_plus(word);
    let greatest = if kind is Number16 {
        u16::MAX as int
    } else {
        u64::MAX as int
    };
    if is_number(number) && digits_value(number) <= greatest {
        Some(digits_value(number))
    } else if kind is Number16 && is_minus_zero(word) {
        Some(0)
    } else {
        None
    }
}

/// The value that the word says, where it says one of the kind.
pub open spec fn value_in(kind: ValueKind, word: Seq<char>) -> Option<ArgValue> {
    match kind {
        ValueKind::Text => Some(ArgValue::Text(Some(word))),
        ValueKind::Number16 => match number_in(kind, word) {
            Some(n) => Some(ArgValue::Number16(Some(n as u16))),
            None => None,
        },
        ValueKind::Number64 => match number_in(kind, word) {
            Some(n) => Some(ArgValue::Number64(Some(n as u64))),
            None => None,
        },
        _ => None,
    }
}

/// The word can stand apart from the name whose value it is: it is `-`, or does not begin with
/// it.
pub open spec fn stands_apart(word: Seq<char>) -> bool {
    word == "-"@ || !"-"@.is_prefix_of(word)
}

/// The item is a flag, and the word is its name.
pub open spec fn is_flag_word(item: CommandItem, word: Seq<char>) -> bool {
    match item {
        CommandItem::Arg(kind, spec) => kind is Flag && names(word, spec),
        CommandItem::Header(_) => false,
    }
}

/// The item is an option, the first word is its name, and the second is a value for it.
pub open spec fn is_option_pair(item: CommandItem, word: Seq<char>, value: Seq<char>) -> bool {
    match item {
        CommandItem::Arg(kind, spec) => names(word, spec) && stands_apart(value) && value_in(
            kind,
            value,
        ) is Some,
        CommandItem::Header(_) => false,
    }
}

/// The item is an option, and the word is its name with a value for it attached.
pub open spec fn is_attached_option(item: CommandItem, word: Seq<char>) -> bool {
    match item {
        CommandItem::Arg(kind, spec) => match attached(word, spec) {
            Some(value) => value_in(kind, value) is Some,
            None => false,
        },
        CommandItem::Header(_) => false,
    }
}

/// The words are flags, and options each with a value, attached or in a word of its own.
pub open spec fn spelled_out(items: Seq<CommandItem>, options: Seq<Seq<char>>) -> bool
    decreases options.len(),
{
    ||| options.len() == 0
    ||| {
        &&& options.len() >= 1
        &&& exists|n: int| 0 <= n < items.len() && is_flag_word(#[trigger] items[n], options[0])
        &&& spelled_out(items, options.skip(1))
    }
    ||| {
        &&& options.len() >= 1
        &&& exists|n: int|
            0 <= n < items.len() && is_attached_option(#[trigger] items[n], options[0])
        &&& spelled_out(items, options.skip(1))
    }
    ||| {
        &&& options.len() >= 2
        &&& exists|n: int|
            0 <= n < items.len() && is_option_pair(#[trigger] items[n], options[0], options[1])
        &&& spelled_out(items, options.skip(2))
    }
}

/// Two words mention the same argument.
pub open spec fn same_argument(items: Seq<CommandItem>, word: Seq<char>, other: Seq<char>) -> bool {
    exists|n: int|
        0 <= n < items.len() && match #[trigger] items[n] {
            CommandItem::Arg(_, spec) => mentions_in(word, spec) && mentions_in(other, spec),
            CommandItem::Header(_) => false,
        }
}

/// The words are flags, and options each with a value, none of them given twice.
pub open spec fn plain_options(items: Seq<CommandItem>, options: Seq<Seq<char>>) -> bool {
    &&& spelled_out(items, options)
    &&& forall|i: int, j: int|
        0 <= i < j < options.len() ==> !same_argument(
            items,
            #[trigger] options[i],
            #[trigger] options[j],
        )
}

/// A command line that is accepted: flags and options, then a lone `--`, then one word or more.
pub open spec fn accepted(items: Seq<CommandItem>, argv: Seq<Seq<char>>) -> bool {
    exists|k: int| #[trigger]
        escape_at(argv, k) && k + 1 < argv.len() && plain_options(items, argv.subrange(1, k))
}

/// The item is the flag for help, and the word is its name.
pub open spec fn is_help_word(item: CommandItem, word: Seq<char>) -> bool {
    match item {
        CommandItem::Arg(kind, spec) => kind is Help && names(word, spec),
        CommandItem::Header(_) => false,
    }
}

/// The word asks for help or for the version.
pub open spec fn is_request(items: Seq<CommandItem>, word: Seq<char>) -> bool {
    ||| exists|n: int| 0 <= n < items.len() && is_help_word(#[trigger] items[n], word)
    ||| word == "--version"@
    ||| "-V"@.is_prefix_of(word)
}

/// A command line that asks for help or for the version, with nothing wrong before that.
pub open spec fn asks_for_help(items: Seq<CommandItem>, argv: Seq<Seq<char>>) -> bool {
    exists|i: int|
        1 <= i < argv.len() && is_request(items, #[trigger] argv[i]) && plain_options(
            items,
            argv.subrange(1, i),
        )
}

/// The value of an argument that a command line does not mention.
pub open spec fn absent_value(kind: ValueKind, spec: ArgSpecV) -> ArgValue {
    match kind {
        ValueKind::Number16 => ArgValue::Number16(
            match spec.default {
                Some(d) => Some(digits_value(d) as u16),
                None => None,
            },
        ),
        ValueKind::Number64 => ArgValue::Number64(
            match spec.default {
                Some(d) => Some(digits_value(d) as u64),
                None => None,
            },
        ),
        ValueKind::Text => ArgValue::Text(spec.default),
        ValueKind::Words => ArgValue::Words(None),
        ValueKind::Flag | ValueKind::Help => ArgValue::Flag(false),
    }
}

/// A value of the kind that the argument takes; an argument with a default has one.
pub open spec fn suits(value: ArgValue, kind: ValueKind, spec: ArgSpecV) -> bool {
    match kind {
        ValueKind::Flag => value is Flag,
        ValueKind::Number16 => value matches ArgValue::Number16(n) && (spec.default is Some
            ==> n is Some),
        ValueKind::Number64 => value matches ArgValue::Number64(n) && (spec.default is Some
            ==> n is Some),
        ValueKind::Text => value matches ArgValue::Text(t) && (spec.default is Some ==> t is Some),
        ValueKind::Words => value is Words,
        ValueKind::Help => true,
    }
}

/// What holds of the value that an accepted command line gives to an argument; `k` is the place
/// of its first lone `--`.
pub open spec fn value_fits(
    argv: Seq<Seq<char>>,
    k: int,
    kind: ValueKind,
    spec: ArgSpecV,
    values: Map<Seq<char>, ArgValue>,
) -> bool {
    let options = argv.subrange(1, k);
    let value = values[spec.id];
    &&& values.contains_key(spec.id)
    &&& suits(value, kind, spec)
    &&& match kind {
        ValueKind::Words => value == ArgValue::Words(Some(argv.skip(k + 1))),
        ValueKind::Flag => value == ArgValue::Flag(options.contains("--"@ + spec.long->0)),
        _ => {
            &&& !mentions(options, spec) ==> value == absent_value(kind, spec)
            &&& forall|i: int|
                0 <= i < options.len() && (#[trigger] names(options[i], spec)) ==> i + 1
                    < options.len() && value_in(kind, options[i + 1]) == Some(value)
            &&& forall|i: int|
                0 <= i < options.len() && (#[trigger] attached(options[i], spec)) is Some
                    ==> value_in(kind, attached(options[i], spec)->0) == Some(value)
        },
    }
}

/// What holds of the values of an accepted command line, for each argument but the flag for
/// help.
pub open spec fn values_fit(
    items: Seq<CommandItem>,
    argv: Seq<Seq<char>>,
    k: int,
    values: Map<Seq<char>, ArgValue>,
) -> bool {
    forall|i: int|
        0 <= i < items.len() ==> match #[trigger] items[i] {
            CommandItem::Arg(kind, spec) => kind is Help || value_fits(
                argv,
                k,
                kind,
                spec,
                values,
            ),
            CommandItem::Header(_) => true,
        }
}

/// `clap::Command::new`, with the version, author and description that the header gives: a
/// command without arguments.
#[verifier::external_body]
pub(crate) fn new_command(header: &Header) -> (res: clap::Command)
    ensures
        command_items(res) == seq![CommandItem::Header(header@)],
{
    clap::Command::new(header.name)
        .version(header.version)
        .author(header.author)
        .about(header.about)
        .disable_help_flag(header.disable_help_flag)
}

/// `clap::Command::arg` with a flag (`ArgAction::SetTrue`): the argument is added at the end.
#[verifier::external_body]
pub(crate) fn add_flag(command: clap::Command, spec: &ArgSpec) -> (res: clap::Command)
    requires
        spec.short != Some('-'),
    ensures
        command_items(res) == command_items(command).push(
            CommandItem::Arg(ValueKind::Flag, spec@),
        ),
{
    let arg = clap::Arg::new(spec.id)
        .short(spec.short)
        .long(spec.long)
        .value_name(spec.value_name)
        .default_value(spec.default)
        .help(spec.help)
        .required(spec.required)
        .last(spec.last)
        .hide_short_help(spec.hide_short_help)
        .action(clap::ArgAction::SetTrue);
    command.arg(arg)
}

/// `clap::Command::arg` with an option that takes a `u16`: the argument is added at the end.
#[verifier::external_body]
pub(crate) fn add_number16(command: clap::Command, spec: &ArgSpec) -> (res: clap::Command)
    requires
        spec.short != Some('-'),
    ensures
        command_items(res) == command_items(command).push(
            CommandItem::Arg(ValueKind::Number16, spec@),
        ),
{
    let arg = clap::Arg::new(spec.id)
        .short(spec.short)
        .long(spec.long)
        .value_name(spec.value_name)
        .default_value(spec.default)
        .help(spec.help)
        .required(spec.required)
        .last(spec.last)
        .hide_short_help(spec.hide_short_help)
        .action(clap::ArgAction::Set)
        .value_parser(<u16 as clap::builder::ValueParserFactory>::value_parser());
    command.arg(arg)
}

/// `clap::Command::arg` with an option that takes a `u64`: the argument is added at the end.
#[verifier::external_body]
pub(crate) fn add_number64(command: clap::Command, spec: &ArgSpec) -> (res: clap::Command)
    requires
        spec.short != Some('-'),
    ensures
        command_items(res) == command_items(command).push(
            CommandItem::Arg(ValueKind::Number64, spec@),
        ),
{
    let arg = clap::Arg::new(spec.id)
        .short(spec.short)
        .long(spec.long)
        .value_name(spec.value_name)
        .default_value(spec.default)
        .help(spec.help)
        .required(spec.required)
        .last(spec.last)
        .hide_short_help(spec.hide_short_help)
        .action(clap::ArgAction::Set)
        .value_parser(<u64 as clap::builder::ValueParserFactory>::value_parser());
    command.arg(arg)
}

/// `clap::Command::arg` with an option that takes a text: the argument is added at the end.
#[verifier::external_body]
pub(crate) fn add_text(command: clap::Command, spec: &ArgSpec) -> (res: clap::Command)
    requires
        spec.short != Some('-'),
    ensures
        command_items(res) == command_items(command).push(
            CommandItem::Arg(ValueKind::Text, spec@),
        ),
{
    let arg = clap::Arg::new(spec.id)
        .short(spec.short)
        .long(spec.long)
        .value_name(spec.value_name)
        .default_value(spec.default)
        .help(spec.help)
        .required(spec.required)
        .last(spec.last)
        .hide_short_help(spec.hide_short_help)
        .action(clap::ArgAction::Set)
        .value_parser(clap::builder::ValueParser::string());
    command.arg(arg)
}

/// `clap::Command::arg` with an argument that takes one text or more (`ArgAction::Append`,
/// `num_args(1..)`): the argument is added at the end.
#[verifier::external_body]
pub(crate) fn add_words(command: clap::Command, spec: &ArgSpec) -> (res: clap::Command)
    requires
        spec.short != Some('-'),
    ensures
        command_items(res) == command_items(command).push(
            CommandItem::Arg(ValueKind::Words, spec@),
        ),
{
    let arg = clap::Arg::new(spec.id)
        .short(spec.short)
        .long(spec.long)
        .value_name(spec.value_name)
        .default_value(spec.default)
        .help(spec.help)
        .required(spec.required)
        .last(spec.last)
        .hide_short_help(spec.hide_short_help)
        .action(clap::ArgAction::Append)
        .num_args(1..)
        .value_parser(clap::builder::ValueParser::string());
    command.arg(arg)
}

/// `clap::Command::arg` with a flag that asks for help in its short form
/// (`ArgAction::HelpShort`): the argument is added at the end.
#[verifier::external_body]
pub(crate) fn add_help(command: clap::Command, spec: &ArgSpec) -> (res: clap::Command)
    requires
        spec.short != Some('-'),
    ensures
        command_items(res) == command_items(command).push(
            CommandItem::Arg(ValueKind::Help, spec@),
        ),
{
    let arg = clap::Arg::new(spec.id)
        .short(spec.short)
        .long(spec.long)
        .value_name(spec.value_name)
        .default_value(spec.default)
        .help(spec.help)
        .required(spec.required)
        .last(spec.last)
        .hide_short_help(spec.hide_short_help)
        .action(clap::ArgAction::HelpShort);
    command.arg(arg)
}

/// `clap::Command::try_get_matches_from`, on the command of this program: `clap` panics on a
/// command that contradicts itself, and this one does not.
///
/// A command line is accepted exactly where its words before the first lone `--` are flags, and
/// options each with a value, none given twice, and where a word follows the `--`.
///
/// The argument that is last takes all words after the first `--`. A flag is set where its name
/// is one of the words before it. An option has the value of the word after its name, or the one
/// attached to its name, and its default where it is not mentioned. Numbers are read by the
/// `from_str` of `i64`, for those below 2^16, and of `u64`.
///
/// A request for help or for the version counts as a rejection; `clap::Error::exit_code` is 0
/// where one is reached before anything that is wrong, and else 2. The message
/// (`clap::Error::to_string`) is left to the name [`clap_outcome`], where the name of the program
/// is plain.
#[verifier::external_body]
pub(crate) fn try_get_matches_from(command: clap::Command, argv: &Vec<String>) -> (res: Result<
    clap::ArgMatches,
    UsageError,
>)
    requires
        command_items(command) == full_items(),
    ensures
        match res {
            Ok(matches) => clap_outcome(command_items(command), words(argv@)) == Ok::<
                Map<Seq<char>, ArgValue>,
                (i32, Seq<char>),
            >(match_values(matches)),
            Err(e) => clap_outcome(command_items(command), words(argv@)) matches Err(
                (exit_code, message),
            ) && e.exit_code == exit_code && (program_name_is_plain(words(argv@)) ==> e.message@
                == message),
        },
        res is Ok <==> accepted(command_items(command), words(argv@)),
        res matches Ok(matches) ==> forall|k: int| #[trigger]
            escape_at(words(argv@), k) ==> values_fit(
                command_items(command),
                words(argv@),
                k,
                match_values(matches),
            ),
        res matches Err(e) ==> e.exit_code == (if asks_for_help(
            command_items(command),
            words(argv@),
        ) {
            0i32
        } else {
            2i32
        }),
{
    match command.try_get_matches_from(argv) {
        Ok(matches) => Ok(matches),
        Err(e) => Err(UsageError { exit_code: e.exit_code(), message: e.to_string() }),
    }
}

/// `clap::ArgMatches::get_flag`: whether a flag was given.
#[verifier::external_body]
pub(crate) fn get_flag(matches: &clap::ArgMatches, id: &str) -> (res: bool)
    requires
        match_values(*matches).contains_key(id@),
        match_values(*matches)[id@] is Flag,
    ensures
        match_values(*matches)[id@] == ArgValue::Flag(res),
{
    matches.get_flag(id)
}

/// `clap::ArgMatches::get_one` at `u16`: the number that was read.
#[verifier::external_body]
pub(crate) fn get_number16(matches: &clap::ArgMatches, id: &str) -> (res: Option<u16>)
    requires
        match_values(*matches).contains_key(id@),
        match_values(*matches)[id@] is Number16,
    ensures
        match_values(*matches)[id@] == ArgValue::Number16(res),
{
    matches.get_one::<u16>(id).copied()
}

/// `clap::ArgMatches::get_one` at `u64`: the number that was read.
#[verifier::external_body]
pub(crate) fn get_number64(matches: &clap::ArgMatches, id: &str) -> (res: Option<u64>)
    requires
        match_values(*matches).contains_key(id@),
        match_values(*matches)[id@] is Number64,
    ensures
        match_values(*matches)[id@] == ArgValue::Number64(res),
{
    matches.get_one::<u64>(id).copied()
}

/// `clap::ArgMatches::get_one` at `String`: the text that was read.
#[verifier::external_body]
pub(crate) fn get_text(matches: &clap::ArgMatches, id: &str) -> (res: Option<String>)
    requires
        match_values(*matches).contains_key(id@),
        match_values(*matches)[id@] is Text,
    ensures
        match_values(*matches)[id@] == ArgValue::Text(opt_text(res)),
{
    matches.get_one::<String>(id).cloned()
}

/// The texts of an optional list of strings.
pub open spec fn opt_words(list: Option<Vec<String>>) -> Option<Seq<Seq<char>>> {
    match list {
        Some(v) => Some(words(v@)),
        None => None,
    }
}

/// `clap::ArgMatches::get_many` at `String`: the texts that were read, in order.
#[verifier::external_body]
pub(crate) fn get_words(matches: &clap::ArgMatches, id: &str) -> (res: Option<Vec<String>>)
    requires
        match_values(*matches).contains_key(id@),
        match_values(*matches)[id@] is Words,
    ensures
        match_values(*matches)[id@] == ArgValue::Words(opt_words(res)),
{
    match matches.get_many::<String>(id) {
        Some(values) => Some(values.cloned().collect()),
        None => None,
    }
}

/// `clap_markdown::help_markdown_command`, on the command of this program: the help in
/// Markdown. The text is left to the name [`markdown_text`].
#[verifier::external_body]
pub(crate) fn help_markdown_command(command: &clap::Command) -> (res: String)
    requires
        command_items(*command) == documented_items(),
    ensures
        res@ == markdown_text(command_items(*command)),
{
    clap_markdown::help_markdown_command(command)
}

} // verus!
