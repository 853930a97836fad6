//! What holds of the command line as a whole.

use crate::clap_items::{
    attached, attaching, mentions, mentions_in, names, number_in, ArgSpecV, CommandItem, ValueKind,
};
use crate::cli::{
    documented_items, examples_text, full_items, host_v, missing_value, port_v,
    restart_condition_sleep_v, restart_condition_v, says, says_number, says_text, ArgsV,
    ParsedArgs,
};
use crate::state::{initial_state, invocation_of};
use crate::text::digits_value;
use vstd::prelude::*;

verus! {

/// The marks that names of options begin with, and the one that attaches a value.
proof fn lemma_marks()
    ensures
        "-"@ == seq!['-'],
        "--"@ == seq!['-', '-'],
        "="@ == seq!['='],
{
    reveal_strlit("-");
    reveal_strlit("--");
    reveal_strlit("=");
    assert("-"@ =~= seq!['-']);
    assert("--"@ =~= seq!['-', '-']);
    assert("="@ =~= seq!['=']);
}

/// What the attached value of an option is, by how the word is put together.
proof fn lemma_attached(word: Seq<char>, spec: ArgSpecV, value: Seq<char>)
    requires
        spec.long is Some,
        spec.short != Some('-'),
    ensures
        word == "--"@ + spec.long->0 + "="@ + value ==> attached(word, spec) == Some(value),
        spec.short matches Some(c) ==> word == seq!['-', c, '='] + value ==> attached(word, spec)
            == Some(value),
        spec.short matches Some(c) ==> value.len() > 0 && value[0] != '=' && word == seq!['-', c]
            + value ==> attached(word, spec) == Some(value),
{
    lemma_marks();
    let long = attaching(spec);
    if word == "--"@ + spec.long->0 + "="@ + value {
        assert(word =~= long + value);
        assert(long.is_prefix_of(word));
        assert(word.skip(long.len() as int) =~= value);
    }
    if spec.short is Some {
        let c = spec.short->0;
        let short = "-"@.push(c);
        assert(short =~= seq!['-', c]);
        if word == seq!['-', c, '='] + value {
            assert(word[1] == c && long[1] == '-');
            assert(!long.is_prefix_of(word));
            assert(short.is_prefix_of(word));
            assert(word.skip(3) =~= value);
        }
        if value.len() > 0 && value[0] != '=' && word == seq!['-', c] + value {
            assert(word[1] == c && long[1] == '-');
            assert(!long.is_prefix_of(word));
            assert(short.is_prefix_of(word));
            assert(word[2] == value[0]);
            assert(word.skip(2) =~= value);
        }
    }
}

/// A word that is no name of an option and begins with none does not mention it.
proof fn lemma_not_mentioned(options: Seq<Seq<char>>, spec: ArgSpecV)
    requires
        spec.long is Some,
        forall|i: int| #![trigger options[i]]
            0 <= i < options.len() ==> options[i] != "--"@ + spec.long->0 && !("--"@
                + spec.long->0 + "="@).is_prefix_of(options[i]) && (spec.short matches Some(c)
                ==> !seq!['-', c].is_prefix_of(options[i])),
    ensures
        !mentions(options, spec),
{
    lemma_marks();
    assert forall|i: int| 0 <= i < options.len() implies !mentions_in(#[trigger] options[i], spec) by {
        if spec.short is Some {
            assert("-"@.push(spec.short->0) =~= seq!['-', spec.short->0]);
        }
    }
}

/// What a number is, by how it is written.
proof fn lemma_number(kind: ValueKind, word: Seq<char>, number: int, ds: Seq<char>)
    requires
        number_in(kind, word) == Some(number),
        ds.len() > 0,
        forall|j: int| 0 <= j < ds.len() ==> '0' <= #[trigger] ds[j] <= '9',
    ensures
        word == ds ==> number == digits_value(ds),
        word == seq!['+'] + ds ==> number == digits_value(ds),
        word == seq!['-'] + ds ==> number == 0,
{
    if word == ds {
        assert(word[0] == ds[0]);
    }
    if word == seq!['+'] + ds {
        assert(word.skip(1) =~= ds);
        assert(word[0] == '+');
    }
    if word == seq!['-'] + ds {
        assert(word[0] == '-');
    }
}

/// The word at `i` gives `value` to the option: it is a name of the option and `value` is the
/// next word, or `value` is attached to it.
spec fn gives(
    argv: Seq<Seq<char>>,
    i: int,
    long: Seq<char>,
    short: Option<char>,
    value: Seq<char>,
) -> bool {
    ||| argv[i] == "--"@ + long && argv[i + 1] == value
    ||| argv[i] == "--"@ + long + "="@ + value
    ||| short matches Some(c) && argv[i] == seq!['-', c] && argv[i + 1] == value
    ||| short matches Some(c) && argv[i] == seq!['-', c, '='] + value
    ||| short matches Some(c) && value.len() > 0 && value[0] != '=' && argv[i] == seq!['-', c]
        + value
}

proof fn lemma_text_given(
    argv: Seq<Seq<char>>,
    k: int,
    spec: ArgSpecV,
    text: Option<Seq<char>>,
    i: int,
    value: Seq<char>,
)
    requires
        1 <= i < k < argv.len(),
        says_text(argv.subrange(1, k), spec, text),
        spec.long is Some,
        spec.short != Some('-'),
        gives(argv, i, spec.long->0, spec.short, value),
    ensures
        text == Some(value),
{
    let options = argv.subrange(1, k);
    let word = options[i - 1];
    assert(word == argv[i]);
    lemma_marks();
    lemma_attached(word, spec, value);
    if spec.short is Some {
        assert("-"@.push(spec.short->0) =~= seq!['-', spec.short->0]);
    }
    if names(word, spec) {
        assert(options[i] == argv[i + 1]);
    }
    assert(names(word, spec) || attached(word, spec) is Some);
}

proof fn lemma_number_given(
    argv: Seq<Seq<char>>,
    k: int,
    kind: ValueKind,
    spec: ArgSpecV,
    default: int,
    number: int,
    i: int,
    value: Seq<char>,
    ds: Seq<char>,
)
    requires
        1 <= i < k < argv.len(),
        says_number(argv.subrange(1, k), kind, spec, default, number),
        spec.long is Some,
        spec.short != Some('-'),
        gives(argv, i, spec.long->0, spec.short, value),
        ds.len() > 0,
        forall|j: int| 0 <= j < ds.len() ==> '0' <= #[trigger] ds[j] <= '9',
    ensures
        value == ds ==> number == digits_value(ds),
        value == seq!['+'] + ds ==> number == digits_value(ds),
        value == seq!['-'] + ds ==> number == 0,
{
    let options = argv.subrange(1, k);
    let word = options[i - 1];
    assert(word == argv[i]);
    lemma_marks();
    lemma_attached(word, spec, value);
    if spec.short is Some {
        assert("-"@.push(spec.short->0) =~= seq!['-', spec.short->0]);
    }
    if names(word, spec) {
        assert(options[i] == argv[i + 1]);
    }
    assert(names(word, spec) || attached(word, spec) is Some);
    assert(number_in(kind, value) == Some(number));
    lemma_number(kind, value, number, ds);
}

/// The host to listen on is the one that the command line gives, in each way of giving it.
pub proof fn law_host_is_the_one_given(
    argv: Seq<Seq<char>>,
    k: int,
    args: ArgsV,
    i: int,
    value: Seq<char>,
)
    requires
        1 <= i < k < argv.len(),
        says(argv, k, args),
    ensures
        argv[i] == "--"@ + "host"@ && argv[i + 1] == value ==> args.host == value,
        argv[i] == "--"@ + "host"@ + "="@ + value ==> args.host == value,
        argv[i] == seq!['-', 'h'] && argv[i + 1] == value ==> args.host == value,
        argv[i] == seq!['-', 'h', '='] + value ==> args.host == value,
        argv[i] == seq!['-', 'h'] + value && value.len() > 0 && value[0] != '=' ==> args.host
            == value,
{
    if gives(argv, i, "host"@, Some('h'), value) {
        lemma_text_given(argv, k, host_v(), Some(args.host), i, value);
    }
}

/// The restart condition is the one that the command line gives, in each way of giving it.
pub proof fn law_restart_condition_is_the_one_given(
    argv: Seq<Seq<char>>,
    k: int,
    args: ArgsV,
    i: int,
    value: Seq<char>,
)
    requires
        1 <= i < k < argv.len(),
        says(argv, k, args),
    ensures
        argv[i] == "--"@ + "restart-condition"@ && argv[i + 1] == value ==> args.restart_condition
            == Some(value),
        argv[i] == "--"@ + "restart-condition"@ + "="@ + value ==> args.restart_condition == Some(
            value,
        ),
{
    if gives(argv, i, "restart-condition"@, None, value) {
        lemma_text_given(argv, k, restart_condition_v(), args.restart_condition, i, value);
    }
}

/// The port to listen on is the number that the command line gives, in each way of giving it,
/// and with or without a sign.
pub proof fn law_port_is_the_one_given(
    argv: Seq<Seq<char>>,
    k: int,
    args: ArgsV,
    i: int,
    value: Seq<char>,
    ds: Seq<char>,
)
    requires
        1 <= i < k < argv.len(),
        says(argv, k, args),
        ds.len() > 0,
        forall|j: int| 0 <= j < ds.len() ==> '0' <= #[trigger] ds[j] <= '9',
        ({
            ||| argv[i] == "--"@ + "port"@ && argv[i + 1] == value
            ||| argv[i] == "--"@ + "port"@ + "="@ + value
            ||| argv[i] == seq!['-', 'p'] && argv[i + 1] == value
            ||| argv[i] == seq!['-', 'p', '='] + value
            ||| argv[i] == seq!['-', 'p'] + value && value.len() > 0 && value[0] != '='
        }),
    ensures
        value == ds ==> args.port == digits_value(ds),
        value == seq!['+'] + ds ==> args.port == digits_value(ds),
        value == seq!['-'] + ds ==> args.port == 0,
{
    lemma_number_given(
        argv,
        k,
        ValueKind::Number16,
        port_v(),
        30067,
        args.port as int,
        i,
        value,
        ds,
    );
}

/// The time between two checks is the number that the command line gives, in each way of giving
/// it, and with or without a sign.
pub proof fn law_sleep_is_the_one_given(
    argv: Seq<Seq<char>>,
    k: int,
    args: ArgsV,
    i: int,
    value: Seq<char>,
    ds: Seq<char>,
)
    requires
        1 <= i < k < argv.len(),
        says(argv, k, args),
        ds.len() > 0,
        forall|j: int| 0 <= j < ds.len() ==> '0' <= #[trigger] ds[j] <= '9',
        ({
            ||| argv[i] == "--"@ + "restart-condition-sleep"@ && argv[i + 1] == value
            ||| argv[i] == "--"@ + "restart-condition-sleep"@ + "="@ + value
        }),
    ensures
        value == ds ==> args.restart_condition_sleep == digits_value(ds),
        value == seq!['+'] + ds ==> args.restart_condition_sleep == digits_value(ds),
{
    lemma_number_given(
        argv,
        k,
        ValueKind::Number64,
        restart_condition_sleep_v(),
        300,
        args.restart_condition_sleep as int,
        i,
        value,
        ds,
    );
}

/// What the command line does not mention is as the documentation says.
pub proof fn law_defaults(argv: Seq<Seq<char>>, k: int, args: ArgsV)
    requires
        1 <= k < argv.len(),
        says(argv, k, args),
    ensures
        (forall|i: int| #![trigger argv[i]]
            1 <= i < k ==> argv[i] != "--"@ + "port"@ && !("--"@ + "port"@ + "="@).is_prefix_of(
                argv[i],
            ) && !seq!['-', 'p'].is_prefix_of(argv[i])) ==> args.port == 30067,
        (forall|i: int| #![trigger argv[i]]
            1 <= i < k ==> argv[i] != "--"@ + "host"@ && !("--"@ + "host"@ + "="@).is_prefix_of(
                argv[i],
            ) && !seq!['-', 'h'].is_prefix_of(argv[i])) ==> args.host == "127.0.0.1"@,
        (forall|i: int| #![trigger argv[i]]
            1 <= i < k ==> argv[i] != "--"@ + "restart-condition"@ && !("--"@
                + "restart-condition"@ + "="@).is_prefix_of(argv[i])) ==> args.restart_condition
            == None::<Seq<char>>,
        (forall|i: int| #![trigger argv[i]]
            1 <= i < k ==> argv[i] != "--"@ + "restart-condition-sleep"@ && !("--"@
                + "restart-condition-sleep"@ + "="@).is_prefix_of(argv[i]))
            ==> args.restart_condition_sleep == 300,
{
    lemma_default(argv, k, port_v());
    lemma_default(argv, k, host_v());
    lemma_default(argv, k, restart_condition_v());
    lemma_default(argv, k, restart_condition_sleep_v());
}

proof fn lemma_default(argv: Seq<Seq<char>>, k: int, spec: ArgSpecV)
    requires
        1 <= k < argv.len(),
        spec.long is Some,
    ensures
        (forall|i: int| #![trigger argv[i]]
            1 <= i < k ==> argv[i] != "--"@ + spec.long->0 && !("--"@ + spec.long->0
                + "="@).is_prefix_of(argv[i]) && (spec.short matches Some(c) ==> !seq!['-', c].is_prefix_of(
                argv[i],
            ))) ==> !mentions(argv.subrange(1, k), spec),
{
    let options = argv.subrange(1, k);
    if forall|i: int| #![trigger argv[i]]
        1 <= i < k ==> argv[i] != "--"@ + spec.long->0 && !("--"@ + spec.long->0
            + "="@).is_prefix_of(argv[i]) && (spec.short matches Some(c) ==> !seq!['-', c].is_prefix_of(
            argv[i],
        )) {
        assert forall|i: int| #![trigger options[i]] 0 <= i < options.len() implies options[i]
            != "--"@ + spec.long->0 && !("--"@ + spec.long->0 + "="@).is_prefix_of(options[i]) && (
        spec.short matches Some(c) ==> !seq!['-', c].is_prefix_of(options[i])) by {
            assert(options[i] == argv[i + 1]);
        }
        lemma_not_mentioned(options, spec);
    }
}

/// A flag is set exactly when its name is one of the words before the `--`, and the command is
/// all the words after it.
pub proof fn law_flags_and_command(argv: Seq<Seq<char>>, k: int, args: ArgsV)
    requires
        1 <= k < argv.len(),
        says(argv, k, args),
    ensures
        args.quiet <==> exists|i: int| 1 <= i < k && #[trigger] argv[i] == "--"@ + "quiet"@,
        args.fail_atleast_once <==> exists|i: int|
            1 <= i < k && #[trigger] argv[i] == "--"@ + "fail-atleast-once"@,
        args.markdown_help <==> exists|i: int|
            1 <= i < k && #[trigger] argv[i] == "--"@ + "markdown-help"@,
        args.command.len() == argv.len() - k - 1,
        args.command.len() > 0,
        forall|i: int| 0 <= i < args.command.len() ==> #[trigger] args.command[i] == argv[k + 1
            + i],
{
    lemma_flag(argv, k, "--"@ + "quiet"@);
    lemma_flag(argv, k, "--"@ + "fail-atleast-once"@);
    lemma_flag(argv, k, "--"@ + "markdown-help"@);
}

proof fn lemma_flag(argv: Seq<Seq<char>>, k: int, word: Seq<char>)
    requires
        1 <= k < argv.len(),
    ensures
        argv.subrange(1, k).contains(word) <==> exists|i: int|
            1 <= i < k && #[trigger] argv[i] == word,
{
    let options = argv.subrange(1, k);
    if options.contains(word) {
        let j = choose|j: int| 0 <= j < options.len() && options[j] == word;
        assert(argv[j + 1] == word);
    }
    if exists|i: int| 1 <= i < k && #[trigger] argv[i] == word {
        let i = choose|i: int| 1 <= i < k && #[trigger] argv[i] == word;
        assert(options[i - 1] == word);
    }
}

/// The supervisor that a command line sets up is run by that command line: it is quiet, and asks
/// for a failure before a restart, exactly where the flag for that is one of the words before the
/// `--`; its restart condition and the time between two checks are the ones given; and what it
/// starts is all the words after the `--`.
pub proof fn law_supervisor_follows_the_command_line<C>(
    argv: Seq<Seq<char>>,
    k: int,
    args: ArgsV,
    i: int,
    value: Seq<char>,
)
    requires
        1 <= i < argv.len(),
        1 <= k < argv.len(),
        says(argv, k, args),
    ensures
        ({
            let s = initial_state::<C>(args);
            &&& s.quiet <==> exists|j: int| 1 <= j < k && #[trigger] argv[j] == "--"@ + "quiet"@
            &&& s.fail_atleast_once <==> exists|j: int|
                1 <= j < k && #[trigger] argv[j] == "--"@ + "fail-atleast-once"@
            &&& i < k && argv[i] == "--"@ + "restart-condition"@ && argv[i + 1] == value
                ==> s.restart_condition == Some(value)
            &&& i < k && argv[i] == "--"@ + "restart-condition"@ + "="@ + value
                ==> s.restart_condition == Some(value)
            &&& s.restart_condition_sleep == args.restart_condition_sleep
            &&& s.child_process is None
            &&& s.command == argv.skip(k + 1)
            &&& seq![invocation_of(s.command).program] + invocation_of(s.command).args
                == argv.skip(k + 1)
        }),
{
    law_flags_and_command(argv, k, args);
    if i < k {
        law_restart_condition_is_the_one_given(argv, k, args, i, value);
    }
    let s = initial_state::<C>(args);
    assert(s.command =~= argv.skip(k + 1));
    assert(seq![invocation_of(s.command).program] + invocation_of(s.command).args =~= s.command);
}

/// A value is reported as missing exactly when one of those that have to be there is not, and
/// the one reported is not there.
pub proof fn law_missing_values_are_named(p: ParsedArgs)
    ensures
        missing_value(p) is None <==> p.port is Some && p.host is Some && p.command is Some
            && p.restart_condition_sleep is Some,
        p.port is None ==> missing_value(p) == Some("port"@),
        p.port is Some && p.host is None ==> missing_value(p) == Some("host"@),
        p.port is Some && p.host is Some && p.command is None ==> missing_value(p) == Some(
            "command"@,
        ),
        p.port is Some && p.host is Some && p.command is Some && p.restart_condition_sleep is None
            ==> missing_value(p) == Some("restart_condition_sleep"@),
{
}

/// What the documentation lists: the program and its description, and each argument with its
/// names, the name of its value, its default and its description.
pub proof fn law_documentation_lists_the_arguments()
    ensures
        ({
            let items = documented_items();
            &&& items.len() == 8
            &&& items[0] matches CommandItem::Header(h) && h.name == "run-http"@ && h.version
                == "0.1.0"@ && h.author == "jld.adriano@gmail.com"@ && h.about
                == "A CLI tool to run and control commands via http"@
            &&& items[1] matches CommandItem::Arg(kind, a) && kind is Number16 && a.long == Some(
                "port"@,
            ) && a.short == Some('p') && a.value_name == Some("PORT"@) && a.default == Some(
                "30067"@,
            ) && a.help == "Port to run the web server on"@
            &&& items[2] matches CommandItem::Arg(kind, a) && kind is Text && a.long == Some(
                "host"@,
            ) && a.short == Some('h') && a.value_name == Some("HOST"@) && a.default == Some(
                "127.0.0.1"@,
            ) && a.help == "Host address to bind the web server to"@
            &&& items[3] matches CommandItem::Arg(kind, a) && kind is Words && a.long is None
                && a.value_name == Some("COMMAND"@) && a.required && a.last && a.help
                == "The command to run and monitor"@
            &&& items[4] matches CommandItem::Arg(kind, a) && kind is Text && a.long == Some(
                "restart-condition"@,
            ) && a.value_name == Some("RESTART_CONDITION"@) && a.default is None && a.help
                == "Condition command to run before restarting"@
            &&& items[5] matches CommandItem::Arg(kind, a) && kind is Flag && a.long == Some(
                "fail-atleast-once"@,
            ) && a.help == "Ensure restart condition fails at least once before passing"@
            &&& items[6] matches CommandItem::Arg(kind, a) && kind is Number64 && a.long == Some(
                "restart-condition-sleep"@,
            ) && a.value_name == Some("RESTART_CONDITION_SLEEP"@) && a.default == Some("300"@)
                && a.help == "Sleep duration in milliseconds between restart condition checks"@
            &&& items[7] matches CommandItem::Arg(kind, a) && kind is Flag && a.long == Some(
                "quiet"@,
            ) && a.help == "Suppress all logging output, only show command output"@
            &&& forall|i: int| 1 <= i < items.len() ==> (#[trigger] items[i] matches
                CommandItem::Arg(_, a) && !a.hide_short_help && (a.required <==> i == 3))
        }),
{
}

/// All arguments are the documented ones, the flag for help in Markdown, which the help leaves
/// out, and the flag for help.
pub proof fn law_two_arguments_are_not_documented()
    ensures
        full_items().len() == documented_items().len() + 2,
        full_items().take(8) == documented_items(),
        full_items()[8] matches CommandItem::Arg(kind, a) && kind is Flag && a.long == Some(
            "markdown-help"@,
        ) && a.hide_short_help && a.help == "Generate markdown help"@,
        full_items()[9] matches CommandItem::Arg(kind, a) && kind is Help && a.long == Some(
            "help"@,
        ) && a.short is None,
{
    assert(full_items().take(8) =~= documented_items());
}

/// The examples run a command, and then start it, ask about it, stop it and restart it at the
/// default port.
pub proof fn law_examples()
    ensures
        examples_text()
            == "# Examples\n\n```\nrun-http -- python -c 'import time; i=0; while True: print(f\"Count: {i}\"); i+=1; time.sleep(1)'\ncurl http://localhost:30067/start\ncurl http://localhost:30067/status\ncurl http://localhost:30067/stop\ncurl http://localhost:30067/restart\n```\n"@,
{
}

} // verus!
