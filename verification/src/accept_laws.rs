//! Which command lines are accepted.

use crate::clap_items::{
    accepted, asks_for_help, attached, attaching, escape_at, is_attached_option, is_flag_word,
    is_help_word, is_number, is_option_pair, is_request, mentions_in, names, number_in,
    plain_options, program_name_is_plain, same_argument, spelled_out, stands_apart, value_in, ArgSpecV, CommandItem,
    ValueKind,
};
use crate::cli::{
    fail_atleast_once_v, full_items, help_v, host_v, markdown_help_v, port_v, quiet_v,
    restart_condition_sleep_v, restart_condition_v,
};
use crate::text::{digits, digits_value, law_digits_are_decimal, law_digits_denote_the_number};
use vstd::prelude::*;

verus! {

/// The lone `--` that the command comes after is the first one.
pub proof fn law_escape_is_the_first_one(argv: Seq<Seq<char>>, k: int)
    ensures
        escape_at(argv, k) <==> 1 <= k < argv.len() && argv[k] == "--"@ && forall|j: int|
            1 <= j < k ==> #[trigger] argv[j] != "--"@,
{
}

/// The names of the options and flags.
proof fn lemma_literals()
    ensures
        "-"@ == seq!['-'],
        "--"@ == seq!['-', '-'],
        "="@ == seq!['='],
        "port"@ == seq!['p', 'o', 'r', 't'],
        "host"@ == seq!['h', 'o', 's', 't'],
        "quiet"@ == seq!['q', 'u', 'i', 'e', 't'],
        "help"@ == seq!['h', 'e', 'l', 'p'],
        "markdown-help"@.len() == 13,
        "restart-condition"@.len() == 17,
        "fail-atleast-once"@.len() == 17,
        "restart-condition-sleep"@.len() == 23,
        "restart-condition"@[0] == 'r',
        "fail-atleast-once"@[0] == 'f',
        forall|i: int| 0 <= i < 13 ==> #[trigger] "markdown-help"@[i] != '=',
        forall|i: int| 0 <= i < 17 ==> #[trigger] "restart-condition"@[i] != '=',
        forall|i: int| 0 <= i < 17 ==> #[trigger] "fail-atleast-once"@[i] != '=',
        forall|i: int| 0 <= i < 23 ==> #[trigger] "restart-condition-sleep"@[i] != '=',
{
    reveal_strlit("-");
    reveal_strlit("--");
    reveal_strlit("=");
    reveal_strlit("port");
    reveal_strlit("host");
    reveal_strlit("quiet");
    reveal_strlit("help");
    reveal_strlit("markdown-help");
    reveal_strlit("restart-condition");
    reveal_strlit("fail-atleast-once");
    reveal_strlit("restart-condition-sleep");
    assert("-"@ =~= seq!['-']);
    assert("--"@ =~= seq!['-', '-']);
    assert("="@ =~= seq!['=']);
    assert("port"@ =~= seq!['p', 'o', 'r', 't']);
    assert("host"@ =~= seq!['h', 'o', 's', 't']);
    assert("quiet"@ =~= seq!['q', 'u', 'i', 'e', 't']);
    assert("help"@ =~= seq!['h', 'e', 'l', 'p']);
}

/// A name without `=` in it.
spec fn is_plain_name(long: Seq<char>) -> bool {
    forall|i: int| 0 <= i < long.len() ==> #[trigger] long[i] != '='
}

/// A word that is a long name, or begins with one and `=`, mentions no argument with another long
/// name.
proof fn lemma_long_mentions(word: Seq<char>, long: Seq<char>, rest: Seq<char>, other: ArgSpecV)
    requires
        word == "--"@ + long + rest,
        rest.len() > 0 ==> rest[0] == '=',
        is_plain_name(long),
        other.long is Some,
        is_plain_name(other.long->0),
        other.long->0 != long,
        other.short != Some('-'),
    ensures
        !mentions_in(word, other),
{
    lemma_literals();
    let l2 = other.long->0;
    assert forall|i: int| 0 <= i < long.len() implies word[2 + i] == #[trigger] long[i] by {}
    if names(word, other) {
        if other.short is Some && word == "-"@.push(other.short->0) {
            assert(word[1] == '-');
        } else {
            assert(word == "--"@ + l2);
            if rest.len() > 0 {
                assert(word[2 + long.len() as int] == '=');
                assert(l2[long.len() as int] == word[2 + long.len() as int]);
            }
            assert(l2 =~= long) by {
                assert forall|i: int| 0 <= i < long.len() implies l2[i] == long[i] by {
                    assert(word[2 + i] == l2[i]);
                }
            }
        }
    }
    if attached(word, other) is Some {
        let head = attaching(other);
        if head.is_prefix_of(word) {
            assert(head[2 + l2.len() as int] == '=');
            assert(word[2 + l2.len() as int] == '=');
            if l2.len() < long.len() {
                assert(long[l2.len() as int] == '=');
            }
            if l2.len() > long.len() {
                assert(rest.len() > 0);
                assert(word[2 + long.len() as int] == '=');
                assert(head[2 + long.len() as int] == l2[long.len() as int]);
            }
            assert(l2 =~= long) by {
                assert forall|i: int| 0 <= i < long.len() implies l2[i] == long[i] by {
                    assert(head[2 + i] == l2[i]);
                    assert(word[2 + i] == long[i]);
                }
            }
        } else {
            assert("-"@.push(other.short->0)[1] == other.short->0);
            assert(word[1] == '-');
        }
    }
}

/// A word that begins with a short name mentions no argument without it.
proof fn lemma_short_mentions(word: Seq<char>, c: char, other: ArgSpecV)
    requires
        word.len() >= 2,
        word[0] == '-',
        word[1] == c,
        c != '-',
        other.short != Some(c),
    ensures
        !mentions_in(word, other),
{
    lemma_literals();
    if other.long is Some {
        assert(("--"@ + other.long->0)[1] == '-');
        assert(attaching(other)[1] == '-');
    }
    if other.short is Some {
        assert("-"@.push(other.short->0)[1] == other.short->0);
    }
}

/// A word that can stand apart as a value mentions no argument.
proof fn lemma_value_mentions_nothing(word: Seq<char>, other: ArgSpecV)
    requires
        stands_apart(word),
    ensures
        !mentions_in(word, other),
{
    lemma_literals();
    if word.len() > 0 && word[0] == '-' {
        assert("-"@.is_prefix_of(word));
        assert(word.len() == 1);
    }
    if other.long is Some {
        assert(("--"@ + other.long->0)[0] == '-' && ("--"@ + other.long->0).len() >= 2);
        assert(attaching(other)[0] == '-' && attaching(other).len() >= 2);
    }
    if other.short is Some {
        assert("-"@.push(other.short->0)[0] == '-' && "-"@.push(other.short->0).len() == 2);
    }
}

/// The argument of an item.
spec fn spec_of(item: CommandItem) -> ArgSpecV {
    item->Arg_1
}

/// The word mentions the argument at `n` and no other.
spec fn mentions_only(word: Seq<char>, n: int) -> bool {
    forall|m: int|
        0 <= m < full_items().len() && m != n && (#[trigger] full_items()[m]) is Arg
            ==> !mentions_in(word, spec_of(full_items()[m]))
}

proof fn lemma_items()
    ensures
        full_items().len() == 10,
        full_items()[0] is Header,
        full_items()[1] == CommandItem::Arg(ValueKind::Number16, port_v()),
        full_items()[2] == CommandItem::Arg(ValueKind::Text, host_v()),
        full_items()[3] is Arg && spec_of(full_items()[3]).long is None && spec_of(
            full_items()[3],
        ).short is None && full_items()[3]->Arg_0 is Words,
        full_items()[4] == CommandItem::Arg(ValueKind::Text, restart_condition_v()),
        full_items()[5] == CommandItem::Arg(ValueKind::Flag, fail_atleast_once_v()),
        full_items()[6] == CommandItem::Arg(ValueKind::Number64, restart_condition_sleep_v()),
        full_items()[7] == CommandItem::Arg(ValueKind::Flag, quiet_v()),
        full_items()[8] == CommandItem::Arg(ValueKind::Flag, markdown_help_v()),
        full_items()[9] == CommandItem::Arg(ValueKind::Help, help_v()),
{
}

proof fn lemma_long_mentions_only(word: Seq<char>, rest: Seq<char>, n: int)
    requires
        n == 1 || n == 2 || 4 <= n <= 8,
        word == "--"@ + spec_of(full_items()[n]).long->0 + rest,
        rest.len() > 0 ==> rest[0] == '=',
    ensures
        mentions_only(word, n),
{
    lemma_items();
    lemma_literals();
    let long = spec_of(full_items()[n]).long->0;
    assert forall|m: int|
        0 <= m < full_items().len() && m != n && (#[trigger] full_items()[m]) is Arg
        implies !mentions_in(word, spec_of(full_items()[m])) by {
        let other = spec_of(full_items()[m]);
        if m != 3 {
            assert(other.long is Some);
            assert(is_plain_name(long));
            assert(is_plain_name(other.long->0));
            assert(other.long->0 != long);
            lemma_long_mentions(word, long, rest, other);
        }
    }
}

proof fn lemma_short_mentions_only(word: Seq<char>, n: int)
    requires
        n == 1 || n == 2,
        word.len() >= 2,
        word[0] == '-',
        Some(word[1]) == spec_of(full_items()[n]).short,
    ensures
        mentions_only(word, n),
{
    lemma_items();
    assert forall|m: int|
        0 <= m < full_items().len() && m != n && (#[trigger] full_items()[m]) is Arg
        implies !mentions_in(word, spec_of(full_items()[m])) by {
        lemma_short_mentions(word, word[1], spec_of(full_items()[m]));
    }
}

/// A flag or an option can be put before options that do not mention it.
proof fn lemma_can_be_put_before(head: Seq<Seq<char>>, options: Seq<Seq<char>>, n: int)
    requires
        plain_options(full_items(), options),
        0 <= n < full_items().len(),
        full_items()[n] is Arg,
        head.len() == 1 || head.len() == 2,
        head.len() == 1 ==> is_flag_word(full_items()[n], head[0]) || is_attached_option(
            full_items()[n],
            head[0],
        ),
        head.len() == 2 ==> is_option_pair(full_items()[n], head[0], head[1]),
        mentions_only(head[0], n),
        forall|i: int|
            0 <= i < options.len() ==> !mentions_in(
                #[trigger] options[i],
                spec_of(full_items()[n]),
            ),
    ensures
        plain_options(full_items(), head + options),
{
    let items = full_items();
    let all = head + options;
    assert(all.skip(head.len() as int) =~= options);
    assert(all[0] == head[0]);
    if head.len() == 2 {
        assert(all[1] == head[1]);
    }
    assert(spelled_out(items, all));
    assert forall|i: int, j: int| 0 <= i < j < all.len() implies !same_argument(
        items,
        #[trigger] all[i],
        #[trigger] all[j],
    ) by {
        if same_argument(items, all[i], all[j]) {
            let m = choose|m: int|
                0 <= m < items.len() && match #[trigger] items[m] {
                    CommandItem::Arg(_, spec) => mentions_in(all[i], spec) && mentions_in(
                        all[j],
                        spec,
                    ),
                    CommandItem::Header(_) => false,
                };
            let spec = spec_of(items[m]);
            assert(mentions_in(all[i], spec) && mentions_in(all[j], spec));
            if i == 0 {
                assert(m == n);
                if j < head.len() {
                    lemma_value_mentions_nothing(head[1], spec);
                } else {
                    assert(all[j] == options[j - head.len()]);
                }
            } else if i < head.len() {
                lemma_value_mentions_nothing(head[1], spec);
            } else {
                assert(all[i] == options[i - head.len()]);
                assert(all[j] == options[j - head.len()]);
                assert(same_argument(items, options[i - head.len()], options[j - head.len()]));
            }
        }
    }
}

/// A line stays accepted when a flag or an option that it does not mention is put first.
proof fn lemma_line_with_more(
    argv: Seq<Seq<char>>,
    k: int,
    head: Seq<Seq<char>>,
    n: int,
)
    requires
        escape_at(argv, k),
        accepted(full_items(), argv),
        0 <= n < full_items().len(),
        full_items()[n] is Arg,
        head.len() == 1 || head.len() == 2,
        head.len() == 1 ==> is_flag_word(full_items()[n], head[0]) || is_attached_option(
            full_items()[n],
            head[0],
        ),
        head.len() == 2 ==> is_option_pair(full_items()[n], head[0], head[1]),
        mentions_only(head[0], n),
        forall|i: int| #![trigger argv[i]]
            1 <= i < k ==> !mentions_in(argv[i], spec_of(full_items()[n])),
        forall|i: int| 0 <= i < head.len() ==> #[trigger] head[i] != "--"@,
    ensures
        accepted(full_items(), argv.take(1) + head + argv.skip(1)),
{
    let q = choose|q: int| #[trigger]
        escape_at(argv, q) && q + 1 < argv.len() && plain_options(
            full_items(),
            argv.subrange(1, q),
        );
    assert(q == k);
    let options = argv.subrange(1, k);
    let line = argv.take(1) + head + argv.skip(1);
    let h = head.len() as int;
    assert forall|i: int| 0 <= i < options.len() implies !mentions_in(
        #[trigger] options[i],
        spec_of(full_items()[n]),
    ) by {
        assert(options[i] == argv[i + 1]);
    }
    lemma_can_be_put_before(head, options, n);
    assert(line.subrange(1, k + h) =~= head + options);
    assert(line[k + h] == argv[k]);
    assert forall|j: int| 1 <= j < k + h implies #[trigger] line[j] != "--"@ by {
        if j < 1 + h {
            assert(line[j] == head[j - 1]);
        } else {
            assert(line[j] == argv[j - h]);
        }
    }
    assert(escape_at(line, k + h));
}

/// A command line of nothing but the `--` and a command is accepted.
pub proof fn law_bare_command_is_accepted(program: Seq<char>, command: Seq<Seq<char>>)
    requires
        command.len() > 0,
    ensures
        accepted(full_items(), seq![program, "--"@] + command),
{
    let line = seq![program, "--"@] + command;
    assert(line.subrange(1, 1).len() == 0);
    assert(spelled_out(full_items(), line.subrange(1, 1)));
    assert(escape_at(line, 1));
}

/// An accepted command line stays accepted with a flag more, where no word before its `--` begins
/// with that flag.
pub proof fn law_flags_are_accepted(argv: Seq<Seq<char>>, k: int, flag: Seq<char>)
    requires
        1 <= k < argv.len(),
        argv[k] == "--"@,
        forall|j: int| 1 <= j < k ==> #[trigger] argv[j] != "--"@,
        accepted(full_items(), argv),
        flag == "--"@ + "quiet"@ || flag == "--"@ + "fail-atleast-once"@ || flag == "--"@
            + "markdown-help"@,
        forall|i: int| #![trigger argv[i]] 1 <= i < k ==> !flag.is_prefix_of(argv[i]),
    ensures
        accepted(full_items(), argv.take(1) + seq![flag] + argv.skip(1)),
{
    lemma_items();
    lemma_literals();
    let n: int = if flag == "--"@ + "quiet"@ {
        7
    } else if flag == "--"@ + "fail-atleast-once"@ {
        5
    } else {
        8
    };
    let spec = spec_of(full_items()[n]);
    assert(flag =~= "--"@ + spec.long->0 + Seq::<char>::empty());
    lemma_long_mentions_only(flag, Seq::empty(), n);
    assert(is_flag_word(full_items()[n], flag));
    assert forall|i: int| #![trigger argv[i]] 1 <= i < k implies !mentions_in(argv[i], spec) by {
        if mentions_in(argv[i], spec) {
            lemma_prefix_of_mention(argv[i], spec);
        }
    }
    lemma_line_with_more(argv, k, seq![flag], n);
}

/// A word that mentions an argument without a short name begins with its long name.
proof fn lemma_prefix_of_mention(word: Seq<char>, spec: ArgSpecV)
    requires
        spec.long is Some,
        mentions_in(word, spec),
    ensures
        ("--"@ + spec.long->0).is_prefix_of(word) || (spec.short is Some && seq![
            '-',
            spec.short->0,
        ].is_prefix_of(word)),
{
    lemma_literals();
    let name = "--"@ + spec.long->0;
    if spec.short is Some {
        assert("-"@.push(spec.short->0) =~= seq!['-', spec.short->0]);
    }
    if attaching(spec).is_prefix_of(word) {
        assert(name =~= word.subrange(0, name.len() as int));
    }
}

/// An accepted command line, and an argument that no word before its `--` mentions.
spec fn can_take(argv: Seq<Seq<char>>, k: int, n: int) -> bool {
    &&& escape_at(argv, k)
    &&& accepted(full_items(), argv)
    &&& forall|i: int| #![trigger argv[i]]
        1 <= i < k ==> !mentions_in(argv[i], spec_of(full_items()[n]))
}

proof fn lemma_can_take(argv: Seq<Seq<char>>, k: int, n: int)
    requires
        escape_at(argv, k),
        accepted(full_items(), argv),
        spec_of(full_items()[n]).long is Some,
        forall|i: int| #![trigger argv[i]]
            1 <= i < k ==> !("--"@ + spec_of(full_items()[n]).long->0).is_prefix_of(argv[i]) && (
            spec_of(full_items()[n]).short matches Some(c) ==> !seq!['-', c].is_prefix_of(
                argv[i],
            )),
    ensures
        can_take(argv, k, n),
{
    let spec = spec_of(full_items()[n]);
    assert forall|i: int| #![trigger argv[i]] 1 <= i < k implies !mentions_in(argv[i], spec) by {
        if mentions_in(argv[i], spec) {
            lemma_prefix_of_mention(argv[i], spec);
        }
    }
}

/// An option can be given by a value attached to its long name.
proof fn lemma_attached_to_long(argv: Seq<Seq<char>>, k: int, n: int, value: Seq<char>)
    requires
        can_take(argv, k, n),
        n == 1 || n == 2 || n == 4 || n == 6,
        value_in(full_items()[n]->Arg_0, value) is Some,
    ensures
        accepted(
            full_items(),
            argv.take(1) + seq!["--"@ + spec_of(full_items()[n]).long->0 + "="@ + value]
                + argv.skip(1),
        ),
{
    lemma_items();
    lemma_literals();
    let spec = spec_of(full_items()[n]);
    let joined = "--"@ + spec.long->0 + "="@ + value;
    assert(joined =~= "--"@ + spec.long->0 + ("="@ + value));
    lemma_long_mentions_only(joined, "="@ + value, n);
    assert(joined =~= attaching(spec) + value);
    assert(attaching(spec).is_prefix_of(joined));
    assert(joined.skip(attaching(spec).len() as int) =~= value);
    assert(attached(joined, spec) == Some(value));
    assert(is_attached_option(full_items()[n], joined));
    assert(joined.len() > 2 && "--"@.len() == 2);
    lemma_line_with_more(argv, k, seq![joined], n);
}

/// An option can be given by its long name and a value that stands apart.
proof fn lemma_apart_from_long(argv: Seq<Seq<char>>, k: int, n: int, value: Seq<char>)
    requires
        can_take(argv, k, n),
        n == 1 || n == 2 || n == 4 || n == 6,
        value_in(full_items()[n]->Arg_0, value) is Some,
        stands_apart(value),
    ensures
        accepted(
            full_items(),
            argv.take(1) + seq!["--"@ + spec_of(full_items()[n]).long->0, value] + argv.skip(1),
        ),
{
    lemma_items();
    lemma_literals();
    let spec = spec_of(full_items()[n]);
    let long = "--"@ + spec.long->0;
    assert(long =~= "--"@ + spec.long->0 + Seq::<char>::empty());
    lemma_long_mentions_only(long, Seq::empty(), n);
    assert(is_option_pair(full_items()[n], long, value));
    lemma_value_is_no_escape(value);
    assert(long.len() > 2 && "--"@.len() == 2);
    lemma_line_with_more(argv, k, seq![long, value], n);
}

/// A value that stands apart is not the lone `--`.
proof fn lemma_value_is_no_escape(value: Seq<char>)
    requires
        stands_apart(value),
    ensures
        value != "--"@,
{
    lemma_literals();
    if value == "--"@ {
        assert(value.len() == 2);
        assert("-"@ =~= value.subrange(0, 1));
    }
}

/// An option can be given by a value attached to its short name.
proof fn lemma_attached_to_short(
    argv: Seq<Seq<char>>,
    k: int,
    n: int,
    word: Seq<char>,
    value: Seq<char>,
)
    requires
        can_take(argv, k, n),
        n == 1 || n == 2,
        value_in(full_items()[n]->Arg_0, value) is Some,
        spec_of(full_items()[n]).short matches Some(c) && (word == seq!['-', c, '='] + value || (
        word == seq!['-', c] + value && value.len() > 0 && value[0] != '=')),
    ensures
        accepted(full_items(), argv.take(1) + seq![word] + argv.skip(1)),
{
    lemma_items();
    lemma_literals();
    let spec = spec_of(full_items()[n]);
    let c = spec.short->0;
    let name = "-"@.push(c);
    assert(name =~= seq!['-', c]);
    assert(attaching(spec)[1] == '-' && word[1] == c && word[0] == '-');
    assert(!attaching(spec).is_prefix_of(word));
    assert(name =~= word.subrange(0, 2));
    if word == seq!['-', c, '='] + value {
        assert(word[2] == '=');
        assert(word.skip(3) =~= value);
    } else {
        assert(word[2] == value[0]);
        assert(word.skip(2) =~= value);
    }
    assert(attached(word, spec) == Some(value));
    assert(is_attached_option(full_items()[n], word));
    lemma_short_mentions_only(word, n);
    assert(word.len() > 2 && "--"@.len() == 2);
    lemma_line_with_more(argv, k, seq![word], n);
}

/// An option can be given by its short name and a value that stands apart.
proof fn lemma_apart_from_short(argv: Seq<Seq<char>>, k: int, n: int, value: Seq<char>)
    requires
        can_take(argv, k, n),
        n == 1 || n == 2,
        value_in(full_items()[n]->Arg_0, value) is Some,
        stands_apart(value),
    ensures
        accepted(
            full_items(),
            argv.take(1) + seq![seq!['-', spec_of(full_items()[n]).short->0], value]
                + argv.skip(1),
        ),
{
    lemma_items();
    lemma_literals();
    let c = spec_of(full_items()[n]).short->0;
    let name = seq!['-', c];
    assert("-"@.push(c) =~= name);
    assert(is_option_pair(full_items()[n], name, value));
    lemma_short_mentions_only(name, n);
    lemma_value_is_no_escape(value);
    assert(name[1] == c && "--"@[1] == '-');
    lemma_line_with_more(argv, k, seq![name, value], n);
}

/// Every port can be given: an accepted command line stays accepted with the decimal notation of
/// a port, in each way of giving it, where no word before its `--` begins with a name of it.
pub proof fn law_every_port_is_accepted(argv: Seq<Seq<char>>, k: int, port: u16)
    requires
        1 <= k < argv.len(),
        argv[k] == "--"@,
        forall|j: int| 1 <= j < k ==> #[trigger] argv[j] != "--"@,
        accepted(full_items(), argv),
        forall|i: int| #![trigger argv[i]]
            1 <= i < k ==> !("--"@ + "port"@).is_prefix_of(argv[i]) && !seq!['-', 'p'].is_prefix_of(
                argv[i],
            ),
    ensures
        ({
            let value = digits(port as nat);
            let (before, from) = (argv.take(1), argv.skip(1));
            &&& accepted(full_items(), before + seq!["--"@ + "port"@, value] + from)
            &&& accepted(full_items(), before + seq!["--"@ + "port"@ + "="@ + value] + from)
            &&& accepted(full_items(), before + seq![seq!['-', 'p'], value] + from)
            &&& accepted(full_items(), before + seq![seq!['-', 'p'] + value] + from)
            &&& accepted(full_items(), before + seq![seq!['-', 'p', '='] + value] + from)
        }),
{
    lemma_items();
    let value = digits(port as nat);
    lemma_notation(value, port as nat);
    assert(number_in(ValueKind::Number16, value) == Some(port as int));
    lemma_can_take(argv, k, 1);
    lemma_attached_to_long(argv, k, 1, value);
    lemma_apart_from_long(argv, k, 1, value);
    lemma_apart_from_short(argv, k, 1, value);
    lemma_attached_to_short(argv, k, 1, seq!['-', 'p'] + value, value);
    lemma_attached_to_short(argv, k, 1, seq!['-', 'p', '='] + value, value);
}

/// Decimal notation says its number, and can stand apart.
proof fn lemma_notation(value: Seq<char>, n: nat)
    requires
        value == digits(n),
    ensures
        value.len() > 0,
        value[0] != '=' && value[0] != '+' && value[0] != '-',
        is_number(value),
        digits_value(value) == n,
        stands_apart(value),
{
    law_digits_denote_the_number(n);
    law_digits_are_decimal(n);
    lemma_literals();
    assert('0' <= value[0] <= '9');
    lemma_apart(value);
}

/// Every time between two checks can be given.
pub proof fn law_every_sleep_is_accepted(argv: Seq<Seq<char>>, k: int, ms: u64)
    requires
        1 <= k < argv.len(),
        argv[k] == "--"@,
        forall|j: int| 1 <= j < k ==> #[trigger] argv[j] != "--"@,
        accepted(full_items(), argv),
        forall|i: int| #![trigger argv[i]]
            1 <= i < k ==> !("--"@ + "restart-condition-sleep"@).is_prefix_of(argv[i]),
    ensures
        ({
            let value = digits(ms as nat);
            let name = "--"@ + "restart-condition-sleep"@;
            let (before, from) = (argv.take(1), argv.skip(1));
            &&& accepted(full_items(), before + seq![name, value] + from)
            &&& accepted(full_items(), before + seq![name + "="@ + value] + from)
        }),
{
    lemma_items();
    let value = digits(ms as nat);
    lemma_notation(value, ms as nat);
    assert(number_in(ValueKind::Number64, value) == Some(ms as int));
    lemma_can_take(argv, k, 6);
    lemma_attached_to_long(argv, k, 6, value);
    lemma_apart_from_long(argv, k, 6, value);
}

/// Every host can be given: in a word of its own where it is `-` or does not begin with it, and
/// else attached to the name.
pub proof fn law_every_host_is_accepted(argv: Seq<Seq<char>>, k: int, value: Seq<char>)
    requires
        1 <= k < argv.len(),
        argv[k] == "--"@,
        forall|j: int| 1 <= j < k ==> #[trigger] argv[j] != "--"@,
        accepted(full_items(), argv),
        forall|i: int| #![trigger argv[i]]
            1 <= i < k ==> !("--"@ + "host"@).is_prefix_of(argv[i]) && !seq!['-', 'h'].is_prefix_of(
                argv[i],
            ),
    ensures
        ({
            let (before, from) = (argv.take(1), argv.skip(1));
            let apart = value.len() == 0 || value[0] != '-' || value.len() == 1;
            &&& accepted(full_items(), before + seq!["--"@ + "host"@ + "="@ + value] + from)
            &&& accepted(full_items(), before + seq![seq!['-', 'h', '='] + value] + from)
            &&& apart ==> accepted(full_items(), before + seq!["--"@ + "host"@, value] + from)
            &&& apart ==> accepted(full_items(), before + seq![seq!['-', 'h'], value] + from)
            &&& value.len() > 0 && value[0] != '=' ==> accepted(
                full_items(),
                before + seq![seq!['-', 'h'] + value] + from,
            )
        }),
{
    lemma_items();
    lemma_can_take(argv, k, 2);
    lemma_attached_to_long(argv, k, 2, value);
    lemma_attached_to_short(argv, k, 2, seq!['-', 'h', '='] + value, value);
    if value.len() == 0 || value[0] != '-' || value.len() == 1 {
        lemma_apart(value);
        lemma_apart_from_long(argv, k, 2, value);
        lemma_apart_from_short(argv, k, 2, value);
    }
    if value.len() > 0 && value[0] != '=' {
        lemma_attached_to_short(argv, k, 2, seq!['-', 'h'] + value, value);
    }
}

/// Every restart condition can be given: in a word of its own where it is `-` or does not begin
/// with it, and else attached to the name.
pub proof fn law_every_restart_condition_is_accepted(
    argv: Seq<Seq<char>>,
    k: int,
    value: Seq<char>,
)
    requires
        1 <= k < argv.len(),
        argv[k] == "--"@,
        forall|j: int| 1 <= j < k ==> #[trigger] argv[j] != "--"@,
        accepted(full_items(), argv),
        forall|i: int| #![trigger argv[i]]
            1 <= i < k ==> argv[i] != "--"@ + "restart-condition"@ && !("--"@
                + "restart-condition"@ + "="@).is_prefix_of(argv[i]),
    ensures
        ({
            let name = "--"@ + "restart-condition"@;
            let (before, from) = (argv.take(1), argv.skip(1));
            &&& accepted(full_items(), before + seq![name + "="@ + value] + from)
            &&& value.len() == 0 || value[0] != '-' || value.len() == 1 ==> accepted(
                full_items(),
                before + seq![name, value] + from,
            )
        }),
{
    lemma_items();
    assert(can_take(argv, k, 4));
    lemma_attached_to_long(argv, k, 4, value);
    if value.len() == 0 || value[0] != '-' || value.len() == 1 {
        lemma_apart(value);
        lemma_apart_from_long(argv, k, 4, value);
    }
}

proof fn lemma_apart(value: Seq<char>)
    requires
        value.len() == 0 || value[0] != '-' || value.len() == 1,
    ensures
        stands_apart(value),
{
    lemma_literals();
    if value.len() == 1 && value[0] == '-' {
        assert(value =~= "-"@);
    } else {
        if "-"@.is_prefix_of(value) {
            assert(value.subrange(0, 1)[0] == '-');
        }
    }
}

/// The word at `i` has its place among words that are flags and options: it is a flag, an option
/// with its value attached, an option before its value, or the value of the option before it.
spec fn has_its_place(options: Seq<Seq<char>>, i: int, n: int) -> bool {
    let item = full_items()[n];
    ||| is_flag_word(item, options[i])
    ||| is_attached_option(item, options[i])
    ||| i + 1 < options.len() && is_option_pair(item, options[i], options[i + 1])
    ||| i > 0 && is_option_pair(item, options[i - 1], options[i])
}

proof fn lemma_every_word_has_its_place(options: Seq<Seq<char>>, i: int) -> (n: int)
    requires
        spelled_out(full_items(), options),
        0 <= i < options.len(),
    ensures
        0 <= n < full_items().len(),
        has_its_place(options, i, n),
    decreases options.len(),
{
    let items = full_items();
    if exists|n: int| 0 <= n < items.len() && is_flag_word(#[trigger] items[n], options[0])
        && spelled_out(items, options.skip(1)) {
        if i == 0 {
            choose|n: int| 0 <= n < items.len() && is_flag_word(#[trigger] items[n], options[0])
        } else {
            let n = lemma_every_word_has_its_place(options.skip(1), i - 1);
            lemma_place_further(options, 1, i, n);
            n
        }
    } else if exists|n: int|
        0 <= n < items.len() && is_attached_option(#[trigger] items[n], options[0])
            && spelled_out(items, options.skip(1)) {
        if i == 0 {
            choose|n: int|
                0 <= n < items.len() && is_attached_option(#[trigger] items[n], options[0])
        } else {
            let n = lemma_every_word_has_its_place(options.skip(1), i - 1);
            lemma_place_further(options, 1, i, n);
            n
        }
    } else {
        if i < 2 {
            choose|n: int|
                0 <= n < items.len() && is_option_pair(
                    #[trigger] items[n],
                    options[0],
                    options[1],
                )
        } else {
            let n = lemma_every_word_has_its_place(options.skip(2), i - 2);
            lemma_place_further(options, 2, i, n);
            n
        }
    }
}

proof fn lemma_place_further(options: Seq<Seq<char>>, by: int, i: int, n: int)
    requires
        0 <= by <= i < options.len(),
        has_its_place(options.skip(by), i - by, n),
    ensures
        has_its_place(options, i, n),
{
    let rest = options.skip(by);
    assert(rest[i - by] == options[i]);
    if i + 1 < options.len() {
        assert(rest[i - by + 1] == options[i + 1]);
    }
    if i - by > 0 {
        assert(rest[i - by - 1] == options[i - 1]);
    }
}

/// A command line without a lone `--` after the name of the program, or without a word after the
/// first one, is rejected.
pub proof fn law_a_command_has_to_be_given(argv: Seq<Seq<char>>)
    requires
        accepted(full_items(), argv),
    ensures
        exists|k: int|
            1 <= k < argv.len() - 1 && #[trigger] argv[k] == "--"@ && forall|j: int|
                1 <= j < k ==> #[trigger] argv[j] != "--"@,
{
    let k = choose|k: int| #[trigger]
        escape_at(argv, k) && k + 1 < argv.len() && plain_options(
            full_items(),
            argv.subrange(1, k),
        );
    assert(argv[k] == "--"@);
}

/// Of an accepted command line, the words before the `--` are plain options.
proof fn lemma_options_of_accepted(argv: Seq<Seq<char>>, k: int)
    requires
        escape_at(argv, k),
        accepted(full_items(), argv),
    ensures
        plain_options(full_items(), argv.subrange(1, k)),
{
    let q = choose|q: int| #[trigger]
        escape_at(argv, q) && q + 1 < argv.len() && plain_options(
            full_items(),
            argv.subrange(1, q),
        );
    assert(q == k);
}

/// Nothing is given twice: of two words before the `--` of an accepted command line, not both
/// are the same flag, and not both begin with a name of the same option.
pub proof fn law_nothing_is_given_twice(argv: Seq<Seq<char>>, k: int, i: int, j: int, flag: Seq<char>)
    requires
        1 <= i < j < k < argv.len(),
        argv[k] == "--"@,
        forall|j: int| 1 <= j < k ==> #[trigger] argv[j] != "--"@,
        accepted(full_items(), argv),
        flag == "quiet"@ || flag == "fail-atleast-once"@ || flag == "markdown-help"@ || flag
            == "port"@ || flag == "host"@ || flag == "restart-condition"@ || flag
            == "restart-condition-sleep"@,
    ensures
        !((argv[i] == "--"@ + flag || ("--"@ + flag + "="@).is_prefix_of(argv[i])) && (argv[j]
            == "--"@ + flag || ("--"@ + flag + "="@).is_prefix_of(argv[j]))),
        flag == "port"@ ==> !((argv[i] == "--"@ + flag || ("--"@ + flag + "="@).is_prefix_of(
            argv[i],
        ) || seq!['-', 'p'].is_prefix_of(argv[i])) && (argv[j] == "--"@ + flag || ("--"@ + flag
            + "="@).is_prefix_of(argv[j]) || seq!['-', 'p'].is_prefix_of(argv[j]))),
        flag == "host"@ ==> !((argv[i] == "--"@ + flag || ("--"@ + flag + "="@).is_prefix_of(
            argv[i],
        ) || seq!['-', 'h'].is_prefix_of(argv[i])) && (argv[j] == "--"@ + flag || ("--"@ + flag
            + "="@).is_prefix_of(argv[j]) || seq!['-', 'h'].is_prefix_of(argv[j]))),
{
    lemma_items();
    lemma_literals();
    lemma_options_of_accepted(argv, k);
    let options = argv.subrange(1, k);
    assert(options[i - 1] == argv[i] && options[j - 1] == argv[j]);
    let n: int = if flag == "quiet"@ {
        7
    } else if flag == "fail-atleast-once"@ {
        5
    } else if flag == "markdown-help"@ {
        8
    } else if flag == "port"@ {
        1
    } else if flag == "host"@ {
        2
    } else if flag == "restart-condition"@ {
        4
    } else {
        6
    };
    let spec = spec_of(full_items()[n]);
    assert(spec.long == Some(flag));
    lemma_beginning_mentions(argv[i], spec);
    lemma_beginning_mentions(argv[j], spec);
    assert(!same_argument(full_items(), options[i - 1], options[j - 1]));
    assert(!(mentions_in(argv[i], spec) && mentions_in(argv[j], spec))) by {
        assert(full_items()[n] is Arg);
    }
}

/// A word that begins with a name of an argument, attached to something or not, mentions it.
proof fn lemma_beginning_mentions(word: Seq<char>, spec: ArgSpecV)
    requires
        spec.long is Some,
    ensures
        word == "--"@ + spec.long->0 ==> mentions_in(word, spec),
        ("--"@ + spec.long->0 + "="@).is_prefix_of(word) ==> mentions_in(word, spec),
        spec.short matches Some(c) ==> seq!['-', c].is_prefix_of(word) ==> mentions_in(word, spec),
{
    lemma_literals();
    if spec.short is Some && seq!['-', spec.short->0].is_prefix_of(word) {
        assert("-"@.push(spec.short->0) =~= seq!['-', spec.short->0]);
        if word.len() == 2 {
            assert(word =~= seq!['-', spec.short->0]);
        }
    }
}

/// A name of an option is followed by its value, which has a word of its own before the `--`, and
/// does not begin with `-` unless it is `-` itself. The value of a port is a number up to 65535,
/// and that of the time between two checks one below 2^64, in digits that a `+` may stand before.
pub proof fn law_a_name_is_followed_by_its_value(argv: Seq<Seq<char>>, k: int, i: int)
    requires
        1 <= i < k < argv.len(),
        argv[k] == "--"@,
        forall|j: int| 1 <= j < k ==> #[trigger] argv[j] != "--"@,
        accepted(full_items(), argv),
        argv[i] == "--"@ + "port"@ || argv[i] == "--"@ + "host"@ || argv[i] == "--"@
            + "restart-condition"@ || argv[i] == "--"@ + "restart-condition-sleep"@ || argv[i]
            == seq!['-', 'p'] || argv[i] == seq!['-', 'h'],
    ensures
        i + 1 < k,
        argv[i + 1].len() == 0 || argv[i + 1][0] != '-' || argv[i + 1].len() == 1,
        argv[i] == "--"@ + "port"@ || argv[i] == seq!['-', 'p'] || argv[i] == "--"@
            + "restart-condition-sleep"@ ==> {
            let number = if argv[i + 1].len() > 0 && argv[i + 1][0] == '+' {
                argv[i + 1].skip(1)
            } else {
                argv[i + 1]
            };
            &&& number.len() > 0
            &&& forall|j: int| 0 <= j < number.len() ==> '0' <= #[trigger] number[j] <= '9'
            &&& digits_value(number) <= if argv[i] == "--"@ + "restart-condition-sleep"@ {
                0xffff_ffff_ffff_ffffint
            } else {
                65535int
            }
        },
{
    lemma_items();
    lemma_literals();
    lemma_options_of_accepted(argv, k);
    let options = argv.subrange(1, k);
    let word = argv[i];
    assert(options[i - 1] == word);
    let m: int = if word == "--"@ + "port"@ || word == seq!['-', 'p'] {
        1
    } else if word == "--"@ + "host"@ || word == seq!['-', 'h'] {
        2
    } else if word == "--"@ + "restart-condition"@ {
        4
    } else {
        6
    };
    let spec = spec_of(full_items()[m]);
    if word == "--"@ + spec.long->0 {
        assert(word =~= "--"@ + spec.long->0 + Seq::<char>::empty());
        lemma_long_mentions_only(word, Seq::empty(), m);
        assert(attaching(spec).len() > word.len());
        assert(spec.short is Some ==> "-"@.push(spec.short->0)[1] != word[1]);
    } else {
        lemma_short_mentions_only(word, m);
        assert(attaching(spec)[1] == '-' && word[1] != '-');
    }
    assert(attached(word, spec) is None);
    let n = lemma_every_word_has_its_place(options, i - 1);
    assert(!stands_apart(word)) by {
        assert(word.len() >= 2 && word[0] == '-');
        assert("-"@ =~= word.subrange(0, 1));
    }
    assert(full_items()[n] is Arg && mentions_in(word, spec_of(full_items()[n])));
    assert(n == m);
    assert(is_option_pair(full_items()[m], word, options[i]));
    assert(options[i] == argv[i + 1]);
    let value = argv[i + 1];
    assert(value.len() == 0 || value[0] != '-' || value.len() == 1) by {
        if value.len() > 0 && value[0] == '-' {
            assert("-"@ =~= value.subrange(0, 1));
        }
    }
    if m == 1 && number_in(ValueKind::Number16, value) is Some {
        if value.len() == 1 && value[0] == '-' {
            assert(value.skip(1).len() == 0);
        }
    }
    assert("--"@ + "port"@ != "--"@ + "restart-condition-sleep"@) by {
        assert(("--"@ + "port"@).len() != ("--"@ + "restart-condition-sleep"@).len());
    }
    assert(seq!['-', 'p'].len() != ("--"@ + "restart-condition-sleep"@).len());
}

/// Every word before the `--` of an accepted command line is known: a flag, the name of an option
/// or the beginning of a word with one and its value, or the value after a name.
pub proof fn law_every_word_is_known(argv: Seq<Seq<char>>, k: int, i: int)
    requires
        1 <= i < k < argv.len(),
        argv[k] == "--"@,
        forall|j: int| 1 <= j < k ==> #[trigger] argv[j] != "--"@,
        accepted(full_items(), argv),
    ensures
        ({
            let word = argv[i];
            let before = argv[i - 1];
            ||| word == "--"@ + "quiet"@ || word == "--"@ + "fail-atleast-once"@ || word == "--"@
                + "markdown-help"@
            ||| ("--"@ + "port"@).is_prefix_of(word) || ("--"@ + "host"@).is_prefix_of(word)
            ||| ("--"@ + "restart-condition"@).is_prefix_of(word) || ("--"@
                + "restart-condition-sleep"@).is_prefix_of(word)
            ||| seq!['-', 'p'].is_prefix_of(word) || seq!['-', 'h'].is_prefix_of(word)
            ||| i > 1 && (before == "--"@ + "port"@ || before == "--"@ + "host"@ || before
                == "--"@ + "restart-condition"@ || before == "--"@ + "restart-condition-sleep"@
                || before == seq!['-', 'p'] || before == seq!['-', 'h'])
        }),
{
    lemma_items();
    lemma_literals();
    lemma_options_of_accepted(argv, k);
    let options = argv.subrange(1, k);
    assert(options[i - 1] == argv[i]);
    let n = lemma_every_word_has_its_place(options, i - 1);
    let spec = spec_of(full_items()[n]);
    assert("-"@.push('p') =~= seq!['-', 'p']);
    assert("-"@.push('h') =~= seq!['-', 'h']);
    if is_flag_word(full_items()[n], argv[i]) {
        assert(n == 5 || n == 7 || n == 8);
    } else if i > 1 && is_option_pair(full_items()[n], options[i - 2], options[i - 1]) {
        assert(options[i - 2] == argv[i - 1]);
        assert(n == 1 || n == 2 || n == 4 || n == 6);
    } else {
        assert(mentions_in(argv[i], spec));
        assert(n == 1 || n == 2 || n == 4 || n == 6);
        lemma_prefix_of_mention(argv[i], spec);
    }
}

/// Help is given where it is asked for after nothing that is wrong: the words before the `--` of
/// an accepted command line, then a request for help or for the version, then anything.
pub proof fn law_help_is_given(
    argv: Seq<Seq<char>>,
    k: int,
    request: Seq<char>,
    rest: Seq<Seq<char>>,
)
    requires
        1 <= k < argv.len(),
        argv[k] == "--"@,
        forall|j: int| 1 <= j < k ==> #[trigger] argv[j] != "--"@,
        accepted(full_items(), argv),
        request == "--"@ + "help"@ || request == "--version"@ || "-V"@.is_prefix_of(request),
    ensures
        asks_for_help(full_items(), argv.take(k) + seq![request] + rest),
{
    lemma_items();
    lemma_options_of_accepted(argv, k);
    let line = argv.take(k) + seq![request] + rest;
    assert(line[k] == request);
    assert(line.subrange(1, k) =~= argv.subrange(1, k));
    if request == "--"@ + "help"@ {
        assert(is_help_word(full_items()[9], request));
    }
    assert(is_request(full_items(), line[k]));
}

/// Help is given only where it is asked for.
pub proof fn law_help_is_given_only_where_asked_for(argv: Seq<Seq<char>>)
    requires
        forall|i: int| #![trigger argv[i]]
            1 <= i < argv.len() ==> argv[i] != "--"@ + "help"@ && argv[i] != "--version"@
                && !"-V"@.is_prefix_of(argv[i]),
    ensures
        !asks_for_help(full_items(), argv),
{
    lemma_items();
    if asks_for_help(full_items(), argv) {
        let i = choose|i: int|
            1 <= i < argv.len() && is_request(full_items(), #[trigger] argv[i]) && plain_options(
                full_items(),
                argv.subrange(1, i),
            );
        let n = choose|n: int|
            0 <= n < full_items().len() && is_help_word(#[trigger] full_items()[n], argv[i]);
        assert(n == 9);
    }
}

/// The message of a rejected command line is fixed whatever the name of the program is, but for
/// one with a backslash or a colon in it, or with two `/` at its beginning.
pub proof fn law_messages_are_fixed_for_most_names(argv: Seq<Seq<char>>)
    requires
        argv.len() > 0 ==> forall|i: int|
            0 <= i < argv[0].len() ==> (#[trigger] argv[0][i]) != '\\' && argv[0][i] != ':',
        argv.len() > 0 ==> argv[0].len() < 2 || argv[0][0] != '/' || argv[0][1] != '/',
    ensures
        program_name_is_plain(argv),
{
}

} // verus!
