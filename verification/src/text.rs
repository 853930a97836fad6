//! Building the texts of replies and log lines.

use vstd::prelude::*;

verus! {

/// The texts of a list of strings.
pub open spec fn words(list: Seq<String>) -> Seq<Seq<char>> {
    Seq::new(list.len(), |i: int| list[i]@)
}

/// The text of an optional string.
pub open spec fn opt_text(text: Option<String>) -> Option<Seq<char>> {
    match text {
        Some(s) => Some(s@),
        None => None,
    }
}

/// The character that stands for a decimal digit.
pub open spec fn digit_char(d: nat) -> char {
    (d + 48) as char
}

/// The decimal notation of a number: no sign and no leading zeros.
pub open spec fn digits(n: nat) -> Seq<char>
    decreases n,
{
    if n < 10 {
        seq![digit_char(n)]
    } else {
        digits(n / 10).push(digit_char(n % 10))
    }
}

/// The number that a sequence of decimal digits denotes.
pub open spec fn digits_value(s: Seq<char>) -> int
    decreases s.len(),
{
    if s.len() == 0 {
        0
    } else {
        10 * digits_value(s.drop_last()) + (s.last() as int - 48)
    }
}

/// The words `true` and `false`.
pub open spec fn bool_text(b: bool) -> Seq<char> {
    if b {
        "true"@
    } else {
        "false"@
    }
}

/// `Some(...)` around a text, or `None`.
pub open spec fn option_text(inner: Option<Seq<char>>) -> Seq<char> {
    match inner {
        Some(t) => "Some("@ + t + ")"@,
        None => "None"@,
    }
}

/// A process id as it stands in a log line.
pub open spec fn pid_text(pid: Option<u32>) -> Seq<char> {
    option_text(
        match pid {
            Some(n) => Some(digits(n as nat)),
            None => None,
        },
    )
}

/// Decimal notation loses nothing: the digits of a number denote that number.
pub proof fn law_digits_denote_the_number(n: nat)
    ensures
        digits_value(digits(n)) == n,
    decreases n,
{
    if n < 10 {
        let s = seq![digit_char(n)];
        assert(s.drop_last() =~= Seq::<char>::empty());
        assert(digits_value(s.drop_last()) == 0);
    } else {
        law_digits_denote_the_number(n / 10);
        assert(digits(n).drop_last() =~= digits(n / 10));
    }
}

/// Decimal notation is made of decimal digits, at least one of them, and begins with zero only
/// for zero itself.
pub proof fn law_digits_are_decimal(n: nat)
    ensures
        digits(n).len() > 0,
        forall|i: int| 0 <= i < digits(n).len() ==> '0' <= #[trigger] digits(n)[i] <= '9',
        digits(n)[0] == '0' ==> n == 0 && digits(n).len() == 1,
    decreases n,
{
    if n >= 10 {
        law_digits_are_decimal(n / 10);
        assert(digits(n)[0] == digits(n / 10)[0]);
    }
}

/// A sequence of digits denotes a number by its places: one digit more at its end makes it ten
/// times as great, and adds the digit.
pub proof fn law_digits_have_places(s: Seq<char>, c: char)
    ensures
        digits_value(Seq::<char>::empty()) == 0,
        digits_value(s.push(c)) == 10 * digits_value(s) + (c as int - '0' as int),
{
    assert(s.push(c).drop_last() =~= s);
}

/// How truth values, options and process ids are put into words.
pub proof fn law_words_for_values(text: Seq<char>, pid: u32)
    ensures
        bool_text(true) == "true"@,
        bool_text(false) == "false"@,
        option_text(Some(text)) == "Some("@ + text + ")"@,
        option_text(None) == "None"@,
        pid_text(Some(pid)) == "Some("@ + digits(pid as nat) + ")"@,
        pid_text(None) == "None"@,
{
}

/// `a` followed by `b`.
pub(crate) fn join(a: &str, b: &str) -> (res: String)
    ensures
        res@ == a@ + b@,
{
    let mut s = a.to_string();
    s.append(b);
    s
}

/// One decimal digit.
fn digit(d: u64) -> (res: &'static str)
    requires
        d < 10,
    ensures
        res@ == seq![digit_char(d as nat)],
{
    let res: &'static str = if d == 0 {
        "0"
    } else if d == 1 {
        "1"
    } else if d == 2 {
        "2"
    } else if d == 3 {
        "3"
    } else if d == 4 {
        "4"
    } else if d == 5 {
        "5"
    } else if d == 6 {
        "6"
    } else if d == 7 {
        "7"
    } else if d == 8 {
        "8"
    } else {
        "9"
    };
    proof {
        reveal_strlit("0");
        reveal_strlit("1");
        reveal_strlit("2");
        reveal_strlit("3");
        reveal_strlit("4");
        reveal_strlit("5");
        reveal_strlit("6");
        reveal_strlit("7");
        reveal_strlit("8");
        reveal_strlit("9");
    }
    assert(res@ =~= seq![digit_char(d as nat)]);
    res
}

/// A number in decimal notation.
pub fn decimal(n: u64) -> (res: String)
    ensures
        res@ == digits(n as nat),
    decreases n,
{
    if n < 10 {
        digit(n).to_string()
    } else {
        let mut s = decimal(n / 10);
        s.append(digit(n % 10));
        assert(s@ =~= digits(n as nat));
        s
    }
}

/// The words `true` and `false`.
pub(crate) fn bool_word(b: bool) -> (res: &'static str)
    ensures
        res@ == bool_text(b),
{
    if b {
        "true"
    } else {
        "false"
    }
}

/// `Some(...)` around a text.
pub(crate) fn some_of(inner: &str) -> (res: String)
    ensures
        res@ == option_text(Some(inner@)),
{
    let mut s = join("Some(", inner);
    s.append(")");
    s
}

/// A process id as it stands in a log line.
pub(crate) fn pid_word(pid: Option<u32>) -> (res: String)
    ensures
        res@ == pid_text(pid),
{
    match pid {
        Some(n) => some_of(decimal(n as u64).as_str()),
        None => "None".to_string(),
    }
}

} // verus!
