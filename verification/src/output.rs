//! The output of the command: what is made of the lines that it writes, which are passed on, and
//! how they are shown.

use crate::text::join;
use vstd::prelude::*;

verus! {

/// A line without the end of line that it may have, which is `\n` or `\r\n`.
pub open spec fn without_end(raw: Seq<char>) -> Seq<char> {
    if raw.len() > 0 && raw.last() == '\n' {
        let line = raw.drop_last();
        if line.len() > 0 && line.last() == '\r' {
            line.drop_last()
        } else {
            line
        }
    } else {
        raw
    }
}

/// What is made of a line as the command wrote it, with the end of line that it may have: where
/// only the output is wanted it stays as it is, else it loses its end.
pub open spec fn received(quiet: bool, raw: Seq<char>) -> Seq<char> {
    if quiet {
        raw
    } else {
        without_end(raw)
    }
}

/// Takes a line as the command wrote it, with the end of line that it may have.
pub fn receive_line(quiet: bool, raw: &str) -> (res: String)
    ensures
        res@ == received(quiet, raw@),
{
    if quiet {
        return raw.to_string();
    }
    let mut end: usize = raw.unicode_len();
    if end > 0 && raw.get_char(end - 1) == '\n' {
        end = end - 1;
        if end > 0 && raw.get_char(end - 1) == '\r' {
            end = end - 1;
        }
    }
    assert(raw@.subrange(0, end as int) =~= without_end(raw@));
    raw.substring_char(0, end).to_string()
}

/// What to do with what a stream of output lines gave.
#[derive(Debug)]
pub enum StreamStep {
    /// Pass this line on, and read on.
    Forward(String),
    /// Read on.
    Skip,
    /// The stream has ended.
    Done,
}

/// What a [`StreamStep`] says.
pub enum StreamStepV {
    Forward(Seq<char>),
    Skip,
    Done,
}

impl View for StreamStep {
    type V = StreamStepV;

    open spec fn view(&self) -> StreamStepV {
        match self {
            StreamStep::Forward(line) => StreamStepV::Forward(line@),
            StreamStep::Skip => StreamStepV::Skip,
            StreamStep::Done => StreamStepV::Done,
        }
    }
}

/// What to do with an item of a stream; `None` stands for a line that could not be read.
pub open spec fn stream_step(item: Option<Option<Seq<char>>>) -> StreamStepV {
    match item {
        Some(Some(line)) => StreamStepV::Forward(line),
        Some(None) => StreamStepV::Skip,
        None => StreamStepV::Done,
    }
}

/// The text of an item of a stream.
pub open spec fn item_text(item: Option<Result<String, String>>) -> Option<Option<Seq<char>>> {
    match item {
        Some(Ok(line)) => Some(Some(line@)),
        Some(Err(_)) => Some(None),
        None => None,
    }
}

/// Takes the next item of a stream of output lines; `Err` says why a line could not be read.
pub fn stream_output(item: Option<Result<String, String>>) -> (res: StreamStep)
    ensures
        res@ == stream_step(item_text(item)),
{
    match item {
        Some(Ok(line)) => StreamStep::Forward(line),
        Some(Err(_)) => StreamStep::Skip,
        None => StreamStep::Done,
    }
}

/// The lines passed on from a stream that gives `items` and then ends.
pub open spec fn forwarded(items: Seq<Option<Seq<char>>>) -> Seq<Seq<char>>
    decreases items.len(),
{
    if items.len() == 0 {
        Seq::empty()
    } else {
        let rest = forwarded(items.drop_first());
        match stream_step(Some(items[0])) {
            StreamStepV::Forward(line) => seq![line] + rest,
            StreamStepV::Skip => rest,
            StreamStepV::Done => Seq::empty(),
        }
    }
}

/// A line of output as it is written: as it is where only the output is wanted, else marked and
/// on a line of its own.
pub open spec fn rendered(quiet: bool, line: Seq<char>) -> Seq<char> {
    if quiet {
        line
    } else {
        "Output: "@ + line + "\n"@
    }
}

/// A line of output as it is written.
pub fn render_output(quiet: bool, line: &str) -> (res: String)
    ensures
        res@ == rendered(quiet, line@),
{
    if quiet {
        line.to_string()
    } else {
        let mut res = join("Output: ", line);
        res.append("\n");
        res
    }
}

/// What is written for a series of lines of output.
pub open spec fn shown(quiet: bool, lines: Seq<Seq<char>>) -> Seq<char>
    decreases lines.len(),
{
    if lines.len() == 0 {
        Seq::empty()
    } else {
        rendered(quiet, lines[0]) + shown(quiet, lines.drop_first())
    }
}

/// What is made of a series of lines as the command wrote them.
pub open spec fn received_all(quiet: bool, raws: Seq<Seq<char>>) -> Seq<Seq<char>> {
    raws.map_values(|raw: Seq<char>| received(quiet, raw))
}

/// Where only the output is wanted, what is written is what the command wrote, to the last end
/// of line: nothing is added, and nothing is left out.
pub proof fn law_quiet_passes_output_through(raws: Seq<Seq<char>>)
    ensures
        shown(true, received_all(true, raws)) == raws.flatten(),
    decreases raws.len(),
{
    assert(received_all(true, raws) =~= raws);
    if raws.len() > 0 {
        law_quiet_passes_output_through(raws.drop_first());
        assert(received_all(true, raws.drop_first()) =~= raws.drop_first());
    }
}

/// With a log, a line loses its end of line and nothing else: whatever end it had, its text is
/// what is received. Without one it loses nothing.
pub proof fn law_a_line_loses_only_its_end(text: Seq<char>)
    ensures
        received(true, text) == text,
        received(false, text.push('\r').push('\n')) == text,
        !(text.len() > 0 && text.last() == '\r') ==> received(false, text.push('\n')) == text,
        !(text.len() > 0 && text.last() == '\n') ==> received(false, text) == text,
{
    assert(text.push('\r').push('\n').drop_last() =~= text.push('\r'));
    assert(text.push('\r').drop_last() =~= text);
    assert(text.push('\n').drop_last() =~= text);
}

/// With a log, a line is shown whole behind its mark, on a line of its own; without one, it is
/// shown as it is.
pub proof fn law_a_line_is_shown_behind_its_mark(line: Seq<char>)
    ensures
        rendered(true, line) == line,
        rendered(false, line) == "Output: "@ + line + "\n"@,
        rendered(false, line).len() == line.len() + 9,
{
    reveal_strlit("Output: ");
    reveal_strlit("\n");
}

/// With a log, what is written for the lines of a command is the text of each of them, in order,
/// behind its mark and on a line of its own, whatever end of line it had.
pub proof fn law_every_line_is_shown_with_its_text(raws: Seq<Seq<char>>, texts: Seq<Seq<char>>)
    requires
        raws.len() == texts.len(),
        forall|i: int| #![trigger texts[i]]
            0 <= i < texts.len() ==> !(texts[i].len() > 0 && (texts[i].last() == '\r'
                || texts[i].last() == '\n')) && (raws[i] == texts[i] || raws[i] == texts[i].push(
                '\n',
            ) || raws[i] == texts[i].push('\r').push('\n')),
    ensures
        shown(false, received_all(false, raws)) == texts.map_values(
            |text: Seq<char>| "Output: "@ + text + "\n"@,
        ).flatten(),
    decreases raws.len(),
{
    let marked = |text: Seq<char>| "Output: "@ + text + "\n"@;
    let lines = received_all(false, raws);
    if raws.len() > 0 {
        law_a_line_loses_only_its_end(texts[0]);
        assert(lines[0] == texts[0]);
        let (rest_raws, rest_texts) = (raws.drop_first(), texts.drop_first());
        assert forall|i: int| #![trigger rest_texts[i]]
            0 <= i < rest_texts.len() implies !(rest_texts[i].len() > 0 && (rest_texts[i].last()
            == '\r' || rest_texts[i].last() == '\n')) && (rest_raws[i] == rest_texts[i]
            || rest_raws[i] == rest_texts[i].push('\n') || rest_raws[i] == rest_texts[i].push(
            '\r',
        ).push('\n')) by {
            assert(rest_texts[i] == texts[i + 1]);
        }
        law_every_line_is_shown_with_its_text(rest_raws, rest_texts);
        assert(lines.drop_first() =~= received_all(false, rest_raws));
        assert(texts.map_values(marked).drop_first() =~= rest_texts.map_values(marked));
        assert(texts.map_values(marked).first() == marked(texts[0]));
    }
}

/// A line that could be read is passed on as it is, one that could not is passed over, and only
/// the end of the stream ends the reading.
pub proof fn law_readable_lines_are_passed_on(line: String, error: String)
    ensures
        stream_step(item_text(Some(Ok(line)))) == StreamStepV::Forward(line@),
        stream_step(item_text(Some(Err(error)))) is Skip,
        stream_step(item_text(None)) is Done,
{
}

/// Each text is a line as it is read: it holds no end of line but at its end.
pub open spec fn are_raw_lines(raws: Seq<Seq<char>>) -> bool {
    forall|i: int, j: int|
        0 <= i < raws.len() && 0 <= j < raws[i].len() - 1 ==> #[trigger] raws[i][j] != '\n'
}

/// Each text is a line: it holds no end of line.
pub open spec fn are_lines(lines: Seq<Seq<char>>) -> bool {
    forall|i: int, j: int|
        0 <= i < lines.len() && 0 <= j < lines[i].len() ==> #[trigger] lines[i][j] != '\n'
}

/// With a log, no line of output is lost, changed or run into the next by how it is shown: what
/// is written tells which lines there were.
pub proof fn law_output_is_shown_whole(a: Seq<Seq<char>>, b: Seq<Seq<char>>)
    requires
        are_raw_lines(a),
        are_raw_lines(b),
    ensures
        shown(false, received_all(false, a)) == shown(false, received_all(false, b)) ==> received_all(
            false,
            a,
        ) == received_all(false, b),
{
    lemma_received_are_lines(a);
    lemma_received_are_lines(b);
    lemma_lines_can_be_told(received_all(false, a), received_all(false, b));
}

/// Lines that have lost their ends hold none.
proof fn lemma_received_are_lines(raws: Seq<Seq<char>>)
    requires
        are_raw_lines(raws),
    ensures
        are_lines(received_all(false, raws)),
{
    let lines = received_all(false, raws);
    assert forall|i: int, j: int|
        0 <= i < lines.len() && 0 <= j < lines[i].len() implies #[trigger] lines[i][j] != '\n' by {
        assert(lines[i] == without_end(raws[i]));
        assert(lines[i][j] == raws[i][j]);
    }
}

/// What is written, with a log, for two series of lines is the same only where the lines are.
proof fn lemma_lines_can_be_told(a: Seq<Seq<char>>, b: Seq<Seq<char>>)
    requires
        are_lines(a),
        are_lines(b),
    ensures
        shown(false, a) == shown(false, b) ==> a == b,
    decreases a.len(),
{
    reveal_strlit("\n");
    let mark = "Output: "@.len() as int;
    let (left, right) = (shown(false, a), shown(false, b));
    if left == right && a.len() > 0 && b.len() > 0 {
        assert forall|j: int| 0 <= j < a[0].len() implies left[mark + j] == a[0][j] by {}
        assert forall|j: int| 0 <= j < b[0].len() implies right[mark + j] == b[0][j] by {}
        assert(left[mark + a[0].len()] == '\n');
        assert(right[mark + b[0].len()] == '\n');
        assert(a[0].len() == b[0].len()) by {
            if a[0].len() < b[0].len() {
                assert(b[0][a[0].len() as int] != '\n');
            } else if b[0].len() < a[0].len() {
                assert(a[0][b[0].len() as int] != '\n');
            }
        }
        assert(a[0] =~= b[0]) by {
            assert forall|j: int| 0 <= j < a[0].len() implies a[0][j] == b[0][j] by {
                assert(left[mark + j] == right[mark + j]);
            }
        }
        let (rest_a, rest_b) = (a.drop_first(), b.drop_first());
        let head = rendered(false, a[0]);
        assert(shown(false, rest_a) =~= left.skip(head.len() as int));
        assert(shown(false, rest_b) =~= right.skip(head.len() as int));
        assert(are_lines(rest_a)) by {
            assert forall|i: int, j: int|
                0 <= i < rest_a.len() && 0 <= j < rest_a[i].len() implies #[trigger] rest_a[i][j]
                != '\n' by {
                assert(a[i + 1][j] != '\n');
            }
        }
        assert(are_lines(rest_b)) by {
            assert forall|i: int, j: int|
                0 <= i < rest_b.len() && 0 <= j < rest_b[i].len() implies #[trigger] rest_b[i][j]
                != '\n' by {
                assert(b[i + 1][j] != '\n');
            }
        }
        lemma_lines_can_be_told(rest_a, rest_b);
        assert(a =~= seq![a[0]] + rest_a);
        assert(b =~= seq![b[0]] + rest_b);
    } else if left == right {
        assert(a.len() > 0 ==> left.len() >= rendered(false, a[0]).len() > 0);
        assert(b.len() > 0 ==> right.len() >= rendered(false, b[0]).len() > 0);
        assert(a.len() == 0 && b.len() == 0);
        assert(a =~= b);
    }
}

/// Every line that could be read is passed on, in order, and nothing else is: where all of
/// them can be read, the lines passed on are the lines of the stream.
pub proof fn law_every_line_is_forwarded(items: Seq<Option<Seq<char>>>)
    ensures
        forwarded(items) =~= items.filter(|item: Option<Seq<char>>| item is Some).map_values(
            |item: Option<Seq<char>>| item->0,
        ),
        (forall|i: int| 0 <= i < items.len() ==> items[i] is Some) ==> forwarded(items)
            =~= items.map_values(|item: Option<Seq<char>>| item->0),
    decreases items.len(),
{
    let readable = |item: Option<Seq<char>>| item is Some;
    let text = |item: Option<Seq<char>>| item->0;
    if items.len() == 0 {
        reveal(Seq::filter);
    } else {
        let head = items[0];
        let tail = items.drop_first();
        law_every_line_is_forwarded(tail);
        Seq::filter_distributes_over_add(seq![head], tail, readable);
        assert(seq![head] + tail =~= items);
        assert(seq![head].filter(readable) =~= if readable(head) {
            seq![head]
        } else {
            Seq::empty()
        }) by {
            reveal(Seq::filter);
            assert(seq![head].drop_last() =~= Seq::empty());
            assert(Seq::<Option<Seq<char>>>::empty().filter(readable) =~= Seq::empty());
        }
        assert(forwarded(items) =~= items.filter(readable).map_values(text));
    }
}

} // verus!
