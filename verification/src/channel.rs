//! The two ends of the line-oriented channel to the external process: what
//! the reader does with each read, and how an outbound message is framed.

use vstd::prelude::*;

verus! {

/// The outcome of one blocking read of a line from standard input.
#[derive(Debug)]
pub enum ReadOutcome {
    /// The read succeeded; at the end of the input the line is empty.
    Line(String),
    /// The read failed.
    Failed,
}

/// What the reader does after one read.
#[derive(Debug)]
pub enum ReaderStep {
    /// Forward the line to the event loop, then read again.
    Forward(String),
    /// Stop reading; nothing is forwarded.
    Stop,
}

/// A [`ReadOutcome`] as a mathematical value: the line, if one was read.
pub open spec fn line_of(outcome: ReadOutcome) -> Option<Seq<char>> {
    match outcome {
        ReadOutcome::Line(s) => Some(s@),
        ReadOutcome::Failed => None,
    }
}

/// The lines that reach the event loop for a run of reads: every line up to
/// the first failed read, in the order in which they were read.
pub open spec fn forwarded(reads: Seq<Option<Seq<char>>>) -> Seq<Seq<char>>
    decreases reads.len(),
{
    if reads.len() == 0 {
        seq![]
    } else {
        match reads[0] {
            Some(line) => seq![line] + forwarded(reads.drop_first()),
            None => seq![],
        }
    }
}

/// The line of an outbound message: its text and one newline.
pub open spec fn framed(message: Seq<char>) -> Seq<char> {
    message.push('\n')
}

/// What standard output holds after the messages were written one by one.
pub open spec fn emitted(messages: Seq<Seq<char>>) -> Seq<char>
    decreases messages.len(),
{
    if messages.len() == 0 {
        seq![]
    } else {
        emitted(messages.drop_last()) + framed(messages.last())
    }
}

/// Decides the reader's next step: a line that was read is forwarded as it
/// is, a failed read ends the reader and forwards nothing.
pub fn on_read(outcome: ReadOutcome) -> (step: ReaderStep)
    ensures
        match step {
            ReaderStep::Forward(line) => line_of(outcome) == Some(line@),
            ReaderStep::Stop => line_of(outcome) is None,
        },
{
    match outcome {
        ReadOutcome::Line(line) => ReaderStep::Forward(line),
        ReadOutcome::Failed => ReaderStep::Stop,
    }
}

/// Frames one message of the content surface for standard output: the text,
/// byte for byte, followed by a newline.
pub fn frame(message: &str) -> (line: String)
    ensures
        line@ == framed(message@),
{
    let mut line = String::from_str(message);
    line.append("\n");
    proof {
        reveal_strlit("\n");
        assert("\n"@ =~= seq!['\n']);
        assert(message@ + seq!['\n'] =~= message@.push('\n'));
    }
    line
}

/// While no read fails, every line is forwarded, and in the order read.
pub proof fn lemma_forwarded_all(reads: Seq<Option<Seq<char>>>)
    requires
        forall|i: int| 0 <= i < reads.len() ==> reads[i] is Some,
    ensures
        forwarded(reads).len() == reads.len(),
        forall|i: int| 0 <= i < reads.len() ==> reads[i] == Some(#[trigger] forwarded(reads)[i]),
    decreases reads.len(),
{
    if reads.len() > 0 {
        let rest = reads.drop_first();
        lemma_forwarded_all(rest);
        assert forall|i: int| 0 <= i < reads.len() implies reads[i] == Some(
            #[trigger] forwarded(reads)[i],
        ) by {
            if i > 0 {
                assert(rest[i - 1] == reads[i]);
                assert(forwarded(reads)[i] == forwarded(rest)[i - 1]);
            }
        }
    }
}

/// Nothing that was read after a failed read is forwarded: the lines that
/// reach the event loop are those of the reads before the first failure.
pub proof fn lemma_forwarded_stops(reads: Seq<Option<Seq<char>>>, failed: int)
    requires
        0 <= failed < reads.len(),
        reads[failed] is None,
        forall|i: int| 0 <= i < failed ==> reads[i] is Some,
    ensures
        forwarded(reads) == forwarded(reads.take(failed)),
        forwarded(reads).len() == failed,
    decreases failed,
{
    if failed == 0 {
        assert(reads.take(0) =~= Seq::<Option<Seq<char>>>::empty());
    } else {
        let rest = reads.drop_first();
        lemma_forwarded_stops(rest, failed - 1);
        assert(reads.take(failed).drop_first() =~= rest.take(failed - 1));
        assert(reads.take(failed)[0] == reads[0]);
    }
}

/// Writing one more message appends exactly its line to what standard output
/// already holds; a framed line is the message followed by a single newline.
pub proof fn lemma_emitted_appends(messages: Seq<Seq<char>>, message: Seq<char>)
    ensures
        emitted(messages.push(message)) == emitted(messages) + framed(message),
        framed(message).len() == message.len() + 1,
        framed(message).last() == '\n',
        framed(message).drop_last() == message,
{
    assert(messages.push(message).drop_last() =~= messages);
    assert(framed(message).drop_last() =~= message);
}

/// Where the line of message `i` starts in what standard output holds.
pub open spec fn line_start(messages: Seq<Seq<char>>, i: int) -> int {
    emitted(messages.take(i)).len() as int
}

/// Standard output holds the lines of the messages in emission order: the
/// line of message `i` stands right after the lines of the messages before
/// it, and the line of the next message right after it.
pub proof fn lemma_emitted_in_order(messages: Seq<Seq<char>>, i: int)
    requires
        0 <= i < messages.len(),
    ensures
        line_start(messages, i + 1) == line_start(messages, i) + messages[i].len() + 1,
        line_start(messages, i + 1) <= emitted(messages).len(),
        emitted(messages).subrange(line_start(messages, i), line_start(messages, i + 1))
            == framed(messages[i]),
    decreases messages.len(),
{
    let front = messages.drop_last();
    let start = line_start(messages, i);
    let end = line_start(messages, i + 1);
    assert(messages.take(i + 1).drop_last() =~= messages.take(i));
    assert(messages.take(i + 1).last() == messages[i]);
    if i == messages.len() - 1 {
        assert(messages.take(i + 1) =~= messages);
        assert(emitted(messages).subrange(start, end) =~= framed(messages[i]));
    } else {
        lemma_emitted_in_order(front, i);
        assert(front.take(i) =~= messages.take(i));
        assert(front.take(i + 1) =~= messages.take(i + 1));
        assert(front[i] == messages[i]);
        assert(emitted(messages).subrange(start, end) =~= emitted(front).subrange(start, end));
    }
}

} // verus!
