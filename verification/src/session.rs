use vstd::prelude::*;

use crate::pipeline::{ErrorKind, PipelineResult, ScriptedSink};

verus! {

/// What one attempt to read a line from the interactive stream produced.
#[derive(Debug, PartialEq, Eq)]
pub enum ReadEvent {
    /// A line of input, its terminator included when there was one.
    Line(String),
    /// The stream signalled end-of-input: zero bytes read, not an empty line.
    EndOfInput,
    /// The read itself, or the prompt flush before it, failed.
    Failure,
}

/// What the session does next after one read.
#[derive(Debug, PartialEq, Eq)]
pub enum SessionStep {
    /// Hand this text to the pipeline and keep the session going.
    Dispatch(String),
    /// End the session with this outcome.
    Conclude(Result<(), ErrorKind>),
}

/// The decision the session takes on one read: a line is dispatched and the
/// session continues; end-of-input concludes it successfully; a failed read
/// or flush concludes it with an `IoFailure`.
pub fn session_on_read(event: ReadEvent) -> (step: SessionStep)
    ensures
        event matches ReadEvent::Line(text) ==> step == SessionStep::Dispatch(text),
        event is EndOfInput ==> step == SessionStep::Conclude(Ok::<(), ErrorKind>(())),
        event is Failure ==> step == SessionStep::Conclude(
            Err::<(), ErrorKind>(ErrorKind::IoFailure),
        ),
{
    match event {
        ReadEvent::Line(text) => SessionStep::Dispatch(text),
        ReadEvent::EndOfInput => SessionStep::Conclude(Ok(())),
        ReadEvent::Failure => SessionStep::Conclude(Err(ErrorKind::IoFailure)),
    }
}

/// Whether the session goes on after a pipeline answer: always. A rejected
/// line is reported by the pipeline itself and never ends the session.
pub fn session_continues_after(response: &PipelineResult) -> (cont: bool)
    ensures
        cont,
{
    match response {
        PipelineResult::Success => true,
        PipelineResult::Failure(_) => true,
    }
}

/// The text of every line the session dispatches to the pipeline on this
/// script of read events: the lines before the first event that ends the
/// session.
pub open spec fn dispatched_lines(events: Seq<ReadEvent>) -> Seq<Seq<char>>
    decreases events.len(),
{
    if events.len() == 0 {
        Seq::empty()
    } else {
        match events[0] {
            ReadEvent::Line(text) => seq![text@] + dispatched_lines(events.skip(1)),
            _ => Seq::empty(),
        }
    }
}

/// The session's outcome on this script: success at end-of-input (reading
/// past the script's end included), `IoFailure` at a failed read, whatever
/// the pipeline answered to the lines in between.
pub open spec fn session_outcome(events: Seq<ReadEvent>) -> Result<(), ErrorKind>
    decreases events.len(),
{
    if events.len() == 0 {
        Ok(())
    } else {
        match events[0] {
            ReadEvent::Line(_) => session_outcome(events.skip(1)),
            ReadEvent::EndOfInput => Ok(()),
            ReadEvent::Failure => Err(ErrorKind::IoFailure),
        }
    }
}

/// How many prompts the session writes on this script: one before every
/// read, the read that ends the session included.
pub open spec fn prompt_count(events: Seq<ReadEvent>) -> int
    decreases events.len(),
{
    if events.len() == 0 {
        1
    } else {
        match events[0] {
            ReadEvent::Line(_) => 1 + prompt_count(events.skip(1)),
            _ => 1,
        }
    }
}

/// What a whole interactive session did: its outcome, and how many prompts
/// it wrote to the output stream.
#[derive(Debug, PartialEq, Eq)]
pub struct SessionReport {
    pub outcome: Result<(), ErrorKind>,
    pub prompts: usize,
}

/// A whole interactive session against a scripted input and a scripted sink.
/// Events are read in order; every line before the first session-ending
/// event is handed to the sink, in order and whatever the sink answers;
/// end-of-input (the script's end included) concludes the session
/// successfully and a failed read concludes it with an `IoFailure`. One
/// prompt precedes every read.
#[verifier::loop_isolation(false)]
pub fn run_session(events: &Vec<ReadEvent>, sink: &mut ScriptedSink) -> (r: SessionReport)
    requires
        events@.len() < usize::MAX,
    ensures
        r.outcome == session_outcome(events@),
        r.prompts == prompt_count(events@),
        final(sink).log() == old(sink).log() + dispatched_lines(events@),
        final(sink).responses == old(sink).responses,
{
    let mut i: usize = 0;
    proof {
        assert(events@.skip(0) =~= events@);
    }
    loop
        invariant
            i <= events@.len(),
            sink.log() + dispatched_lines(events@.skip(i as int)) == old(sink).log()
                + dispatched_lines(events@),
            session_outcome(events@.skip(i as int)) == session_outcome(events@),
            i + prompt_count(events@.skip(i as int)) == prompt_count(events@),
            sink.responses == old(sink).responses,
        decreases events@.len() - i,
    {
        // one prompt is written to the output stream before each read
        if i == events.len() {
            proof {
                assert(events@.skip(i as int) =~= Seq::<ReadEvent>::empty());
                assert(sink.log() + dispatched_lines(events@.skip(i as int)) =~= sink.log());
            }
            return SessionReport { outcome: Ok(()), prompts: i + 1 };
        }
        match &events[i] {
            ReadEvent::Line(text) => {
                proof {
                    assert(events@.skip(i as int)[0] == events@[i as int]);
                    assert(events@.skip(i as int).skip(1) =~= events@.skip(i as int + 1));
                }
                let ghost pre = *sink;
                let _response = sink.run(text);
                proof {
                    assert(dispatched_lines(events@.skip(i as int)) == seq![text@]
                        + dispatched_lines(events@.skip(i as int + 1)));
                    assert(sink.log() + dispatched_lines(events@.skip(i as int + 1)) =~= pre.log()
                        + dispatched_lines(events@.skip(i as int)));
                }
                i = i + 1;
            },
            ReadEvent::EndOfInput => {
                proof {
                    assert(events@.skip(i as int)[0] == events@[i as int]);
                    assert(sink.log() + dispatched_lines(events@.skip(i as int)) =~= sink.log());
                }
                return SessionReport { outcome: Ok(()), prompts: i + 1 };
            },
            ReadEvent::Failure => {
                proof {
                    assert(events@.skip(i as int)[0] == events@[i as int]);
                    assert(sink.log() + dispatched_lines(events@.skip(i as int)) =~= sink.log());
                }
                return SessionReport { outcome: Err(ErrorKind::IoFailure), prompts: i + 1 };
            },
        }
    }
}

/// One rejected line never ends the session: on a script made only of lines,
/// every line is dispatched to the pipeline, in order, whatever the pipeline
/// answered to the lines before it, and the session then concludes
/// successfully at end-of-input.
pub proof fn lemma_session_processes_every_line(events: Seq<ReadEvent>)
    requires
        forall|j: int| 0 <= j < events.len() ==> (#[trigger] events[j]) is Line,
    ensures
        session_outcome(events) == Ok::<(), ErrorKind>(()),
        dispatched_lines(events).len() == events.len(),
        forall|j: int|
            0 <= j < events.len() ==> ((#[trigger] events[j]) matches ReadEvent::Line(text)
                && text@ == dispatched_lines(events)[j]),
    decreases events.len(),
{
    if events.len() > 0 {
        assert(events[0] is Line);
        assert forall|j: int| 0 <= j < events.skip(1).len() implies (#[trigger] events.skip(
            1,
        )[j]) is Line by {
            assert(events.skip(1)[j] == events[j + 1]);
        }
        lemma_session_processes_every_line(events.skip(1));
        match events[0] {
            ReadEvent::Line(text) => {
                assert(dispatched_lines(events) == seq![text@] + dispatched_lines(events.skip(1)));
                assert forall|j: int| 0 <= j < events.len() implies ((#[trigger] events[j]) matches
                    ReadEvent::Line(line) && line@ == dispatched_lines(events)[j]) by {
                    if j > 0 {
                        assert(events[j] == events.skip(1)[j - 1]);
                        assert(dispatched_lines(events)[j] == dispatched_lines(events.skip(1))[j
                            - 1]);
                    }
                }
            },
            _ => {
                assert(false);
            },
        }
    }
}

} // verus!
