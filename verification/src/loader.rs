use vstd::prelude::*;

use crate::pipeline::{ErrorKind, PipelineResult, ScriptedSink};

verus! {

/// The text that lossy UTF-8 decoding yields for the given bytes; a function
/// of the bytes alone.
pub uninterp spec fn lossy_utf8(bytes: Seq<u8>) -> Seq<char>;

/// Relies on String::from_utf8_lossy: decoding never fails, invalid sequences
/// are replaced rather than rejected, and the result depends on the bytes
/// alone.
#[verifier::external_body]
fn decode_lossy(bytes: &Vec<u8>) -> (r: String)
    ensures
        r@ == lossy_utf8(bytes@),
{
    String::from_utf8_lossy(bytes).into_owned()
}

/// Turns the result of reading a file (its bytes, or nothing when the read
/// failed) into the source text to execute. A failed read is an `IoFailure`
/// and yields no text, so the pipeline is never reached; any bytes decode.
pub fn load_source(read: Option<Vec<u8>>) -> (r: Result<String, ErrorKind>)
    ensures
        read is None ==> r == Err::<String, ErrorKind>(ErrorKind::IoFailure),
        read matches Some(bytes) ==> (r matches Ok(source) && source@ == lossy_utf8(bytes@)),
{
    match read {
        None => Err(ErrorKind::IoFailure),
        Some(bytes) => Ok(decode_lossy(&bytes)),
    }
}

/// Classifies one pipeline outcome for file mode: a rejection becomes a
/// `PipelineFailure` carrying the pipeline's message.
pub fn file_verdict(outcome: PipelineResult) -> (r: Result<(), ErrorKind>)
    ensures
        outcome is Success ==> r == Ok::<(), ErrorKind>(()),
        outcome matches PipelineResult::Failure(message) ==> r == Err::<(), ErrorKind>(
            ErrorKind::PipelineFailure(message),
        ),
{
    match outcome {
        PipelineResult::Success => Ok(()),
        PipelineResult::Failure(message) => Err(ErrorKind::PipelineFailure(message)),
    }
}

/// File-mode execution against a scripted sink. When the read failed, the
/// sink is never called and the run fails with `IoFailure`; otherwise the
/// decoded text is handed to the sink exactly once and the sink's answer
/// decides the outcome.
pub fn run_file(read: Option<Vec<u8>>, sink: &mut ScriptedSink) -> (r: Result<(), ErrorKind>)
    ensures
        read is None ==> (r == Err::<(), ErrorKind>(ErrorKind::IoFailure) && *final(sink) == *old(
            sink,
        )),
        read matches Some(bytes) ==> {
            &&& final(sink).log() == old(sink).log().push(lossy_utf8(bytes@))
            &&& final(sink).responses == old(sink).responses
            &&& (old(sink).next_response() is Success ==> r == Ok::<(), ErrorKind>(()))
            &&& (old(sink).next_response() matches PipelineResult::Failure(message) ==> r == Err::<
                (),
                ErrorKind,
            >(ErrorKind::PipelineFailure(message)))
        },
{
    match load_source(read) {
        Err(e) => Err(e),
        Ok(source) => {
            let outcome = sink.run(&source);
            file_verdict(outcome)
        },
    }
}

} // verus!
