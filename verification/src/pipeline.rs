use vstd::prelude::*;

verus! {

/// How one call of the language pipeline on one unit of source text ended.
#[derive(Debug, PartialEq, Eq)]
pub enum PipelineResult {
    /// The pipeline accepted the text and ran it.
    Success,
    /// The pipeline rejected the text, with its diagnostic message.
    Failure(String),
}

impl PipelineResult {
    /// An owned copy of this result.
    pub fn duplicate(&self) -> (r: PipelineResult)
        ensures
            r == *self,
    {
        match self {
            PipelineResult::Success => PipelineResult::Success,
            PipelineResult::Failure(message) => PipelineResult::Failure(message.clone()),
        }
    }
}

/// Why a whole invocation failed.
#[derive(Debug, PartialEq, Eq)]
pub enum ErrorKind {
    /// The input file could not be read, or the interactive stream broke.
    IoFailure,
    /// The pipeline rejected the source text, with its diagnostic message.
    PipelineFailure(String),
}

/// A scripted pipeline sink: records every unit of source text it is handed
/// and answers each call from a fixed list of responses (`Success` once the
/// list runs out). It stands in for the scanner/parser/evaluator, which is
/// outside this library; the drivers are verified against it for every
/// possible list of responses.
#[derive(Debug)]
pub struct ScriptedSink {
    /// Every unit of source text the sink has been handed, oldest first.
    pub received: Vec<String>,
    /// The response to the k-th call, for k within the list.
    pub responses: Vec<PipelineResult>,
}

impl ScriptedSink {
    /// The text handed to the sink so far, as sequences of characters.
    pub open spec fn log(&self) -> Seq<Seq<char>> {
        Seq::new(self.received@.len(), |i: int| self.received@[i]@)
    }

    /// The response the sink will give to its next call.
    pub open spec fn next_response(&self) -> PipelineResult {
        if self.received@.len() < self.responses@.len() {
            self.responses@[self.received@.len() as int]
        } else {
            PipelineResult::Success
        }
    }

    /// A sink that has seen nothing and will answer from `responses`.
    pub fn new(responses: Vec<PipelineResult>) -> (s: ScriptedSink)
        ensures
            s.log() == Seq::<Seq<char>>::empty(),
            s.received@.len() == 0,
            s.responses == responses,
    {
        let s = ScriptedSink { received: Vec::new(), responses };
        proof {
            assert(s.log() =~= Seq::<Seq<char>>::empty());
        }
        s
    }

    /// Consumes one unit of source text: records it and answers with the next
    /// scripted response.
    pub fn run(&mut self, text: &String) -> (r: PipelineResult)
        ensures
            final(self).log() == old(self).log().push(text@),
            final(self).received@ == old(self).received@.push(*text),
            final(self).responses == old(self).responses,
            r == old(self).next_response(),
    {
        let index = self.received.len();
        self.received.push(text.clone());
        proof {
            assert(self.log() =~= old(self).log().push(text@));
        }
        if index < self.responses.len() {
            self.responses[index].duplicate()
        } else {
            PipelineResult::Success
        }
    }
}

} // verus!
