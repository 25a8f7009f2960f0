use vstd::prelude::*;
use crate::error::PipelineError;
use crate::transcript::{
    all_ready, assemble, assembled_from, byte_len, first_failure, joined_text, read_error,
    ready_segments, SegmentRead, TranscriptionResult,
};

verus! {

/// What came back from one guarded inference run.
#[derive(Clone, Debug)]
pub enum EngineOutcome {
    /// The engine's lock was poisoned; carries the lock's diagnostic.
    LockPoisoned(String),
    /// The engine reported an error; carries its diagnostic.
    Failed(String),
    /// The engine finished; carries the read of each segment, in order.
    Finished(Vec<SegmentRead>),
}

/// Every run that finished reports few enough segments, and short enough text,
/// for indices and byte offsets to fit their types.
pub open spec fn outcome_fits(outcome: EngineOutcome) -> bool {
    match outcome {
        EngineOutcome::Finished(reads) => {
            &&& reads@.len() <= i32::MAX
            &&& all_ready(reads@) ==> byte_len(
                joined_text(ready_segments(reads@), reads@.len() as int),
            ) <= usize::MAX
        },
        _ => true,
    }
}

/// Turns the outcome of an inference run into the request's result: a lock or
/// engine failure is passed on as such, and a finished run is assembled.
pub fn complete_transcription(outcome: EngineOutcome) -> (r: Result<
    TranscriptionResult,
    PipelineError,
>)
    requires
        outcome_fits(outcome),
    ensures
        match outcome {
            EngineOutcome::LockPoisoned(m) => r == Err::<TranscriptionResult, PipelineError>(
                PipelineError::LockAcquisitionFailed(m),
            ),
            EngineOutcome::Failed(m) => r == Err::<TranscriptionResult, PipelineError>(
                PipelineError::EngineFailure(m),
            ),
            EngineOutcome::Finished(reads) => {
                &&& r is Ok <==> all_ready(reads@)
                &&& r is Ok ==> assembled_from(r->Ok_0, ready_segments(reads@))
                &&& r is Err ==> exists|i: int|
                    first_failure(reads@, i) && r->Err_0 == read_error(#[trigger] reads@[i], i)
            },
        },
{
    match outcome {
        EngineOutcome::LockPoisoned(m) => Err(PipelineError::LockAcquisitionFailed(m)),
        EngineOutcome::Failed(m) => Err(PipelineError::EngineFailure(m)),
        EngineOutcome::Finished(reads) => assemble(reads),
    }
}

} // verus!
