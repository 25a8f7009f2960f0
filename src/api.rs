use vstd::prelude::*;
use crate::transcript::TranscriptionResult;

verus! {

/// Query parameters of a transcription request.
#[derive(Clone, Debug)]
pub struct TranscribeQuery {
    /// Language hint; `None` asks for automatic detection.
    pub language: Option<String>,
}

/// Body of a successful transcription response.
#[derive(Clone, Debug)]
pub struct TranscribeResponse {
    pub result: TranscriptionResult,
    pub processing_time_ms: u128,
}

} // verus!
