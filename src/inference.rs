use vstd::prelude::*;

verus! {

/// What the engine is told for one inference run.
#[derive(Clone, Debug)]
pub struct InferenceSettings {
    /// Language code, or `None` to let the engine detect it.
    pub language: Option<String>,
    /// Number of candidates in greedy decoding.
    pub best_of: i32,
    pub print_realtime: bool,
    pub print_progress: bool,
    pub print_timestamps: bool,
    pub print_special: bool,
}

impl InferenceSettings {
    /// Deterministic greedy decoding with a single candidate, and every
    /// console side channel of the engine switched off.
    pub open spec fn is_quiet_greedy(&self) -> bool {
        &&& self.best_of == 1
        &&& !self.print_realtime
        &&& !self.print_progress
        &&& !self.print_timestamps
        &&& !self.print_special
    }

    /// Settings for one request with the given language hint.
    pub fn for_request(language: Option<String>) -> (r: InferenceSettings)
        ensures
            r.is_quiet_greedy(),
            r.language == language,
    {
        InferenceSettings {
            language,
            best_of: 1,
            print_realtime: false,
            print_progress: false,
            print_timestamps: false,
            print_special: false,
        }
    }
}

} // verus!
