use vstd::prelude::*;

verus! {

/// Service settings, gathered from the command line and the environment.
#[derive(Clone, Debug)]
pub struct Config {
    /// Path to the model file.
    pub model_path: String,
    /// Server host address.
    pub host: String,
    /// Server port.
    pub port: u16,
    /// Number of threads for inference.
    pub threads: i32,
    /// Log level.
    pub log_level: String,
}

} // verus!
