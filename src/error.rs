use vstd::prelude::*;

verus! {

/// Why one run of the pipeline failed.
#[derive(Clone, Debug, PartialEq, Eq)]
pub enum PipelineError {
    /// The buffer holds no sample bytes, or is shorter than the header it claims.
    InputTooSmall,
    /// Not one full two-byte sample is left after the header.
    NoAudioData,
    /// The input needs conversion and no conversion tool is installed.
    ConversionUnavailable,
    /// The conversion tool ran and failed; carries its diagnostic output.
    ConversionFailed(String),
    /// The engine's exclusive lock was poisoned by an earlier panic.
    LockAcquisitionFailed(String),
    /// The engine reported an inference error.
    EngineFailure(String),
    /// The engine gave no segment at this index.
    SegmentMissing(usize),
    /// The text of a segment could not be read.
    SegmentTextFailure(String),
}

impl PipelineError {
    /// Input defects the caller can correct, as opposed to environment or
    /// internal defects.
    pub open spec fn spec_is_client_fault(&self) -> bool {
        match self {
            PipelineError::InputTooSmall => true,
            PipelineError::NoAudioData => true,
            _ => false,
        }
    }

    pub fn is_client_fault(&self) -> (r: bool)
        ensures
            r == self.spec_is_client_fault(),
    {
        match self {
            PipelineError::InputTooSmall => true,
            PipelineError::NoAudioData => true,
            _ => false,
        }
    }
}

/// The error that the transport layer reports, each with its diagnostic text.
#[derive(Clone, Debug, PartialEq, Eq)]
pub enum AppError {
    WhisperError(String),
    ModelNotFound(String),
    InvalidInput(String),
    FileError(String),
    InternalError(String),
}

impl AppError {
    pub open spec fn spec_status_code(&self) -> u16 {
        match self {
            AppError::WhisperError(_) => 500,
            AppError::ModelNotFound(_) => 404,
            AppError::InvalidInput(_) => 400,
            AppError::FileError(_) => 400,
            AppError::InternalError(_) => 500,
        }
    }

    pub open spec fn spec_text(&self) -> String {
        match self {
            AppError::WhisperError(m) => *m,
            AppError::ModelNotFound(m) => *m,
            AppError::InvalidInput(m) => *m,
            AppError::FileError(m) => *m,
            AppError::InternalError(m) => *m,
        }
    }

    pub open spec fn spec_message(&self) -> Seq<char> {
        match self {
            AppError::WhisperError(m) => m@,
            AppError::ModelNotFound(m) => m@,
            AppError::InvalidInput(m) => m@,
            AppError::FileError(m) => m@,
            AppError::InternalError(m) => m@,
        }
    }

    /// The HTTP status that answers this error.
    pub fn status_code(&self) -> (r: u16)
        ensures
            r == self.spec_status_code(),
    {
        match self {
            AppError::WhisperError(_) => 500,
            AppError::ModelNotFound(_) => 404,
            AppError::InvalidInput(_) => 400,
            AppError::FileError(_) => 400,
            AppError::InternalError(_) => 500,
        }
    }

    /// The diagnostic text carried by this error.
    pub fn message(&self) -> (r: String)
        ensures
            r@ == self.spec_message(),
    {
        match self {
            AppError::WhisperError(m) => m.clone(),
            AppError::ModelNotFound(m) => m.clone(),
            AppError::InvalidInput(m) => m.clone(),
            AppError::FileError(m) => m.clone(),
            AppError::InternalError(m) => m.clone(),
        }
    }
}

/// The variant and diagnostic text that a pipeline failure is reported with.
pub open spec fn spec_report(e: PipelineError, r: AppError) -> bool {
    match e {
        PipelineError::InputTooSmall => r == AppError::InvalidInput(r.spec_text())
            && r.spec_message() == "Audio file too small"@,
        PipelineError::NoAudioData => r == AppError::InvalidInput(r.spec_text())
            && r.spec_message() == "No audio data found in file"@,
        PipelineError::ConversionUnavailable => r == AppError::InvalidInput(r.spec_text())
            && r.spec_message() == unavailable_text(),
        PipelineError::ConversionFailed(d) => r == AppError::FileError(r.spec_text())
            && r.spec_message() == conversion_failed_prefix() + d@,
        PipelineError::LockAcquisitionFailed(m) => r == AppError::InternalError(r.spec_text())
            && r.spec_message() == "Failed to acquire context lock: "@ + m@,
        PipelineError::EngineFailure(m) => r == AppError::WhisperError(r.spec_text())
            && r.spec_message() == m@,
        PipelineError::SegmentMissing(i) => r == AppError::WhisperError(r.spec_text())
            && r.spec_message().len() >= "Failed to get segment "@.len()
            && r.spec_message().take("Failed to get segment "@.len() as int)
            == "Failed to get segment "@,
        PipelineError::SegmentTextFailure(m) => r == AppError::WhisperError(r.spec_text())
            && r.spec_message() == "Failed to get segment text: "@ + m@,
    }
}

pub open spec fn unavailable_text() -> Seq<char> {
    "Non-WAV audio format detected and ffmpeg is not installed. Either send WAV audio or install ffmpeg for format conversion."@
}

pub open spec fn conversion_failed_prefix() -> Seq<char> {
    "Audio conversion failed. If using curl, make sure to use -F file=@<path> or --data-binary @<path> instead of -d: "@
}

fn prefixed(prefix: &str, text: &str) -> (r: String)
    ensures
        r@ == prefix@ + text@,
{
    String::from_str(prefix).concat(text)
}

impl PipelineError {
    /// The transport-level error that reports this failure: input defects as
    /// invalid input, conversion failures as file errors, a poisoned lock as an
    /// internal error, and engine failures as engine errors.
    pub fn to_app_error(self) -> (r: AppError)
        ensures
            spec_report(self, r),
            r.spec_status_code() == 400 <==> (self.spec_is_client_fault()
                || self is ConversionUnavailable || self is ConversionFailed),
    {
        match self {
            PipelineError::InputTooSmall => AppError::InvalidInput(
                String::from_str("Audio file too small"),
            ),
            PipelineError::NoAudioData => AppError::InvalidInput(
                String::from_str("No audio data found in file"),
            ),
            PipelineError::ConversionUnavailable => AppError::InvalidInput(
                String::from_str(
                    "Non-WAV audio format detected and ffmpeg is not installed. Either send WAV audio or install ffmpeg for format conversion.",
                ),
            ),
            PipelineError::ConversionFailed(d) => AppError::FileError(
                prefixed(
                    "Audio conversion failed. If using curl, make sure to use -F file=@<path> or --data-binary @<path> instead of -d: ",
                    d.as_str(),
                ),
            ),
            PipelineError::LockAcquisitionFailed(m) => AppError::InternalError(
                prefixed("Failed to acquire context lock: ", m.as_str()),
            ),
            PipelineError::EngineFailure(m) => AppError::WhisperError(m),
            PipelineError::SegmentMissing(i) => {
                let digits = i.to_string();
                let msg = prefixed("Failed to get segment ", digits.as_str());
                assert(msg@.take("Failed to get segment "@.len() as int) =~= "Failed to get segment "@);
                AppError::WhisperError(msg)
            },
            PipelineError::SegmentTextFailure(m) => AppError::WhisperError(
                prefixed("Failed to get segment text: ", m.as_str()),
            ),
        }
    }
}

pub type AppResult<T> = Result<T, AppError>;

} // verus!
