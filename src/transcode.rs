use vstd::prelude::*;
use crate::error::PipelineError;
use crate::format::FormatVerdict;

verus! {

/// How an upload is brought into canonical PCM form.
#[derive(PartialEq, Eq, Structural, Clone, Copy, Debug)]
pub enum NormalizePlan {
    /// The input is canonical PCM already and is used as it is.
    UseInput,
    /// The input is converted by the external tool into a fresh file.
    Convert,
}

pub open spec fn spec_plan(verdict: FormatVerdict, tool_available: bool) -> Result<
    NormalizePlan,
    PipelineError,
> {
    if verdict == FormatVerdict::CanonicalPcm {
        Ok(NormalizePlan::UseInput)
    } else if tool_available {
        Ok(NormalizePlan::Convert)
    } else {
        Err(PipelineError::ConversionUnavailable)
    }
}

/// Decides whether an upload must be converted: canonical PCM never is; any
/// other container is, and fails when the conversion tool is missing.
pub fn plan_normalization(verdict: FormatVerdict, tool_available: bool) -> (r: Result<
    NormalizePlan,
    PipelineError,
>)
    ensures
        r == spec_plan(verdict, tool_available),
{
    if verdict == FormatVerdict::CanonicalPcm {
        Ok(NormalizePlan::UseInput)
    } else if tool_available {
        Ok(NormalizePlan::Convert)
    } else {
        Err(PipelineError::ConversionUnavailable)
    }
}

/// The arguments handed to the conversion tool: read `input`, write 16-bit
/// signed little-endian PCM at 16000 Hz, one channel, overwriting `output`.
pub open spec fn spec_conversion_args(input: Seq<char>, output: Seq<char>) -> Seq<Seq<char>> {
    seq![
        "-i"@,
        input,
        "-acodec"@,
        "pcm_s16le"@,
        "-ar"@,
        "16000"@,
        "-ac"@,
        "1"@,
        "-y"@,
        output,
    ]
}

pub fn conversion_args(input: &str, output: &str) -> (r: Vec<String>)
    ensures
        r@.len() == 10,
        forall|k: int| 0 <= k < 10 ==> (#[trigger] r@[k])@ == spec_conversion_args(input@, output@)[k],
{
    let mut r: Vec<String> = Vec::new();
    r.push(String::from_str("-i"));
    r.push(String::from_str(input));
    r.push(String::from_str("-acodec"));
    r.push(String::from_str("pcm_s16le"));
    r.push(String::from_str("-ar"));
    r.push(String::from_str("16000"));
    r.push(String::from_str("-ac"));
    r.push(String::from_str("1"));
    r.push(String::from_str("-y"));
    r.push(String::from_str(output));
    r
}

/// Judges a finished conversion run: success, or a failure that carries the
/// tool's diagnostic output.
pub fn conversion_outcome(exit_success: bool, diagnostics: String) -> (r: Result<(), PipelineError>)
    ensures
        exit_success ==> r is Ok,
        !exit_success ==> r == Err::<(), PipelineError>(
            PipelineError::ConversionFailed(diagnostics),
        ),
{
    if exit_success {
        Ok(())
    } else {
        Err(PipelineError::ConversionFailed(diagnostics))
    }
}

/// Relies on uuid::Uuid::new_v4 and its Display, which writes the hyphenated
/// form: 36 characters, whatever the random value.
#[verifier::external_body]
fn new_unique_id() -> (r: String)
    ensures
        r@.len() == 36,
{
    uuid::Uuid::new_v4().to_string()
}

/// The file name of a conversion output built around the unique `id`.
pub open spec fn spec_converted_name(id: Seq<char>) -> Seq<char> {
    "whisper_convert_"@ + id + ".wav"@
}

pub fn converted_name(id: &str) -> (r: String)
    ensures
        r@ == spec_converted_name(id@),
{
    let r = String::from_str("whisper_convert_");
    let r = r.concat(id);
    r.concat(".wav")
}

/// A fresh file name for a conversion output: a random unique id between a
/// fixed prefix and the canonical extension.
pub fn fresh_converted_name() -> (r: String)
    ensures
        exists|id: Seq<char>| id.len() == 36 && r@ == #[trigger] spec_converted_name(id),
{
    let id = new_unique_id();
    converted_name(id.as_str())
}

} // verus!
