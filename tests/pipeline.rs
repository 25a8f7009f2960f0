use whisper_api::error::{AppError, PipelineError};
use whisper_api::format::{classify, FormatVerdict};
use whisper_api::inference::InferenceSettings;
use whisper_api::pcm::bytes_to_samples;
use whisper_api::pipeline::{complete_transcription, EngineOutcome};
use whisper_api::transcode::{
    conversion_args, conversion_outcome, converted_name, fresh_converted_name, plan_normalization,
    NormalizePlan,
};
use whisper_api::transcript::{assemble, RawSegment, SegmentRead};

fn canonical_header() -> Vec<u8> {
    let mut h = Vec::new();
    h.extend_from_slice(b"RIFF");
    h.extend_from_slice(&[0, 0, 0, 0]);
    h.extend_from_slice(b"WAVE");
    h.extend_from_slice(b"fmt ");
    while h.len() < 44 {
        h.push(0);
    }
    h
}

fn encode(samples: &[i16]) -> Vec<u8> {
    let mut out = canonical_header();
    for s in samples {
        out.extend_from_slice(&s.to_le_bytes());
    }
    out
}

fn ready(text: &str, start: i64, end: i64) -> SegmentRead {
    SegmentRead::Ready(RawSegment { text: text.to_string(), start, end })
}

#[test]
fn short_buffers_are_other_container() {
    for n in 0..12 {
        let b: Vec<u8> = b"RIFF\0\0\0\0WAVE"[..n].to_vec();
        assert_eq!(classify(&b), FormatVerdict::OtherContainer);
    }
}

#[test]
fn tagged_buffer_is_canonical() {
    assert_eq!(classify(b"RIFF\x24\x00\x00\x00WAVE"), FormatVerdict::CanonicalPcm);
    assert_eq!(classify(&canonical_header()), FormatVerdict::CanonicalPcm);
}

#[test]
fn any_tag_byte_mutation_flips_verdict() {
    let base = canonical_header();
    for i in (0..4).chain(8..12) {
        let mut b = base.clone();
        b[i] ^= 0x01;
        assert_eq!(classify(&b), FormatVerdict::OtherContainer, "byte {}", i);
    }
    let mut b = base.clone();
    b[5] = 0xff;
    assert_eq!(classify(&b), FormatVerdict::CanonicalPcm);
}

#[test]
fn mp3_header_is_other_container() {
    assert_eq!(classify(b"ID3\x04\x00\x00\x00\x00\x00\x00\x00\x00"), FormatVerdict::OtherContainer);
}

#[test]
fn decode_round_trip_reproduces_samples() {
    let samples: Vec<i16> = vec![0, 1, -1, 1000, -1000, 32767, -32768, 12345, -23456];
    let decoded = bytes_to_samples(&encode(&samples)).unwrap();
    assert_eq!(decoded, samples);
    for (d, s) in decoded.iter().zip(samples.iter()) {
        let f = *d as f32 / 32768.0;
        assert!((f - *s as f32 / 32768.0).abs() < 1e-7);
        assert!((-1.0..=1.0).contains(&f));
    }
}

#[test]
fn decode_without_header_reads_whole_buffer() {
    assert_eq!(bytes_to_samples(&[0x01, 0x00, 0xff, 0xff, 0x00, 0x80]).unwrap(), vec![1, -1, -32768]);
}

#[test]
fn decode_drops_trailing_odd_byte() {
    assert_eq!(bytes_to_samples(&[0x10, 0x27, 0x05]).unwrap(), vec![10000]);
    let mut b = encode(&[7, 8]);
    b.push(0x33);
    assert_eq!(bytes_to_samples(&b).unwrap(), vec![7, 8]);
}

#[test]
fn decode_empty_is_input_too_small() {
    assert_eq!(bytes_to_samples(&[]), Err(PipelineError::InputTooSmall));
}

#[test]
fn decode_header_only_is_input_too_small() {
    assert_eq!(bytes_to_samples(&canonical_header()), Err(PipelineError::InputTooSmall));
    assert_eq!(bytes_to_samples(&canonical_header()[..20]), Err(PipelineError::InputTooSmall));
}

#[test]
fn decode_without_full_sample_is_no_audio_data() {
    assert_eq!(bytes_to_samples(&[0x42]), Err(PipelineError::NoAudioData));
    let mut b = canonical_header();
    b.push(0x01);
    assert_eq!(bytes_to_samples(&b), Err(PipelineError::NoAudioData));
}

#[test]
fn silence_decodes_to_near_zero_samples() {
    let silence = vec![0i16; 32000];
    let decoded = bytes_to_samples(&encode(&silence)).unwrap();
    assert_eq!(decoded.len(), 32000);
    assert!(decoded.iter().all(|s| (*s as f32 / 32768.0).abs() < 1e-6));
}

#[test]
fn end_to_end_silence_with_stub_engine() {
    let decoded = bytes_to_samples(&encode(&vec![0i16; 32000])).unwrap();
    assert!(!decoded.is_empty());
    let settings = InferenceSettings::for_request(None);
    assert_eq!(settings.best_of, 1);
    let r = complete_transcription(EngineOutcome::Finished(vec![ready("hello", 0, 100)])).unwrap();
    assert_eq!(r.text, "hello");
    assert_eq!(r.segments.len(), 1);
    let s = &r.segments[0];
    assert_eq!((s.id, s.start, s.end, s.text_start, s.text_end), (0, 0, 100, 0, 5));
}

#[test]
fn assemble_concatenates_without_separators() {
    let r = assemble(vec![ready(" Hello", 0, 150), ready(" world.", 150, 320), ready("", 320, 330)]).unwrap();
    assert_eq!(r.text, " Hello world.");
    let spans: Vec<(i32, usize, usize)> = r.segments.iter().map(|s| (s.id, s.text_start, s.text_end)).collect();
    assert_eq!(spans, vec![(0, 0, 6), (1, 6, 13), (2, 13, 13)]);
    let total: usize = r.segments.iter().map(|s| s.text_end - s.text_start).sum();
    assert_eq!(total, r.text.len());
    assert_eq!(r.segments[1].start, 150);
    assert_eq!(r.segments[1].end, 320);
}

#[test]
fn assemble_uses_byte_offsets() {
    let r = assemble(vec![ready("héllo", 0, 10), ready(" 世界", 10, 20)]).unwrap();
    assert_eq!(r.segments[0].text_end, 6);
    assert_eq!((r.segments[1].text_start, r.segments[1].text_end), (6, 13));
    assert_eq!(r.text.len(), 13);
}

#[test]
fn assemble_empty_engine_output() {
    let r = assemble(vec![]).unwrap();
    assert_eq!(r.text, "");
    assert!(r.segments.is_empty());
}

#[test]
fn assemble_fails_on_first_missing_segment() {
    let r = assemble(vec![ready("a", 0, 1), SegmentRead::Missing, SegmentRead::BadText("x".to_string())]);
    assert_eq!(r.err(), Some(PipelineError::SegmentMissing(1)));
}

#[test]
fn assemble_fails_on_unreadable_text() {
    let r = assemble(vec![SegmentRead::BadText("invalid utf8".to_string()), SegmentRead::Missing]);
    assert_eq!(r.err(), Some(PipelineError::SegmentTextFailure("invalid utf8".to_string())));
}

#[test]
fn lock_and_engine_failures_pass_through() {
    assert_eq!(
        complete_transcription(EngineOutcome::LockPoisoned("poisoned".to_string())).err(),
        Some(PipelineError::LockAcquisitionFailed("poisoned".to_string()))
    );
    assert_eq!(
        complete_transcription(EngineOutcome::Failed("bad model".to_string())).err(),
        Some(PipelineError::EngineFailure("bad model".to_string()))
    );
}

#[test]
fn canonical_input_is_used_unchanged() {
    assert_eq!(plan_normalization(FormatVerdict::CanonicalPcm, false), Ok(NormalizePlan::UseInput));
    assert_eq!(plan_normalization(FormatVerdict::CanonicalPcm, true), Ok(NormalizePlan::UseInput));
    assert_eq!(plan_normalization(FormatVerdict::OtherContainer, true), Ok(NormalizePlan::Convert));
}

#[test]
fn non_canonical_without_tool_is_conversion_unavailable() {
    let verdict = classify(b"ID3\x04\x00\x00\x00\x00\x00\x00\x00\x00\xff\xfb");
    assert_eq!(plan_normalization(verdict, false), Err(PipelineError::ConversionUnavailable));
}

#[test]
fn conversion_arguments_fix_target_profile() {
    let args = conversion_args("/tmp/in.mp3", "/tmp/out.wav");
    assert_eq!(
        args,
        vec!["-i", "/tmp/in.mp3", "-acodec", "pcm_s16le", "-ar", "16000", "-ac", "1", "-y", "/tmp/out.wav"]
    );
}

#[test]
fn conversion_failure_carries_diagnostics() {
    assert_eq!(conversion_outcome(true, "ok".to_string()), Ok(()));
    assert_eq!(
        conversion_outcome(false, "Invalid data found".to_string()),
        Err(PipelineError::ConversionFailed("Invalid data found".to_string()))
    );
}

#[test]
fn converted_names_are_unique_and_shaped() {
    assert_eq!(converted_name("abc"), "whisper_convert_abc.wav");
    let a = fresh_converted_name();
    let b = fresh_converted_name();
    assert_ne!(a, b);
    assert_eq!(a.len(), 16 + 36 + 4);
    assert!(a.starts_with("whisper_convert_") && a.ends_with(".wav"));
    assert_eq!(a.matches('-').count(), 4);
}

#[test]
fn client_faults_are_input_defects() {
    assert!(PipelineError::InputTooSmall.is_client_fault());
    assert!(PipelineError::NoAudioData.is_client_fault());
    assert!(!PipelineError::ConversionUnavailable.is_client_fault());
    assert!(!PipelineError::EngineFailure("e".to_string()).is_client_fault());
}

#[test]
fn status_codes_follow_error_kind() {
    assert_eq!(AppError::WhisperError("w".to_string()).status_code(), 500);
    assert_eq!(AppError::ModelNotFound("m".to_string()).status_code(), 404);
    assert_eq!(AppError::InvalidInput("i".to_string()).status_code(), 400);
    assert_eq!(AppError::FileError("f".to_string()).status_code(), 400);
    assert_eq!(AppError::InternalError("x".to_string()).status_code(), 500);
    assert_eq!(AppError::FileError("bad file".to_string()).message(), "bad file");
}

#[test]
fn inference_settings_are_quiet_greedy() {
    let s = InferenceSettings::for_request(Some("de".to_string()));
    assert_eq!(s.language.as_deref(), Some("de"));
    assert_eq!(s.best_of, 1);
    assert!(!s.print_realtime && !s.print_progress && !s.print_timestamps && !s.print_special);
}

#[test]
fn pipeline_errors_are_reported_with_diagnostics() {
    let e = PipelineError::InputTooSmall.to_app_error();
    assert_eq!(e, AppError::InvalidInput("Audio file too small".to_string()));
    assert_eq!(e.status_code(), 400);
    assert_eq!(
        PipelineError::NoAudioData.to_app_error(),
        AppError::InvalidInput("No audio data found in file".to_string())
    );
    let e = PipelineError::ConversionUnavailable.to_app_error();
    assert_eq!(e.status_code(), 400);
    assert!(e.message().contains("install ffmpeg"));
    let e = PipelineError::ConversionFailed("moov atom not found".to_string()).to_app_error();
    assert!(matches!(e, AppError::FileError(_)));
    assert!(e.message().starts_with("Audio conversion failed."));
    assert!(e.message().ends_with(": moov atom not found"));
    let e = PipelineError::LockAcquisitionFailed("poisoned lock".to_string()).to_app_error();
    assert_eq!(e, AppError::InternalError("Failed to acquire context lock: poisoned lock".to_string()));
    assert_eq!(e.status_code(), 500);
    assert_eq!(
        PipelineError::EngineFailure("Transcription failed: X".to_string()).to_app_error(),
        AppError::WhisperError("Transcription failed: X".to_string())
    );
    assert_eq!(
        PipelineError::SegmentMissing(17).to_app_error(),
        AppError::WhisperError("Failed to get segment 17".to_string())
    );
    assert_eq!(
        PipelineError::SegmentTextFailure("bad utf8".to_string()).to_app_error(),
        AppError::WhisperError("Failed to get segment text: bad utf8".to_string())
    );
}
