use wavelet_audio::audio::DecodeError;
use wavelet_audio::service::{
    after_decode, after_scalogram, decode_failure_status, needs_search_path_entry, response_sample_count, validate_upload,
    DecodedSummary, ScalogramPlan, ScalogramResult, StatusKind, TaskOutcome,
    MAX_GRPC_MESSAGE_BYTES, MAX_UPLOAD_BYTES, N_SCALES,
};
use wavelet_audio::text::push_decimal;

#[test]
fn limits_are_in_mebibytes() {
    assert_eq!(MAX_UPLOAD_BYTES, 5_242_880);
    assert_eq!(MAX_GRPC_MESSAGE_BYTES, 16_777_216);
}

#[test]
fn empty_upload_is_refused() {
    let e = validate_upload(0).unwrap_err();
    assert_eq!(e.kind, StatusKind::InvalidArgument);
    assert_eq!(e.message, "No audio data recieved!");
}

#[test]
fn upload_over_limit_is_refused_with_sizes() {
    let e = validate_upload(MAX_UPLOAD_BYTES + 1).unwrap_err();
    assert_eq!(e.kind, StatusKind::InvalidArgument);
    assert_eq!(
        e.message,
        "Audio file too large! Max size is 5242880 bytes, recieved 5242881 bytes"
    );
    let e = validate_upload(123_456_789).unwrap_err();
    assert_eq!(
        e.message,
        format!(
            "Audio file too large! Max size is {} bytes, recieved {} bytes",
            MAX_UPLOAD_BYTES, 123_456_789
        )
    );
}

#[test]
fn uploads_within_limit_are_accepted() {
    assert!(validate_upload(1).is_ok());
    assert!(validate_upload(4096).is_ok());
    assert!(validate_upload(MAX_UPLOAD_BYTES).is_ok());
}

#[test]
fn unusable_files_are_client_errors() {
    let cases = vec![
        DecodeError::UnrecognizedFormat("junk".to_string()),
        DecodeError::UnsupportedCodec("opus".to_string()),
        DecodeError::NoAudioTrack,
        DecodeError::EmptyAudio,
    ];
    for err in cases {
        let s = decode_failure_status(&err);
        assert_eq!(s.kind, StatusKind::InvalidArgument);
        assert_eq!(s.message, err.message());
    }
}

#[test]
fn decoder_failures_are_internal_errors() {
    let cases = vec![
        DecodeError::UnknownSampleRate,
        DecodeError::Demux("bad frame".to_string()),
        DecodeError::Decode("bad block".to_string()),
    ];
    for err in cases {
        let s = decode_failure_status(&err);
        assert_eq!(s.kind, StatusKind::Internal);
        assert_eq!(s.message, err.message());
    }
}

#[test]
fn decode_error_messages() {
    assert_eq!(
        DecodeError::UnrecognizedFormat("x".to_string()).message(),
        "Could not recognize this as a supported audio format (MP3, FLAC, or WAV): x"
    );
    assert_eq!(DecodeError::NoAudioTrack.message(), "No playable audio track found in file");
    assert_eq!(
        DecodeError::UnsupportedCodec("aac".to_string()).message(),
        "Unsupported audio codec: aac"
    );
    assert_eq!(DecodeError::UnknownSampleRate.message(), "sample rate could not be determined");
    assert_eq!(DecodeError::Demux("eof".to_string()).message(), "Demuxing error: eof");
    assert_eq!(DecodeError::Decode("crc".to_string()).message(), "Decoding error: crc");
    assert_eq!(DecodeError::EmptyAudio.message(), "No audio samples in the decoding");
}

#[test]
fn sample_count_is_reduced_to_32_bits() {
    assert_eq!(response_sample_count(0), 0);
    assert_eq!(response_sample_count(44_100), 44_100);
    let big: u64 = (1u64 << 32) + 5;
    if let Ok(n) = usize::try_from(big) {
        assert_eq!(response_sample_count(n), 5);
    }
}

#[test]
fn decimal_rendering() {
    for n in [0u64, 7, 10, 99, 100, 5_242_880, u64::MAX] {
        let mut s = String::from("n=");
        push_decimal(&mut s, n);
        assert_eq!(s, format!("n={}", n));
    }
}

#[test]
fn decoded_audio_leads_to_a_scalogram() {
    let plan = after_decode(TaskOutcome::Finished(Ok(DecodedSummary {
        sample_rate: 48_000,
        n_samples: 96_000,
    })))
    .unwrap();
    assert_eq!(plan, ScalogramPlan { sample_rate: 48_000, n_samples: 96_000, n_scales: 64 });
    assert_eq!(N_SCALES, 64);
}

#[test]
fn decoding_failures_are_answered() {
    let e = after_decode(TaskOutcome::Finished(Err(DecodeError::EmptyAudio))).unwrap_err();
    assert_eq!(e.kind, StatusKind::InvalidArgument);
    assert_eq!(e.message, "No audio samples in the decoding");
    let e = after_decode(TaskOutcome::Finished(Err(DecodeError::Demux("eof".to_string()))))
        .unwrap_err();
    assert_eq!(e.kind, StatusKind::Internal);
    assert_eq!(e.message, "Demuxing error: eof");
    let e = after_decode(TaskOutcome::Panicked("task 3 panicked".to_string())).unwrap_err();
    assert_eq!(e.kind, StatusKind::Internal);
    assert_eq!(e.message, "Audio decoding task panicked: task 3 panicked");
}

#[test]
fn scalogram_outcomes_are_answered() {
    let img = ScalogramResult { image: vec![1, 2, 3], width: 3, height: 1 };
    assert_eq!(after_scalogram(TaskOutcome::Finished(Ok(img.clone()))).unwrap(), img);
    let e = after_scalogram(TaskOutcome::Finished(Err("no module".to_string()))).unwrap_err();
    assert_eq!(e.kind, StatusKind::Internal);
    assert_eq!(e.message, "Scalogram computation failed: no module");
    let e = after_scalogram(TaskOutcome::Panicked("boom".to_string())).unwrap_err();
    assert_eq!(e.kind, StatusKind::Internal);
    assert_eq!(e.message, "Scalogram task panicked: boom");
}

#[test]
fn search_path_entry_only_when_absent() {
    assert!(needs_search_path_entry(false));
    assert!(!needs_search_path_entry(true));
}
