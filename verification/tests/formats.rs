use meetily::backend::{backend_outcome, BackendReply};
use meetily::wav::build_wav_file;

#[test]
fn wav_header_describes_the_samples() {
    let pcm = [1u8, 2, 3, 4];
    let file = build_wav_file(&pcm);
    let mut expected: Vec<u8> = Vec::new();
    expected.extend_from_slice(b"RIFF");
    expected.extend_from_slice(&40u32.to_le_bytes());
    expected.extend_from_slice(b"WAVE");
    expected.extend_from_slice(b"fmt ");
    expected.extend_from_slice(&16u32.to_le_bytes());
    expected.extend_from_slice(&1u16.to_le_bytes());
    expected.extend_from_slice(&1u16.to_le_bytes());
    expected.extend_from_slice(&16000u32.to_le_bytes());
    expected.extend_from_slice(&32000u32.to_le_bytes());
    expected.extend_from_slice(&2u16.to_le_bytes());
    expected.extend_from_slice(&16u16.to_le_bytes());
    expected.extend_from_slice(b"data");
    expected.extend_from_slice(&4u32.to_le_bytes());
    expected.extend_from_slice(&pcm);
    assert_eq!(file, expected);
    assert_eq!(file.len(), 48);
}

#[test]
fn empty_recording_still_has_a_header() {
    let file = build_wav_file(&[]);
    assert_eq!(file.len(), 44);
    assert_eq!(u32::from_le_bytes([file[4], file[5], file[6], file[7]]), 36);
    assert_eq!(u32::from_le_bytes([file[40], file[41], file[42], file[43]]), 0);
}

#[test]
fn backend_answer_is_the_processed_text() {
    let r = backend_outcome(BackendReply::Parsed { ai_response: Some("Summary".to_string()) });
    assert_eq!(r, Ok("Summary".to_string()));
}

#[test]
fn backend_failures_are_explained() {
    assert_eq!(
        backend_outcome(BackendReply::Parsed { ai_response: None }),
        Err("Backend response missing ai_response".to_string())
    );
    assert_eq!(
        backend_outcome(BackendReply::ClientFailed("no tls".to_string())),
        Err("Failed to create HTTP client: no tls".to_string())
    );
    assert_eq!(
        backend_outcome(BackendReply::NetworkFailed("refused".to_string())),
        Err("Network error: refused".to_string())
    );
    assert_eq!(
        backend_outcome(BackendReply::HttpFailed {
            status: "500 Internal Server Error".to_string(),
            body: "boom".to_string(),
        }),
        Err("Backend error: 500 Internal Server Error - boom".to_string())
    );
    assert_eq!(
        backend_outcome(BackendReply::Unparsable("EOF".to_string())),
        Err("Failed to parse response: EOF".to_string())
    );
}
