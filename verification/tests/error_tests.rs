use immich_background::errors::PipelineError;
use immich_background::invoker::wallpaper_args;
use immich_background::model::ServerErrorBody;
use immich_background::text::{i64_to_string, join_strings, u64_to_string};

#[test]
fn server_error_combines_status_messages_and_correlation_id() {
    let e = PipelineError::Server(ServerErrorBody {
        status_code: 404,
        message: vec!["Not found".to_string(), "album is gone".to_string()],
        correlation_id: "abc-123".to_string(),
    });
    assert_eq!(e.describe(), "404: Not found\nalbum is gone\n(correlation ID: abc-123)");
}

#[test]
fn server_error_with_one_message_has_no_separator() {
    let e = PipelineError::Server(ServerErrorBody {
        status_code: 500,
        message: vec!["boom".to_string()],
        correlation_id: "x".to_string(),
    });
    assert_eq!(e.describe(), "500: boom\n(correlation ID: x)");
}

#[test]
fn empty_album_error_message() {
    assert_eq!(PipelineError::EmptyAlbum.describe(), "album contains no assets");
}

#[test]
fn retries_exhausted_error_message() {
    assert_eq!(PipelineError::RetriesExhausted.describe(), "download retries exhausted");
}

#[test]
fn network_error_carries_its_cause() {
    let e = PipelineError::Network("connection refused".to_string());
    assert_eq!(e.describe(), "error sending album request: connection refused");
}

#[test]
fn no_fallback_error_message() {
    assert_eq!(PipelineError::NoFallbackAvailable.describe(), "no fallback available");
}

#[test]
fn remaining_error_messages() {
    assert_eq!(
        PipelineError::NoEligibleAsset.describe(),
        "album contains no image assets"
    );
    assert_eq!(
        PipelineError::ChecksumMismatch.describe(),
        "checksum mismatch after download"
    );
    assert_eq!(
        PipelineError::Parse("unexpected end of input".to_string()).describe(),
        "malformed server response: unexpected end of input"
    );
    assert_eq!(
        PipelineError::Io("permission denied".to_string()).describe(),
        "i/o error: permission denied"
    );
}

#[test]
fn unsigned_decimal_rendering() {
    assert_eq!(u64_to_string(0), "0");
    assert_eq!(u64_to_string(9), "9");
    assert_eq!(u64_to_string(10), "10");
    assert_eq!(u64_to_string(1234567890), "1234567890");
    assert_eq!(u64_to_string(u64::MAX), "18446744073709551615");
}

#[test]
fn signed_decimal_rendering() {
    assert_eq!(i64_to_string(0), "0");
    assert_eq!(i64_to_string(-1), "-1");
    assert_eq!(i64_to_string(404), "404");
    assert_eq!(i64_to_string(i64::MIN), "-9223372036854775808");
    assert_eq!(i64_to_string(i64::MAX), "9223372036854775807");
}

#[test]
fn join_with_newlines() {
    let parts = vec!["a".to_string(), "b".to_string(), "c".to_string()];
    assert_eq!(join_strings(&parts, "\n"), "a\nb\nc");
    let none: Vec<String> = Vec::new();
    assert_eq!(join_strings(&none, "\n"), "");
}

#[test]
fn wallpaper_command_arguments() {
    let args = wallpaper_args("/run/cache/photo.jpg", "crop");
    assert_eq!(args, vec!["img", "/run/cache/photo.jpg", "--resize", "crop"]);
}
