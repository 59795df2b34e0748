//! Error kinds of the asset-acquisition pipeline and their diagnostic
//! rendering.

use vstd::prelude::*;
use vstd::string::StringExecFns;
use crate::model::ServerErrorBody;
use crate::text::{i64_to_string, join_strings, spec_dec_signed, spec_join, views_of};

verus! {

/// Failure of one step of the pipeline.
///
/// Transient failures (network, checksum on download) are retried by the
/// downloader up to its attempt ceiling; the structural ones propagate to the
/// orchestrator, which then tries the fallback selector.
#[derive(Debug)]
pub enum PipelineError {
    /// The album or asset request could not be sent or its reply received.
    Network(String),
    /// The server answered the album request with a non-success status and a
    /// structured error body.
    Server(ServerErrorBody),
    /// The server's response body could not be decoded.
    Parse(String),
    /// The album holds no assets at all; fatal for this pass, never retried.
    EmptyAlbum,
    /// The album holds assets but none of them is an image.
    NoEligibleAsset,
    /// A downloaded file's digest did not match the expected checksum.
    ChecksumMismatch,
    /// A local file could not be read, written or listed.
    Io(String),
    /// Every download attempt failed; the destination file is untrusted.
    RetriesExhausted,
    /// The cache directory holds no file to fall back to; terminal.
    NoFallbackAvailable,
}

/// The diagnostic message of an error. A server error combines all three
/// fields of the structured body: status code, the message lines, and the
/// correlation id.
pub open spec fn spec_describe(e: PipelineError) -> Seq<char> {
    match e {
        PipelineError::Network(m) => "error sending album request: "@ + m@,
        PipelineError::Server(b) => spec_dec_signed(b.status_code as int) + ": "@ + spec_join(
            views_of(b.message@),
            "\n"@,
        ) + "\n(correlation ID: "@ + b.correlation_id@ + ")"@,
        PipelineError::Parse(m) => "malformed server response: "@ + m@,
        PipelineError::EmptyAlbum => "album contains no assets"@,
        PipelineError::NoEligibleAsset => "album contains no image assets"@,
        PipelineError::ChecksumMismatch => "checksum mismatch after download"@,
        PipelineError::Io(m) => "i/o error: "@ + m@,
        PipelineError::RetriesExhausted => "download retries exhausted"@,
        PipelineError::NoFallbackAvailable => "no fallback available"@,
    }
}

impl PipelineError {
    /// Renders the diagnostic message of this error.
    pub fn describe(&self) -> (r: String)
        ensures
            r@ == spec_describe(*self),
    {
        match self {
            PipelineError::Network(m) => {
                let mut out: String = String::from_str("error sending album request: ");
                out.append(m.as_str());
                out
            },
            PipelineError::Server(b) => {
                let mut out: String = i64_to_string(b.status_code);
                out.append(": ");
                let joined: String = join_strings(&b.message, "\n");
                out.append(joined.as_str());
                out.append("\n(correlation ID: ");
                out.append(b.correlation_id.as_str());
                out.append(")");
                proof {
                    assert(out@ =~= spec_describe(*self));
                }
                out
            },
            PipelineError::Parse(m) => {
                let mut out: String = String::from_str("malformed server response: ");
                out.append(m.as_str());
                out
            },
            PipelineError::EmptyAlbum => String::from_str("album contains no assets"),
            PipelineError::NoEligibleAsset => String::from_str("album contains no image assets"),
            PipelineError::ChecksumMismatch => String::from_str(
                "checksum mismatch after download",
            ),
            PipelineError::Io(m) => {
                let mut out: String = String::from_str("i/o error: ");
                out.append(m.as_str());
                out
            },
            PipelineError::RetriesExhausted => String::from_str("download retries exhausted"),
            PipelineError::NoFallbackAvailable => String::from_str("no fallback available"),
        }
    }
}

} // verus!
