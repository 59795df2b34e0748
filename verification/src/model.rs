//! Data model of the remote album: assets, their media type, and the
//! structured error body the server returns on a failed album lookup.

use vstd::prelude::*;

verus! {

/// Media type of an asset. Only images are eligible for selection.
#[derive(Clone, Copy, PartialEq, Eq, Structural, Debug)]
pub enum AssetType {
    Image,
    Video,
    Audio,
    Other,
}

/// One media item of the album, as the server reports it.
#[derive(Debug)]
pub struct Asset {
    /// Server-assigned identifier; the download URL is derived from it.
    pub id: String,
    /// Base64-encoded SHA-1 digest of the asset's content, server-authoritative.
    pub checksum: String,
    /// Original file name; the local cache path is derived from it.
    pub original_file_name: String,
    /// Media type; only `Image` assets may be selected.
    pub asset_type: AssetType,
}

/// An album: its reported asset count and its assets.
#[derive(Debug)]
pub struct Album {
    /// Asset count as reported by the server.
    pub asset_count: i64,
    /// The assets of the album.
    pub assets: Vec<Asset>,
}

/// Structured error body of a failed album request:
/// `{statusCode, message[], correlationId}`.
#[derive(Debug)]
pub struct ServerErrorBody {
    /// HTTP status code the server reported.
    pub status_code: i64,
    /// Error messages, one or more lines.
    pub message: Vec<String>,
    /// Correlation id for diagnosing the failure server-side.
    pub correlation_id: String,
}

} // verus!
