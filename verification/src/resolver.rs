//! Album resolution: pick a random image asset from the album, derive its
//! download URL and local cache path, and decide whether a cached copy can be
//! reused or a download is needed.

use vstd::prelude::*;
use vstd::string::StringExecFns;
use crate::checksum::{checksum_matches, spec_checksum_matches};
use crate::errors::PipelineError;
use crate::model::{Album, Asset, AssetType, ServerErrorBody};
use crate::rng::random_below;

verus! {

/// How the album metadata request ended, as the caller observed it.
pub enum AlbumFetchOutcome {
    /// A success status with a well-formed album body.
    Fetched(Album),
    /// A non-success status with the server's structured error body.
    ServerRejected(ServerErrorBody),
    /// The request could not be sent or its reply received.
    RequestFailed(String),
    /// The response body could not be decoded; the message says why.
    Malformed(String),
}

/// Surfaces the outcome of the album request as the resolver's single
/// top-level result: a fetched album passes through unchanged, and each
/// failure becomes the matching pipeline error.
pub fn album_from_fetch(o: AlbumFetchOutcome) -> (r: Result<Album, PipelineError>)
    ensures
        o is Fetched ==> r == Ok::<Album, PipelineError>(o->Fetched_0),
        o is ServerRejected ==> r == Err::<Album, PipelineError>(
            PipelineError::Server(o->ServerRejected_0),
        ),
        o is RequestFailed ==> r == Err::<Album, PipelineError>(
            PipelineError::Network(o->RequestFailed_0),
        ),
        o is Malformed ==> r == Err::<Album, PipelineError>(
            PipelineError::Parse(o->Malformed_0),
        ),
{
    match o {
        AlbumFetchOutcome::Fetched(a) => Ok(a),
        AlbumFetchOutcome::ServerRejected(b) => Err(PipelineError::Server(b)),
        AlbumFetchOutcome::RequestFailed(m) => Err(PipelineError::Network(m)),
        AlbumFetchOutcome::Malformed(m) => Err(PipelineError::Parse(m)),
    }
}

/// The download URL of an asset: `{endpoint}/api/assets/{id}/original`.
pub open spec fn spec_asset_url(endpoint: Seq<char>, asset_id: Seq<char>) -> Seq<char> {
    endpoint + "/api/assets/"@ + asset_id + "/original"@
}

/// The album metadata URL: `{endpoint}/api/albums/{albumId}`.
pub open spec fn spec_album_url(endpoint: Seq<char>, album_id: Seq<char>) -> Seq<char> {
    endpoint + "/api/albums/"@ + album_id
}

/// The local cache path of an asset: `{cache_root}/{original_file_name}`.
pub open spec fn spec_cache_path(cache_root: Seq<char>, file_name: Seq<char>) -> Seq<char> {
    cache_root + "/"@ + file_name
}

/// Builds the album metadata URL for the given endpoint and album id.
pub fn album_url(endpoint: &str, album_id: &str) -> (r: String)
    ensures
        r@ == spec_album_url(endpoint@, album_id@),
{
    let mut out: String = String::from_str(endpoint);
    out.append("/api/albums/");
    out.append(album_id);
    proof {
        assert(out@ =~= spec_album_url(endpoint@, album_id@));
    }
    out
}

/// Builds the download URL for the asset with the given id.
pub fn asset_url(endpoint: &str, asset_id: &str) -> (r: String)
    ensures
        r@ == spec_asset_url(endpoint@, asset_id@),
{
    let mut out: String = String::from_str(endpoint);
    out.append("/api/assets/");
    out.append(asset_id);
    out.append("/original");
    proof {
        assert(out@ =~= spec_asset_url(endpoint@, asset_id@));
    }
    out
}

/// Derives the local cache path of an asset from its original file name.
pub fn cache_path(cache_root: &str, file_name: &str) -> (r: String)
    ensures
        r@ == spec_cache_path(cache_root@, file_name@),
{
    let mut out: String = String::from_str(cache_root);
    out.append("/");
    out.append(file_name);
    proof {
        assert(out@ =~= spec_cache_path(cache_root@, file_name@));
    }
    out
}

/// Whether the asset at the given index of the sequence is an image.
pub open spec fn is_image_at(assets: Seq<Asset>, i: int) -> bool {
    0 <= i < assets.len() && assets[i].asset_type == AssetType::Image
}

/// Collects the indices of the image assets, in order.
pub fn eligible_indices(album: &Album) -> (r: Vec<usize>)
    ensures
        forall|j: int| 0 <= j < r@.len() ==> is_image_at(album.assets@, r@[j] as int),
        forall|i: int|
            is_image_at(album.assets@, i) ==> exists|j: int|
                0 <= j < r@.len() && r@[j] == i,
        forall|j: int, k: int| 0 <= j < k < r@.len() ==> r@[j] < r@[k],
{
    let mut r: Vec<usize> = Vec::new();
    let n: usize = album.assets.len();
    let mut i: usize = 0;
    while i < n
        invariant
            n == album.assets@.len(),
            i <= n,
            forall|j: int| 0 <= j < r@.len() ==> is_image_at(album.assets@, r@[j] as int),
            forall|p: int|
                0 <= p < i && is_image_at(album.assets@, p) ==> exists|j: int|
                    0 <= j < r@.len() && r@[j] == p,
            forall|j: int| 0 <= j < r@.len() ==> r@[j] < i,
            forall|j: int, k: int| 0 <= j < k < r@.len() ==> r@[j] < r@[k],
        decreases n - i,
    {
        let ghost prev = r@;
        if album.assets[i].asset_type == AssetType::Image {
            r.push(i);
        }
        proof {
            assert forall|p: int| 0 <= p <= i && is_image_at(album.assets@, p) implies exists|
                j: int,
            | 0 <= j < r@.len() && r@[j] == p by {
                if p == i {
                    assert(r@[r@.len() - 1] == i);
                } else {
                    let j = choose|j: int| 0 <= j < prev.len() && prev[j] == p;
                    assert(r@[j] == p);
                }
            }
        }
        i = i + 1;
    }
    r
}

/// The asset the resolver settled on, with everything the caller needs to
/// reuse or fetch it: its index in the album, its download URL, its cache
/// path and its expected checksum.
#[derive(Debug)]
pub struct SelectedAsset {
    /// Index of the chosen asset in the album's asset list.
    pub index: usize,
    /// URL the asset's original content is downloaded from.
    pub download_url: String,
    /// Local path the asset is cached at.
    pub cache_path: String,
    /// Expected base64-encoded SHA-1 digest of the asset's content.
    pub checksum: String,
}

/// The selection picked the asset at `index` of the album: the asset is an
/// image, and the URL, cache path and checksum all belong to it.
pub open spec fn selection_of(
    s: SelectedAsset,
    album: Album,
    endpoint: Seq<char>,
    cache_root: Seq<char>,
) -> bool {
    &&& is_image_at(album.assets@, s.index as int)
    &&& s.download_url@ == spec_asset_url(endpoint, album.assets@[s.index as int].id@)
    &&& s.cache_path@ == spec_cache_path(
        cache_root,
        album.assets@[s.index as int].original_file_name@,
    )
    &&& s.checksum@ == album.assets@[s.index as int].checksum@
}

/// Picks one image asset of the album uniformly at random, after filtering
/// out everything that is not an image, and derives its download URL and
/// cache path. Never selects a non-image asset. Fails with `EmptyAlbum` on an
/// album with no assets at all, with `NoEligibleAsset` on an album whose
/// assets hold no image, and succeeds whenever the album holds at least one
/// image.
pub fn select_image_asset(album: &Album, endpoint: &str, cache_root: &str) -> (r: Result<
    SelectedAsset,
    PipelineError,
>)
    ensures
        album.assets@.len() == 0 ==> r == Err::<SelectedAsset, PipelineError>(
            PipelineError::EmptyAlbum,
        ),
        album.assets@.len() > 0 && (forall|i: int| !is_image_at(album.assets@, i)) ==> r
            == Err::<SelectedAsset, PipelineError>(PipelineError::NoEligibleAsset),
        (exists|i: int| is_image_at(album.assets@, i)) ==> r is Ok,
        r matches Ok(s) ==> selection_of(s, *album, endpoint@, cache_root@),
{
    if album.assets.len() == 0 {
        return Err(PipelineError::EmptyAlbum);
    }
    let eligible: Vec<usize> = eligible_indices(album);
    if eligible.len() == 0 {
        proof {
            assert(forall|i: int| !is_image_at(album.assets@, i)) by {
                assert forall|i: int| !is_image_at(album.assets@, i) by {
                    if is_image_at(album.assets@, i) {
                        let j = choose|j: int| 0 <= j < eligible@.len() && eligible@[j] == i;
                    }
                }
            }
        }
        return Err(PipelineError::NoEligibleAsset);
    }
    let pick: usize = random_below(eligible.len());
    let index: usize = eligible[pick];
    let asset: &Asset = &album.assets[index];
    Ok(
        SelectedAsset {
            index,
            download_url: asset_url(endpoint, asset.id.as_str()),
            cache_path: cache_path(cache_root, asset.original_file_name.as_str()),
            checksum: asset.checksum.clone(),
        },
    )
}

/// What the resolver does about the chosen asset's cache path.
#[derive(Clone, Copy, PartialEq, Eq, Structural, Debug)]
pub enum CacheDecision {
    /// A file exists at the cache path and its digest matches: reuse it and
    /// issue no download request.
    UseCached,
    /// The cache path is missing or its content is stale: download.
    Download,
}

/// Decides between cache reuse and download. `cached` holds the content of
/// the file at the asset's cache path, or `None` when no such file exists.
/// The cached copy is reused exactly when it exists and its digest matches
/// the expected checksum; everything else forces a download.
pub fn decide_cache(cached: Option<&Vec<u8>>, expected: &String) -> (r: CacheDecision)
    ensures
        r == CacheDecision::UseCached <==> (cached matches Some(c) && spec_checksum_matches(
            c@,
            expected@,
        )),
{
    match cached {
        Some(content) => {
            if checksum_matches(content, expected) {
                CacheDecision::UseCached
            } else {
                CacheDecision::Download
            }
        },
        None => CacheDecision::Download,
    }
}

} // verus!
