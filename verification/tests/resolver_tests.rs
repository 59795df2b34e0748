use immich_background::errors::PipelineError;
use immich_background::model::{Album, Asset, AssetType, ServerErrorBody};
use immich_background::resolver::{
    album_from_fetch, album_url, cache_path, decide_cache, eligible_indices, select_image_asset,
    AlbumFetchOutcome, CacheDecision,
};

const ABC_DIGEST: &str = "qZk+NkcGgWq6PiVxeFDCbJzQ2J0=";

fn asset(id: &str, checksum: &str, name: &str, asset_type: AssetType) -> Asset {
    Asset {
        id: id.to_string(),
        checksum: checksum.to_string(),
        original_file_name: name.to_string(),
        asset_type,
    }
}

fn album_of(assets: Vec<Asset>) -> Album {
    Album { asset_count: assets.len() as i64, assets }
}

#[test]
fn empty_album_fails_with_empty_album_error() {
    let album = album_of(Vec::new());
    let r = select_image_asset(&album, "http://server", "/run/cache");
    // The selection fails outright, so no download can be planned or issued.
    assert!(matches!(r, Err(PipelineError::EmptyAlbum)));
}

#[test]
fn album_without_images_fails_with_no_eligible_asset() {
    let album = album_of(vec![
        asset("a", "c1", "a.mp4", AssetType::Video),
        asset("b", "c2", "b.mp3", AssetType::Audio),
        asset("c", "c3", "c.bin", AssetType::Other),
    ]);
    let r = select_image_asset(&album, "http://server", "/run/cache");
    assert!(matches!(r, Err(PipelineError::NoEligibleAsset)));
}

#[test]
fn selection_never_returns_a_non_image_asset() {
    let album = album_of(vec![
        asset("v", "c0", "v.mp4", AssetType::Video),
        asset("i1", "c1", "one.jpg", AssetType::Image),
        asset("o", "c2", "o.bin", AssetType::Other),
        asset("i2", "c3", "two.jpg", AssetType::Image),
    ]);
    for _ in 0..100 {
        let s = select_image_asset(&album, "http://server", "/run/cache").unwrap();
        assert!(s.index == 1 || s.index == 3);
        assert_eq!(album.assets[s.index].asset_type, AssetType::Image);
    }
}

#[test]
fn selection_derives_url_path_and_checksum_of_the_chosen_asset() {
    let album = album_of(vec![asset("the-id", ABC_DIGEST, "photo.jpg", AssetType::Image)]);
    let s = select_image_asset(&album, "http://server", "/run/cache").unwrap();
    assert_eq!(s.index, 0);
    assert_eq!(s.download_url, "http://server/api/assets/the-id/original");
    assert_eq!(s.cache_path, "/run/cache/photo.jpg");
    assert_eq!(s.checksum, ABC_DIGEST);
}

#[test]
fn eligible_indices_lists_exactly_the_images_in_order() {
    let album = album_of(vec![
        asset("v", "c0", "v.mp4", AssetType::Video),
        asset("i1", "c1", "one.jpg", AssetType::Image),
        asset("i2", "c2", "two.jpg", AssetType::Image),
        asset("o", "c3", "o.bin", AssetType::Other),
    ]);
    assert_eq!(eligible_indices(&album), vec![1, 2]);
}

#[test]
fn album_url_is_derived_from_endpoint_and_id() {
    assert_eq!(album_url("http://server", "alb-1"), "http://server/api/albums/alb-1");
}

#[test]
fn cache_path_is_derived_from_root_and_file_name() {
    assert_eq!(cache_path("/run/cache", "photo.jpg"), "/run/cache/photo.jpg");
}

#[test]
fn valid_cached_copy_is_reused_without_download() {
    let content: Vec<u8> = b"abc".to_vec();
    let d = decide_cache(Some(&content), &ABC_DIGEST.to_string());
    assert_eq!(d, CacheDecision::UseCached);
}

#[test]
fn stale_cached_copy_forces_download() {
    let content: Vec<u8> = b"abX".to_vec();
    let d = decide_cache(Some(&content), &ABC_DIGEST.to_string());
    assert_eq!(d, CacheDecision::Download);
}

#[test]
fn missing_cached_copy_forces_download() {
    let d = decide_cache(None, &ABC_DIGEST.to_string());
    assert_eq!(d, CacheDecision::Download);
}

#[test]
fn fetched_album_passes_through() {
    let album = album_of(vec![asset("a", "c", "a.jpg", AssetType::Image)]);
    let r = album_from_fetch(AlbumFetchOutcome::Fetched(album));
    let got = r.unwrap();
    assert_eq!(got.assets.len(), 1);
    assert_eq!(got.assets[0].id, "a");
}

#[test]
fn server_rejection_becomes_server_error() {
    let body = ServerErrorBody {
        status_code: 404,
        message: vec!["Not found".to_string()],
        correlation_id: "cid-7".to_string(),
    };
    let r = album_from_fetch(AlbumFetchOutcome::ServerRejected(body));
    match r {
        Err(PipelineError::Server(b)) => {
            assert_eq!(b.status_code, 404);
            assert_eq!(b.message, vec!["Not found".to_string()]);
            assert_eq!(b.correlation_id, "cid-7");
        }
        _ => panic!("expected a server error"),
    }
}

#[test]
fn request_failure_becomes_network_error() {
    let r = album_from_fetch(AlbumFetchOutcome::RequestFailed("timed out".to_string()));
    assert!(matches!(r, Err(PipelineError::Network(m)) if m == "timed out"));
}

#[test]
fn malformed_body_becomes_parse_error() {
    let r = album_from_fetch(AlbumFetchOutcome::Malformed("bad json".to_string()));
    assert!(matches!(r, Err(PipelineError::Parse(m)) if m == "bad json"));
}
