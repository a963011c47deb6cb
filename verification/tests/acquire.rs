use bgr::acquire::DownloadTransfer;
use bgr::models::ModelError;
use bgr::models::ModelPreset;

#[test]
fn begin_fixes_source_and_destinations() {
    let t = DownloadTransfer::begin(ModelPreset::U2NetP, "/cache/models");
    assert_eq!(t.url, ModelPreset::U2NetP.download_url());
    assert_eq!(t.final_path, "/cache/models/u2netp.onnx");
    assert_eq!(t.temp_path, "/cache/models/u2netp.onnx.tmp");
    assert_ne!(t.temp_path, t.final_path);
    assert_eq!(t.transferred, 0);
    assert_eq!(t.total, 0);
}

#[test]
fn non_success_status_fails_with_download_and_changes_nothing() {
    let mut t = DownloadTransfer::begin(ModelPreset::U2Net, "/cache");
    let r = t.on_response(404, Some(176_000_000));
    match r {
        Err(ModelError::Download { url, message }) => {
            assert_eq!(url, ModelPreset::U2Net.download_url());
            assert_eq!(message, "HTTP 404");
        }
        other => panic!("expected Download, got {:?}", other),
    }
    assert_eq!(t.transferred, 0);
    assert_eq!(t.total, 0);
}

#[test]
fn success_statuses_fix_the_declared_total() {
    let mut t = DownloadTransfer::begin(ModelPreset::Rmbg, "/cache");
    assert!(t.on_response(200, Some(10)).is_ok());
    assert_eq!(t.total, 10);

    let mut u = DownloadTransfer::begin(ModelPreset::Rmbg, "/cache");
    assert!(u.on_response(299, None).is_ok());
    assert_eq!(u.total, 0);

    let mut v = DownloadTransfer::begin(ModelPreset::Rmbg, "/cache");
    assert!(v.on_response(301, None).is_err());
    assert!(v.on_response(199, None).is_err());
    match v.on_response(503, None) {
        Err(ModelError::Download { message, .. }) => assert_eq!(message, "HTTP 503"),
        other => panic!("expected Download, got {:?}", other),
    }
}

#[test]
fn progress_reports_are_non_decreasing_and_end_at_total() {
    let mut t = DownloadTransfer::begin(ModelPreset::U2NetP, "/cache");
    t.on_response(200, Some(10)).unwrap();

    let chunks: [u64; 4] = [4, 0, 4, 2];
    let mut reports: Vec<(u64, u64)> = Vec::new();
    for len in chunks {
        reports.push(t.on_chunk(len));
    }

    for pair in reports.windows(2) {
        assert!(pair[0].0 <= pair[1].0);
    }
    assert_eq!(reports.last().copied(), Some((10, 10)));
    assert!(reports.iter().all(|&(_, total)| total == 10));
    assert!(t.matches_declared_total());
}

#[test]
fn short_transfer_does_not_match_declared_total() {
    let mut t = DownloadTransfer::begin(ModelPreset::U2NetP, "/cache");
    t.on_response(200, Some(10)).unwrap();
    t.on_chunk(4);
    assert!(!t.matches_declared_total());

    // An unknown total constrains nothing.
    let mut u = DownloadTransfer::begin(ModelPreset::U2NetP, "/cache");
    u.on_response(200, None).unwrap();
    u.on_chunk(4);
    assert!(u.matches_declared_total());
}
