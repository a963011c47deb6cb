use bgr::models::resolve_decision;
use bgr::models::resolve_model_path;
use bgr::models::CacheFs;
use bgr::models::ModelError;
use bgr::models::ModelPreset;

/// An in-memory filesystem: the resolver's contract holds for every
/// implementation, so a recording fake pins its decisions without any I/O.
struct FakeFs {
    existing: Vec<String>,
    created: Vec<String>,
}

impl FakeFs {
    fn with(existing: &[&str]) -> FakeFs {
        FakeFs {
            existing: existing.iter().map(|p| p.to_string()).collect(),
            created: Vec::new(),
        }
    }
}

impl CacheFs for FakeFs {
    fn entry_exists(&mut self, path: &str) -> bool {
        self.existing.iter().any(|p| p == path)
    }

    fn create_dir_recursive(&mut self, path: &str) -> Result<(), String> {
        self.created.push(path.to_string());
        self.existing.push(path.to_string());
        Ok(())
    }
}

/// A filesystem whose directory creation always fails.
struct ReadOnlyFs;

impl CacheFs for ReadOnlyFs {
    fn entry_exists(&mut self, _path: &str) -> bool {
        false
    }

    fn create_dir_recursive(&mut self, _path: &str) -> Result<(), String> {
        Err("permission denied".to_string())
    }
}

#[test]
fn existing_path_wins_over_preset_alias() {
    // The specifier names an existing entry whose text is also a preset
    // alias: the path is returned verbatim, the catalog is not consulted.
    let mut fs = FakeFs::with(&["u2net"]);
    let r = resolve_model_path("u2net", "/cache", false, &mut fs);
    assert_eq!(r.unwrap(), "u2net");
}

#[test]
fn unknown_specifier_is_rejected() {
    let mut fs = FakeFs::with(&[]);
    let r = resolve_model_path("not-a-real-model", "/cache", true, &mut fs);
    match r {
        Err(ModelError::UnknownPreset(s)) => assert_eq!(s, "not-a-real-model"),
        other => panic!("expected UnknownPreset, got {:?}", other),
    }
    assert!(fs.created.is_empty());
}

#[test]
fn present_artifact_resolves_to_canonical_path() {
    let mut fs = FakeFs::with(&["/cache/u2netp.onnx"]);
    let r = resolve_model_path("u2netp", "/cache", false, &mut fs);
    assert_eq!(r.unwrap(), "/cache/u2netp.onnx");
}

#[test]
fn absent_artifact_without_auto_download_is_not_found() {
    // The error names exactly the canonical path that was missing.
    let mut fs = FakeFs::with(&["/cache"]);
    let r = resolve_model_path("u2netp", "/cache", false, &mut fs);
    match r {
        Err(ModelError::NotFound(p)) => assert_eq!(p, "/cache/u2netp.onnx"),
        other => panic!("expected NotFound, got {:?}", other),
    }
    assert!(fs.created.is_empty());
}

#[test]
fn auto_download_creates_missing_models_dir() {
    let mut fs = FakeFs::with(&[]);
    let r = resolve_model_path("u2netp", "/cache/models", true, &mut fs);
    assert_eq!(r.unwrap(), "/cache/models/u2netp.onnx");
    assert_eq!(fs.created, vec!["/cache/models".to_string()]);

    // A second call finds the directory in place and leaves it alone.
    let r2 = resolve_model_path("u2netp", "/cache/models", true, &mut fs);
    assert_eq!(r2.unwrap(), "/cache/models/u2netp.onnx");
    assert_eq!(fs.created.len(), 1);
}

#[test]
fn auto_download_skips_creation_when_dir_exists() {
    let mut fs = FakeFs::with(&["/cache"]);
    let r = resolve_model_path("birefnet", "/cache", true, &mut fs);
    assert_eq!(r.unwrap(), "/cache/birefnet.onnx");
    assert!(fs.created.is_empty());
}

#[test]
fn failed_dir_creation_surfaces_as_create_dir() {
    let mut fs = ReadOnlyFs;
    let r = resolve_model_path("rmbg", "/cache", true, &mut fs);
    match r {
        Err(ModelError::CreateDir { path, source }) => {
            assert_eq!(path, "/cache");
            assert_eq!(source, "permission denied");
        }
        other => panic!("expected CreateDir, got {:?}", other),
    }
}

#[test]
fn decision_returns_existing_specifier_verbatim() {
    // With the filesystem answering "the specifier exists", the decision
    // must hand it back unchanged, alias text or not.
    let r = resolve_decision("u2net", "/cache", false, true, false, Ok(()));
    assert_eq!(r.unwrap(), "u2net");
}

#[test]
fn decision_rejects_unknown_specifier_whatever_the_flags() {
    let r = resolve_decision("not-a-real-model", "/cache", true, false, true, Ok(()));
    match r {
        Err(ModelError::UnknownPreset(s)) => assert_eq!(s, "not-a-real-model"),
        other => panic!("expected UnknownPreset, got {:?}", other),
    }
}

#[test]
fn decision_covers_each_artifact_branch() {
    // Artifact present: its canonical path, even when the directory
    // outcome is a failure that was never needed.
    let r = resolve_decision("u2netp", "/cache", false, false, true, Err("x".to_string()));
    assert_eq!(r.unwrap(), "/cache/u2netp.onnx");

    // Artifact absent, no auto-download: NotFound with the exact path.
    let r = resolve_decision("u2netp", "/cache", false, false, false, Ok(()));
    match r {
        Err(ModelError::NotFound(p)) => assert_eq!(p, "/cache/u2netp.onnx"),
        other => panic!("expected NotFound, got {:?}", other),
    }

    // Auto-download with the directory in place: the expected path.
    let r = resolve_decision("u2netp", "/cache", true, false, false, Ok(()));
    assert_eq!(r.unwrap(), "/cache/u2netp.onnx");

    // Auto-download but the directory could not be created.
    let r = resolve_decision(
        "u2netp",
        "/cache",
        true,
        false,
        false,
        Err("permission denied".to_string()),
    );
    match r {
        Err(ModelError::CreateDir { path, source }) => {
            assert_eq!(path, "/cache");
            assert_eq!(source, "permission denied");
        }
        other => panic!("expected CreateDir, got {:?}", other),
    }
}

#[test]
fn error_messages_render_exactly() {
    assert_eq!(
        ModelError::UnknownPreset("foo".to_string()).message(),
        "Unknown model: foo. Use --model=<path> for custom models or one of: \
         birefnet, birefnet-lite, isnet, u2net, u2netp, rmbg"
    );
    assert_eq!(
        ModelError::CreateDir {
            path: "/cache".to_string(),
            source: "permission denied".to_string(),
        }
        .message(),
        "Failed to create models directory /cache: permission denied"
    );
    assert_eq!(
        ModelError::Download {
            url: "https://example.invalid/m.onnx".to_string(),
            message: "HTTP 404 Not Found".to_string(),
        }
        .message(),
        "Failed to download model from https://example.invalid/m.onnx: HTTP 404 Not Found"
    );
    assert_eq!(
        ModelError::NotFound("/cache/u2net.onnx".to_string()).message(),
        "Model file not found: /cache/u2net.onnx"
    );
    assert_eq!(
        ModelError::Io("broken pipe".to_string()).message(),
        "IO error: broken pipe"
    );
}

#[test]
fn default_models_dir_ends_with_models() {
    let d = bgr::models::default_models_dir();
    assert!(d.ends_with("models"));
    assert!(d.len() > "models".len());
}

#[test]
fn is_downloaded_reflects_the_canonical_entry() {
    let mut fs = FakeFs::with(&["/cache/isnet.onnx"]);
    assert!(ModelPreset::IsNet.is_downloaded("/cache", &mut fs));
    assert!(!ModelPreset::U2Net.is_downloaded("/cache", &mut fs));
}
