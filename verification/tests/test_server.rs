//! Tests for rate limiting, the API-key check, session storage rules and the
//! model catalog.

use coreml_playground::server::middleware::{api_key_allows, RateLimiter};
use coreml_playground::server::model_registry::{
    catalog_from_scan, create_demo_model, is_mock_value, is_model_extension, mock_models, scanned_model_info,
    triggers_rescan, Catalog, FsEventKind, RegisteredModel, RegistryState, ScanResult,
};
use coreml_playground::server::session_store::{
    can_preview, new_session, normalize_session_name, session_not_found, session_preview,
};
use coreml_playground::types::{MessageContent, ModelType};

#[test]
fn rate_limiter_allows_requests_within_limit() {
    let mut limiter = RateLimiter::new(5, 60);
    for i in 1..=5 {
        assert!(limiter.check(), "request {i} of 5 should be allowed");
    }
}

#[test]
fn rate_limiter_denies_requests_over_limit() {
    let mut limiter = RateLimiter::new(3, 60);
    // Exhaust the bucket.
    for _ in 0..3 {
        assert!(limiter.check());
    }
    // 4th request should be denied.
    assert!(!limiter.check(), "request exceeding max_requests should be denied");
    // 5th also denied.
    assert!(!limiter.check(), "subsequent requests should also be denied");
}

#[test]
fn rate_limiter_resets_after_window() {
    let mut limiter = RateLimiter::new(2, 1);
    // Exhaust the bucket.
    assert!(limiter.check());
    assert!(limiter.check());
    assert!(!limiter.check(), "should be denied after 2 requests");
    // Wait past the 1-second window.
    let start = std::time::Instant::now();
    while start.elapsed() < std::time::Duration::from_millis(1100) {
        std::hint::spin_loop();
    }
    // Should be allowed again after the window resets.
    assert!(limiter.check(), "should be allowed after window reset");
    assert!(limiter.check(), "second request in new window should be allowed");
    assert!(!limiter.check(), "third request in new window should be denied");
}

#[test]
fn rate_limiter_restarts_window_at_arrival() {
    let mut limiter = RateLimiter::new(2, 1);
    let start = std::time::Instant::now();
    assert!(limiter.check_elapsed(0, start));
    assert!(limiter.check_elapsed(0, start));
    assert!(!limiter.check_elapsed(0, start));
    assert!(limiter.check_elapsed(2, start));
    assert_eq!(limiter.count(), 1);
}

#[test]
fn rate_limiter_check_counts_against_the_clock() {
    let mut limiter = RateLimiter::new(1, 3600);
    assert!(limiter.check());
    assert!(!limiter.check());
    assert_eq!(limiter.max_requests(), 1);
    assert_eq!(limiter.window_secs(), 3600);
}

#[test]
fn test_rate_limiter_allows_within_limit() {
    let mut limiter = RateLimiter::new(3, 60);
    assert!(limiter.check());
    assert!(limiter.check());
    assert!(limiter.check());
    assert!(!limiter.check()); // 4th request denied
}

#[test]
fn test_rate_limiter_resets_window() {
    let mut limiter = RateLimiter::new(2, 1); // 1-second window
    let start = std::time::Instant::now();
    assert!(limiter.check_elapsed(0, start));
    assert!(limiter.check_elapsed(0, start));
    assert!(!limiter.check_elapsed(0, start)); // limit hit
    // Two seconds later the window has reset.
    assert!(limiter.check_elapsed(2, std::time::Instant::now()));
}

#[test]
fn test_rate_limiter_saturating_count() {
    let mut limiter = RateLimiter::new(2, 60);
    for _ in 0..10 {
        let _ = limiter.check();
    }
    // Still denied: the counter does not wrap around.
    assert!(!limiter.check());
}

#[test]
fn api_key_guard_compares_bearer_header() {
    assert!(api_key_allows(None, None));
    assert!(api_key_allows(Some(""), None));
    assert!(api_key_allows(Some("k1"), Some("Bearer k1")));
    assert!(!api_key_allows(Some("k1"), Some("Bearer k2")));
    assert!(!api_key_allows(Some("k1"), Some("k1")));
    assert!(!api_key_allows(Some("k1"), None));
}

#[test]
fn rename_trims_and_rejects_empty_names() {
    assert_eq!(normalize_session_name("  New Name  "), Ok("New Name".to_string()));
    let err = normalize_session_name("").unwrap_err();
    assert!(err.contains("empty"), "got: {}", err);
    let err = normalize_session_name("   ").unwrap_err();
    assert!(err.contains("empty"), "got: {}", err);
    assert_eq!(session_not_found("x"), "session not found: x");
}

#[test]
fn session_preview_prefers_the_name() {
    let first = MessageContent::Text("Hello there".into());
    assert_eq!(session_preview(Some("Renamed"), Some(&first)), "Renamed");
    assert_eq!(session_preview(None, Some(&first)), "Hello there");
    assert_eq!(session_preview(None, None), "");
    let long = MessageContent::Text("x".repeat(100));
    assert!(can_preview(&long, 80));
    assert_eq!(session_preview(None, Some(&long)), format!("{}...", "x".repeat(80)));
    let multibyte = MessageContent::Text("é".repeat(60));
    assert!(!can_preview(&multibyte, 81));
}

#[test]
fn new_sessions_start_empty() {
    let s = new_session("id".into(), "m", "Model", 42);
    assert_eq!(s.created_at, 42);
    assert_eq!(s.updated_at, 42);
    assert_eq!(s.preview, "");
    assert_eq!(s.message_count, 0);
    assert_eq!(s.model_name, "Model");
}

#[test]
fn test_empty_directory_returns_mock_models() {
    // A models directory without model files gives the mock catalog.
    let catalog = catalog_from_scan(ScanResult::Found(vec![]));
    let models = catalog.list_models();
    // 3 mock models + 1 demo-echo model.
    assert_eq!(models.len(), 4, "empty directory should yield 3 mock models + 1 demo model, got {}", models.len());
    let names: Vec<&str> = models.iter().map(|m| m.name.as_str()).collect();
    assert!(names.contains(&"MobileNetV2"), "mock models should include MobileNetV2, got {:?}", names);
    assert!(names.contains(&"TextSentiment"), "mock models should include TextSentiment, got {:?}", names);
    assert!(names.contains(&"WhisperTiny"), "mock models should include WhisperTiny, got {:?}", names);
    let ids: Vec<String> = models.iter().map(|m| m.id.clone()).collect();
    assert_eq!(ids, vec!["demo-echo", "mock-mobilenetv2", "mock-textsentiment", "mock-whispertiny"]);
    let unreadable = catalog_from_scan(ScanResult::Unreadable);
    assert_eq!(unreadable.models.len(), 4);
}

#[test]
fn test_list_models_returns_valid_info() {
    let catalog = catalog_from_scan(ScanResult::Found(vec![]));
    let models = catalog.list_models();
    for model in &models {
        assert!(!model.id.is_empty(), "model id should be non-empty for '{}'", model.name);
        assert!(!model.name.is_empty(), "model name should be non-empty for id '{}'", model.id);
        // ModelType should be one of the known variants (not Unknown for mocks).
        let valid_types = [ModelType::Vision, ModelType::Text, ModelType::Audio, ModelType::Multimodal];
        assert!(
            valid_types.contains(&model.model_type),
            "mock model '{}' should have a concrete ModelType, got {:?}",
            model.name,
            model.model_type
        );
        assert!(!model.input_schema.is_empty(), "model '{}' should have non-empty input_schema", model.name);
        assert!(!model.output_schema.is_empty(), "model '{}' should have non-empty output_schema", model.name);
    }
}

#[test]
fn test_model_types_are_correct() {
    let catalog = catalog_from_scan(ScanResult::Found(vec![]));
    let models = catalog.list_models();
    let find = |name: &str| {
        models
            .iter()
            .find(|m| m.name == name)
            .unwrap_or_else(|| panic!("mock model '{}' should be present", name))
            .clone()
    };
    assert_eq!(find("MobileNetV2").model_type, ModelType::Vision, "MobileNetV2 should be Vision");
    assert_eq!(find("TextSentiment").model_type, ModelType::Text, "TextSentiment should be Text");
    assert_eq!(find("WhisperTiny").model_type, ModelType::Audio, "WhisperTiny should be Audio");
}

#[test]
fn mock_model_types_by_id() {
    let catalog = mock_models();
    let info = |id: &str| catalog.get_model_info(id).unwrap();
    assert_eq!(info("mock-mobilenetv2").model_type, ModelType::Vision);
    assert_eq!(info("mock-textsentiment").model_type, ModelType::Text);
    assert_eq!(info("mock-whispertiny").model_type, ModelType::Audio);
    assert_eq!(info("demo-echo").model_type, ModelType::Text);
    assert!(catalog.get_model_info("nope").is_none());
}

#[test]
fn test_load_model_returns_info() {
    let mut state = RegistryState { catalog: catalog_from_scan(ScanResult::Found(vec![])), active: None };
    let result = state.load_model("mock-mobilenetv2");
    assert!(result.is_ok(), "load_model should succeed for a mock model, got {:?}", result.as_ref().err());
    let info = result.unwrap();
    assert_eq!(info.id, "mock-mobilenetv2", "loaded model id should match");
    assert_eq!(info.name, "MobileNetV2", "loaded model name should match");
    assert_eq!(info.model_type, ModelType::Vision, "loaded model type should be Vision");
}

#[test]
fn registry_state_tracks_the_active_model() {
    let mut state = RegistryState { catalog: mock_models(), active: None };
    let err = state.load_model("totally-unknown-model").unwrap_err();
    assert_eq!(err, "model not found: totally-unknown-model");
    assert!(state.get_active_id().is_none());
    let info = state.load_model("mock-whispertiny").unwrap();
    assert_eq!(info.name, "WhisperTiny");
    assert_eq!(state.get_active_id().as_deref(), Some("mock-whispertiny"));
    let err = state.load_model("missing").unwrap_err();
    assert_eq!(err, "model not found: missing");
    assert_eq!(state.get_active_id().as_deref(), Some("mock-whispertiny"));
    state.unload_active();
    assert!(state.get_active_id().is_none());
}

#[test]
fn scans_keep_found_models_and_add_the_demo() {
    let found = vec![
        RegisteredModel { info: scanned_model_info("a", "A", 10), path: "/m/A.mlmodel".into() },
        RegisteredModel { info: scanned_model_info("a", "A2", 20), path: "/m/A2.mlmodel".into() },
    ];
    let catalog = catalog_from_scan(ScanResult::Found(found));
    let models = catalog.list_models();
    assert_eq!(models.len(), 2);
    assert_eq!(models[0].name, "A2");
    assert_eq!(models[1].id, "demo-echo");
    let mut c = Catalog::new();
    c.ensure_demo_model();
    c.ensure_demo_model();
    assert_eq!(c.models.len(), 1);
    assert_eq!(create_demo_model().name, "Echo Demo");
}

#[test]
fn mock_switch_and_extensions() {
    assert!(is_mock_value("TRUE"));
    assert!(is_mock_value("1"));
    assert!(is_mock_value("Yes"));
    assert!(!is_mock_value("no"));
    assert!(is_model_extension(Some("mlmodel")));
    assert!(is_model_extension(Some("mlpackage")));
    assert!(!is_model_extension(Some("txt")));
    assert!(!is_model_extension(None));
    assert!(triggers_rescan(FsEventKind::Create));
    assert!(!triggers_rescan(FsEventKind::Other));
}

#[test]
fn rate_limiter_lets_twice_max_through_across_a_window_boundary() {
    // Two requests at the end of one window and two at the start of the next,
    // within a few seconds: 2 * max requests are allowed, and no more.
    let mut limiter = RateLimiter::new(2, 60);
    let now = std::time::Instant::now();
    assert!(limiter.check_elapsed(59, now));
    assert!(limiter.check_elapsed(59, now));
    assert!(!limiter.check_elapsed(59, now));
    assert!(limiter.check_elapsed(60, now));
    assert!(limiter.check_elapsed(0, now));
    assert!(!limiter.check_elapsed(1, now));
}
