//! Tests for the decisions behind the user interface.

use coreml_playground::app::{drag_width, onboarding_complete, HomeState, OnboardingState};
use coreml_playground::components::chat::{batch_total_ms, bubble_kind, copyable_text, data_url, BubbleKind};
use coreml_playground::components::command_palette::{
    all_commands, filter_commands, group_commands, record_recent, select_next, select_previous, toggle_theme,
    PaletteAction,
};
use coreml_playground::components::comparison::{ComparisonState, ComparisonSubmit, Side};
use coreml_playground::components::input_bar::{
    build_input, files_to_read, placeholder_text, plan_session, submits_on_key, DropOutcome, ImagePreview,
    InputBarState, SessionPlan,
};
use coreml_playground::components::introspection::{humanize_shape, latency_dot_class, FeedbackState};
use coreml_playground::components::model_switcher::{port_summary, LensState};
use coreml_playground::components::session_sidebar::{
    filter_sessions, relative_time_at, DeleteClick, RenameOutcome, SidebarState,
};
use coreml_playground::components::toast::{toast_css, ToastLevel, ToastStore};
use coreml_playground::components::visualization::has_spatial_features;
use coreml_playground::json::{Json, JsonNumber};
use coreml_playground::types::{
    BatchItem, InferenceInput, MessageContent, MessageRole, ModelInfo, ModelType, PortInfo, Session,
};

fn to_json(v: &serde_json::Value) -> Json {
    match v {
        serde_json::Value::Null => Json::Null,
        serde_json::Value::Bool(b) => Json::Bool(*b),
        serde_json::Value::Number(n) => {
            if let Some(u) = n.as_u64() {
                Json::Number(JsonNumber::PosInt(u))
            } else if let Some(i) = n.as_i64() {
                Json::Number(JsonNumber::NegInt(i))
            } else {
                Json::Number(JsonNumber::Float(n.as_f64().unwrap().to_bits()))
            }
        }
        serde_json::Value::String(s) => Json::Str(s.clone()),
        serde_json::Value::Array(a) => Json::Array(a.iter().map(to_json).collect()),
        serde_json::Value::Object(m) => Json::Object(m.iter().map(|(k, v)| (k.clone(), to_json(v))).collect()),
    }
}

fn json(text: &str) -> Json {
    to_json(&serde_json::from_str(text).unwrap())
}

fn model(id: &str, name: &str) -> ModelInfo {
    ModelInfo {
        id: id.into(),
        name: name.into(),
        model_type: ModelType::Text,
        description: None,
        author: None,
        input_schema: vec![],
        output_schema: vec![],
        file_size_bytes: 0,
    }
}

fn preview(name: &str) -> ImagePreview {
    ImagePreview { base64: format!("{name}-data"), mime_type: "image/png".into(), data_url: format!("data:{name}") }
}

#[test]
fn palette_lists_static_then_model_commands() {
    let cmds = all_commands(&[model("m1", "Alpha")]);
    assert_eq!(cmds.len(), 6);
    assert_eq!(cmds[0].id, "new-session");
    assert_eq!(cmds[0].shortcut.as_deref(), Some("\u{2318}N"));
    assert_eq!(cmds[5].id, "load-model-m1");
    assert_eq!(cmds[5].label, "Load model: Alpha");
    assert!(matches!(cmds[5].action, PaletteAction::LoadModel(ref id) if id == "m1"));
}

#[test]
fn palette_search_is_case_insensitive() {
    let cmds = all_commands(&[model("m1", "Alpha")]);
    let hits = filter_commands(&cmds, "TOGGLE", &[]);
    let ids: Vec<&str> = hits.iter().map(|c| c.id.as_str()).collect();
    assert_eq!(ids, vec!["toggle-theme", "toggle-introspection"]);
    assert!(filter_commands(&cmds, "zzz", &[]).is_empty());
}

#[test]
fn palette_puts_recent_commands_first() {
    let cmds = all_commands(&[]);
    let recents = vec!["toggle-theme".to_string(), "new-session".to_string()];
    let listed = filter_commands(&cmds, "", &recents);
    let ids: Vec<&str> = listed.iter().map(|c| c.id.as_str()).collect();
    assert_eq!(ids, vec!["toggle-theme", "new-session", "export-session", "compare-models", "toggle-introspection"]);
    let groups = group_commands(&listed, &recents, true);
    assert_eq!(groups[0].category, "Recent");
    assert_eq!(groups[0].indices, vec![0, 1]);
    assert_eq!(groups[1].category, "Session");
    assert_eq!(groups[2].category, "Models");
    assert_eq!(groups[3].category, "View");
    let plain = group_commands(&cmds, &[], false);
    let cats: Vec<&str> = plain.iter().map(|g| g.category.as_str()).collect();
    assert_eq!(cats, vec!["Session", "Models", "View"]);
    assert_eq!(plain[2].indices, vec![3, 4]);
}

#[test]
fn recents_keep_five_most_recent_without_duplicates() {
    let mut recents: Vec<String> = Vec::new();
    for id in ["a", "b", "c", "d", "e", "f", "c"] {
        record_recent(&mut recents, id);
    }
    assert_eq!(recents, vec!["c", "f", "e", "d", "b"]);
}

#[test]
fn palette_selection_wraps_around() {
    assert_eq!(select_next(2, 3), 0);
    assert_eq!(select_next(0, 3), 1);
    assert_eq!(select_previous(0, 3), 2);
    assert_eq!(select_previous(2, 3), 1);
    assert_eq!(select_next(0, 0), 0);
    assert_eq!(toggle_theme("dark"), "light");
    assert_eq!(toggle_theme("light"), "dark");
}

#[test]
fn input_bar_builds_what_it_sends() {
    assert_eq!(placeholder_text(None), "Select a model to begin...");
    assert_eq!(placeholder_text(Some(ModelType::Vision)), "Drop an image or describe what you see...");
    let batch = vec![preview("a"), preview("b")];
    match build_input("look", &None, &batch) {
        Some(InferenceInput::BatchImages { images, prompt }) => {
            assert_eq!(images.len(), 2);
            assert_eq!(images[1].data_base64, "b-data");
            assert_eq!(prompt.as_deref(), Some("look"));
        }
        other => panic!("expected a batch, got {:?}", other),
    }
    match build_input("", &Some(preview("x")), &vec![preview("y")]) {
        Some(InferenceInput::Image { data_base64, prompt: None, .. }) => assert_eq!(data_base64, "x-data"),
        other => panic!("expected an image, got {:?}", other),
    }
    assert!(matches!(build_input("hi", &None, &vec![]), Some(InferenceInput::Text(ref t)) if t == "hi"));
    assert!(build_input("", &None, &vec![]).is_none());
}

#[test]
fn input_bar_submit_clears_and_blocks() {
    let mut bar = InputBarState::new();
    bar.input_text = "  hello  ".into();
    assert!(bar.submit(true).is_none());
    assert_eq!(bar.input_text, "  hello  ");
    let sent = bar.submit(false);
    assert!(matches!(sent, Some(InferenceInput::Text(ref t)) if t == "hello"));
    assert!(bar.sending);
    assert!(bar.input_text.is_empty());
    bar.input_text = "again".into();
    assert!(bar.submit(false).is_none());
    bar.finish_sending();
    assert!(!bar.send_disabled(false));
    bar.input_text = "   ".into();
    assert!(bar.send_disabled(false));
    assert!(submits_on_key("Enter", false));
    assert!(!submits_on_key("Enter", true));
}

#[test]
fn input_bar_drops_and_removes_images() {
    let mut bar = InputBarState::new();
    assert_eq!(bar.drop_files(&["image/png".to_string(), "text/plain".to_string()]), DropOutcome::Rejected);
    assert_eq!(bar.drop_files(&["image/png".to_string()]), DropOutcome::Single);
    bar.set_image(preview("s"));
    assert_eq!(bar.drop_files(&["image/png".to_string(), "image/jpeg".to_string()]), DropOutcome::Batch);
    assert!(bar.image.is_none());
    bar.push_batch_image(preview("a"));
    bar.push_batch_image(preview("b"));
    bar.remove_batch_image(0);
    assert!(bar.batch.is_empty());
    assert_eq!(bar.image.as_ref().unwrap().base64, "b-data");
    assert_eq!(files_to_read(&["image/png".to_string(), "text/plain".to_string(), "image/gif".to_string()]), vec![0, 2]);
    assert_eq!(files_to_read(&["text/plain".to_string()]), vec![0]);
    assert!(matches!(plan_session(Some("s".into()), Some("m".into())), SessionPlan::Use(ref s) if s == "s"));
    assert!(matches!(plan_session(None, Some("m".into())), SessionPlan::Create(ref m) if m == "m"));
    assert!(matches!(plan_session(None, None), SessionPlan::Abort));
}

#[test]
fn comparison_runs_both_sides() {
    let mut cmp = ComparisonState::new();
    cmp.input_text = " hi ".into();
    assert!(matches!(cmp.submit_with_id("e1".into()), ComparisonSubmit::NeedBothModels));
    cmp.left_model = Some("l".into());
    cmp.right_model = Some("r".into());
    match cmp.submit_with_id("e1".into()) {
        ComparisonSubmit::Started { input: InferenceInput::Text(t), left_model, right_model } => {
            assert_eq!(t, "hi");
            assert_eq!(left_model, "l");
            assert_eq!(right_model, "r");
        }
        other => panic!("expected a start, got {:?}", other),
    }
    assert!(matches!(cmp.submit_with_id("e2".into()), ComparisonSubmit::Busy));
    cmp.finish_side(Side::Left, "e1", None);
    assert!(cmp.sending);
    cmp.finish_side(Side::Right, "e1", None);
    assert!(!cmp.sending);
    assert!(!cmp.entries[0].left_loading && !cmp.entries[0].right_loading);
    assert!(matches!(cmp.submit_with_id("e3".into()), ComparisonSubmit::Empty));
}

#[test]
fn lens_ignores_stale_slow_timers() {
    let mut lens = LensState::new();
    let first = lens.select("a".into());
    let second = lens.select("b".into());
    lens.slow_timer_fired(first);
    assert!(!lens.loading_slow);
    lens.slow_timer_fired(second);
    assert!(lens.loading_slow);
    lens.load_finished();
    assert!(lens.loading_model.is_none() && !lens.loading_slow);
    let ports = vec![
        PortInfo { name: "a".into(), port_type: "t".into(), shape: None },
        PortInfo { name: "b".into(), port_type: "t".into(), shape: None },
    ];
    assert_eq!(port_summary(&ports), "a, b");
    assert_eq!(port_summary(&[]), "none");
}

#[test]
fn sidebar_times_and_search() {
    assert_eq!(relative_time_at(1000, 2000), "just now");
    assert_eq!(relative_time_at(1000, 990), "just now");
    assert_eq!(relative_time_at(1000, 880), "2m ago");
    assert_eq!(relative_time_at(10_000, 2_800), "2h ago");
    assert_eq!(relative_time_at(100_000, 100_000 - 86_400), "yesterday");
    assert_eq!(relative_time_at(1_000_000, 1_000_000 - 3 * 86_400), "3d ago");
    assert_eq!(relative_time_at(10_000_000, 10_000_000 - 15 * 86_400), "2w ago");
    let session = |id: &str, preview: &str| Session {
        id: id.into(),
        model_id: "m".into(),
        model_name: "M".into(),
        created_at: 0,
        updated_at: 0,
        preview: preview.into(),
        message_count: 0,
    };
    let all = vec![session("1", "Hello World"), session("2", "other")];
    let hits = filter_sessions(all.clone(), "WORLD");
    assert_eq!(hits.len(), 1);
    assert_eq!(hits[0].id, "1");
    assert_eq!(filter_sessions(all, "").len(), 2);
}

#[test]
fn sidebar_rename_and_two_step_delete() {
    let mut state = SidebarState::new();
    state.start_rename("s1".into(), "old".into());
    state.edit_rename("  new  ".into());
    match state.commit_rename() {
        RenameOutcome::Rename { session_id, name } => {
            assert_eq!(session_id, "s1");
            assert_eq!(name, "new");
        }
        RenameOutcome::Dropped => panic!("expected a rename"),
    }
    state.start_rename("s1".into(), "old".into());
    state.edit_rename("   ".into());
    assert!(matches!(state.commit_rename(), RenameOutcome::Dropped));
    assert!(matches!(state.click_delete("s1"), DeleteClick::Confirm));
    assert!(matches!(state.click_delete("s2"), DeleteClick::Confirm));
    assert!(matches!(state.click_delete("s2"), DeleteClick::Delete(ref id) if id == "s2"));
    state.click_delete("s3");
    state.confirm_timeout("s4");
    assert_eq!(state.confirming_delete_id.as_deref(), Some("s3"));
    state.confirm_timeout("s3");
    assert!(state.confirming_delete_id.is_none());
}

#[test]
fn toasts_push_and_dismiss() {
    let mut store = ToastStore::new();
    store.push_with_id("t1".into(), "one".into(), ToastLevel::Info);
    store.push_with_id("t2".into(), "two".into(), ToastLevel::Error);
    store.push("three".into(), ToastLevel::Warning);
    assert_eq!(store.toasts.len(), 3);
    assert_eq!(store.toasts[2].ttl_ms, 4000);
    store.dismiss("t1");
    assert_eq!(store.toasts.len(), 2);
    assert_eq!(store.toasts[0].id, "t2");
    store.dismiss("missing");
    assert_eq!(store.toasts.len(), 2);
    assert_eq!(toast_css(ToastLevel::Error), "toast toast-error flex items-center gap-2 pointer-events-auto");
}

#[test]
fn chat_copy_text_and_bubbles() {
    let value: serde_json::Value = serde_json::from_str(r#"{"a": 1}"#).unwrap();
    let item = BatchItem { image_base64: "x".into(), mime_type: "image/png".into(), output: value.clone(), inference_ms: Some(5) };
    let batch = MessageContent::Batch(vec![item.clone(), item]);
    assert_eq!(copyable_text(&batch), "Image 1: {\n  \"a\": 1\n}\n\nImage 2: {\n  \"a\": 1\n}");
    let caption_less = MessageContent::Image { data_base64: "x".into(), mime_type: "image/png".into(), caption: None };
    assert_eq!(copyable_text(&caption_less), "");
    if let MessageContent::Batch(items) = &batch {
        assert_eq!(batch_total_ms(items), 10);
    }
    assert_eq!(bubble_kind(MessageRole::User, &caption_less), BubbleKind::UserImage);
    assert_eq!(bubble_kind(MessageRole::System, &caption_less), BubbleKind::Model);
    assert_eq!(data_url("image/png", "abc"), "data:image/png;base64,abc");
}

#[test]
fn introspection_describes_shapes() {
    let port = |name: &str, t: &str, shape: Option<Vec<i64>>| PortInfo { name: name.into(), port_type: t.into(), shape };
    assert_eq!(humanize_shape(&port("in", "String", None)), "Text input (variable length)");
    assert_eq!(humanize_shape(&port("in", "Image", Some(vec![1, 3, 224, 224]))), "224\u{00d7}224 RGB Image");
    assert_eq!(humanize_shape(&port("in", "MultiArray", Some(vec![1, 32, 32, 3]))), "32\u{00d7}32 RGB Image");
    assert_eq!(humanize_shape(&port("classProbs", "MultiArray", Some(vec![1, 1000]))), "1000 categories");
    assert_eq!(humanize_shape(&port("out", "MultiArray", Some(vec![1, 1000]))), "1000-dim vector");
    assert_eq!(humanize_shape(&port("out", "MultiArray", Some(vec![1]))), "Single value");
    assert_eq!(humanize_shape(&port("out", "MultiArray", Some(vec![1, 512]))), "512-dim embedding");
    assert_eq!(humanize_shape(&port("out", "MultiArray", Some(vec![1, 10]))), "10-dim vector");
    assert_eq!(humanize_shape(&port("out", "MultiArray", Some(vec![1, -1, 5]))), "MultiArray [1\u{00d7}?\u{00d7}5]");
    assert_eq!(humanize_shape(&port("out", "Dictionary", None)), "Key-value pairs");
    assert_eq!(latency_dot_class(150), "w-2 h-2 rounded-full bg-green-400 inline-block");
    assert_eq!(latency_dot_class(1500), "w-2 h-2 rounded-full bg-red-400 inline-block");
    let mut fb = FeedbackState::new("m1".into());
    fb.rate(true);
    assert_eq!(fb.confirmation(), "Thanks!");
    fb.observe_model("m2");
    assert!(fb.rating.is_none());
}

#[test]
fn spatial_feature_maps_are_found() {
    assert!(has_spatial_features(&json(r#"{"features": {"shape": [1, 8, 5, 5]}}"#)));
    assert!(!has_spatial_features(&json(r#"{"features": {"shape": [1, 8, 2, 2]}}"#)));
    assert!(has_spatial_features(&json("[[[[1,2,3,4,5],[1,2,3,4,5],[1,2,3,4,5],[1,2,3,4,5]]]]")));
    assert!(!has_spatial_features(&json(r#"{"shape": [1, 8, 5, 5]}"#)));
    assert!(has_spatial_features(&json(r#"{"out": [{"deep": {"shape": [1, 1, 10, 10]}}]}"#)));
}

#[test]
fn home_shortcuts_and_onboarding() {
    let mut home = HomeState::new();
    assert!(home.handle_shortcut(true, "n"));
    assert_eq!(home.shortcut_new_session, 1);
    assert!(home.handle_shortcut(true, "i"));
    assert!(home.show_introspection);
    home.model_picker_open = true;
    assert!(!home.handle_shortcut(false, "Escape"));
    assert!(!home.show_introspection && !home.model_picker_open);
    home.toggle_theme();
    assert_eq!(home.theme, "light");
    let mut flow = OnboardingState::new(onboarding_complete(None));
    assert!(flow.visible);
    flow.next();
    flow.next();
    flow.next();
    assert_eq!(flow.step, 2);
    assert!(flow.is_last_step());
    flow.back();
    assert_eq!(flow.step, 1);
    flow.close();
    assert!(!flow.visible);
    assert!(!OnboardingState::new(onboarding_complete(Some("true"))).visible);
    assert_eq!(drag_width(256, 100, 180, 200, 400), 336);
    assert_eq!(drag_width(256, 100, 0, 200, 400), 200);
    assert_eq!(drag_width(256, 100, 600, 200, 400), 400);
}
