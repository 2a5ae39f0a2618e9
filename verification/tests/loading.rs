use handy::loading::{
    backend_named, plan_load, LoadFailure, LoadedModel, ModelBackend, ModelEntry,
    ModelStateEvent, TranscriptionRoute,
};

fn entry(name: &str, is_downloaded: bool, backend: &str) -> ModelEntry {
    ModelEntry {
        name: name.to_string(),
        is_downloaded,
        backend: backend.to_string(),
    }
}

#[test]
fn backends_by_name() {
    assert_eq!(backend_named("qwen-asr"), ModelBackend::QwenAsr);
    assert_eq!(backend_named("whisper"), ModelBackend::Whisper);
    assert_eq!(backend_named("anything"), ModelBackend::Whisper);
}

#[test]
fn plan_stops_on_missing_or_absent_models() {
    assert!(matches!(plan_load(None), Err(LoadFailure::ModelNotFound)));
    let e = entry("Small", false, "whisper");
    assert!(matches!(plan_load(Some(&e)), Err(LoadFailure::NotDownloaded)));
    let e = entry("Small", true, "whisper");
    assert!(matches!(plan_load(Some(&e)), Ok(ModelBackend::Whisper)));
    let e = entry("Qwen3 ASR", true, "qwen-asr");
    assert!(matches!(plan_load(Some(&e)), Ok(ModelBackend::QwenAsr)));
}

#[test]
fn failure_messages() {
    assert_eq!(LoadFailure::ModelNotFound.message("small"), "Model not found: small");
    assert_eq!(LoadFailure::NotDownloaded.message("small"), "Model not downloaded");
    assert_eq!(
        LoadFailure::ModelPath("no such dir".to_string()).message("small"),
        "no such dir"
    );
    assert_eq!(LoadFailure::InvalidPath.message("small"), "Invalid path for model: small");
    assert_eq!(
        LoadFailure::WhisperContext("bad magic".to_string()).message("small"),
        "Failed to load whisper model small: bad magic"
    );
    assert_eq!(
        LoadFailure::WhisperState("oom".to_string()).message("small"),
        "Failed to create state for model small: oom"
    );
    assert_eq!(
        LoadFailure::QwenAsr("sidecar died".to_string()).message("qwen"),
        "Failed to load Qwen3-ASR: sidecar died"
    );
}

#[test]
fn which_failures_are_reported() {
    assert!(!LoadFailure::ModelNotFound.is_reported());
    assert!(LoadFailure::NotDownloaded.is_reported());
    assert!(!LoadFailure::ModelPath(String::new()).is_reported());
    assert!(!LoadFailure::InvalidPath.is_reported());
    assert!(LoadFailure::WhisperContext(String::new()).is_reported());
    assert!(LoadFailure::WhisperState(String::new()).is_reported());
    assert!(LoadFailure::QwenAsr(String::new()).is_reported());
}

#[test]
fn events_carry_their_fields() {
    let e = ModelStateEvent::loading_started("small");
    assert_eq!(e.event_type, "loading_started");
    assert_eq!(e.model_id.as_deref(), Some("small"));
    assert_eq!(e.model_name, None);
    assert_eq!(e.error, None);
    let e = ModelStateEvent::loading_completed("small", "Whisper Small");
    assert_eq!(e.event_type, "loading_completed");
    assert_eq!(e.model_name.as_deref(), Some("Whisper Small"));
    assert_eq!(e.error, None);
    let e = ModelStateEvent::loading_failed("small", Some("Whisper Small"), "boom");
    assert_eq!(e.event_type, "loading_failed");
    assert_eq!(e.model_id.as_deref(), Some("small"));
    assert_eq!(e.error.as_deref(), Some("boom"));
}

#[test]
fn a_successful_load_becomes_current() {
    let mut loaded = LoadedModel::new();
    assert_eq!(loaded.current_model(), None);
    assert_eq!(loaded.current_backend(), None);
    let report = loaded.conclude_load("small", Some("Whisper Small"), ModelBackend::Whisper, Ok(()));
    assert_eq!(report.result, Ok(()));
    let event = report.event.unwrap();
    assert_eq!(event.event_type, "loading_completed");
    assert_eq!(event.model_name.as_deref(), Some("Whisper Small"));
    assert_eq!(loaded.current_model().as_deref(), Some("small"));
    assert_eq!(loaded.current_backend(), Some(ModelBackend::Whisper));

    let report = loaded.conclude_load("qwen", Some("Qwen3 ASR"), ModelBackend::QwenAsr, Ok(()));
    assert_eq!(report.result, Ok(()));
    assert_eq!(loaded.current_model().as_deref(), Some("qwen"));
    assert_eq!(loaded.current_backend(), Some(ModelBackend::QwenAsr));
}

#[test]
fn a_failed_load_keeps_the_current_model() {
    let mut loaded = LoadedModel::new();
    loaded.conclude_load("small", Some("Whisper Small"), ModelBackend::Whisper, Ok(()));

    let report = loaded.conclude_load(
        "qwen",
        Some("Qwen3 ASR"),
        ModelBackend::QwenAsr,
        Err(LoadFailure::QwenAsr("sidecar died".to_string())),
    );
    assert_eq!(
        report.result,
        Err("Failed to load Qwen3-ASR: sidecar died".to_string())
    );
    let event = report.event.unwrap();
    assert_eq!(event.event_type, "loading_failed");
    assert_eq!(event.error.as_deref(), Some("Failed to load Qwen3-ASR: sidecar died"));
    assert_eq!(loaded.current_model().as_deref(), Some("small"));
    assert_eq!(loaded.current_backend(), Some(ModelBackend::Whisper));

    let report = loaded.conclude_load("big", None, ModelBackend::Whisper, Err(LoadFailure::ModelNotFound));
    assert_eq!(report.result, Err("Model not found: big".to_string()));
    assert!(report.event.is_none());
    assert_eq!(loaded.current_model().as_deref(), Some("small"));
}

#[test]
fn routes_requests_to_the_current_backend() {
    let mut loaded = LoadedModel::new();
    assert_eq!(loaded.route(0), Ok(TranscriptionRoute::Empty));
    assert_eq!(
        loaded.route(16000),
        Err("No model loaded. Please download and select a model from settings first.".to_string())
    );
    loaded.conclude_load("qwen", Some("Qwen3 ASR"), ModelBackend::QwenAsr, Ok(()));
    assert_eq!(loaded.route(16000), Ok(TranscriptionRoute::QwenAsr));
    assert_eq!(loaded.route(0), Ok(TranscriptionRoute::Empty));
    loaded.conclude_load("small", Some("Whisper Small"), ModelBackend::Whisper, Ok(()));
    assert_eq!(loaded.route(1), Ok(TranscriptionRoute::Whisper));
}

#[test]
fn failed_loads_leave_no_model_to_transcribe_with() {
    let mut loaded = LoadedModel::new();
    loaded.conclude_load("small", None, ModelBackend::Whisper, Err(LoadFailure::ModelNotFound));
    loaded.conclude_load(
        "small",
        Some("Whisper Small"),
        ModelBackend::Whisper,
        Err(LoadFailure::WhisperContext("bad magic".to_string())),
    );
    assert_eq!(loaded.current_model(), None);
    assert!(loaded.route(480).is_err());
}

#[test]
fn the_last_successful_load_stays_current() {
    let mut loaded = LoadedModel::new();
    loaded.conclude_load("a", Some("A"), ModelBackend::Whisper, Ok(()));
    loaded.conclude_load("b", Some("B"), ModelBackend::QwenAsr, Ok(()));
    loaded.conclude_load("c", Some("C"), ModelBackend::Whisper, Err(LoadFailure::NotDownloaded));
    loaded.conclude_load("d", None, ModelBackend::Whisper, Err(LoadFailure::ModelNotFound));
    loaded.conclude_load("e", Some("E"), ModelBackend::Whisper, Err(LoadFailure::InvalidPath));
    assert_eq!(loaded.current_model().as_deref(), Some("b"));
    assert_eq!(loaded.current_backend(), Some(ModelBackend::QwenAsr));
}
