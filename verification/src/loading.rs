//! The decisions of loading a transcription model: which backend it runs
//! on, why a load failed and what is reported of it, and which model is
//! current afterwards.

use vstd::prelude::*;
use vstd::string::StringExecFns;
use crate::transcription::str_eq;

verus! {

broadcast use vstd::string::group_string_axioms;

/// The view of an optional owned string.
pub open spec fn opt_string_view(o: Option<String>) -> Option<Seq<char>> {
    match o {
        Some(s) => Some(s@),
        None => None,
    }
}

/// A copy of an optional string.
fn clone_opt_string(o: &Option<String>) -> (res: Option<String>)
    ensures
        opt_string_view(res) == opt_string_view(*o),
{
    match o {
        Some(s) => Some(s.clone()),
        None => None,
    }
}

/// An owned copy of an optional string slice.
fn own_opt_str(o: Option<&str>) -> (res: Option<String>)
    ensures
        opt_string_view(res) == crate::transcription::opt_str_view(o),
{
    match o {
        Some(s) => Some(String::from_str(s)),
        None => None,
    }
}

/// The speech-recognition backend a model runs on.
#[derive(Clone, Copy, Debug, PartialEq, Eq, Structural)]
pub enum ModelBackend {
    /// whisper.cpp, run in process.
    Whisper,
    /// Qwen3-ASR, run by a sidecar process.
    QwenAsr,
}

/// The backend a catalogue entry names: `"qwen-asr"` is Qwen3-ASR, anything
/// else Whisper.
pub open spec fn backend_named_spec(name: Seq<char>) -> ModelBackend {
    if name == "qwen-asr"@ {
        ModelBackend::QwenAsr
    } else {
        ModelBackend::Whisper
    }
}

/// The backend a catalogue entry names.
pub fn backend_named(name: &str) -> (res: ModelBackend)
    ensures
        res == backend_named_spec(name@),
{
    if str_eq(name, "qwen-asr") {
        ModelBackend::QwenAsr
    } else {
        ModelBackend::Whisper
    }
}

/// What loading reads of a model's catalogue entry.
#[derive(Debug)]
pub struct ModelEntry {
    /// The display name of the model.
    pub name: String,
    /// Whether the model's files are on disk.
    pub is_downloaded: bool,
    /// The backend the model runs on, by name (`"whisper"` or `"qwen-asr"`).
    pub backend: String,
}

/// A change in the model's loading state, as the frontend is told of it.
#[derive(Clone, Debug)]
pub struct ModelStateEvent {
    /// `"loading_started"`, `"loading_completed"` or `"loading_failed"`.
    pub event_type: String,
    /// The model being loaded.
    pub model_id: Option<String>,
    /// Its display name, once known.
    pub model_name: Option<String>,
    /// Why loading failed.
    pub error: Option<String>,
}

/// Whether `e` holds exactly the given kind, model, name and error.
pub open spec fn event_is(
    e: ModelStateEvent,
    kind: Seq<char>,
    model_id: Option<Seq<char>>,
    model_name: Option<Seq<char>>,
    error: Option<Seq<char>>,
) -> bool {
    &&& e.event_type@ == kind
    &&& opt_string_view(e.model_id) == model_id
    &&& opt_string_view(e.model_name) == model_name
    &&& opt_string_view(e.error) == error
}

impl ModelStateEvent {
    /// Loading of `model_id` has begun.
    pub fn loading_started(model_id: &str) -> (res: ModelStateEvent)
        ensures
            event_is(res, "loading_started"@, Some(model_id@), None, None),
    {
        ModelStateEvent {
            event_type: String::from_str("loading_started"),
            model_id: Some(String::from_str(model_id)),
            model_name: None,
            error: None,
        }
    }

    /// `model_id` is loaded and ready.
    pub fn loading_completed(model_id: &str, model_name: &str) -> (res: ModelStateEvent)
        ensures
            event_is(res, "loading_completed"@, Some(model_id@), Some(model_name@), None),
    {
        ModelStateEvent {
            event_type: String::from_str("loading_completed"),
            model_id: Some(String::from_str(model_id)),
            model_name: Some(String::from_str(model_name)),
            error: None,
        }
    }

    /// Loading `model_id` failed with `error`.
    pub fn loading_failed(model_id: &str, model_name: Option<&str>, error: &str) -> (res:
        ModelStateEvent)
        ensures
            event_is(
                res,
                "loading_failed"@,
                Some(model_id@),
                crate::transcription::opt_str_view(model_name),
                Some(error@),
            ),
    {
        ModelStateEvent {
            event_type: String::from_str("loading_failed"),
            model_id: Some(String::from_str(model_id)),
            model_name: own_opt_str(model_name),
            error: Some(String::from_str(error)),
        }
    }
}


/// Why loading a model failed.
#[derive(Debug)]
pub enum LoadFailure {
    /// The catalogue has no model with the id.
    ModelNotFound,
    /// The model is known but its files are not on disk.
    NotDownloaded,
    /// The catalogue could not give the model's path; the text is its error.
    ModelPath(String),
    /// The model's path is not valid UTF-8.
    InvalidPath,
    /// whisper.cpp could not load the model; the text is its error.
    WhisperContext(String),
    /// whisper.cpp could not create a decoding state; the text is its error.
    WhisperState(String),
    /// The Qwen3-ASR sidecar could not load the model; the text is its error.
    QwenAsr(String),
}

/// The error text a failed load of `model_id` ends with.
pub open spec fn failure_message_spec(failure: LoadFailure, model_id: Seq<char>) -> Seq<char> {
    match failure {
        LoadFailure::ModelNotFound => "Model not found: "@ + model_id,
        LoadFailure::NotDownloaded => "Model not downloaded"@,
        LoadFailure::ModelPath(e) => e@,
        LoadFailure::InvalidPath => "Invalid path for model: "@ + model_id,
        LoadFailure::WhisperContext(e) => "Failed to load whisper model "@ + model_id + ": "@ + e@,
        LoadFailure::WhisperState(e) => "Failed to create state for model "@ + model_id + ": "@
            + e@,
        LoadFailure::QwenAsr(e) => "Failed to load Qwen3-ASR: "@ + e@,
    }
}

/// Whether the frontend is told of the failure with a `loading_failed`
/// event: it is for every failure once the model is known to be in the
/// catalogue, except a bad path.
pub open spec fn failure_is_reported_spec(failure: LoadFailure) -> bool {
    match failure {
        LoadFailure::ModelNotFound => false,
        LoadFailure::ModelPath(_) => false,
        LoadFailure::InvalidPath => false,
        _ => true,
    }
}

impl LoadFailure {
    /// The error text a failed load of `model_id` ends with.
    pub fn message(&self, model_id: &str) -> (res: String)
        ensures
            res@ == failure_message_spec(*self, model_id@),
    {
        match self {
            LoadFailure::ModelNotFound => {
                let mut m = String::from_str("Model not found: ");
                m.append(model_id);
                m
            },
            LoadFailure::NotDownloaded => String::from_str("Model not downloaded"),
            LoadFailure::ModelPath(e) => e.clone(),
            LoadFailure::InvalidPath => {
                let mut m = String::from_str("Invalid path for model: ");
                m.append(model_id);
                m
            },
            LoadFailure::WhisperContext(e) => {
                let mut m = String::from_str("Failed to load whisper model ");
                m.append(model_id);
                m.append(": ");
                m.append(e.as_str());
                m
            },
            LoadFailure::WhisperState(e) => {
                let mut m = String::from_str("Failed to create state for model ");
                m.append(model_id);
                m.append(": ");
                m.append(e.as_str());
                m
            },
            LoadFailure::QwenAsr(e) => {
                let mut m = String::from_str("Failed to load Qwen3-ASR: ");
                m.append(e.as_str());
                m
            },
        }
    }

    /// Whether the frontend is told of the failure with a `loading_failed`
    /// event.
    pub fn is_reported(&self) -> (res: bool)
        ensures
            res == failure_is_reported_spec(*self),
    {
        match self {
            LoadFailure::ModelNotFound => false,
            LoadFailure::ModelPath(_) => false,
            LoadFailure::InvalidPath => false,
            _ => true,
        }
    }
}

/// The backend a load goes on with, or why it stops before touching one:
/// the model must be in the catalogue and downloaded.
pub open spec fn plan_load_spec(entry: Option<ModelEntry>) -> Result<ModelBackend, LoadFailure> {
    match entry {
        None => Err(LoadFailure::ModelNotFound),
        Some(e) => if !e.is_downloaded {
            Err(LoadFailure::NotDownloaded)
        } else {
            Ok(backend_named_spec(e.backend@))
        },
    }
}

/// Decides, from the model's catalogue entry, on which backend its load
/// goes on, or why it stops.
pub fn plan_load(entry: Option<&ModelEntry>) -> (res: Result<ModelBackend, LoadFailure>)
    ensures
        res == plan_load_spec(
            match entry {
                Some(e) => Some(*e),
                None => None,
            },
        ),
{
    match entry {
        None => Err(LoadFailure::ModelNotFound),
        Some(e) => {
            if !e.is_downloaded {
                Err(LoadFailure::NotDownloaded)
            } else {
                Ok(backend_named(e.backend.as_str()))
            }
        },
    }
}

/// What the end of a load reports: the event the frontend is told of, if
/// any, and the load's result.
#[derive(Debug)]
pub struct LoadReport {
    /// The event to emit.
    pub event: Option<ModelStateEvent>,
    /// `Err` with the error text when the load failed.
    pub result: Result<(), String>,
}

/// The model that transcription currently runs on.
#[derive(Debug)]
pub struct LoadedModel {
    model_id: Option<String>,
    backend: Option<ModelBackend>,
}

impl LoadedModel {
    /// The id of the current model, if one is loaded.
    pub closed spec fn model_id_view(&self) -> Option<Seq<char>> {
        opt_string_view(self.model_id)
    }

    /// The backend of the current model, if one is loaded.
    pub closed spec fn backend_view(&self) -> Option<ModelBackend> {
        self.backend
    }

    /// A model id is recorded exactly when a backend is.
    pub closed spec fn wf(&self) -> bool {
        self.model_id.is_some() == self.backend.is_some()
    }

    /// No model loaded.
    pub fn new() -> (res: LoadedModel)
        ensures
            res.wf(),
            res.model_id_view() is None,
            res.backend_view() is None,
    {
        LoadedModel { model_id: None, backend: None }
    }

    /// The id of the current model, if one is loaded.
    pub fn current_model(&self) -> (res: Option<String>)
        ensures
            opt_string_view(res) == self.model_id_view(),
    {
        clone_opt_string(&self.model_id)
    }

    /// The backend of the current model, if one is loaded.
    pub fn current_backend(&self) -> (res: Option<ModelBackend>)
        ensures
            res == self.backend_view(),
    {
        self.backend
    }

    /// Concludes a load of `model_id` on `backend` with its `outcome`.
    ///
    /// A successful load makes the model current and is reported as
    /// completed. A failed one leaves the current model as it was, ends with
    /// the failure's error text, and, where the failure is reported, tells
    /// the frontend the same text.
    pub fn conclude_load(
        &mut self,
        model_id: &str,
        model_name: Option<&str>,
        backend: ModelBackend,
        outcome: Result<(), LoadFailure>,
    ) -> (res: LoadReport)
        requires
            old(self).wf(),
            outcome is Ok ==> model_name is Some,
        ensures
            final(self).wf(),
            final(self).model_id_view() == model_after_load(
                old(self).model_id_view(),
                model_id@,
                outcome is Ok,
            ),
            match outcome {
                Ok(()) => {
                    &&& final(self).model_id_view() == Some(model_id@)
                    &&& final(self).backend_view() == Some(backend)
                    &&& res.result is Ok
                    &&& res.event matches Some(e) && event_is(
                        e,
                        "loading_completed"@,
                        Some(model_id@),
                        crate::transcription::opt_str_view(model_name),
                        None,
                    )
                },
                Err(f) => {
                    &&& *final(self) == *old(self)
                    &&& res.result matches Err(m) && m@ == failure_message_spec(f, model_id@)
                    &&& if failure_is_reported_spec(f) {
                        res.event matches Some(e) && event_is(
                            e,
                            "loading_failed"@,
                            Some(model_id@),
                            crate::transcription::opt_str_view(model_name),
                            Some(failure_message_spec(f, model_id@)),
                        )
                    } else {
                        res.event is None
                    }
                },
            },
    {
        match outcome {
            Ok(()) => {
                let name = match model_name {
                    Some(n) => n,
                    None => "",
                };
                self.model_id = Some(String::from_str(model_id));
                self.backend = Some(backend);
                LoadReport {
                    event: Some(ModelStateEvent::loading_completed(model_id, name)),
                    result: Ok(()),
                }
            },
            Err(f) => {
                let message = f.message(model_id);
                let event = if f.is_reported() {
                    Some(ModelStateEvent::loading_failed(model_id, model_name, message.as_str()))
                } else {
                    None
                };
                LoadReport { event, result: Err(message) }
            },
        }
    }
}

/// Where a transcription request goes.
#[derive(Clone, Copy, Debug, PartialEq, Eq, Structural)]
pub enum TranscriptionRoute {
    /// No audio: the transcription is the empty string.
    Empty,
    /// The Qwen3-ASR sidecar transcribes.
    QwenAsr,
    /// whisper.cpp transcribes; it is the default backend.
    Whisper,
}

/// The refusal of a transcription request when no model is loaded.
pub open spec fn no_model_message() -> Seq<char> {
    "No model loaded. Please download and select a model from settings first."@
}

impl LoadedModel {
    /// Where a request with `audio_len` samples goes: nowhere when there is
    /// no audio, to the current model's backend otherwise. With no model
    /// loaded, the request takes the Whisper path, which has no model to run
    /// and refuses it.
    pub fn route(&self, audio_len: usize) -> (res: Result<TranscriptionRoute, String>)
        ensures
            audio_len == 0 ==> res == Ok::<TranscriptionRoute, String>(TranscriptionRoute::Empty),
            audio_len != 0 && self.backend_view() == Some(ModelBackend::QwenAsr) ==> res == Ok::<
                TranscriptionRoute,
                String,
            >(TranscriptionRoute::QwenAsr),
            audio_len != 0 && self.backend_view() == Some(ModelBackend::Whisper) ==> res == Ok::<
                TranscriptionRoute,
                String,
            >(TranscriptionRoute::Whisper),
            audio_len != 0 && self.backend_view() is None ==> (res matches Err(m) && m@
                == no_model_message()),
    {
        if audio_len == 0 {
            Ok(TranscriptionRoute::Empty)
        } else {
            match self.backend {
                Some(ModelBackend::QwenAsr) => Ok(TranscriptionRoute::QwenAsr),
                Some(ModelBackend::Whisper) => Ok(TranscriptionRoute::Whisper),
                None => Err(
                    String::from_str(
                        "No model loaded. Please download and select a model from settings first.",
                    ),
                ),
            }
        }
    }
}

/// The current model after a load of `model_id`: the loaded model when the
/// load succeeded, the one before it when it failed.
pub open spec fn model_after_load(
    current: Option<Seq<char>>,
    model_id: Seq<char>,
    succeeded: bool,
) -> Option<Seq<char>> {
    if succeeded {
        Some(model_id)
    } else {
        current
    }
}

/// The current model after a sequence of loads, each a model id and whether
/// its load succeeded, starting from `start`.
pub open spec fn model_after_loads(
    start: Option<Seq<char>>,
    loads: Seq<(Seq<char>, bool)>,
) -> Option<Seq<char>>
    decreases loads.len(),
{
    if loads.len() == 0 {
        start
    } else {
        model_after_load(
            model_after_loads(start, loads.drop_last()),
            loads.last().0,
            loads.last().1,
        )
    }
}

/// After any sequence of loads, the current model is the one of the last
/// load that succeeded: later failed loads leave it as it was.
pub proof fn last_successful_load_is_current(
    start: Option<Seq<char>>,
    loads: Seq<(Seq<char>, bool)>,
    k: int,
)
    requires
        0 <= k < loads.len(),
        loads[k].1,
        forall|j: int| k < j < loads.len() ==> !(#[trigger] loads[j]).1,
    ensures
        model_after_loads(start, loads) == Some(loads[k].0),
    decreases loads.len(),
{
    if k < loads.len() - 1 {
        let shorter = loads.drop_last();
        assert forall|j: int| k < j < shorter.len() implies !(#[trigger] shorter[j]).1 by {
            assert(shorter[j] == loads[j]);
        }
        last_successful_load_is_current(start, shorter, k);
        assert(!loads[loads.len() - 1].1);
    }
}

/// Until a load succeeds the current model stays what it was: with no model
/// at the start, there is none after any number of failed loads.
pub proof fn failed_loads_keep_the_current_model(
    start: Option<Seq<char>>,
    loads: Seq<(Seq<char>, bool)>,
)
    requires
        forall|j: int| 0 <= j < loads.len() ==> !(#[trigger] loads[j]).1,
    ensures
        model_after_loads(start, loads) == start,
    decreases loads.len(),
{
    if loads.len() > 0 {
        let shorter = loads.drop_last();
        assert forall|j: int| 0 <= j < shorter.len() implies !(#[trigger] shorter[j]).1 by {
            assert(shorter[j] == loads[j]);
        }
        failed_loads_keep_the_current_model(start, shorter);
        assert(!loads[loads.len() - 1].1);
    }
}

/// A load stops when the catalogue does not know the model, and, whatever
/// backend the entry names, when the model is not downloaded; otherwise it
/// goes on with Qwen3-ASR for a `qwen-asr` entry and with Whisper for any
/// other.
pub proof fn plan_load_by_entry(entry: Option<ModelEntry>)
    ensures
        entry is None ==> plan_load_spec(entry) == Err::<ModelBackend, LoadFailure>(
            LoadFailure::ModelNotFound,
        ),
        (entry matches Some(e) && !e.is_downloaded) ==> plan_load_spec(entry) == Err::<
            ModelBackend,
            LoadFailure,
        >(LoadFailure::NotDownloaded),
        (entry matches Some(e) && e.is_downloaded && e.backend@ == "qwen-asr"@) ==> plan_load_spec(
            entry,
        ) == Ok::<ModelBackend, LoadFailure>(ModelBackend::QwenAsr),
        (entry matches Some(e) && e.is_downloaded && e.backend@ != "qwen-asr"@) ==> plan_load_spec(
            entry,
        ) == Ok::<ModelBackend, LoadFailure>(ModelBackend::Whisper),
{
}

} // verus!
