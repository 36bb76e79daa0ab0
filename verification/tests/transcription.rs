use openwispr::analytics::SessionCounts;
use openwispr::desktop::{download_outcome, queued_event};
use openwispr::hotkey::{HotkeyState, RecordingAction};
use openwispr::llm::{llm_model_file, missing_llm_model, LlamaCppAdapter, LlmError, LlmModelFile};
use openwispr::shortcut::parse_shortcut;
use openwispr::stt::{DecodeStep, SttError};
use openwispr::transcription::{
    decode_params, mlx_transcript, whisper_transcript, SharedMlxParakeetAdapter,
    SharedWhisperAdapter, TimePoint, TranscriptionTask,
};

#[test]
fn whisper_transcript_keeps_timed_segments() {
    let texts = vec![" Hello".to_string(), "   ".to_string(), " world. ".to_string()];
    let starts = vec![0, 150, 200];
    let ends = vec![150, 200, 420];
    let t = whisper_transcript(&texts, &starts, &ends, Some("de".to_string()), Some("en".to_string()));
    assert_eq!(t.text, "Hello    world.");
    assert_eq!(t.language.as_deref(), Some("de"));
    assert_eq!(t.segments.len(), 2);
    assert_eq!(t.segments[0].text, "Hello");
    assert_eq!(t.segments[0].start, TimePoint::Centiseconds(0));
    assert_eq!(t.segments[0].end, TimePoint::Centiseconds(150));
    assert_eq!(t.segments[1].text, "world.");
    assert_eq!(t.segments[1].start, TimePoint::Centiseconds(200));
    assert_eq!(t.segments[1].end, TimePoint::Centiseconds(420));
    let detected = whisper_transcript(&texts, &starts, &ends, None, Some("fr".to_string()));
    assert_eq!(detected.language.as_deref(), Some("fr"));
    let empty = whisper_transcript(&vec![], &vec![], &vec![], None, None);
    assert_eq!(empty.text, "");
    assert!(empty.language.is_none());
    assert!(empty.segments.is_empty());
}

#[test]
fn decode_parameters_follow_step_and_task() {
    let p = decode_params(DecodeStep::Primary, &None, TranscriptionTask::Translate, Some(12));
    assert!(p.beam_search && !p.relaxed_filters && p.translate);
    assert_eq!(p.language.as_deref(), Some("en"));
    assert!(!p.detect_language);
    assert_eq!(p.threads, 8);
    let a = decode_params(DecodeStep::AutoLanguage, &None, TranscriptionTask::Transcribe, None);
    assert!(a.beam_search && !a.translate && a.detect_language && a.language.is_none());
    assert_eq!(a.threads, 4);
    let q = decode_params(DecodeStep::Permissive, &Some("es".to_string()), TranscriptionTask::Transcribe, Some(2));
    assert!(!q.beam_search && q.relaxed_filters && !q.translate);
    assert_eq!(q.language.as_deref(), Some("es"));
    assert_eq!(q.threads, 2);
}

#[test]
fn mlx_transcript_is_english_with_one_segment() {
    let t = mlx_transcript("  hello there \n", 32000);
    assert_eq!(t.text, "hello there");
    assert_eq!(t.language.as_deref(), Some("en"));
    assert_eq!(t.segments.len(), 1);
    assert_eq!(t.segments[0].text, "hello there");
    assert_eq!(t.segments[0].start, TimePoint::Samples(0));
    assert_eq!(t.segments[0].end, TimePoint::Samples(32000));
    let e = mlx_transcript(" \n ", 100);
    assert_eq!(e.text, "");
    assert!(e.segments.is_empty());
}

#[test]
fn whisper_adapter_state() {
    let mut a = SharedWhisperAdapter::new();
    match a.transcription_session(10) {
        Err(SttError::TranscriptionFailed(m)) => assert_eq!(m, "adapter not initialized"),
        _ => panic!(),
    }
    assert!(a.initialize(None, TranscriptionTask::Transcribe, Ok("/m/base.bin".to_string())).is_ok());
    match a.initialize(Some("de".into()), TranscriptionTask::Translate, Err(SttError::ModelLoadError("x".into()))) {
        Err(SttError::ModelLoadError(m)) => assert_eq!(m, "x"),
        _ => panic!(),
    }
    let s = a.transcription_session(10).unwrap();
    assert_eq!(s.model_path, "/m/base.bin");
    assert!(s.language.is_none());
    assert_eq!(s.task, TranscriptionTask::Transcribe);
    match a.transcription_session(0) {
        Err(SttError::AudioError(m)) => assert_eq!(m, "no audio samples available after preprocessing"),
        _ => panic!(),
    }
}

#[test]
fn mlx_adapter_state() {
    let mut a = SharedMlxParakeetAdapter::new();
    match a.transcription_model(5) {
        Err(SttError::TranscriptionFailed(m)) => assert_eq!(m, "mlx adapter not initialized"),
        _ => panic!(),
    }
    assert!(a.initialize(Err(SttError::ModelNotFound("bad".into())), Ok(())).is_err());
    assert!(a.model_ref.is_none());
    assert!(a.initialize(Ok("org/m".into()), Err(SttError::ModelLoadError("py".into()))).is_err());
    assert!(a.model_ref.is_none());
    assert!(a.initialize(Ok("org/m".into()), Ok(())).is_ok());
    assert_eq!(a.transcription_model(5).unwrap(), "org/m");
    match a.transcription_model(0) {
        Err(SttError::AudioError(m)) => assert_eq!(m, "no audio samples available after preprocessing"),
        _ => panic!(),
    }
}

#[test]
fn llm_adapter_state_and_model_file() {
    match llm_model_file(Some("/x/m.gguf".into()), "whatever").unwrap() {
        LlmModelFile::Configured(p) => assert_eq!(p, "/x/m.gguf"),
        _ => panic!(),
    }
    match llm_model_file(None, "SmolLM2-135M-Instruct-Q4_K_M").unwrap() {
        LlmModelFile::Catalogue(f) => assert_eq!(f, "SmolLM2-135M-Instruct-Q4_K_M.gguf"),
        _ => panic!(),
    }
    assert!(llm_model_file(None, "nope").is_err());
    match missing_llm_model("\"/x/m.gguf\"") {
        LlmError::ModelNotFound(m) => assert_eq!(m, "Model file not found at \"/x/m.gguf\". Please download it first."),
        _ => panic!(),
    }
    let mut a = LlamaCppAdapter::new();
    assert!(a.ensure_initialized().is_err());
    assert!(a.initialize("m1".into(), Err(LlmError::ModelLoadError("no".into()))).is_err());
    assert!(a.current_model().is_none());
    assert!(a.initialize("m1".into(), Ok(())).is_ok());
    assert!(a.ensure_initialized().is_ok());
    assert_eq!(a.current_model().unwrap(), "m1");
}

#[test]
fn download_outcomes() {
    let q = queued_event();
    assert_eq!(q.stage, "queued");
    assert_eq!(q.percent, Some(0));
    let (r, e) = download_outcome(Ok(()), false);
    assert!(r.is_ok());
    assert_eq!(e.stage, "ready");
    assert_eq!(e.message.as_deref(), Some("Download complete"));
    let (r, e) = download_outcome(Err("net".into()), true);
    assert!(r.is_ok());
    assert_eq!(e.message.as_deref(), Some("Model files downloaded. It will initialize when selected."));
    let (r, e) = download_outcome(Err("net".into()), false);
    assert_eq!(r.unwrap_err(), "net");
    assert_eq!(e.stage, "error");
    assert_eq!(e.error.as_deref(), Some("net"));
    assert_eq!(e.percent, None);
    assert!(e.done);
}

#[test]
fn session_counts() {
    let mut c = SessionCounts { sessions_count: 2, day_streak: 3, last_session_date: Some("2024-02-29".into()), total_words: 10 };
    assert!(c.record_session(5, "2024-03-01".into()));
    assert_eq!((c.sessions_count, c.day_streak, c.total_words), (3, 4, 15));
    assert_eq!(c.last_session_date.as_deref(), Some("2024-03-01"));
    let mut full = SessionCounts { sessions_count: 1, day_streak: 1, last_session_date: None, total_words: u64::MAX };
    assert!(!full.record_session(1, "2024-03-01".into()));
    assert_eq!(full.sessions_count, 1);
    assert!(full.last_session_date.is_none());
}

#[test]
fn key_change_in_two_steps() {
    let mut s = HotkeyState::new();
    let push = parse_shortcut("fn").unwrap();
    let hands_free = parse_shortcut("fn+space").unwrap();
    s.keys.fn_down = true;
    let (toggle, action) = s.begin_key_change(&push, &hands_free);
    assert_eq!(toggle, None);
    assert_eq!(action, RecordingAction::Start);
    assert_eq!(s.end_key_change(action, &Ok(())), Some(true));
    assert!(s.is_recording_active);
    s.keys.fn_down = false;
    let (_, action) = s.begin_key_change(&push, &hands_free);
    assert_eq!(action, RecordingAction::Stop);
    assert_eq!(s.end_key_change(action, &Ok(())), Some(false));
    assert!(!s.is_recording_active);
}
