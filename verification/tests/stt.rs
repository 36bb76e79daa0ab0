use openwispr::stt::{
    after_context_attempt, check_sherpa_source, check_whisper_source, context_load_error,
    mlx_marker_path_components, mlx_model_available, mlx_setup_error, mlx_transcription_error,
    model_cache_dir_components, ContextStep,
};
use openwispr::stt::{ missing_model_path, preferred_backend, sherpa_model_source, whisper_model_source, SherpaModelSource, TargetOs, WhisperModelSource, };
use openwispr::stt::{
    assemble_transcript, available_models, compact_python_error, decode_language,
    looks_like_model_dir, looks_like_model_path, model_cache_root, model_filename,
    next_decode_step, optimal_threads, parse_mlx_output, requested_language, resolve_model_ref,
    sanitize_model_ref, should_emit_progress, whisper_download_url, CacheRoot, DecodeStep,
    FallbackAdapter, SttError,
};

#[test]
fn model_filename_maps_named_models() {
    assert_eq!(model_filename("base"), "ggml-base.bin");
    assert_eq!(model_filename("base.en"), "ggml-base.en.bin");
    assert_eq!(model_filename("small"), "ggml-small.bin");
}

#[test]
fn model_filename_preserves_existing_bin_name() {
    assert_eq!(model_filename("ggml-custom.bin"), "ggml-custom.bin");
}

#[test]
fn model_filename_completes_ggml_prefix() {
    assert_eq!(model_filename("ggml-tiny"), "ggml-tiny.bin");
    assert_eq!(model_filename("custom.bin"), "custom.bin");
}

#[test]
fn whisper_url() {
    assert_eq!(
        whisper_download_url("base.en"),
        "https://huggingface.co/ggerganov/whisper.cpp/resolve/main/ggml-base.en.bin"
    );
}

#[test]
fn path_like_names() {
    assert!(looks_like_model_path("models/x"));
    assert!(looks_like_model_path("C:\\m"));
    assert!(looks_like_model_path("a.gguf"));
    assert!(looks_like_model_path("a.bin"));
    assert!(!looks_like_model_path("base.en"));
    assert!(looks_like_model_dir("a/b"));
    assert!(looks_like_model_dir("tokens.txt"));
    assert!(looks_like_model_dir("enc.onnx"));
    assert!(!looks_like_model_dir("parakeet"));
}

#[test]
fn sanitize_replaces_unsafe_characters() {
    assert_eq!(
        sanitize_model_ref("mlx-community/parakeet-tdt-0.6b-v2"),
        "mlx-community-parakeet-tdt-0.6b-v2"
    );
    assert_eq!(sanitize_model_ref("a b_c:é"), "a-b_c--");
}

#[test]
fn compact_error_takes_first_nonblank_line() {
    assert_eq!(compact_python_error(b"\n  \n  ModuleNotFoundError: x  \nmore\n"), "ModuleNotFoundError: x");
    assert_eq!(compact_python_error(b""), "unknown Python error");
    assert_eq!(compact_python_error(b" \r\n\t\n"), "unknown Python error");
    let long = "e".repeat(300);
    let out = compact_python_error(long.as_bytes());
    assert_eq!(out, format!("{}...", "e".repeat(220)));
    let exact = "f".repeat(220);
    assert_eq!(compact_python_error(exact.as_bytes()), exact);
}

#[test]
fn compact_error_decodes_lossily() {
    assert_eq!(compact_python_error(&[0x66, 0xff, 0x67]), "f\u{FFFD}g");
}

#[test]
fn mlx_output_is_last_nonblank_line() {
    assert_eq!(parse_mlx_output(b"loading\nHello world  \n\n"), "Hello world");
    assert_eq!(parse_mlx_output(b"  \n"), "");
    assert_eq!(parse_mlx_output(&[0xe2, 0x82, 0xac, 0x0a]), "\u{20ac}");
}

#[test]
fn resolve_model_ref_choices() {
    assert_eq!(resolve_model_ref(Some("/p".to_string()), "x").unwrap(), "/p");
    assert_eq!(resolve_model_ref(None, "org/model").unwrap(), "org/model");
    match resolve_model_ref(None, "base") {
        Err(SttError::ModelNotFound(m)) => {
            assert_eq!(m, "unsupported MLX model 'base', expected a Hugging Face repo id")
        }
        _ => panic!("expected ModelNotFound"),
    }
}

#[test]
fn cache_root_choices() {
    match model_cache_root(Some("/o".into()), Some("/l".into()), Some("/h".into()), true) {
        Ok(CacheRoot::Override(d)) => assert_eq!(d, "/o"),
        _ => panic!(),
    }
    match model_cache_root(Some("  ".into()), Some("/l".into()), Some("/h".into()), true) {
        Ok(CacheRoot::LocalAppData(d)) => assert_eq!(d, "/l"),
        _ => panic!(),
    }
    match model_cache_root(None, Some("/l".into()), Some("/h".into()), false) {
        Ok(CacheRoot::Home(d)) => assert_eq!(d, "/h"),
        _ => panic!(),
    }
    match model_cache_root(None, None, Some(" ".into()), false) {
        Err(SttError::ModelLoadError(m)) => {
            assert_eq!(m, "unable to determine model cache directory")
        }
        _ => panic!(),
    }
}

#[test]
fn progress_throttling() {
    assert!(!should_emit_progress(100, 0, None));
    assert!(should_emit_progress(256 * 1024, 0, None));
    assert!(should_emit_progress(500, 0, Some(500)));
    assert!(!should_emit_progress(499, 0, Some(500)));
    assert!(!should_emit_progress(10, 20, None));
}

#[test]
fn thread_count() {
    assert_eq!(optimal_threads(Some(2)), 2);
    assert_eq!(optimal_threads(Some(16)), 8);
    assert_eq!(optimal_threads(None), 4);
}

#[test]
fn whisper_catalogue() {
    let m = available_models();
    assert_eq!(m.len(), 10);
    assert_eq!(m[0], "tiny");
    assert_eq!(m[9], "large-v3");
}

#[test]
fn decode_retry_order() {
    assert_eq!(next_decode_step(DecodeStep::Primary, false, " hi ", 0), None);
    assert_eq!(next_decode_step(DecodeStep::Primary, false, "  ", 0), Some(DecodeStep::AutoLanguage));
    assert_eq!(next_decode_step(DecodeStep::Primary, true, "", 0), Some(DecodeStep::Permissive));
    assert_eq!(next_decode_step(DecodeStep::Primary, true, "", 1), None);
    assert_eq!(next_decode_step(DecodeStep::AutoLanguage, false, "", 0), Some(DecodeStep::Permissive));
    assert_eq!(next_decode_step(DecodeStep::Permissive, false, "", 0), None);
}

#[test]
fn decode_languages() {
    assert_eq!(requested_language(&Some("  de ".into())).as_deref(), Some("de"));
    assert_eq!(requested_language(&Some("  ".into())), None);
    assert_eq!(requested_language(&None), None);
    assert_eq!(decode_language(DecodeStep::Primary, &None).as_deref(), Some("en"));
    assert_eq!(decode_language(DecodeStep::Permissive, &Some("fr".into())).as_deref(), Some("fr"));
    assert_eq!(decode_language(DecodeStep::AutoLanguage, &Some("fr".into())), None);
}

#[test]
fn transcript_assembly() {
    let segs = vec![" Hello".to_string(), "   ".to_string(), " world. ".to_string()];
    let (text, kept) = assemble_transcript(&segs);
    assert_eq!(text, "Hello    world.");
    assert_eq!(kept, vec!["Hello".to_string(), "world.".to_string()]);
}

#[test]
fn fallback_adapter_has_nothing() {
    let mut a = FallbackAdapter::new();
    assert!(a.initialize().is_ok());
    assert!(!a.is_model_available("base"));
    assert!(a.available_models().is_empty());
    assert!(a.current_model().is_none());
    match a.transcribe() {
        Err(SttError::TranscriptionFailed(m)) => {
            assert_eq!(m, "No STT backend available on this system")
        }
        _ => panic!(),
    }
}

#[test]
fn model_sources() {
    match whisper_model_source(Some("/m.bin".into()), "base") {
        WhisperModelSource::Configured(p) => assert_eq!(p, "/m.bin"),
        _ => panic!(),
    }
    match whisper_model_source(None, "dir/x.bin") {
        WhisperModelSource::NamedPath(p) => assert_eq!(p, "dir/x.bin"),
        _ => panic!(),
    }
    match whisper_model_source(None, "base") {
        WhisperModelSource::Cached(f) => assert_eq!(f, "ggml-base.bin"),
        _ => panic!(),
    }
    match missing_model_path("/x") {
        SttError::ModelNotFound(m) => assert_eq!(m, "model path does not exist: /x"),
        _ => panic!(),
    }
    assert!(matches!(sherpa_model_source(None, "parakeet", true), Ok(SherpaModelSource::Bundled)));
    assert!(matches!(sherpa_model_source(None, "a/b", false), Ok(SherpaModelSource::NamedDir(_))));
    match sherpa_model_source(None, "other", false) {
        Err(SttError::ModelNotFound(m)) => assert_eq!(m, "unsupported sherpa model: other"),
        _ => panic!(),
    }
    assert_eq!(preferred_backend(TargetOs::MacOs, true), (true, "metal"));
    assert_eq!(preferred_backend(TargetOs::MacOs, false), (false, "cpu"));
    assert_eq!(preferred_backend(TargetOs::Windows, false), (true, "vulkan"));
    assert_eq!(preferred_backend(TargetOs::Other, true), (false, "cpu"));
}

#[test]
fn model_filename_and_sanitize_are_idempotent() {
    for name in ["base", "ggml-x", "y.bin", "a/b"] {
        let once = model_filename(name);
        assert!(once.ends_with(".bin"));
        assert_eq!(model_filename(&once), once);
    }
    let once = sanitize_model_ref("org/Model v2:q");
    assert_eq!(sanitize_model_ref(&once), once);
    assert_eq!(once.chars().count(), "org/Model v2:q".chars().count());
}

#[test]
fn whisper_source_needs_existing_path() {
    match check_whisper_source(WhisperModelSource::Configured("/m/a.bin".into()), true) {
        Ok(WhisperModelSource::Configured(p)) => assert_eq!(p, "/m/a.bin"),
        _ => panic!(),
    }
    match check_whisper_source(WhisperModelSource::Configured("/m/a.bin".into()), false) {
        Err(SttError::ModelNotFound(m)) => assert_eq!(m, "model path does not exist: /m/a.bin"),
        _ => panic!(),
    }
    match check_whisper_source(WhisperModelSource::NamedPath("./b.bin".into()), false) {
        Err(SttError::ModelNotFound(m)) => assert_eq!(m, "model path does not exist: ./b.bin"),
        _ => panic!(),
    }
    match check_whisper_source(WhisperModelSource::Cached("ggml-base.bin".into()), false) {
        Ok(WhisperModelSource::Cached(f)) => assert_eq!(f, "ggml-base.bin"),
        _ => panic!(),
    }
}

#[test]
fn sherpa_source_needs_model_files() {
    match check_sherpa_source(SherpaModelSource::Configured("/m/p".into()), true) {
        Ok(SherpaModelSource::Configured(p)) => assert_eq!(p, "/m/p"),
        _ => panic!(),
    }
    match check_sherpa_source(SherpaModelSource::NamedDir("/m/q".into()), false) {
        Err(SttError::ModelNotFound(m)) => assert_eq!(m, "sherpa model files not found at /m/q"),
        _ => panic!(),
    }
    assert!(matches!(check_sherpa_source(SherpaModelSource::Bundled, false), Ok(SherpaModelSource::Bundled)));
}

#[test]
fn cache_directory_components() {
    assert_eq!(model_cache_dir_components(CacheRoot::Override("/data".into())), vec!["/data"]);
    assert_eq!(
        model_cache_dir_components(CacheRoot::LocalAppData("C:\\AppData".into())),
        vec!["C:\\AppData", "OpenWispr", "models"]
    );
    assert_eq!(
        model_cache_dir_components(CacheRoot::Home("/home/u".into())),
        vec!["/home/u", ".cache", "openwispr", "models"]
    );
}

#[test]
fn mlx_marker_and_errors() {
    assert_eq!(
        mlx_marker_path_components("mlx-community/parakeet-tdt-0.6b-v2"),
        vec!["mlx", ".downloaded", &sanitize_model_ref("mlx-community/parakeet-tdt-0.6b-v2"), "ready"]
    );
    assert!(mlx_model_available(true, true));
    assert!(!mlx_model_available(true, false));
    assert!(!mlx_model_available(false, true));
    match mlx_setup_error("org/model", b"Traceback\nValueError: bad model\n") {
        SttError::ModelLoadError(m) => {
            assert_eq!(m, "failed to download/load MLX model 'org/model': Traceback")
        }
        _ => panic!(),
    }
    match mlx_transcription_error(b"oops") {
        SttError::TranscriptionFailed(m) => assert_eq!(m, "MLX transcription failed: oops"),
        _ => panic!(),
    }
}

#[test]
fn whisper_context_retry_and_errors() {
    assert_eq!(after_context_attempt(true, true), ContextStep::Done);
    assert_eq!(after_context_attempt(true, false), ContextStep::RetryOnCpu);
    assert_eq!(after_context_attempt(false, false), ContextStep::Fail);
    assert_eq!(after_context_attempt(false, true), ContextStep::Done);
    match context_load_error("/m/a.bin", Some("metal"), "no memory") {
        SttError::ModelLoadError(m) => assert_eq!(
            m,
            "failed to load whisper model from /m/a.bin with GPU (metal) and CPU fallback (cpu): no memory"
        ),
        _ => panic!(),
    }
    match context_load_error("/m/a.bin", None, "bad file") {
        SttError::ModelLoadError(m) => assert_eq!(m, "failed to load whisper model from /m/a.bin: bad file"),
        _ => panic!(),
    }
}
