//! Speech-to-text model naming, cache locations, download progress and
//! the handling of backend output.

use vstd::prelude::*;
use vstd::string::*;
use vstd::utf8::{decode_utf8, valid_utf8};
use crate::text::{
    contains_char, ends_with, first_nonblank, first_nonblank_line, has_prefix, has_suffix,
    last_nonblank, last_nonblank_line, push_char, split, starts_with, trim, trim_str,
};

verus! {

/// What can go wrong in speech-to-text.
#[derive(Debug)]
pub enum SttError {
    ModelLoadError(String),
    ModelNotFound(String),
    TranscriptionFailed(String),
    AudioError(String),
}

/// The file name of a whisper.cpp model: kept if it already ends in
/// `.bin`, `.bin` added after a `ggml-` name, otherwise `ggml-<name>.bin`.
pub open spec fn whisper_file_name(name: Seq<char>) -> Seq<char> {
    if has_suffix(name, ".bin"@) {
        name
    } else if has_prefix(name, "ggml-"@) {
        name + ".bin"@
    } else {
        "ggml-"@ + name + ".bin"@
    }
}

pub fn model_filename(model_name: &str) -> (r: String)
    ensures
        r@ == whisper_file_name(model_name@),
{
    if ends_with(model_name, ".bin") {
        return String::from_str(model_name);
    }
    if starts_with(model_name, "ggml-") {
        return String::from_str(model_name).concat(".bin");
    }
    String::from_str("ggml-").concat(model_name).concat(".bin")
}

/// Whether a whisper model name is a path rather than a catalogue name.
pub open spec fn is_model_path_like(name: Seq<char>) -> bool {
    name.contains('/') || name.contains('\\') || has_suffix(name, ".bin"@) || has_suffix(
        name,
        ".gguf"@,
    )
}

pub fn looks_like_model_path(model_name: &str) -> (r: bool)
    ensures
        r == is_model_path_like(model_name@),
{
    contains_char(model_name, '/') || contains_char(model_name, '\\') || ends_with(
        model_name,
        ".bin",
    ) || ends_with(model_name, ".gguf")
}

/// Whether a sherpa-onnx model name is a directory or file path.
pub open spec fn is_model_dir_like(name: Seq<char>) -> bool {
    name.contains('/') || name.contains('\\') || has_suffix(name, ".onnx"@) || has_suffix(
        name,
        ".txt"@,
    )
}

pub fn looks_like_model_dir(model_name: &str) -> (r: bool)
    ensures
        r == is_model_dir_like(model_name@),
{
    contains_char(model_name, '/') || contains_char(model_name, '\\') || ends_with(
        model_name,
        ".onnx",
    ) || ends_with(model_name, ".txt")
}

/// Where whisper.cpp models are fetched from.
pub fn whisper_download_url(model_name: &str) -> (r: String)
    ensures
        r@ == "https://huggingface.co/ggerganov/whisper.cpp/resolve/main/"@ + whisper_file_name(
            model_name@,
        ),
{
    let f = model_filename(model_name);
    String::from_str("https://huggingface.co/ggerganov/whisper.cpp/resolve/main/").concat(
        f.as_str(),
    )
}

/// Characters kept in a directory name made from a model reference.
pub open spec fn is_safe_char(c: char) -> bool {
    ('a' <= c && c <= 'z') || ('A' <= c && c <= 'Z') || ('0' <= c && c <= '9') || c == '.' || c
        == '-' || c == '_'
}

/// A model reference with every character other than ASCII letters,
/// digits, `.`, `-` and `_` replaced by `-`.
pub open spec fn sanitized(s: Seq<char>) -> Seq<char> {
    s.map_values(|c: char| if is_safe_char(c) { c } else { '-' })
}

pub fn sanitize_model_ref(model_ref: &str) -> (r: String)
    ensures
        r@ == sanitized(model_ref@),
{
    let n = model_ref.unicode_len();
    let mut out = String::new();
    let mut i: usize = 0;
    while i < n
        invariant
            n == model_ref@.len(),
            i <= n,
            out@ == sanitized(model_ref@.take(i as int)),
        decreases n - i,
    {
        let c = model_ref.get_char(i);
        let safe = ('a' <= c && c <= 'z') || ('A' <= c && c <= 'Z') || ('0' <= c && c <= '9') || c
            == '.' || c == '-' || c == '_';
        push_char(&mut out, if safe { c } else { '-' });
        assert(sanitized(model_ref@.take(i + 1)) =~= sanitized(model_ref@.take(i as int)).push(
            if is_safe_char(c) { c } else { '-' },
        ));
        i = i + 1;
    }
    assert(model_ref@.take(n as int) =~= model_ref@);
    out
}

/// The text `String::from_utf8_lossy` makes of some bytes.
pub uninterp spec fn utf8_lossy(bytes: Seq<u8>) -> Seq<char>;

/// Decodes bytes as UTF-8 with `String::from_utf8_lossy`: the result is
/// named by [`utf8_lossy`] and, for valid UTF-8, is exactly its decoding.
#[verifier::external_body]
fn decode_lossy(bytes: &[u8]) -> (r: String)
    ensures
        r@ == utf8_lossy(bytes@),
        valid_utf8(bytes@) ==> r@ == decode_utf8(bytes@),
{
    String::from_utf8_lossy(bytes).into_owned()
}

/// The longest Python error line reported in full.
pub const MAX_ERROR_LEN: usize = 220;

/// The first non-blank line of some text, cut to 220 characters with
/// `...` added when longer; `unknown Python error` when there is none.
pub open spec fn compact_error_text(text: Seq<char>) -> Seq<char> {
    let line = match first_nonblank(split(text, '\n')) {
        Some(l) => l,
        None => "unknown Python error"@,
    };
    if line.len() > MAX_ERROR_LEN {
        line.take(MAX_ERROR_LEN as int) + "..."@
    } else {
        line
    }
}

/// A one-line summary of a Python process's error output.
pub fn compact_python_error(stderr: &[u8]) -> (r: String)
    ensures
        r@ == compact_error_text(utf8_lossy(stderr@)),
{
    let text = decode_lossy(stderr);
    let line = match first_nonblank_line(text.as_str()) {
        Some(l) => l,
        None => String::from_str("unknown Python error"),
    };
    let n = line.as_str().unicode_len();
    if n > MAX_ERROR_LEN {
        String::from_str(line.as_str().substring_char(0, MAX_ERROR_LEN)).concat("...")
    } else {
        line
    }
}

/// The transcript printed by the MLX helper: its last non-blank output
/// line, trimmed, or nothing.
pub open spec fn mlx_output_text(text: Seq<char>) -> Seq<char> {
    match last_nonblank(split(text, '\n')) {
        Some(l) => l,
        None => Seq::<char>::empty(),
    }
}

pub fn parse_mlx_output(stdout: &[u8]) -> (r: String)
    ensures
        r@ == mlx_output_text(utf8_lossy(stdout@)),
{
    let text = decode_lossy(stdout);
    match last_nonblank_line(text.as_str()) {
        Some(l) => l,
        None => String::new(),
    }
}

/// The message for a model name that is not a repository id.
pub open spec fn unsupported_mlx_message(name: Seq<char>) -> Seq<char> {
    "unsupported MLX model '"@ + name + "', expected a Hugging Face repo id"@
}

/// The MLX model to load: an explicit path wins, then a name holding `/`
/// (a Hugging Face repository id); anything else is not supported.
pub fn resolve_model_ref(model_path: Option<String>, model_name: &str) -> (r: Result<String, SttError>)
    ensures
        match model_path {
            Some(p) => r matches Ok(v) && v@ == p@,
            None => if model_name@.contains('/') {
                r matches Ok(v) && v@ == model_name@
            } else {
                r matches Err(SttError::ModelNotFound(m)) && m@ == unsupported_mlx_message(
                    model_name@,
                )
            },
        },
{
    if let Some(p) = model_path {
        return Ok(p);
    }
    if contains_char(model_name, '/') {
        return Ok(String::from_str(model_name));
    }
    Err(
        SttError::ModelNotFound(
            String::from_str("unsupported MLX model '").concat(model_name).concat(
                "', expected a Hugging Face repo id",
            ),
        ),
    )
}

/// Whether a variable's value counts: set and not blank.
pub open spec fn usable(v: Option<String>) -> bool {
    v matches Some(s) && trim(s@).len() > 0
}

/// Where downloaded models live, before the platform's sub-directories are
/// added.
#[derive(Debug, Clone)]
pub enum CacheRoot {
    /// The directory named by the model-directory override, used as is.
    Override(String),
    /// The local application data directory (Windows).
    LocalAppData(String),
    /// The home directory (elsewhere).
    Home(String),
}

fn usable_value(v: &Option<String>) -> (r: bool)
    ensures
        r == usable(*v),
{
    match v {
        Some(s) => trim_str(s.as_str()).unicode_len() > 0,
        None => false,
    }
}

/// Chooses the model cache root: a non-blank override first; then, on
/// Windows, a non-blank local application data directory, elsewhere a
/// non-blank home directory; otherwise an error.
pub fn model_cache_root(
    override_dir: Option<String>,
    local_app_data: Option<String>,
    home: Option<String>,
    windows: bool,
) -> (r: Result<CacheRoot, SttError>)
    ensures
        usable(override_dir) ==> (r matches Ok(CacheRoot::Override(d)) && Some(d) == override_dir),
        !usable(override_dir) && windows && usable(local_app_data) ==> (r matches Ok(
            CacheRoot::LocalAppData(d),
        ) && Some(d) == local_app_data),
        !usable(override_dir) && !windows && usable(home) ==> (r matches Ok(CacheRoot::Home(d))
            && Some(d) == home),
        !usable(override_dir) && (if windows {
            !usable(local_app_data)
        } else {
            !usable(home)
        }) ==> (r matches Err(SttError::ModelLoadError(m)) && m@
            == "unable to determine model cache directory"@),
{
    if usable_value(&override_dir) {
        return Ok(CacheRoot::Override(override_dir.unwrap()));
    }
    if windows {
        if usable_value(&local_app_data) {
            return Ok(CacheRoot::LocalAppData(local_app_data.unwrap()));
        }
    } else {
        if usable_value(&home) {
            return Ok(CacheRoot::Home(home.unwrap()));
        }
    }
    Err(SttError::ModelLoadError(String::from_str("unable to determine model cache directory")))
}

/// Bytes between two download progress reports.
pub const PROGRESS_STEP: u64 = 256 * 1024;

/// Whether to report download progress: at least 256 KiB since the last
/// report, or the whole file (when its size is known) is in.
pub fn should_emit_progress(downloaded: u64, last_emitted: u64, total: Option<u64>) -> (r: bool)
    ensures
        r == (downloaded - last_emitted >= PROGRESS_STEP || (total matches Some(t) && downloaded
            >= t)),
{
    let since = if downloaded >= last_emitted {
        downloaded - last_emitted
    } else {
        0
    };
    since >= PROGRESS_STEP || match total {
        Some(t) => downloaded >= t,
        None => false,
    }
}

/// Decoder threads: the available parallelism capped at 8, or 4 when it is
/// unknown.
pub fn optimal_threads(available: Option<usize>) -> (r: i32)
    ensures
        r == match available {
            Some(n) => if n < 8 { n as int } else { 8 },
            None => 4,
        },
{
    match available {
        Some(n) => if n < 8 { n as i32 } else { 8 },
        None => 4,
    }
}

/// The whisper models offered for download.
pub open spec fn whisper_model_names() -> Seq<Seq<char>> {
    seq![
        "tiny"@, "tiny.en"@, "base"@, "base.en"@, "small"@, "small.en"@, "medium"@,
        "medium.en"@, "large-v3-turbo"@, "large-v3"@,
    ]
}

pub fn available_models() -> (r: Vec<String>)
    ensures
        r.deep_view() == whisper_model_names(),
{
    let mut v: Vec<String> = Vec::new();
    v.push(String::from_str("tiny"));
    v.push(String::from_str("tiny.en"));
    v.push(String::from_str("base"));
    v.push(String::from_str("base.en"));
    v.push(String::from_str("small"));
    v.push(String::from_str("small.en"));
    v.push(String::from_str("medium"));
    v.push(String::from_str("medium.en"));
    v.push(String::from_str("large-v3-turbo"));
    v.push(String::from_str("large-v3"));
    assert(v.deep_view() =~= whisper_model_names());
    v
}


/// A transcription language given explicitly: the configured one,
/// trimmed, if it is not blank.
pub open spec fn requested_language_of(configured: Option<Seq<char>>) -> Option<Seq<char>> {
    match configured {
        Some(l) => if trim(l).len() > 0 {
            Some(trim(l))
        } else {
            None
        },
        None => None,
    }
}

pub fn requested_language(configured: &Option<String>) -> (r: Option<String>)
    ensures
        match r {
            Some(v) => requested_language_of(match configured {
                Some(c) => Some(c@),
                None => None,
            }) == Some(v@),
            None => requested_language_of(match configured {
                Some(c) => Some(c@),
                None => None,
            }) is None,
        },
{
    match configured {
        Some(l) => {
            let t = trim_str(l.as_str());
            if t.unicode_len() > 0 {
                Some(String::from_str(t))
            } else {
                None
            }
        },
        None => None,
    }
}

/// The whisper decoding attempts, in the order they may be tried.
#[derive(Debug, Clone, Copy, PartialEq, Eq, Structural)]
pub enum DecodeStep {
    /// Beam search in the requested language, English if none was given.
    Primary,
    /// Beam search with language detection (only when none was requested).
    AutoLanguage,
    /// Greedy search with the output filters relaxed.
    Permissive,
}

/// Whether an attempt produced anything: non-blank text or a segment.
pub open spec fn produced_output(text: Seq<char>, segments: nat) -> bool {
    trim(text).len() > 0 || segments > 0
}

/// The attempt after `done`, or `None` when its result is returned: any
/// output ends the search, the language-detection retry runs only when no
/// language was requested, and the permissive attempt is the last.
pub open spec fn after_attempt(done: DecodeStep, language_requested: bool, output: bool) -> Option<DecodeStep> {
    match done {
        DecodeStep::Primary => if output {
            None
        } else if !language_requested {
            Some(DecodeStep::AutoLanguage)
        } else {
            Some(DecodeStep::Permissive)
        },
        DecodeStep::AutoLanguage => if output {
            None
        } else {
            Some(DecodeStep::Permissive)
        },
        DecodeStep::Permissive => None,
    }
}

pub fn next_decode_step(done: DecodeStep, language_requested: bool, text: &str, segment_count: usize) -> (r: Option<DecodeStep>)
    ensures
        r == after_attempt(done, language_requested, produced_output(text@, segment_count as nat)),
{
    let output = trim_str(text).unicode_len() > 0 || segment_count > 0;
    match done {
        DecodeStep::Primary => if output {
            None
        } else if !language_requested {
            Some(DecodeStep::AutoLanguage)
        } else {
            Some(DecodeStep::Permissive)
        },
        DecodeStep::AutoLanguage => if output {
            None
        } else {
            Some(DecodeStep::Permissive)
        },
        DecodeStep::Permissive => None,
    }
}

/// The language an attempt decodes in; `None` means detect it.
pub open spec fn attempt_language(step: DecodeStep, requested: Option<Seq<char>>) -> Option<Seq<char>> {
    match step {
        DecodeStep::AutoLanguage => None,
        _ => match requested {
            Some(l) => Some(l),
            None => Some("en"@),
        },
    }
}

pub fn decode_language(step: DecodeStep, requested: &Option<String>) -> (r: Option<String>)
    ensures
        match r {
            Some(v) => attempt_language(step, match requested {
                Some(l) => Some(l@),
                None => None,
            }) == Some(v@),
            None => attempt_language(step, match requested {
                Some(l) => Some(l@),
                None => None,
            }) is None,
        },
{
    match step {
        DecodeStep::AutoLanguage => None,
        _ => match requested {
            Some(l) => Some(l.clone()),
            None => Some(String::from_str("en")),
        },
    }
}

/// Whisper's decoding ends after at most three attempts: from the primary
/// attempt, every chain of next steps reaches `None` within three steps,
/// and the language-detection retry is only tried when no language was
/// requested.
pub proof fn law_decode_attempts_bounded(language_requested: bool, o1: bool, o2: bool, o3: bool)
    ensures
        ({
            let s2 = after_attempt(DecodeStep::Primary, language_requested, o1);
            match s2 {
                None => true,
                Some(a) => {
                    &&& (a == DecodeStep::AutoLanguage ==> !language_requested)
                    &&& match after_attempt(a, language_requested, o2) {
                        None => true,
                        Some(b) => b == DecodeStep::Permissive && after_attempt(
                            b,
                            language_requested,
                            o3,
                        ) is None,
                    }
                },
            }
        }),
{
}

/// All segment texts run together.
pub open spec fn concat_all(parts: Seq<Seq<char>>) -> Seq<char>
    decreases parts.len(),
{
    if parts.len() == 0 {
        Seq::<char>::empty()
    } else {
        concat_all(parts.drop_last()) + parts.last()
    }
}

/// The segment texts, trimmed, blank ones dropped.
pub open spec fn kept_segments(parts: Seq<Seq<char>>) -> Seq<Seq<char>>
    decreases parts.len(),
{
    if parts.len() == 0 {
        Seq::<Seq<char>>::empty()
    } else if trim(parts.last()).len() > 0 {
        kept_segments(parts.drop_last()).push(trim(parts.last()))
    } else {
        kept_segments(parts.drop_last())
    }
}

/// A decoded transcript from its segment texts: the whole text is their
/// concatenation trimmed; the segments are kept trimmed, blank ones
/// dropped.
pub fn assemble_transcript(segment_texts: &Vec<String>) -> (r: (String, Vec<String>))
    ensures
        r.0@ == trim(concat_all(segment_texts.deep_view())),
        r.1.deep_view() == kept_segments(segment_texts.deep_view()),
{
    let mut text = String::new();
    let mut kept: Vec<String> = Vec::new();
    let mut i: usize = 0;
    while i < segment_texts.len()
        invariant
            i <= segment_texts.len(),
            text@ == concat_all(segment_texts.deep_view().take(i as int)),
            kept.deep_view() == kept_segments(segment_texts.deep_view().take(i as int)),
        decreases segment_texts.len() - i,
    {
        let ghost ps = segment_texts.deep_view();
        assert(ps.take(i + 1).drop_last() =~= ps.take(i as int));
        assert(ps.take(i + 1).last() == segment_texts[i as int]@);
        let seg = segment_texts[i].as_str();
        text.append(seg);
        let cleaned = trim_str(seg);
        if cleaned.unicode_len() > 0 {
            let ghost prev = kept.deep_view();
            kept.push(String::from_str(cleaned));
            assert(kept.deep_view() =~= prev.push(cleaned@));
        }
        i = i + 1;
    }
    assert(segment_texts.deep_view().take(segment_texts.len() as int) =~= segment_texts.deep_view());
    let whole = String::from_str(trim_str(text.as_str()));
    (whole, kept)
}

/// The stand-in used when no speech-to-text backend exists on the system:
/// it has no models and cannot transcribe.
#[derive(Debug, Clone, Copy, Default)]
pub struct FallbackAdapter;

impl FallbackAdapter {
    pub fn new() -> (r: Self) {
        FallbackAdapter
    }

    /// Accepts any configuration.
    pub fn initialize(&mut self) -> (r: Result<(), SttError>)
        ensures
            r is Ok,
    {
        Ok(())
    }

    /// Always fails: there is no backend.
    pub fn transcribe(&self) -> (r: Result<String, SttError>)
        ensures
            r matches Err(SttError::TranscriptionFailed(m)) && m@
                == "No STT backend available on this system"@,
    {
        Err(SttError::TranscriptionFailed(String::from_str("No STT backend available on this system")))
    }

    /// No model is ever available.
    pub fn is_model_available(&self, model_name: &str) -> (r: bool)
        ensures
            !r,
    {
        false
    }

    /// There are no models.
    pub fn available_models(&self) -> (r: Vec<String>)
        ensures
            r.len() == 0,
    {
        Vec::new()
    }

    /// No model is loaded.
    pub fn current_model(&self) -> (r: Option<String>)
        ensures
            r is None,
    {
        None
    }
}


/// Mapping a name to its model file name twice changes nothing more: the
/// file name always ends in `.bin`.
pub proof fn law_model_filename_idempotent(name: Seq<char>)
    ensures
        has_suffix(whisper_file_name(name), ".bin"@),
        whisper_file_name(whisper_file_name(name)) == whisper_file_name(name),
{
    let b = ".bin"@;
    let r = whisper_file_name(name);
    if !has_suffix(name, b) {
        assert(r.subrange(r.len() - b.len(), r.len() as int) =~= b);
    }
}

/// A sanitised reference keeps its length, holds only safe characters, and
/// sanitising it again changes nothing.
pub proof fn law_sanitize_idempotent(s: Seq<char>)
    ensures
        sanitized(s).len() == s.len(),
        forall|i: int| 0 <= i < s.len() ==> is_safe_char(#[trigger] sanitized(s)[i]),
        sanitized(sanitized(s)) == sanitized(s),
{
    assert(sanitized(sanitized(s)) =~= sanitized(s));
}


/// The desktop platforms the speech backends are built for.
#[derive(Debug, Clone, Copy, PartialEq, Eq, Structural)]
pub enum TargetOs {
    MacOs,
    Windows,
    Other,
}

/// Whether whisper.cpp should try the GPU, and which backend that is:
/// Metal on Apple silicon, Vulkan on Windows, the CPU otherwise.
pub fn preferred_backend(os: TargetOs, is_aarch64: bool) -> (r: (bool, &'static str))
    ensures
        os == TargetOs::MacOs && is_aarch64 ==> r.0 && r.1@ == "metal"@,
        os == TargetOs::MacOs && !is_aarch64 ==> !r.0 && r.1@ == "cpu"@,
        os == TargetOs::Windows ==> r.0 && r.1@ == "vulkan"@,
        os == TargetOs::Other ==> !r.0 && r.1@ == "cpu"@,
{
    match os {
        TargetOs::MacOs => if is_aarch64 {
            (true, "metal")
        } else {
            (false, "cpu")
        },
        TargetOs::Windows => (true, "vulkan"),
        TargetOs::Other => (false, "cpu"),
    }
}


/// Where a whisper model is loaded from.
#[derive(Debug, Clone)]
pub enum WhisperModelSource {
    /// The configured model path.
    Configured(String),
    /// The model name, which is itself a path.
    NamedPath(String),
    /// This file in the model cache, downloaded if absent.
    Cached(String),
}

/// Chooses the whisper model source: a configured path first, then a name
/// that looks like a path, otherwise the cache file for the name.
pub fn whisper_model_source(model_path: Option<String>, model_name: &str) -> (r: WhisperModelSource)
    ensures
        match model_path {
            Some(p) => r matches WhisperModelSource::Configured(q) && q == p,
            None => if is_model_path_like(model_name@) {
                r matches WhisperModelSource::NamedPath(q) && q@ == model_name@
            } else {
                r matches WhisperModelSource::Cached(f) && f@ == whisper_file_name(model_name@)
            },
        },
{
    if let Some(p) = model_path {
        return WhisperModelSource::Configured(p);
    }
    if looks_like_model_path(model_name) {
        return WhisperModelSource::NamedPath(String::from_str(model_name));
    }
    WhisperModelSource::Cached(model_filename(model_name))
}

/// The error for a model path that does not exist.
pub fn missing_model_path(path: &str) -> (r: SttError)
    ensures
        r matches SttError::ModelNotFound(m) && m@ == "model path does not exist: "@ + path@,
{
    SttError::ModelNotFound(String::from_str("model path does not exist: ").concat(path))
}

/// Where a sherpa-onnx model is loaded from.
#[derive(Debug, Clone)]
pub enum SherpaModelSource {
    /// The configured model directory.
    Configured(String),
    /// The model name, which is itself a directory.
    NamedDir(String),
    /// The bundled Parakeet model, downloaded if absent.
    Bundled,
}

/// Chooses the sherpa-onnx model source: a configured directory first, then
/// a name that looks like a path; otherwise the name must be a sherpa model
/// name, meaning the bundled model, or it is not supported.
pub fn sherpa_model_source(model_path: Option<String>, model_name: &str, is_sherpa_name: bool) -> (r: Result<SherpaModelSource, SttError>)
    ensures
        match model_path {
            Some(p) => r matches Ok(SherpaModelSource::Configured(q)) && q == p,
            None => if is_model_dir_like(model_name@) {
                r matches Ok(SherpaModelSource::NamedDir(q)) && q@ == model_name@
            } else if is_sherpa_name {
                r matches Ok(SherpaModelSource::Bundled)
            } else {
                r matches Err(SttError::ModelNotFound(m)) && m@ == "unsupported sherpa model: "@
                    + model_name@
            },
        },
{
    if let Some(p) = model_path {
        return Ok(SherpaModelSource::Configured(p));
    }
    if looks_like_model_dir(model_name) {
        return Ok(SherpaModelSource::NamedDir(String::from_str(model_name)));
    }
    if !is_sherpa_name {
        return Err(SttError::ModelNotFound(String::from_str("unsupported sherpa model: ").concat(model_name)));
    }
    Ok(SherpaModelSource::Bundled)
}


/// A configured or named whisper model path is used only if it exists; a
/// cache file is used as it is (downloaded first when absent).
pub fn check_whisper_source(source: WhisperModelSource, path_exists: bool) -> (r: Result<WhisperModelSource, SttError>)
    ensures
        match source {
            WhisperModelSource::Configured(p) => if path_exists {
                r matches Ok(WhisperModelSource::Configured(q)) && q == p
            } else {
                r matches Err(SttError::ModelNotFound(m)) && m@ == "model path does not exist: "@ + p@
            },
            WhisperModelSource::NamedPath(p) => if path_exists {
                r matches Ok(WhisperModelSource::NamedPath(q)) && q == p
            } else {
                r matches Err(SttError::ModelNotFound(m)) && m@ == "model path does not exist: "@ + p@
            },
            WhisperModelSource::Cached(f) => r matches Ok(WhisperModelSource::Cached(g)) && g == f,
        },
{
    match source {
        WhisperModelSource::Configured(p) => if path_exists {
            Ok(WhisperModelSource::Configured(p))
        } else {
            Err(missing_model_path(p.as_str()))
        },
        WhisperModelSource::NamedPath(p) => if path_exists {
            Ok(WhisperModelSource::NamedPath(p))
        } else {
            Err(missing_model_path(p.as_str()))
        },
        WhisperModelSource::Cached(f) => Ok(WhisperModelSource::Cached(f)),
    }
}

/// A configured or named sherpa-onnx model directory is used only if the
/// model files are all there; the bundled model is fetched as needed.
pub fn check_sherpa_source(source: SherpaModelSource, files_present: bool) -> (r: Result<SherpaModelSource, SttError>)
    ensures
        match source {
            SherpaModelSource::Configured(p) => if files_present {
                r matches Ok(SherpaModelSource::Configured(q)) && q == p
            } else {
                r matches Err(SttError::ModelNotFound(m)) && m@ == "sherpa model files not found at "@
                    + p@
            },
            SherpaModelSource::NamedDir(p) => if files_present {
                r matches Ok(SherpaModelSource::NamedDir(q)) && q == p
            } else {
                r matches Err(SttError::ModelNotFound(m)) && m@ == "sherpa model files not found at "@
                    + p@
            },
            SherpaModelSource::Bundled => r matches Ok(SherpaModelSource::Bundled),
        },
{
    match source {
        SherpaModelSource::Configured(p) => if files_present {
            Ok(SherpaModelSource::Configured(p))
        } else {
            Err(SttError::ModelNotFound(String::from_str("sherpa model files not found at ").concat(p.as_str())))
        },
        SherpaModelSource::NamedDir(p) => if files_present {
            Ok(SherpaModelSource::NamedDir(p))
        } else {
            Err(SttError::ModelNotFound(String::from_str("sherpa model files not found at ").concat(p.as_str())))
        },
        SherpaModelSource::Bundled => Ok(SherpaModelSource::Bundled),
    }
}

/// The path components of the model cache directory under a root: an
/// override is used as it is; the local application data directory gets
/// `OpenWispr/models`; the home directory gets `.cache/openwispr/models`.
pub open spec fn cache_dir_components(root: CacheRoot) -> Seq<Seq<char>> {
    match root {
        CacheRoot::Override(d) => seq![d@],
        CacheRoot::LocalAppData(d) => seq![d@, "OpenWispr"@, "models"@],
        CacheRoot::Home(d) => seq![d@, ".cache"@, "openwispr"@, "models"@],
    }
}

pub fn model_cache_dir_components(root: CacheRoot) -> (r: Vec<String>)
    ensures
        r.deep_view() == cache_dir_components(root),
{
    let mut v: Vec<String> = Vec::new();
    let ghost e = Seq::<Seq<char>>::empty();
    match root {
        CacheRoot::Override(d) => {
            v.push(d);
        },
        CacheRoot::LocalAppData(d) => {
            v.push(d);
            v.push(String::from_str("OpenWispr"));
            v.push(String::from_str("models"));
        },
        CacheRoot::Home(d) => {
            v.push(d);
            v.push(String::from_str(".cache"));
            v.push(String::from_str("openwispr"));
            v.push(String::from_str("models"));
        },
    }
    assert(v.deep_view() =~= cache_dir_components(root));
    v
}

/// The components, below the model cache directory, of the file marking an
/// MLX model as set up: `mlx/.downloaded/<sanitised reference>/ready`.
pub open spec fn mlx_marker_components(model_ref: Seq<char>) -> Seq<Seq<char>> {
    seq!["mlx"@, ".downloaded"@, sanitized(model_ref), "ready"@]
}

pub fn mlx_marker_path_components(model_ref: &str) -> (r: Vec<String>)
    ensures
        r.deep_view() == mlx_marker_components(model_ref@),
{
    let mut v: Vec<String> = Vec::new();
    v.push(String::from_str("mlx"));
    v.push(String::from_str(".downloaded"));
    v.push(sanitize_model_ref(model_ref));
    v.push(String::from_str("ready"));
    assert(v.deep_view() =~= mlx_marker_components(model_ref@));
    v
}

/// An MLX model counts as available when it is an MLX model name and its
/// ready marker exists.
pub fn mlx_model_available(is_mlx_name: bool, marker_exists: bool) -> (r: bool)
    ensures
        r == (is_mlx_name && marker_exists),
{
    is_mlx_name && marker_exists
}

/// Setting up a model and checking it later look at the same marker: two
/// references share a marker exactly when they sanitise alike.
pub proof fn law_mlx_marker_shared(a: Seq<char>, b: Seq<char>)
    ensures
        (mlx_marker_components(a) == mlx_marker_components(b)) == (sanitized(a) == sanitized(b)),
{
    if mlx_marker_components(a) == mlx_marker_components(b) {
        assert(mlx_marker_components(a)[2] == mlx_marker_components(b)[2]);
    }
}

/// The error when the MLX model could not be fetched or loaded.
pub fn mlx_setup_error(model_ref: &str, stderr: &[u8]) -> (r: SttError)
    ensures
        r matches SttError::ModelLoadError(m) && m@ == "failed to download/load MLX model '"@
            + model_ref@ + "': "@ + compact_error_text(utf8_lossy(stderr@)),
{
    let detail = compact_python_error(stderr);
    SttError::ModelLoadError(
        String::from_str("failed to download/load MLX model '").concat(model_ref).concat("': ").concat(
            detail.as_str(),
        ),
    )
}

/// The error when the MLX transcription process fails.
pub fn mlx_transcription_error(stderr: &[u8]) -> (r: SttError)
    ensures
        r matches SttError::TranscriptionFailed(m) && m@ == "MLX transcription failed: "@
            + compact_error_text(utf8_lossy(stderr@)),
{
    let detail = compact_python_error(stderr);
    SttError::TranscriptionFailed(String::from_str("MLX transcription failed: ").concat(detail.as_str()))
}

/// What follows one attempt to create the whisper context.
#[derive(Debug, Clone, Copy, PartialEq, Eq, Structural)]
pub enum ContextStep {
    /// The context is ready.
    Done,
    /// The GPU attempt failed: try again on the CPU.
    RetryOnCpu,
    /// Give up with an error.
    Fail,
}

/// After an attempt to create the whisper context: success ends it; a
/// failed GPU attempt is retried once on the CPU; any other failure is
/// final.
pub fn after_context_attempt(gpu_attempt: bool, succeeded: bool) -> (r: ContextStep)
    ensures
        r == (if succeeded {
            ContextStep::Done
        } else if gpu_attempt {
            ContextStep::RetryOnCpu
        } else {
            ContextStep::Fail
        }),
{
    if succeeded {
        ContextStep::Done
    } else if gpu_attempt {
        ContextStep::RetryOnCpu
    } else {
        ContextStep::Fail
    }
}

/// The error when the whisper model cannot be loaded: after a GPU attempt
/// and its CPU retry both failed, or after a CPU-only attempt failed.
pub fn context_load_error(model_path: &str, gpu_backend: Option<&str>, error: &str) -> (r: SttError)
    ensures
        match gpu_backend {
            Some(b) => r matches SttError::ModelLoadError(m) && m@ == "failed to load whisper model from "@
                + model_path@ + " with GPU ("@ + b@ + ") and CPU fallback (cpu): "@ + error@,
            None => r matches SttError::ModelLoadError(m) && m@ == "failed to load whisper model from "@
                + model_path@ + ": "@ + error@,
        },
{
    match gpu_backend {
        Some(b) => SttError::ModelLoadError(
            String::from_str("failed to load whisper model from ").concat(model_path).concat(
                " with GPU (",
            ).concat(b).concat(") and CPU fallback (cpu): ").concat(error),
        ),
        None => SttError::ModelLoadError(
            String::from_str("failed to load whisper model from ").concat(model_path).concat(": ").concat(
                error,
            ),
        ),
    }
}

/// Creating the whisper context takes at most two attempts, the second
/// only after a failed GPU attempt and never on the GPU.
pub proof fn law_context_attempts_bounded(gpu_first: bool, first_ok: bool, second_ok: bool)
    ensures
        ({
            let s1 = if first_ok {
                ContextStep::Done
            } else if gpu_first {
                ContextStep::RetryOnCpu
            } else {
                ContextStep::Fail
            };
            s1 == ContextStep::RetryOnCpu ==> gpu_first && (if second_ok {
                ContextStep::Done
            } else if false {
                ContextStep::RetryOnCpu
            } else {
                ContextStep::Fail
            }) != ContextStep::RetryOnCpu
        }),
{
}


/// Any attempt that produced output ends the search, whatever the step; an
/// empty result is retried while attempts remain: after the primary
/// attempt with language detection when no language was requested, else
/// permissively; after language detection permissively; the permissive
/// attempt is the last.
pub proof fn law_output_ends_decoding(step: DecodeStep, language_requested: bool)
    ensures
        after_attempt(step, language_requested, true) is None,
        after_attempt(DecodeStep::Primary, false, false) == Some(DecodeStep::AutoLanguage),
        after_attempt(DecodeStep::Primary, true, false) == Some(DecodeStep::Permissive),
        after_attempt(DecodeStep::AutoLanguage, language_requested, false) == Some(
            DecodeStep::Permissive,
        ),
        after_attempt(DecodeStep::Permissive, language_requested, false) is None,
{
}

/// The language-detection attempt decodes with no language set; the
/// others decode in the requested language, or English when none was
/// requested.
pub proof fn law_attempt_languages(requested: Option<Seq<char>>)
    ensures
        attempt_language(DecodeStep::AutoLanguage, requested) is None,
        attempt_language(DecodeStep::Primary, requested) == match requested {
            Some(l) => Some(l),
            None => Some("en"@),
        },
        attempt_language(DecodeStep::Permissive, requested) == match requested {
            Some(l) => Some(l),
            None => Some("en"@),
        },
{
}

/// A name holding a path separator (`/` or `\\`) is taken as a path, both
/// as a whisper model file and as a sherpa-onnx model directory; so is a
/// name ending in the model file's extension.
pub proof fn law_separator_names_are_paths(name: Seq<char>)
    ensures
        name.contains('/') ==> is_model_path_like(name) && is_model_dir_like(name),
        name.contains('\\') ==> is_model_path_like(name) && is_model_dir_like(name),
        has_suffix(name, ".bin"@) ==> is_model_path_like(name),
        has_suffix(name, ".gguf"@) ==> is_model_path_like(name),
        has_suffix(name, ".onnx"@) ==> is_model_dir_like(name),
        has_suffix(name, ".txt"@) ==> is_model_dir_like(name),
{
}


/// A whisper model's file name always ends in `.bin`: a name that already
/// does is kept, a `ggml-` name gets `.bin` added, and any other name gets
/// `ggml-` in front as well.
pub proof fn law_whisper_file_names(name: Seq<char>)
    ensures
        has_suffix(whisper_file_name(name), ".bin"@),
        has_suffix(name, ".bin"@) ==> whisper_file_name(name) == name,
        !has_suffix(name, ".bin"@) && has_prefix(name, "ggml-"@) ==> whisper_file_name(name) == name
            + ".bin"@,
        !has_suffix(name, ".bin"@) && !has_prefix(name, "ggml-"@) ==> whisper_file_name(name)
            == "ggml-"@ + name + ".bin"@,
{
    let r = whisper_file_name(name);
    let b = ".bin"@;
    if !has_suffix(name, b) {
        let pre = if has_prefix(name, "ggml-"@) { name } else { "ggml-"@ + name };
        assert(r == pre + b);
        assert(r.subrange(r.len() - b.len(), r.len() as int) =~= b);
    }
}


/// A Python error summary is at most 223 characters long: a first
/// non-blank line of at most 220 characters is kept as it is, a longer one
/// cut to its first 220 characters with `...` added.
pub proof fn law_compact_error_length(text: Seq<char>)
    ensures
        compact_error_text(text).len() <= 223,
        first_nonblank(split(text, '\n')) matches Some(l) ==> (l.len() <= 220 ==> compact_error_text(
            text,
        ) == l),
        first_nonblank(split(text, '\n')) matches Some(l) ==> (l.len() > 220 ==> compact_error_text(
            text,
        ) == l.take(220) + "..."@ && l.take(220).len() == 220),
{
    reveal_strlit("...");
    reveal_strlit("unknown Python error");
}

} // verus!
