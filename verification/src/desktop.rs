//! Decisions of the desktop shell: the active model, model selection,
//! where the overlay window goes, the Ollama address, and the day streak.

use vstd::prelude::*;
use vstd::string::*;
use crate::text::{has_prefix, has_suffix, starts_with};

verus! {

/// Whether a switch variable such as the verbose-logging one is on: its
/// value is exactly `1`.
pub fn verbose_logs_enabled(value: Option<&str>) -> (r: bool)
    ensures
        r == (value matches Some(v) && v@ == "1"@),
{
    match value {
        Some(v) => crate::text::str_eq(v, "1"),
        None => false,
    }
}

/// A speech model as the model manager lists it.
#[derive(Debug, Clone)]
pub struct ModelInfo {
    pub name: String,
    pub runtime: String,
    pub downloaded: bool,
    pub can_download: bool,
    pub note: Option<String>,
}

/// The model manager's list: each whisper model with its download status,
/// then the sherpa-onnx Parakeet model, then (on macOS) the MLX Parakeet
/// model. All can be downloaded.
pub fn model_list(
    whisper_models: &Vec<String>,
    whisper_downloaded: &[bool],
    sherpa_model: String,
    sherpa_downloaded: bool,
    mlx_model: Option<(String, bool)>,
) -> (r: Vec<ModelInfo>)
    requires
        whisper_downloaded@.len() == whisper_models.len(),
    ensures
        r.len() == whisper_models.len() + 1 + if mlx_model is Some { 1int } else { 0int },
        forall|i: int| 0 <= i < whisper_models.len() ==> {
            &&& (#[trigger] r[i]).name == whisper_models[i]
            &&& r[i].runtime@ == "whisper.cpp"@
            &&& r[i].downloaded == whisper_downloaded@[i]
            &&& r[i].can_download
            &&& r[i].note is None
        },
        ({
            let s = r[whisper_models.len() as int];
            &&& s.name == sherpa_model
            &&& s.runtime@ == "sherpa-onnx"@
            &&& s.downloaded == sherpa_downloaded
            &&& s.can_download
            &&& s.note matches Some(n) && n@ == "NVIDIA Parakeet TDT v2 int8"@
        }),
        mlx_model matches Some((name, downloaded)) ==> ({
            let m = r[whisper_models.len() + 1];
            &&& m.name == name
            &&& m.runtime@ == "mlx-parakeet"@
            &&& m.downloaded == downloaded
            &&& m.can_download
            &&& m.note matches Some(n) && n@ == "Parakeet MLX community model"@
        }),
{
    let mut out: Vec<ModelInfo> = Vec::new();
    let n = whisper_models.len();
    let ghost originals = whisper_models@;
    let mut i: usize = 0;
    while i < n
        invariant
            n == originals.len(),
            whisper_downloaded@.len() == n,
            i <= n,
            whisper_models@ == originals,
            out.len() == i,
            forall|k: int| 0 <= k < i ==> {
                &&& (#[trigger] out[k]).name == originals[k]
                &&& out[k].runtime@ == "whisper.cpp"@
                &&& out[k].downloaded == whisper_downloaded@[k]
                &&& out[k].can_download
                &&& out[k].note is None
            },
        decreases n - i,
    {
        let name = whisper_models[i].clone();
        out.push(ModelInfo {
            name,
            runtime: String::from_str("whisper.cpp"),
            downloaded: whisper_downloaded[i],
            can_download: true,
            note: None,
        });
        i = i + 1;
    }
    out.push(ModelInfo {
        name: sherpa_model,
        runtime: String::from_str("sherpa-onnx"),
        downloaded: sherpa_downloaded,
        can_download: true,
        note: Some(String::from_str("NVIDIA Parakeet TDT v2 int8")),
    });
    if let Some((name, downloaded)) = mlx_model {
        out.push(ModelInfo {
            name,
            runtime: String::from_str("mlx-parakeet"),
            downloaded,
            can_download: true,
            note: Some(String::from_str("Parakeet MLX community model")),
        });
    }
    out
}

/// The active speech model: the stored one, or `base` when it cannot be
/// read.
pub fn active_model_value(stored: Option<String>) -> (r: String)
    ensures
        match stored {
            Some(s) => r == s,
            None => r@ == "base"@,
        },
{
    match stored {
        Some(s) => s,
        None => String::from_str("base"),
    }
}

/// Whether a model may become the active one: it must be downloaded, and
/// MLX models are only accepted on macOS.
pub fn check_model_selection(downloaded: bool, is_mlx_model: bool, on_macos: bool) -> (r: Result<(), String>)
    ensures
        !downloaded ==> (r matches Err(m) && m@ == "Model must be downloaded before selection"@),
        downloaded && is_mlx_model && !on_macos ==> (r matches Err(m) && m@
            == "MLX models are only supported on macOS"@),
        downloaded && (!is_mlx_model || on_macos) ==> r is Ok,
{
    if !downloaded {
        return Err(String::from_str("Model must be downloaded before selection"));
    }
    if !on_macos && is_mlx_model {
        return Err(String::from_str("MLX models are only supported on macOS"));
    }
    Ok(())
}

/// A progress report of a model download, as the model manager shows it;
/// the percentage is a whole number.
#[derive(Debug, Clone)]
pub struct DownloadEvent {
    pub stage: String,
    pub percent: Option<u8>,
    pub done: bool,
    pub error: Option<String>,
    pub message: Option<String>,
}

/// The report sent when a download is asked for.
pub fn queued_event() -> (r: DownloadEvent)
    ensures
        r.stage@ == "queued"@,
        r.percent == Some(0u8),
        !r.done,
        r.error is None,
        r.message matches Some(m) && m@ == "Queued for download"@,
{
    DownloadEvent {
        stage: String::from_str("queued"),
        percent: Some(0),
        done: false,
        error: None,
        message: Some(String::from_str("Queued for download")),
    }
}

/// How a model download ends, from the outcome of initialising the speech
/// backend with the model and, when that failed, whether the model is
/// nevertheless on disk: a successful initialisation is a complete
/// download; a failed one still counts as a download when the model is
/// there (it is initialised when selected); otherwise the error is
/// reported and returned.
pub fn download_outcome(init: Result<(), String>, available_after_failure: bool) -> (r: (Result<(), String>, DownloadEvent))
    ensures
        r.1.done,
        match init {
            Ok(_) => r.0 is Ok && r.1.stage@ == "ready"@ && r.1.percent == Some(100u8) && r.1.error is None
                && (r.1.message matches Some(m) && m@ == "Download complete"@),
            Err(e) => if available_after_failure {
                r.0 is Ok && r.1.stage@ == "ready"@ && r.1.percent == Some(100u8) && r.1.error is None
                    && (r.1.message matches Some(m) && m@
                    == "Model files downloaded. It will initialize when selected."@)
            } else {
                r.0 == Err::<(), String>(e) && r.1.stage@ == "error"@ && r.1.percent is None
                    && r.1.error == Some(e) && (r.1.message matches Some(m) && m@ == "Download failed"@)
            },
        },
{
    match init {
        Ok(_) => (
            Ok(()),
            DownloadEvent {
                stage: String::from_str("ready"),
                percent: Some(100),
                done: true,
                error: None,
                message: Some(String::from_str("Download complete")),
            },
        ),
        Err(e) => if available_after_failure {
            (
                Ok(()),
                DownloadEvent {
                    stage: String::from_str("ready"),
                    percent: Some(100),
                    done: true,
                    error: None,
                    message: Some(String::from_str("Model files downloaded. It will initialize when selected.")),
                },
            )
        } else {
            let reported = e.clone();
            (
                Err(e),
                DownloadEvent {
                    stage: String::from_str("error"),
                    percent: None,
                    done: true,
                    error: Some(reported),
                    message: Some(String::from_str("Download failed")),
                },
            )
        },
    }
}

/// Whether a model selection is accepted (see [`check_model_selection`]).
pub open spec fn selection_accepted(downloaded: bool, is_mlx_model: bool, on_macos: bool) -> bool {
    downloaded && (!is_mlx_model || on_macos)
}

/// One attempt to select a model: its name, whether it is downloaded, and
/// whether it is an MLX model.
pub struct SelectionAttempt {
    pub model: Seq<char>,
    pub downloaded: bool,
    pub is_mlx_model: bool,
}

/// The active model after one attempt: the attempted model when the
/// attempt is accepted, else the active model before it.
pub open spec fn after_selection(active: Seq<char>, attempt: SelectionAttempt, on_macos: bool) -> Seq<char> {
    if selection_accepted(attempt.downloaded, attempt.is_mlx_model, on_macos) {
        attempt.model
    } else {
        active
    }
}

/// The active model after a run of attempts, starting from `active`.
pub open spec fn after_selections(active: Seq<char>, attempts: Seq<SelectionAttempt>, on_macos: bool) -> Seq<char>
    decreases attempts.len(),
{
    if attempts.len() == 0 {
        active
    } else {
        after_selection(after_selections(active, attempts.drop_last(), on_macos), attempts.last(), on_macos)
    }
}

/// The model of the last accepted attempt, if any was accepted.
pub open spec fn last_accepted(attempts: Seq<SelectionAttempt>, on_macos: bool) -> Option<Seq<char>>
    decreases attempts.len(),
{
    if attempts.len() == 0 {
        None
    } else if selection_accepted(attempts.last().downloaded, attempts.last().is_mlx_model, on_macos) {
        Some(attempts.last().model)
    } else {
        last_accepted(attempts.drop_last(), on_macos)
    }
}

/// The active speech model of a running desktop shell; it starts as `base`.
pub struct ActiveModelStore {
    value: String,
}

impl View for ActiveModelStore {
    type V = Seq<char>;

    closed spec fn view(&self) -> Seq<char> {
        self.value@
    }
}

impl ActiveModelStore {
    pub fn new() -> (s: Self)
        ensures
            s@ == "base"@,
    {
        ActiveModelStore { value: String::from_str("base") }
    }

    /// The active model.
    pub fn get_active_model(&self) -> (r: Result<String, String>)
        ensures
            r matches Ok(v) && v@ == self@,
    {
        Ok(self.value.clone())
    }

    /// Makes `model` the active model when [`check_model_selection`] accepts
    /// it, and returns that check's answer; a refused selection leaves the
    /// active model as it was.
    pub fn set_active_model(
        &mut self,
        model: String,
        downloaded: bool,
        is_mlx_model: bool,
        on_macos: bool,
    ) -> (r: Result<(), String>)
        ensures
            r is Ok <==> selection_accepted(downloaded, is_mlx_model, on_macos),
            !downloaded ==> (r matches Err(m) && m@ == "Model must be downloaded before selection"@),
            downloaded && is_mlx_model && !on_macos ==> (r matches Err(m) && m@
                == "MLX models are only supported on macOS"@),
            final(self)@ == after_selection(
                old(self)@,
                SelectionAttempt { model: model@, downloaded, is_mlx_model },
                on_macos,
            ),
    {
        let checked = check_model_selection(downloaded, is_mlx_model, on_macos);
        if checked.is_ok() {
            self.value = model;
        }
        checked
    }
}

/// After any run of selection attempts on a fresh store, the active model
/// is the model of the last accepted attempt, or `base` when none was
/// accepted.
pub proof fn law_active_model_is_last_accepted(attempts: Seq<SelectionAttempt>, on_macos: bool)
    ensures
        after_selections("base"@, attempts, on_macos) == match last_accepted(attempts, on_macos) {
            Some(m) => m,
            None => "base"@,
        },
    decreases attempts.len(),
{
    if attempts.len() > 0 {
        law_active_model_is_last_accepted(attempts.drop_last(), on_macos);
    }
}

/// `v` clamped to `[lo, max(hi, lo)]`.
pub open spec fn clamp_up(v: int, lo: int, hi: int) -> int {
    let top = if hi > lo { hi } else { lo };
    if v < lo {
        lo
    } else if v > top {
        top
    } else {
        v
    }
}

/// Half of `d`, rounded towards zero as Rust's integer division does.
pub open spec fn half_toward_zero(d: int) -> int {
    if d >= 0 {
        d / 2
    } else {
        -((-d) / 2)
    }
}

/// Where the overlay goes on a monitor: centred horizontally and
/// `bottom_margin` above the bottom edge, kept on the monitor; a window size
/// of zero counts as 400 × 200.
pub open spec fn overlay_position_spec(
    monitor_x: int,
    monitor_y: int,
    monitor_width: int,
    monitor_height: int,
    window_width: int,
    window_height: int,
    bottom_margin: int,
) -> (int, int) {
    let w = if window_width == 0 { 400 } else { window_width };
    let h = if window_height == 0 { 200 } else { window_height };
    let min_x = monitor_x;
    let max_x = monitor_x + monitor_width - w;
    let min_y = monitor_y;
    let max_y = monitor_y + monitor_height - h;
    let center_x = monitor_x + half_toward_zero(monitor_width - w);
    let bottom_y = monitor_y + monitor_height - h - bottom_margin;
    (clamp_up(center_x, min_x, max_x), clamp_up(bottom_y, min_y, max_y))
}

/// Whether `v` is a value of `i32`.
pub open spec fn fits_i32(v: int) -> bool {
    i32::MIN <= v <= i32::MAX
}

/// The window extent the overlay is placed with: the given one taken as an
/// `i32`, or the fallback when it is zero.
pub open spec fn window_extent(raw: u32, fallback: int) -> int {
    if raw == 0 { fallback } else { (#[verifier::truncate] (raw as i32)) as int }
}

/// Every sum and difference the overlay placement computes stays an `i32`.
pub open spec fn overlay_arithmetic_fits(
    monitor_x: int,
    monitor_y: int,
    monitor_width: int,
    monitor_height: int,
    w: int,
    h: int,
    bottom_margin: int,
) -> bool {
    &&& fits_i32(monitor_x + monitor_width)
    &&& fits_i32(monitor_x + monitor_width - w)
    &&& fits_i32(monitor_y + monitor_height)
    &&& fits_i32(monitor_y + monitor_height - h)
    &&& fits_i32(monitor_width - w)
    &&& fits_i32(monitor_x + half_toward_zero(monitor_width - w))
    &&& fits_i32(monitor_y + monitor_height - h - bottom_margin)
}

/// The overlay window's position (see [`overlay_position_spec`]); the
/// extents are taken as `i32`, as the window system hands them over.
pub fn overlay_position(
    monitor_x: i32,
    monitor_y: i32,
    monitor_width: u32,
    monitor_height: u32,
    window_width: u32,
    window_height: u32,
    bottom_margin: i32,
) -> (r: (i32, i32))
    requires
        overlay_arithmetic_fits(
            monitor_x as int,
            monitor_y as int,
            (#[verifier::truncate] (monitor_width as i32)) as int,
            (#[verifier::truncate] (monitor_height as i32)) as int,
            window_extent(window_width, 400),
            window_extent(window_height, 200),
            bottom_margin as int,
        ),
    ensures
        (r.0 as int, r.1 as int) == overlay_position_spec(
            monitor_x as int,
            monitor_y as int,
            (#[verifier::truncate] (monitor_width as i32)) as int,
            (#[verifier::truncate] (monitor_height as i32)) as int,
            window_extent(window_width, 400),
            window_extent(window_height, 200),
            bottom_margin as int,
        ),
{
    let mw: i32 = #[verifier::truncate] (monitor_width as i32);
    let mh: i32 = #[verifier::truncate] (monitor_height as i32);
    let width: i32 = if window_width == 0 { 400 } else { #[verifier::truncate] (window_width as i32) };
    let height: i32 = if window_height == 0 { 200 } else { #[verifier::truncate] (window_height as i32) };
    proof {
        assert(window_width != 0 ==> (#[verifier::truncate] (window_width as i32)) != 0) by (bit_vector);
        assert(window_height != 0 ==> (#[verifier::truncate] (window_height as i32)) != 0) by (bit_vector);
    }
    let min_x = monitor_x;
    let max_x = monitor_x + mw - width;
    let min_y = monitor_y;
    let max_y = monitor_y + mh - height;
    let center_x = monitor_x + (mw - width) / 2;
    let bottom_y = monitor_y + mh - height - bottom_margin;
    let top_x = if max_x > min_x { max_x } else { min_x };
    let top_y = if max_y > min_y { max_y } else { min_y };
    let x = if center_x < min_x { min_x } else if center_x > top_x { top_x } else { center_x };
    let y = if bottom_y < min_y { min_y } else if bottom_y > top_y { top_y } else { bottom_y };
    (x, y)
}

/// When the window fits on the monitor, the overlay lies wholly on it.
pub proof fn law_overlay_on_monitor(
    monitor_x: int,
    monitor_y: int,
    monitor_width: int,
    monitor_height: int,
    window_width: int,
    window_height: int,
    bottom_margin: int,
)
    requires
        (if window_width == 0 { 400 } else { window_width }) <= monitor_width,
        (if window_height == 0 { 200 } else { window_height }) <= monitor_height,
    ensures
        ({
            let w = if window_width == 0 { 400 } else { window_width };
            let h = if window_height == 0 { 200 } else { window_height };
            let p = overlay_position_spec(
                monitor_x,
                monitor_y,
                monitor_width,
                monitor_height,
                window_width,
                window_height,
                bottom_margin,
            );
            &&& monitor_x <= p.0 && p.0 + w <= monitor_x + monitor_width
            &&& monitor_y <= p.1 && p.1 + h <= monitor_y + monitor_height
        }),
{
}

/// The Ollama model list address for a configured base address: `http://`
/// is put in front unless it already starts with `http`, and trailing `/`
/// are dropped before `/api/tags`.
pub open spec fn ollama_tags_url_spec(base_url: Seq<char>) -> Seq<char> {
    let url = if has_prefix(base_url, "http"@) { base_url } else { "http://"@ + base_url };
    strip_trailing_slashes(url) + "/api/tags"@
}

pub open spec fn strip_trailing_slashes(s: Seq<char>) -> Seq<char>
    decreases s.len(),
{
    if s.len() > 0 && s.last() == '/' {
        strip_trailing_slashes(s.drop_last())
    } else {
        s
    }
}

proof fn lemma_strip_skip(s: Seq<char>, j: int)
    requires
        0 <= j <= s.len(),
        forall|k: int| j <= k < s.len() ==> #[trigger] s[k] == '/',
    ensures
        strip_trailing_slashes(s) == strip_trailing_slashes(s.subrange(0, j)),
    decreases s.len() - j,
{
    if j < s.len() {
        assert(s.drop_last().subrange(0, j) =~= s.subrange(0, j));
        lemma_strip_skip(s.drop_last(), j);
    } else {
        assert(s.subrange(0, s.len() as int) =~= s);
    }
}

pub fn ollama_tags_url(base_url: &str) -> (r: String)
    ensures
        r@ == ollama_tags_url_spec(base_url@),
{
    let url = if starts_with(base_url, "http") {
        String::from_str(base_url)
    } else {
        String::from_str("http://").concat(base_url)
    };
    let s = url.as_str();
    let n = s.unicode_len();
    let mut j: usize = n;
    while j > 0 && s.get_char(j - 1) == '/'
        invariant
            n == s@.len(),
            j <= n,
            forall|k: int| j <= k < n ==> #[trigger] s@[k] == '/',
        decreases j,
    {
        j = j - 1;
    }
    proof {
        lemma_strip_skip(s@, j as int);
        let body = s@.subrange(0, j as int);
        if body.len() > 0 {
            assert(body.last() == s@[j - 1]);
        }
    }
    String::from_str(s.substring_char(0, j)).concat("/api/tags")
}

/// A model installed in Ollama, as its model list reports it.
#[derive(Debug, Clone)]
pub struct OllamaModel {
    pub name: String,
    pub size: u64,
    pub digest: String,
    pub details: Option<OllamaModelDetails>,
}

/// Details Ollama reports of a model.
#[derive(Debug, Clone)]
pub struct OllamaModelDetails {
    pub format: String,
    pub family: String,
    pub families: Option<Vec<String>>,
    pub parameter_size: String,
    pub quantization_level: String,
}


/// When the window fits on the monitor and above the bottom margin, the
/// overlay is centred horizontally (its left and right gaps differ by at
/// most one) and its bottom edge sits exactly `bottom_margin` above the
/// monitor's bottom edge.
pub proof fn law_overlay_centred(
    monitor_x: int,
    monitor_y: int,
    monitor_width: int,
    monitor_height: int,
    window_width: int,
    window_height: int,
    bottom_margin: int,
)
    requires
        window_width > 0,
        window_height > 0,
        window_width <= monitor_width,
        0 <= bottom_margin,
        window_height + bottom_margin <= monitor_height,
    ensures
        ({
            let p = overlay_position_spec(
                monitor_x,
                monitor_y,
                monitor_width,
                monitor_height,
                window_width,
                window_height,
                bottom_margin,
            );
            let left = p.0 - monitor_x;
            let right = monitor_x + monitor_width - (p.0 + window_width);
            &&& 0 <= right - left <= 1
            &&& p.1 + window_height + bottom_margin == monitor_y + monitor_height
        }),
{
}


/// The Ollama model list address always ends in `/api/tags`; a base
/// address that does not start with `http` gets `http://` in front, so
/// the address starts with `http:` even once trailing `/` are dropped; a
/// bare host and port such as `localhost:11434` becomes
/// `http://localhost:11434/api/tags`.
pub proof fn law_ollama_address(base_url: Seq<char>)
    ensures
        has_suffix(ollama_tags_url_spec(base_url), "/api/tags"@),
        !has_prefix(base_url, "http"@) ==> has_prefix(ollama_tags_url_spec(base_url), "http:"@),
        ollama_tags_url_spec("localhost:11434"@) == "http://localhost:11434/api/tags"@,
{
    let url = if has_prefix(base_url, "http"@) { base_url } else { "http://"@ + base_url };
    let r = ollama_tags_url_spec(base_url);
    let body = strip_trailing_slashes(url);
    lemma_strip_prefix_kept(url, 4);
    assert(r == body + "/api/tags"@);
    assert(r.subrange(r.len() - "/api/tags"@.len(), r.len() as int) =~= "/api/tags"@);
    if !has_prefix(base_url, "http"@) {
        reveal_strlit("http://");
        reveal_strlit("http");
        reveal_strlit("http:");
        assert(url.subrange(0, 5) =~= "http:"@);
        assert(url[4] == ':');
        assert(body.len() >= 5);
        assert(r.subrange(0, 5) =~= body.subrange(0, 5));
        assert(body.subrange(0, 5) =~= url.subrange(0, 5));
    }
    reveal_strlit("localhost:11434");
    reveal_strlit("http://localhost:11434");
    reveal_strlit("http://localhost:11434/api/tags");
    reveal_strlit("/api/tags");
    reveal_strlit("http://");
    reveal_strlit("http");
    let l = "localhost:11434"@;
    assert(!has_prefix(l, "http"@)) by {
        assert(l.subrange(0, 4)[0] != "http"@[0]);
    }
    let lu = "http://"@ + l;
    assert(lu.last() != '/');
    assert(strip_trailing_slashes(lu) == lu);
    assert(lu + "/api/tags"@ =~= "http://localhost:11434/api/tags"@);
}

/// Stripping trailing `/` keeps a prefix, and keeps every character up to
/// one that is not `/`.
proof fn lemma_strip_prefix_kept(s: Seq<char>, k: int)
    requires
        0 <= k,
    ensures
        strip_trailing_slashes(s).len() <= s.len(),
        strip_trailing_slashes(s) =~= s.subrange(0, strip_trailing_slashes(s).len() as int),
        s.len() > k && s[k] != '/' ==> strip_trailing_slashes(s).len() > k,
    decreases s.len(),
{
    if s.len() > 0 && s.last() == '/' {
        lemma_strip_prefix_kept(s.drop_last(), k);
        let r = strip_trailing_slashes(s.drop_last());
        assert(r =~= s.subrange(0, r.len() as int));
        if s.len() > k && s[k] != '/' {
            assert(s.len() > k + 1);
            assert(s.drop_last()[k] == s[k]);
        }
    }
}

} // verus!
