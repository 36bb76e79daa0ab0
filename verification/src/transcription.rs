//! Transcription results and the state of the speech backends: what a
//! whisper decoding attempt asks for, how its segments become a
//! transcript, how the MLX helper's output becomes one, and what each
//! backend keeps between initialisation and transcription.

use vstd::prelude::*;
use vstd::string::*;
use crate::text::{trim, trim_str};
use crate::stt::{attempt_language, concat_all, decode_language, optimal_threads, DecodeStep, SttError};

verus! {

/// Whether speech is written down as spoken or translated into English.
#[derive(Debug, Clone, Copy, PartialEq, Eq, Structural)]
pub enum TranscriptionTask {
    Transcribe,
    Translate,
}

/// A point in the audio: whisper gives hundredths of a second, the MLX
/// helper is timed by samples at 16 kHz.
#[derive(Debug, Clone, Copy, PartialEq, Eq, Structural)]
pub enum TimePoint {
    Centiseconds(i64),
    Samples(usize),
}

/// A stretch of transcribed speech.
#[derive(Debug, Clone)]
pub struct TimedSegment {
    pub text: String,
    pub start: TimePoint,
    pub end: TimePoint,
}

pub struct SegmentModel {
    pub text: Seq<char>,
    pub start: TimePoint,
    pub end: TimePoint,
}

impl View for TimedSegment {
    type V = SegmentModel;

    open spec fn view(&self) -> SegmentModel {
        SegmentModel { text: self.text@, start: self.start, end: self.end }
    }
}

/// A transcript. The transcripts of this module carry no confidence score.
#[derive(Debug, Clone)]
pub struct Transcript {
    pub text: String,
    pub language: Option<String>,
    pub segments: Vec<TimedSegment>,
}

/// The segments of a transcript are, in order, those of `expected`.
pub open spec fn segments_are(segments: Seq<TimedSegment>, expected: Seq<SegmentModel>) -> bool {
    &&& segments.len() == expected.len()
    &&& forall|i: int| 0 <= i < segments.len() ==> (#[trigger] segments[i])@ == expected[i]
}

/// How one whisper decoding attempt is run.
#[derive(Debug, Clone)]
pub struct DecodeParams {
    /// Beam search (of width 5) rather than greedy search.
    pub beam_search: bool,
    /// Blank and non-speech suppression off and the no-speech and
    /// log-probability thresholds relaxed.
    pub relaxed_filters: bool,
    /// Translate into English.
    pub translate: bool,
    /// The language to decode in; `None` means detect it.
    pub language: Option<String>,
    pub detect_language: bool,
    pub threads: i32,
}

/// The parameters of a decoding attempt: the permissive attempt searches
/// greedily with relaxed filters, the others use beam search; translation
/// is asked for exactly on the translate task; the language is the
/// attempt's (see [`attempt_language`]) and is detected when there is none.
pub fn decode_params(
    step: DecodeStep,
    requested: &Option<String>,
    task: TranscriptionTask,
    available_parallelism: Option<usize>,
) -> (r: DecodeParams)
    ensures
        r.beam_search == (step != DecodeStep::Permissive),
        r.relaxed_filters == (step == DecodeStep::Permissive),
        r.translate == (task == TranscriptionTask::Translate),
        match r.language {
            Some(l) => attempt_language(step, match requested {
                Some(q) => Some(q@),
                None => None,
            }) == Some(l@),
            None => attempt_language(step, match requested {
                Some(q) => Some(q@),
                None => None,
            }) is None,
        },
        r.detect_language == (r.language is None),
        r.threads == match available_parallelism {
            Some(n) => if n < 8 { n as int } else { 8 },
            None => 4,
        },
{
    let permissive = match step {
        DecodeStep::Permissive => true,
        _ => false,
    };
    let translate = match task {
        TranscriptionTask::Translate => true,
        TranscriptionTask::Transcribe => false,
    };
    let language = decode_language(step, requested);
    let detect_language = language.is_none();
    DecodeParams {
        beam_search: !permissive,
        relaxed_filters: permissive,
        translate,
        language,
        detect_language,
        threads: optimal_threads(available_parallelism),
    }
}

/// The non-blank segments among the first `n`, trimmed, with their
/// timestamps in hundredths of a second.
pub open spec fn kept_timed(texts: Seq<Seq<char>>, starts: Seq<i64>, ends: Seq<i64>, n: nat) -> Seq<SegmentModel>
    decreases n,
{
    if n == 0 {
        Seq::<SegmentModel>::empty()
    } else {
        let rest = kept_timed(texts, starts, ends, (n - 1) as nat);
        let t = trim(texts[n - 1]);
        if t.len() > 0 {
            rest.push(
                SegmentModel {
                    text: t,
                    start: TimePoint::Centiseconds(starts[n - 1]),
                    end: TimePoint::Centiseconds(ends[n - 1]),
                },
            )
        } else {
            rest
        }
    }
}

/// The transcript of a whisper decoding attempt from the segments it
/// produced (text and start and end in hundredths of a second): the text
/// is all segment texts run together and trimmed; the segments are the
/// non-blank ones, trimmed, in order, with their timestamps; the language
/// is the one decoded in when one was set, else the one whisper detected.
pub fn whisper_transcript(
    segment_texts: &Vec<String>,
    starts: &Vec<i64>,
    ends: &Vec<i64>,
    language_option: Option<String>,
    detected_language: Option<String>,
) -> (r: Transcript)
    requires
        starts.len() == segment_texts.len(),
        ends.len() == segment_texts.len(),
    ensures
        r.text@ == trim(concat_all(segment_texts.deep_view())),
        segments_are(
            r.segments@,
            kept_timed(segment_texts.deep_view(), starts@, ends@, segment_texts.len() as nat),
        ),
        r.language == match language_option {
            Some(l) => Some(l),
            None => detected_language,
        },
{
    let ghost texts = segment_texts.deep_view();
    let mut text = String::new();
    let mut segments: Vec<TimedSegment> = Vec::new();
    let mut i: usize = 0;
    while i < segment_texts.len()
        invariant
            i <= segment_texts.len(),
            texts == segment_texts.deep_view(),
            starts.len() == segment_texts.len(),
            ends.len() == segment_texts.len(),
            text@ == concat_all(texts.take(i as int)),
            segments_are(segments@, kept_timed(texts, starts@, ends@, i as nat)),
        decreases segment_texts.len() - i,
    {
        assert(texts.take(i + 1).drop_last() =~= texts.take(i as int));
        assert(texts.take(i + 1).last() == segment_texts[i as int]@);
        let seg = segment_texts[i].as_str();
        text.append(seg);
        let cleaned = trim_str(seg);
        if cleaned.unicode_len() > 0 {
            let ghost prev = segments@;
            segments.push(
                TimedSegment {
                    text: String::from_str(cleaned),
                    start: TimePoint::Centiseconds(starts[i]),
                    end: TimePoint::Centiseconds(ends[i]),
                },
            );
            proof {
                let k = kept_timed(texts, starts@, ends@, (i + 1) as nat);
                assert forall|j: int| 0 <= j < segments@.len() implies (#[trigger] segments@[j])@
                    == k[j] by {
                    if j < prev.len() {
                        assert(segments@[j] == prev[j]);
                    }
                }
            }
        }
        i = i + 1;
    }
    assert(texts.take(segment_texts.len() as int) =~= texts);
    let language = match language_option {
        Some(l) => Some(l),
        None => detected_language,
    };
    Transcript { text: String::from_str(trim_str(text.as_str())), language, segments }
}

/// The transcript of the MLX helper's output for `sample_count` prepared
/// samples: the output trimmed, in English, with one segment over the
/// whole audio when the text is not empty and none otherwise.
pub fn mlx_transcript(output: &str, sample_count: usize) -> (r: Transcript)
    ensures
        r.text@ == trim(output@),
        r.language matches Some(l) && l@ == "en"@,
        segments_are(
            r.segments@,
            if trim(output@).len() == 0 {
                Seq::<SegmentModel>::empty()
            } else {
                seq![
                    SegmentModel {
                        text: trim(output@),
                        start: TimePoint::Samples(0),
                        end: TimePoint::Samples(sample_count),
                    },
                ]
            },
        ),
{
    let clean = trim_str(output);
    let mut segments: Vec<TimedSegment> = Vec::new();
    if clean.unicode_len() > 0 {
        segments.push(
            TimedSegment {
                text: String::from_str(clean),
                start: TimePoint::Samples(0),
                end: TimePoint::Samples(sample_count),
            },
        );
    }
    Transcript { text: String::from_str(clean), language: Some(String::from_str("en")), segments }
}

/// What the whisper backend keeps once initialised: the model it loaded
/// and the language and task it was configured with.
#[derive(Debug, Clone)]
pub struct WhisperSession {
    pub model_path: String,
    pub language: Option<String>,
    pub task: TranscriptionTask,
}

/// The whisper backend's state between calls.
pub struct SharedWhisperAdapter {
    pub session: Option<WhisperSession>,
}

impl SharedWhisperAdapter {
    /// Not initialised.
    pub fn new() -> (r: Self)
        ensures
            r.session is None,
    {
        SharedWhisperAdapter { session: None }
    }

    /// Takes in the outcome of loading a model (its path, or why it could
    /// not be loaded, after the CPU retry where there was one) for a
    /// configuration with `language` and `task`. A loaded model replaces
    /// the session; a failure leaves the state as it was and is returned.
    pub fn initialize(
        &mut self,
        language: Option<String>,
        task: TranscriptionTask,
        loaded: Result<String, SttError>,
    ) -> (r: Result<(), SttError>)
        ensures
            match loaded {
                Ok(p) => r is Ok && final(self).session == Some(
                    (WhisperSession { model_path: p, language, task }),
                ),
                Err(e) => r == Err::<(), SttError>(e) && final(self).session == old(self).session,
            },
    {
        match loaded {
            Ok(model_path) => {
                self.session = Some(WhisperSession { model_path, language, task });
                Ok(())
            },
            Err(e) => Err(e),
        }
    }

    /// What a transcription of `prepared_samples` prepared samples runs
    /// with: fails before any decoding when the backend is not initialised
    /// or no samples are left after preparation; otherwise the session.
    pub fn transcription_session(&self, prepared_samples: usize) -> (r: Result<&WhisperSession, SttError>)
        ensures
            self.session is None ==> (r matches Err(SttError::TranscriptionFailed(m)) && m@
                == "adapter not initialized"@),
            self.session is Some && prepared_samples == 0 ==> (r matches Err(
                SttError::AudioError(m),
            ) && m@ == "no audio samples available after preprocessing"@),
            self.session is Some && prepared_samples > 0 ==> (r matches Ok(s) && Some(*s)
                == self.session),
    {
        match &self.session {
            None => Err(SttError::TranscriptionFailed(String::from_str("adapter not initialized"))),
            Some(s) => if prepared_samples == 0 {
                Err(SttError::AudioError(String::from_str("no audio samples available after preprocessing")))
            } else {
                Ok(s)
            },
        }
    }
}

/// The MLX backend's state between calls: the model reference it set up.
pub struct SharedMlxParakeetAdapter {
    pub model_ref: Option<String>,
}

impl SharedMlxParakeetAdapter {
    /// Not initialised.
    pub fn new() -> (r: Self)
        ensures
            r.model_ref is None,
    {
        SharedMlxParakeetAdapter { model_ref: None }
    }

    /// Takes in the model reference a configuration resolved to (see
    /// `stt::resolve_model_ref`) and, when it resolved, the outcome of
    /// setting the model up and writing its ready marker. Only when both
    /// succeeded is the reference kept; otherwise the first error is
    /// returned and the state is left as it was.
    pub fn initialize(
        &mut self,
        model_ref: Result<String, SttError>,
        setup: Result<(), SttError>,
    ) -> (r: Result<(), SttError>)
        ensures
            match model_ref {
                Err(e) => r == Err::<(), SttError>(e) && final(self).model_ref == old(self).model_ref,
                Ok(m) => match setup {
                    Err(e) => r == Err::<(), SttError>(e) && final(self).model_ref == old(
                        self,
                    ).model_ref,
                    Ok(_) => r is Ok && final(self).model_ref == Some(m),
                },
            },
    {
        match model_ref {
            Err(e) => Err(e),
            Ok(m) => match setup {
                Err(e) => Err(e),
                Ok(_) => {
                    self.model_ref = Some(m);
                    Ok(())
                },
            },
        }
    }

    /// What a transcription of `prepared_samples` prepared samples runs
    /// with: fails when the backend is not initialised or no samples are
    /// left after preparation; otherwise the model reference.
    pub fn transcription_model(&self, prepared_samples: usize) -> (r: Result<&String, SttError>)
        ensures
            self.model_ref is None ==> (r matches Err(SttError::TranscriptionFailed(m)) && m@
                == "mlx adapter not initialized"@),
            self.model_ref is Some && prepared_samples == 0 ==> (r matches Err(
                SttError::AudioError(m),
            ) && m@ == "no audio samples available after preprocessing"@),
            self.model_ref is Some && prepared_samples > 0 ==> (r matches Ok(s) && Some(*s)
                == self.model_ref),
    {
        match &self.model_ref {
            None => Err(SttError::TranscriptionFailed(String::from_str("mlx adapter not initialized"))),
            Some(s) => if prepared_samples == 0 {
                Err(SttError::AudioError(String::from_str("no audio samples available after preprocessing")))
            } else {
                Ok(s)
            },
        }
    }
}

} // verus!
