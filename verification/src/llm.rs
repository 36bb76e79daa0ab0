//! Text formatting with a local language model: requests, responses,
//! errors, and the model catalogue.

pub mod models;
pub mod prompts;

use vstd::prelude::*;
use vstd::string::*;
use crate::llm::models::{lookup_model, model_table, not_found_message, ModelError};
use crate::llm::prompts::{
    create_capitalization_prompt, create_course_correction_prompt, create_filler_removal_prompt,
    create_punctuation_prompt, create_smart_format_prompt,
};

verus! {

#[verifier::external_type_specification]
#[verifier::external_body]
pub struct ExIoError(std::io::Error);

/// What can go wrong with the language model.
#[derive(Debug)]
pub enum LlmError {
    ModelNotFound(String),
    InferenceFailed(String),
    ModelLoadError(String),
    ConfigError(String),
    UnsupportedPlatform,
    IoError(std::io::Error),
    ModelError(ModelError),
}

/// The kinds of formatting the model can be asked for.
#[derive(Debug, Clone, Copy, PartialEq, Eq)]
pub enum FormattingType {
    RemoveFillers,
    AddPunctuation,
    FixCapitalization,
    CourseCorrection,
    /// All of the above at once.
    SmartFormat,
}

/// A request to format some text.
#[derive(Debug, Clone)]
pub struct TextFormattingRequest {
    pub raw_text: String,
    pub format_type: FormattingType,
}

/// The formatted text together with the text it came from.
#[derive(Debug, Clone)]
pub struct TextFormattingResponse {
    pub formatted_text: String,
    pub original_text: String,
}

/// The prompt text that goes before the request's text.
pub open spec fn prompt_prefix(t: FormattingType) -> Seq<char> {
    match t {
        FormattingType::RemoveFillers => "Remove filler words (um, uh, like, you know, etc.) from the following text. Only return the cleaned text, nothing else:\n\n"@,
        FormattingType::AddPunctuation => "Add proper punctuation (periods, commas, question marks, etc.) to the following text. Only return the punctuated text, nothing else:\n\n"@,
        FormattingType::FixCapitalization => "Fix capitalization in the following text. Capitalize proper nouns, sentence starts, and the word 'I'. Only return the corrected text, nothing else:\n\n"@,
        FormattingType::CourseCorrection => "The following is dictated text where the speaker may have corrected themselves. Remove any false starts or corrections, keeping only the final intended text. Only return the final text, nothing else:\n\n"@,
        FormattingType::SmartFormat => "Clean up the following dictated text by:\n1. Removing filler words (um, uh, like, you know)\n2. Adding proper punctuation\n3. Fixing capitalization\n4. Removing false starts and course corrections\n\nOnly return the cleaned text, nothing else:\n\n"@,
    }
}

/// The prompt for a formatting request: the template of its kind followed
/// by its text.
pub fn formatting_prompt(request: &TextFormattingRequest) -> (r: String)
    ensures
        r@ == prompt_prefix(request.format_type) + request.raw_text@,
{
    let text = request.raw_text.as_str();
    match request.format_type {
        FormattingType::RemoveFillers => create_filler_removal_prompt(text),
        FormattingType::AddPunctuation => create_punctuation_prompt(text),
        FormattingType::FixCapitalization => create_capitalization_prompt(text),
        FormattingType::CourseCorrection => create_course_correction_prompt(text),
        FormattingType::SmartFormat => create_smart_format_prompt(text),
    }
}


/// The response to a formatting request, given the outcome of running its
/// prompt: the run's text as the formatted text and the request's text as
/// the original; a failed run's error is passed on unchanged.
pub fn formatting_response(request: TextFormattingRequest, run: Result<String, LlmError>) -> (r: Result<TextFormattingResponse, LlmError>)
    ensures
        match run {
            Ok(text) => r matches Ok(resp) && resp.formatted_text == text && resp.original_text
                == request.raw_text,
            Err(e) => r matches Err(e2) && e2 == e,
        },
{
    match run {
        Ok(formatted_text) => Ok(TextFormattingResponse { formatted_text, original_text: request.raw_text }),
        Err(e) => Err(e),
    }
}

/// Fails unless a model is loaded.
pub fn ensure_initialized(model_loaded: bool) -> (r: Result<(), LlmError>)
    ensures
        model_loaded ==> r is Ok,
        !model_loaded ==> (r matches Err(LlmError::ModelLoadError(m)) && m@
            == "Adapter not initialized. Call initialize() first."@),
{
    if !model_loaded {
        return Err(LlmError::ModelLoadError(String::from_str("Adapter not initialized. Call initialize() first.")));
    }
    Ok(())
}

/// Where the formatting model file is taken from.
#[derive(Debug, Clone)]
pub enum LlmModelFile {
    /// The configured path.
    Configured(String),
    /// This file of the catalogue, in the model cache directory.
    Catalogue(String),
}

/// The model file for a configuration: the configured path when there is
/// one, else the catalogue file of the model name; a name the catalogue
/// lacks is an error.
pub fn llm_model_file(model_path: Option<String>, model_name: &str) -> (r: Result<LlmModelFile, LlmError>)
    ensures
        match model_path {
            Some(p) => r matches Ok(LlmModelFile::Configured(q)) && q == p,
            None => if exists|i: int| 0 <= i < model_table().len() && model_table()[i].name == model_name@ {
                r matches Ok(LlmModelFile::Catalogue(f)) && exists|i: int|
                    0 <= i < model_table().len() && model_table()[i].name == model_name@
                        && model_table()[i].filename == f@
            } else {
                r matches Err(LlmError::ModelError(ModelError::NotFound(m))) && m@ == not_found_message(
                    model_name@,
                )
            },
        },
{
    match model_path {
        Some(p) => Ok(LlmModelFile::Configured(p)),
        None => match lookup_model(model_name) {
            Ok(entry) => Ok(LlmModelFile::Catalogue(entry.filename)),
            Err(e) => Err(LlmError::ModelError(e)),
        },
    }
}

/// The error for a model file that is not on disk; `shown_path` is the
/// path as Rust's `{:?}` writes it.
pub fn missing_llm_model(shown_path: &str) -> (r: LlmError)
    ensures
        r matches LlmError::ModelNotFound(m) && m@ == "Model file not found at "@ + shown_path@
            + ". Please download it first."@,
{
    LlmError::ModelNotFound(
        String::from_str("Model file not found at ").concat(shown_path).concat(". Please download it first."),
    )
}

/// The language model backend's state between calls: whether a model is
/// loaded, and the name of the model last loaded.
pub struct LlamaCppAdapter {
    pub model_loaded: bool,
    pub current_model_name: Option<String>,
}

impl LlamaCppAdapter {
    /// Nothing loaded.
    pub fn new() -> (r: Self)
        ensures
            !r.model_loaded,
            r.current_model_name is None,
    {
        LlamaCppAdapter { model_loaded: false, current_model_name: None }
    }

    /// Takes in the outcome of loading the model `model_name` names: once
    /// loaded it is the current model; a failure leaves the state as it
    /// was and is returned.
    pub fn initialize(&mut self, model_name: String, loaded: Result<(), LlmError>) -> (r: Result<(), LlmError>)
        ensures
            match loaded {
                Ok(_) => r is Ok && final(self).model_loaded && final(self).current_model_name == Some(
                    model_name,
                ),
                Err(e) => r == Err::<(), LlmError>(e) && final(self).model_loaded == old(self).model_loaded
                    && final(self).current_model_name == old(self).current_model_name,
            },
    {
        match loaded {
            Ok(_) => {
                self.model_loaded = true;
                self.current_model_name = Some(model_name);
                Ok(())
            },
            Err(e) => Err(e),
        }
    }

    /// Fails unless a model is loaded (see [`ensure_initialized`]).
    pub fn ensure_initialized(&self) -> (r: Result<(), LlmError>)
        ensures
            self.model_loaded ==> r is Ok,
            !self.model_loaded ==> (r matches Err(LlmError::ModelLoadError(m)) && m@
                == "Adapter not initialized. Call initialize() first."@),
    {
        ensure_initialized(self.model_loaded)
    }

    /// The name of the model last loaded.
    pub fn current_model(&self) -> (r: Option<&String>)
        ensures
            match r {
                Some(n) => self.current_model_name == Some(*n),
                None => self.current_model_name is None,
            },
    {
        match &self.current_model_name {
            Some(n) => Some(n),
            None => None,
        }
    }
}

/// Greedy text generation as it proceeds: the pieces decoded so far and how
/// many there were, bounded by `max_tokens`.
pub struct Generation {
    pub output: String,
    pub generated: u32,
    pub max_tokens: u32,
}

/// What to do with the model's best next token.
#[derive(Debug, Clone, Copy, PartialEq, Eq, Structural)]
pub enum NextToken {
    /// Decode it and append its text.
    Decode,
    /// Stop: there was no candidate, it ends the text, or the limit is
    /// reached.
    Stop,
}

impl Generation {
    pub open spec fn wf(&self) -> bool {
        self.generated <= self.max_tokens
    }

    /// Nothing generated yet.
    pub fn new(max_tokens: u32) -> (r: Self)
        ensures
            r.wf(),
            r.output@ == Seq::<char>::empty(),
            r.generated == 0,
            r.max_tokens == max_tokens,
    {
        Generation { output: String::new(), generated: 0, max_tokens }
    }

    /// Given whether there is a best candidate and whether it ends the
    /// text: decode it while below the limit, otherwise stop.
    pub fn next_token(&self, candidate_is_end: Option<bool>) -> (r: NextToken)
        ensures
            r == (if self.generated < self.max_tokens && candidate_is_end == Some(false) {
                NextToken::Decode
            } else {
                NextToken::Stop
            }),
    {
        if self.generated >= self.max_tokens {
            return NextToken::Stop;
        }
        match candidate_is_end {
            Some(false) => NextToken::Decode,
            _ => NextToken::Stop,
        }
    }

    /// Appends the text of a decoded token.
    pub fn push_piece(&mut self, piece: &str)
        requires
            old(self).wf(),
            old(self).generated < old(self).max_tokens,
        ensures
            final(self).wf(),
            final(self).output@ == old(self).output@ + piece@,
            final(self).generated == old(self).generated + 1,
            final(self).max_tokens == old(self).max_tokens,
    {
        self.output.append(piece);
        self.generated = self.generated + 1;
    }

    /// The generated text, trimmed.
    pub fn finish(&self) -> (r: String)
        ensures
            r@ == crate::text::trim(self.output@),
    {
        String::from_str(crate::text::trim_str(self.output.as_str()))
    }
}


/// Each kind of formatting asks for that kind of clean-up: the prompt of
/// a request is the literal template of its kind followed by its text.
pub proof fn law_prompt_matches_format_type(t: FormattingType, text: Seq<char>)
    ensures
        t == FormattingType::RemoveFillers ==> prompt_prefix(t) + text == "Remove filler words (um, uh, like, you know, etc.) from the following text. Only return the cleaned text, nothing else:\n\n"@ + text,
        t == FormattingType::AddPunctuation ==> prompt_prefix(t) + text == "Add proper punctuation (periods, commas, question marks, etc.) to the following text. Only return the punctuated text, nothing else:\n\n"@ + text,
        t == FormattingType::FixCapitalization ==> prompt_prefix(t) + text == "Fix capitalization in the following text. Capitalize proper nouns, sentence starts, and the word 'I'. Only return the corrected text, nothing else:\n\n"@ + text,
        t == FormattingType::CourseCorrection ==> prompt_prefix(t) + text == "The following is dictated text where the speaker may have corrected themselves. Remove any false starts or corrections, keeping only the final intended text. Only return the final text, nothing else:\n\n"@ + text,
        t == FormattingType::SmartFormat ==> prompt_prefix(t) + text == "Clean up the following dictated text by:\n1. Removing filler words (um, uh, like, you know)\n2. Adding proper punctuation\n3. Fixing capitalization\n4. Removing false starts and course corrections\n\nOnly return the cleaned text, nothing else:\n\n"@ + text,
{
}

} // verus!
