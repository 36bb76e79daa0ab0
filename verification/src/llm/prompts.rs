//! Prompt templates for the individual text formatting tasks.

use vstd::prelude::*;
use vstd::string::*;

verus! {

/// Asks for filler words to be removed; the text follows a blank line.
pub fn create_filler_removal_prompt(text: &str) -> (r: String)
    ensures
        r@ == "Remove filler words (um, uh, like, you know, etc.) from the following text. Only return the cleaned text, nothing else:\n\n"@ + text@,
{
    String::from_str("Remove filler words (um, uh, like, you know, etc.) from the following text. Only return the cleaned text, nothing else:\n\n").concat(text)
}

/// Asks for punctuation to be added; the text follows a blank line.
pub fn create_punctuation_prompt(text: &str) -> (r: String)
    ensures
        r@ == "Add proper punctuation (periods, commas, question marks, etc.) to the following text. Only return the punctuated text, nothing else:\n\n"@ + text@,
{
    String::from_str("Add proper punctuation (periods, commas, question marks, etc.) to the following text. Only return the punctuated text, nothing else:\n\n").concat(text)
}

/// Asks for capitalisation to be fixed; the text follows a blank line.
pub fn create_capitalization_prompt(text: &str) -> (r: String)
    ensures
        r@ == "Fix capitalization in the following text. Capitalize proper nouns, sentence starts, and the word 'I'. Only return the corrected text, nothing else:\n\n"@ + text@,
{
    String::from_str("Fix capitalization in the following text. Capitalize proper nouns, sentence starts, and the word 'I'. Only return the corrected text, nothing else:\n\n").concat(text)
}

/// Asks for false starts and self-corrections to be removed; the text
/// follows a blank line.
pub fn create_course_correction_prompt(text: &str) -> (r: String)
    ensures
        r@ == "The following is dictated text where the speaker may have corrected themselves. Remove any false starts or corrections, keeping only the final intended text. Only return the final text, nothing else:\n\n"@ + text@,
{
    String::from_str("The following is dictated text where the speaker may have corrected themselves. Remove any false starts or corrections, keeping only the final intended text. Only return the final text, nothing else:\n\n").concat(text)
}

/// Asks for all four clean-ups at once; the text ends the prompt.
pub fn create_smart_format_prompt(text: &str) -> (r: String)
    ensures
        r@ == "Clean up the following dictated text by:\n1. Removing filler words (um, uh, like, you know)\n2. Adding proper punctuation\n3. Fixing capitalization\n4. Removing false starts and course corrections\n\nOnly return the cleaned text, nothing else:\n\n"@ + text@,
{
    String::from_str("Clean up the following dictated text by:\n1. Removing filler words (um, uh, like, you know)\n2. Adding proper punctuation\n3. Fixing capitalization\n4. Removing false starts and course corrections\n\nOnly return the cleaned text, nothing else:\n\n").concat(text)
}

} // verus!
