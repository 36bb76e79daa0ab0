//! Prompt templates for the formatting modes.

use vstd::prelude::*;
use vstd::string::*;

verus! {

/// Quick mode: filler removal and basic punctuation. The text stands in
/// quotes after `Input: `.
pub fn quick_format_prompt(text: &str) -> (r: String)
    ensures
        r@ == "Clean up this transcribed speech:\n1. Remove filler words (um, uh, like, you know, etc.)\n2. Add proper punctuation (periods, commas, question marks)\n3. Keep the exact wording otherwise\n\nInput: \""@ + text@ + "\"\n\nOutput (cleaned text only, no extra explanation):"@,
{
    String::from_str("Clean up this transcribed speech:\n1. Remove filler words (um, uh, like, you know, etc.)\n2. Add proper punctuation (periods, commas, question marks)\n3. Keep the exact wording otherwise\n\nInput: \"").concat(text).concat("\"\n\nOutput (cleaned text only, no extra explanation):")
}

/// Standard mode: quick mode plus capitalisation.
pub fn standard_format_prompt(text: &str) -> (r: String)
    ensures
        r@ == "Clean up this transcribed speech:\n1. Remove filler words (um, uh, like, you know, etc.)\n2. Add proper punctuation (periods, commas, question marks)\n3. Fix capitalization (proper nouns, sentence starts, \"I\")\n4. Keep the exact wording otherwise\n\nInput: \""@ + text@ + "\"\n\nOutput (cleaned text only, no extra explanation):"@,
{
    String::from_str("Clean up this transcribed speech:\n1. Remove filler words (um, uh, like, you know, etc.)\n2. Add proper punctuation (periods, commas, question marks)\n3. Fix capitalization (proper nouns, sentence starts, \"I\")\n4. Keep the exact wording otherwise\n\nInput: \"").concat(text).concat("\"\n\nOutput (cleaned text only, no extra explanation):")
}

/// Smart mode: standard mode plus numbers, dates and false starts.
pub fn smart_format_prompt(text: &str) -> (r: String)
    ensures
        r@ == "Clean up this transcribed speech intelligently:\n1. Remove filler words (um, uh, like, you know, etc.)\n2. Add proper punctuation (periods, commas, question marks)\n3. Fix capitalization (proper nouns, sentence starts, \"I\")\n4. Format numbers (\"two hundred\" \u{2192} \"200\", \"five PM\" \u{2192} \"5 PM\")\n5. Format dates (\"january first\" \u{2192} \"January 1st\")\n6. Remove false starts and course corrections\n7. Keep the exact wording otherwise\n\nInput: \""@ + text@ + "\"\n\nOutput (cleaned text only, no extra explanation):"@,
{
    String::from_str("Clean up this transcribed speech intelligently:\n1. Remove filler words (um, uh, like, you know, etc.)\n2. Add proper punctuation (periods, commas, question marks)\n3. Fix capitalization (proper nouns, sentence starts, \"I\")\n4. Format numbers (\"two hundred\" \u{2192} \"200\", \"five PM\" \u{2192} \"5 PM\")\n5. Format dates (\"january first\" \u{2192} \"January 1st\")\n6. Remove false starts and course corrections\n7. Keep the exact wording otherwise\n\nInput: \"").concat(text).concat("\"\n\nOutput (cleaned text only, no extra explanation):")
}

} // verus!
