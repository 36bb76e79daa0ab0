use openwispr::text_processor::prompts;
use openwispr::text_processor::{FormattingMode, ProcessingResult};

#[test]
fn test_passthrough_disabled_mode() {
    assert_eq!(FormattingMode::Disabled, FormattingMode::from_str("disabled"));
}

#[test]
fn test_empty_input() {
    let empty_text = "";
    assert!(empty_text.trim().is_empty());
}

#[test]
fn test_short_text_detection() {
    let short_text = "yes";
    let word_count = short_text.split_whitespace().count();
    assert_eq!(word_count, 1);
    assert!(word_count < 3);
}

#[test]
fn test_formatting_mode_from_str() {
    assert_eq!(FormattingMode::from_str("quick"), FormattingMode::Quick);
    assert_eq!(FormattingMode::from_str("standard"), FormattingMode::Standard);
    assert_eq!(FormattingMode::from_str("smart"), FormattingMode::Smart);
    assert_eq!(FormattingMode::from_str("disabled"), FormattingMode::Disabled);
    assert_eq!(FormattingMode::from_str("QUICK"), FormattingMode::Quick);
    assert_eq!(FormattingMode::from_str("invalid"), FormattingMode::Standard);
}

#[test]
fn test_whitespace_trimming_logic() {
    let text_with_whitespace = "  \n\t this is a test  \n  ";
    let trimmed = text_with_whitespace.trim();
    assert_eq!(trimmed, "this is a test");
}

#[test]
fn test_prompt_generation() {
    let text = "um I need to uh schedule a meeting";

    let quick = prompts::quick_format_prompt(text);
    assert!(quick.contains(text));
    assert!(quick.contains("filler words"));

    let standard = prompts::standard_format_prompt(text);
    assert!(standard.contains(text));
    assert!(standard.contains("capitalization"));

    let smart = prompts::smart_format_prompt(text);
    assert!(smart.contains(text));
    assert!(smart.contains("numbers"));
}

#[test]
fn test_processing_result_structure() {
    let result = ProcessingResult {
        formatted_text: "Test output.".to_string(),
        original_text: "test input".to_string(),
        processing_time_ms: 100,
        mode_used: FormattingMode::Standard,
    };

    assert_eq!(result.formatted_text, "Test output.");
    assert_eq!(result.original_text, "test input");
    assert_eq!(result.processing_time_ms, 100);
    assert_eq!(result.mode_used, FormattingMode::Standard);
}

#[test]
fn mode_names_ignore_case() {
    assert_eq!(FormattingMode::from_str("SmArT"), FormattingMode::Smart);
    assert_eq!(FormattingMode::from_str(" quick"), FormattingMode::Standard);
    assert_eq!(FormattingMode::from_str(""), FormattingMode::Standard);
}

#[test]
fn mode_prompts_exact() {
    let q = prompts::quick_format_prompt("hi");
    assert_eq!(
        q,
        "Clean up this transcribed speech:\n1. Remove filler words (um, uh, like, you know, etc.)\n2. Add proper punctuation (periods, commas, question marks)\n3. Keep the exact wording otherwise\n\nInput: \"hi\"\n\nOutput (cleaned text only, no extra explanation):"
    );
    let s = prompts::standard_format_prompt("x");
    assert!(s.starts_with("Clean up this transcribed speech:\n"));
    assert!(s.contains("3. Fix capitalization (proper nouns, sentence starts, \"I\")\n4. Keep"));
    assert!(s.ends_with("Input: \"x\"\n\nOutput (cleaned text only, no extra explanation):"));
    let m = prompts::smart_format_prompt("y");
    assert!(m.starts_with("Clean up this transcribed speech intelligently:\n"));
    assert!(m.contains("4. Format numbers (\"two hundred\" → \"200\", \"five PM\" → \"5 PM\")"));
    assert!(m.contains("5. Format dates (\"january first\" → \"January 1st\")"));
    assert!(m.ends_with("Input: \"y\"\n\nOutput (cleaned text only, no extra explanation):"));
}
