use openwispr::llm::{ensure_initialized, Generation, LlmError, NextToken};
use openwispr::llm::models::{
    available_models, describe_model, list_models, lookup_model, model_download_url, ModelError,
};
use openwispr::llm::prompts::{
    create_capitalization_prompt, create_course_correction_prompt, create_filler_removal_prompt,
    create_punctuation_prompt, create_smart_format_prompt,
};
use openwispr::llm::{formatting_prompt, formatting_response, FormattingType, TextFormattingRequest};

#[test]
fn task_prompts_end_with_text() {
    let t = "um hello";
    assert_eq!(
        create_filler_removal_prompt(t),
        "Remove filler words (um, uh, like, you know, etc.) from the following text. Only return the cleaned text, nothing else:\n\num hello"
    );
    assert!(create_punctuation_prompt(t).starts_with("Add proper punctuation"));
    assert!(create_punctuation_prompt(t).ends_with("nothing else:\n\num hello"));
    assert!(create_capitalization_prompt(t).contains("the word 'I'"));
    assert!(create_course_correction_prompt(t).contains("false starts or corrections"));
    assert_eq!(
        create_smart_format_prompt(t),
        "Clean up the following dictated text by:\n1. Removing filler words (um, uh, like, you know)\n2. Adding proper punctuation\n3. Fixing capitalization\n4. Removing false starts and course corrections\n\nOnly return the cleaned text, nothing else:\n\num hello"
    );
}

#[test]
fn request_prompt_follows_type() {
    let req = TextFormattingRequest {
        raw_text: "abc".to_string(),
        format_type: FormattingType::AddPunctuation,
    };
    assert_eq!(formatting_prompt(&req), create_punctuation_prompt("abc"));
    let req = TextFormattingRequest {
        raw_text: "abc".to_string(),
        format_type: FormattingType::CourseCorrection,
    };
    assert_eq!(formatting_prompt(&req), create_course_correction_prompt("abc"));
}

#[test]
fn catalogue_lookup() {
    let e = lookup_model("SmolLM2-360M-Instruct-Q4_K_M").unwrap();
    assert_eq!(e.filename, "SmolLM2-360M-Instruct-Q4_K_M.gguf");
    assert_eq!(e.hf_repo, "bartowski/SmolLM2-360M-Instruct-GGUF");
    assert_eq!(e.size_mb, 200);
    match lookup_model("nope") {
        Err(ModelError::NotFound(m)) => assert_eq!(m, "Model 'nope' not found"),
        _ => panic!(),
    }
    assert_eq!(
        model_download_url(&e),
        "https://huggingface.co/bartowski/SmolLM2-360M-Instruct-GGUF/resolve/main/SmolLM2-360M-Instruct-Q4_K_M.gguf"
    );
}

#[test]
fn catalogue_listing() {
    let list = list_models(&[true, false, true]);
    assert_eq!(list.len(), 3);
    assert_eq!(list[0].name, "SmolLM2-135M-Instruct-Q4_K_M");
    assert_eq!(list[0].description, "SmolLM2 135M quantized model");
    assert!(list[0].downloaded);
    assert!(!list[1].downloaded);
    assert_eq!(list[2].description, "SmolLM2 1.7B quantized model");
    assert_eq!(list[2].size_mb, 1200);
    assert_eq!(available_models().len(), 3);
    assert_eq!(describe_model("plain"), "SmolLM2  quantized model");
}

#[test]
fn generation_steps() {
    assert!(ensure_initialized(true).is_ok());
    match ensure_initialized(false) {
        Err(LlmError::ModelLoadError(m)) => {
            assert_eq!(m, "Adapter not initialized. Call initialize() first.")
        }
        _ => panic!(),
    }
    let mut g = Generation::new(2);
    assert_eq!(g.next_token(Some(false)), NextToken::Decode);
    assert_eq!(g.next_token(Some(true)), NextToken::Stop);
    assert_eq!(g.next_token(None), NextToken::Stop);
    g.push_piece(" Hello");
    g.push_piece(" world ");
    assert_eq!(g.next_token(Some(false)), NextToken::Stop);
    assert_eq!(g.finish(), "Hello world");
}

#[test]
fn formatting_response_pairs_output_with_request_text() {
    let request = TextFormattingRequest {
        raw_text: "um hello there".to_string(),
        format_type: FormattingType::RemoveFillers,
    };
    let response = formatting_response(request.clone(), Ok("hello there".to_string())).unwrap();
    assert_eq!(response.formatted_text, "hello there");
    assert_eq!(response.original_text, "um hello there");
    match formatting_response(request, Err(LlmError::InferenceFailed("boom".to_string()))) {
        Err(LlmError::InferenceFailed(m)) => assert_eq!(m, "boom"),
        _ => panic!(),
    }
}
