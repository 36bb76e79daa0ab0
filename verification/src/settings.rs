//! User settings, their defaults, and the updates the settings commands make.

use vstd::prelude::*;
use vstd::string::*;
use crate::shortcut::{
    format_shortcut, formatted, parse_model, parse_shortcut, shortcut_tokens,
};

verus! {

/// Which key combinations drive dictation.
#[derive(Debug, Clone)]
pub struct ShortcutSettings {
    pub push_to_talk: String,
    pub hands_free_toggle: String,
    pub command_mode: String,
}

impl Default for ShortcutSettings {
    fn default() -> (r: Self)
        ensures
            r.push_to_talk@ == "fn"@,
            r.hands_free_toggle@ == "fn+space"@,
            r.command_mode@ == "fn+ctrl"@,
    {
        ShortcutSettings {
            push_to_talk: String::from_str("fn"),
            hands_free_toggle: String::from_str("fn+space"),
            command_mode: String::from_str("fn+ctrl"),
        }
    }
}

/// Persistent user settings.
#[derive(Debug, Clone)]
pub struct Settings {
    pub input_device: Option<String>,
    pub language: Option<String>,
    pub local_transcription_enabled: bool,
    /// `"ollama"` or `"system"`.
    pub llm_provider: Option<String>,
    pub ollama_base_url: Option<String>,
    pub ollama_model: Option<String>,
    /// Local model used for text formatting.
    pub system_llm_model: Option<String>,
    pub text_formatting_enabled: bool,
    /// `"quick"`, `"standard"` or `"smart"`.
    pub text_formatting_mode: String,
    pub shortcuts: ShortcutSettings,
}

/// The characters of an optional string.
pub open spec fn opt_view(o: Option<String>) -> Option<Seq<char>> {
    match o {
        Some(s) => Some(s@),
        None => None,
    }
}

impl Default for Settings {
    fn default() -> (r: Self)
        ensures
            r.input_device is None,
            opt_view(r.language) == Some("en"@),
            r.local_transcription_enabled,
            opt_view(r.llm_provider) == Some("system"@),
            opt_view(r.ollama_base_url) == Some("http://localhost:11434"@),
            r.ollama_model is None,
            opt_view(r.system_llm_model) == Some("SmolLM2-135M-Instruct-Q4_K_M"@),
            !r.text_formatting_enabled,
            r.text_formatting_mode@ == "standard"@,
            r.shortcuts.push_to_talk@ == "fn"@,
            r.shortcuts.hands_free_toggle@ == "fn+space"@,
            r.shortcuts.command_mode@ == "fn+ctrl"@,
    {
        Settings {
            input_device: None,
            language: Some(String::from_str("en")),
            local_transcription_enabled: true,
            llm_provider: Some(String::from_str("system")),
            ollama_base_url: Some(String::from_str("http://localhost:11434")),
            ollama_model: None,
            system_llm_model: Some(String::from_str("SmolLM2-135M-Instruct-Q4_K_M")),
            text_formatting_enabled: false,
            text_formatting_mode: String::from_str("standard"),
            shortcuts: ShortcutSettings::default(),
        }
    }
}

/// A copy of an optional string.
pub fn clone_opt(o: &Option<String>) -> (r: Option<String>)
    ensures
        r == *o,
{
    match o {
        Some(s) => Some(s.clone()),
        None => None,
    }
}

/// The stored push-to-talk shortcut.
pub fn push_to_talk_shortcut(settings: &Settings) -> (r: String)
    ensures
        r == settings.shortcuts.push_to_talk,
{
    settings.shortcuts.push_to_talk.clone()
}

/// The stored hands-free toggle shortcut.
pub fn hands_free_toggle_shortcut(settings: &Settings) -> (r: String)
    ensures
        r == settings.shortcuts.hands_free_toggle,
{
    settings.shortcuts.hands_free_toggle.clone()
}

/// The selected input device, if one was chosen.
pub fn get_input_device_id(settings: &Settings) -> (r: Option<String>)
    ensures
        r == settings.input_device,
{
    clone_opt(&settings.input_device)
}

/// The local model used for text formatting, if one is set.
pub fn get_system_llm_model(settings: &Settings) -> (r: Option<String>)
    ensures
        r == settings.system_llm_model,
{
    clone_opt(&settings.system_llm_model)
}

/// Records the selected input device.
pub fn set_input_device_id(settings: &mut Settings, device_id: String)
    ensures
        *final(settings) == (Settings { input_device: Some(device_id), ..*old(settings) }),
{
    settings.input_device = Some(device_id);
}

/// Turns local transcription on or off.
pub fn set_transcription_enabled(settings: &mut Settings, enabled: bool)
    ensures
        *final(settings) == (Settings { local_transcription_enabled: enabled, ..*old(settings) }),
{
    settings.local_transcription_enabled = enabled;
}

/// Records the transcription language.
pub fn set_language(settings: &mut Settings, language: String)
    ensures
        *final(settings) == (Settings { language: Some(language), ..*old(settings) }),
{
    settings.language = Some(language);
}

/// Records the language-model provider, its address and its model.
pub fn set_llm_settings(settings: &mut Settings, provider: String, base_url: String, model: String)
    ensures
        *final(settings) == (Settings {
            llm_provider: Some(provider),
            ollama_base_url: Some(base_url),
            ollama_model: Some(model),
            ..*old(settings)
        }),
{
    settings.llm_provider = Some(provider);
    settings.ollama_base_url = Some(base_url);
    settings.ollama_model = Some(model);
}

/// Records the local formatting model.
pub fn set_system_llm_model(settings: &mut Settings, model: String)
    ensures
        *final(settings) == (Settings { system_llm_model: Some(model), ..*old(settings) }),
{
    settings.system_llm_model = Some(model);
}

/// Records whether text formatting runs, and in which mode. Always succeeds.
pub fn set_formatting_settings(settings: &mut Settings, enabled: bool, mode: String) -> (r: Result<
    (),
    String,
>)
    ensures
        r is Ok,
        *final(settings) == (Settings {
            text_formatting_enabled: enabled,
            text_formatting_mode: mode,
            ..*old(settings)
        }),
{
    settings.text_formatting_enabled = enabled;
    settings.text_formatting_mode = mode;
    Ok(())
}

/// The message `parse_shortcut` gives for a string it rejects.
pub open spec fn parse_error(raw: Seq<char>) -> Seq<char> {
    if shortcut_tokens(raw).len() == 0 {
        "Shortcut cannot be empty"@
    } else {
        "Shortcut can include only one non-modifier key"@
    }
}

/// Canonicalises and stores the three shortcuts. Each is parsed and written
/// in canonical form; the first that fails to parse gives the error, checked
/// in the order push-to-talk, hands-free; then push-to-talk and hands-free
/// must differ; then the command-mode shortcut is checked. On success the
/// settings hold the canonical shortcuts, which are also returned; on error
/// the settings are unchanged.
pub fn set_shortcuts(
    settings: &mut Settings,
    push_to_talk: &str,
    hands_free_toggle: &str,
    command_mode: &str,
) -> (r: Result<ShortcutSettings, String>)
    ensures
        ({
            let p = parse_model(push_to_talk@);
            let h = parse_model(hands_free_toggle@);
            let c = parse_model(command_mode@);
            match r {
                Ok(s) => {
                    &&& p is Some && h is Some && c is Some
                    &&& s.push_to_talk@ == formatted(p.unwrap())
                    &&& s.hands_free_toggle@ == formatted(h.unwrap())
                    &&& s.command_mode@ == formatted(c.unwrap())
                    &&& formatted(p.unwrap()) != formatted(h.unwrap())
                    &&& *final(settings) == (Settings { shortcuts: s, ..*old(settings) })
                },
                Err(e) => {
                    &&& *final(settings) == *old(settings)
                    &&& if p is None {
                        e@ == parse_error(push_to_talk@)
                    } else if h is None {
                        e@ == parse_error(hands_free_toggle@)
                    } else if formatted(p.unwrap()) == formatted(h.unwrap()) {
                        e@ == "Push-to-talk and hands-free shortcuts must be different"@
                    } else {
                        c is None && e@ == parse_error(command_mode@)
                    }
                },
            }
        }),
{
    let p = match parse_shortcut(push_to_talk) {
        Ok(v) => v,
        Err(e) => return Err(e),
    };
    let p = format_shortcut(&p);
    let h = match parse_shortcut(hands_free_toggle) {
        Ok(v) => v,
        Err(e) => return Err(e),
    };
    let h = format_shortcut(&h);
    if p == h {
        return Err(String::from_str("Push-to-talk and hands-free shortcuts must be different"));
    }
    let c = match parse_shortcut(command_mode) {
        Ok(v) => v,
        Err(e) => return Err(e),
    };
    let c = format_shortcut(&c);
    let stored = ShortcutSettings { push_to_talk: p, hands_free_toggle: h, command_mode: c };
    let returned = ShortcutSettings {
        push_to_talk: stored.push_to_talk.clone(),
        hands_free_toggle: stored.hands_free_toggle.clone(),
        command_mode: stored.command_mode.clone(),
    };
    settings.shortcuts = stored;
    Ok(returned)
}

} // verus!
