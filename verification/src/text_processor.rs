//! Formatting modes for dictated text and their prompts.

pub mod prompts;

use vstd::prelude::*;
use vstd::string::*;
use crate::text::{ascii_lowercase, lower, str_eq};

verus! {

/// How much clean-up dictated text receives.
#[derive(Debug, Clone, Copy, PartialEq, Eq, Structural)]
pub enum FormattingMode {
    Quick,
    Standard,
    Smart,
    Disabled,
}

/// The mode a settings value names, ignoring ASCII case; anything else is
/// the standard mode.
pub open spec fn mode_named(s: Seq<char>) -> FormattingMode {
    let l = lower(s);
    if l == "quick"@ {
        FormattingMode::Quick
    } else if l == "standard"@ {
        FormattingMode::Standard
    } else if l == "smart"@ {
        FormattingMode::Smart
    } else if l == "disabled"@ {
        FormattingMode::Disabled
    } else {
        FormattingMode::Standard
    }
}

impl FormattingMode {
    /// Reads a mode name such as `"quick"` or `"QUICK"`; unknown names give
    /// [`FormattingMode::Standard`].
    pub fn from_str(s: &str) -> (r: FormattingMode)
        ensures
            r == mode_named(s@),
    {
        let l = ascii_lowercase(s);
        let l = l.as_str();
        if str_eq(l, "quick") {
            FormattingMode::Quick
        } else if str_eq(l, "standard") {
            FormattingMode::Standard
        } else if str_eq(l, "smart") {
            FormattingMode::Smart
        } else if str_eq(l, "disabled") {
            FormattingMode::Disabled
        } else {
            FormattingMode::Standard
        }
    }
}

/// The outcome of formatting one piece of text.
#[derive(Debug, Clone)]
pub struct ProcessingResult {
    pub formatted_text: String,
    pub original_text: String,
    pub processing_time_ms: u64,
    pub mode_used: FormattingMode,
}


/// Mode names are read without regard to ASCII case: a name and its
/// lower-case form name the same mode; `quick`, `standard`, `smart` and
/// `disabled` name their modes, and anything else is the standard mode.
pub proof fn law_mode_names(s: Seq<char>)
    ensures
        mode_named(lower(s)) == mode_named(s),
        mode_named("quick"@) == FormattingMode::Quick,
        mode_named("standard"@) == FormattingMode::Standard,
        mode_named("smart"@) == FormattingMode::Smart,
        mode_named("disabled"@) == FormattingMode::Disabled,
        lower(s) != "quick"@ && lower(s) != "smart"@ && lower(s) != "disabled"@ ==> mode_named(s)
            == FormattingMode::Standard,
{
    assert(lower(lower(s)) =~= lower(s)) by {
        assert forall|k: int| 0 <= k < s.len() implies lower(lower(s))[k] == lower(s)[k] by {
            crate::text::lemma_lower_ws(s[k]);
        }
    }
    reveal_strlit("quick");
    reveal_strlit("standard");
    reveal_strlit("smart");
    reveal_strlit("disabled");
    assert(lower("quick"@) =~= "quick"@);
    assert(lower("standard"@) =~= "standard"@);
    assert(lower("smart"@) =~= "smart"@);
    assert(lower("disabled"@) =~= "disabled"@);
    assert("quick"@.len() == 5 && "standard"@.len() == 8 && "smart"@.len() == 5 && "disabled"@.len() == 8);
    assert("smart"@[0] != "quick"@[0]);
    assert("disabled"@[0] != "standard"@[0]);
    assert("standard"@ != "quick"@);
    assert("smart"@ != "quick"@);
    assert("smart"@ != "standard"@);
    assert("disabled"@ != "quick"@);
    assert("disabled"@ != "standard"@);
    assert("disabled"@ != "smart"@);
}

} // verus!
