//! Keyboard shortcut strings: normalisation, parsing into a modifier/key
//! description, and the canonical textual form.

use vstd::prelude::*;
use vstd::string::*;
use crate::text::{ascii_lowercase, join, join_with, lower, split, split_char, str_eq, trim, trim_str};

verus! {

/// A parsed shortcut: which modifiers it needs and at most one other key.
#[derive(Debug, Clone, PartialEq, Eq)]
pub struct ShortcutSpec {
    pub fn_key: bool,
    pub ctrl: bool,
    pub shift: bool,
    pub alt: bool,
    pub meta: bool,
    pub key: Option<String>,
}

/// The mathematical content of a [`ShortcutSpec`].
pub struct ShortcutModel {
    pub fn_key: bool,
    pub ctrl: bool,
    pub shift: bool,
    pub alt: bool,
    pub meta: bool,
    pub key: Option<Seq<char>>,
}

impl View for ShortcutSpec {
    type V = ShortcutModel;

    open spec fn view(&self) -> ShortcutModel {
        ShortcutModel {
            fn_key: self.fn_key,
            ctrl: self.ctrl,
            shift: self.shift,
            alt: self.alt,
            meta: self.meta,
            key: match self.key {
                Some(k) => Some(k@),
                None => None,
            },
        }
    }
}

pub open spec fn empty_model() -> ShortcutModel {
    ShortcutModel { fn_key: false, ctrl: false, shift: false, alt: false, meta: false, key: None }
}

impl Default for ShortcutSpec {
    fn default() -> (r: Self)
        ensures
            r@ == empty_model(),
    {
        ShortcutSpec { fn_key: false, ctrl: false, shift: false, alt: false, meta: false, key: None }
    }
}

/// What a normalised token stands for.
pub enum TokenKind {
    Fn,
    Ctrl,
    Shift,
    Alt,
    Meta,
    Key,
}

/// The modifier names the parser accepts, with their aliases.
pub open spec fn token_kind(t: Seq<char>) -> TokenKind {
    if t == "fn"@ {
        TokenKind::Fn
    } else if t == "ctrl"@ || t == "control"@ {
        TokenKind::Ctrl
    } else if t == "shift"@ {
        TokenKind::Shift
    } else if t == "alt"@ || t == "option"@ {
        TokenKind::Alt
    } else if t == "meta"@ || t == "cmd"@ || t == "command"@ || t == "win"@ || t == "super"@ {
        TokenKind::Meta
    } else {
        TokenKind::Key
    }
}

/// One token applied to a partial result; `None` when a second
/// non-modifier key appears.
pub open spec fn apply_token(v: ShortcutModel, t: Seq<char>) -> Option<ShortcutModel> {
    match token_kind(t) {
        TokenKind::Fn => Some(ShortcutModel { fn_key: true, ..v }),
        TokenKind::Ctrl => Some(ShortcutModel { ctrl: true, ..v }),
        TokenKind::Shift => Some(ShortcutModel { shift: true, ..v }),
        TokenKind::Alt => Some(ShortcutModel { alt: true, ..v }),
        TokenKind::Meta => Some(ShortcutModel { meta: true, ..v }),
        TokenKind::Key => if v.key is Some {
            None
        } else {
            Some(ShortcutModel { key: Some(t), ..v })
        },
    }
}

/// The tokens applied left to right, starting from no modifiers and no key.
pub open spec fn fold_tokens(ts: Seq<Seq<char>>) -> Option<ShortcutModel>
    decreases ts.len(),
{
    if ts.len() == 0 {
        Some(empty_model())
    } else {
        match fold_tokens(ts.drop_last()) {
            Some(v) => apply_token(v, ts.last()),
            None => None,
        }
    }
}

/// The segments trimmed and lower-cased, empty ones dropped.
pub open spec fn clean_tokens(parts: Seq<Seq<char>>) -> Seq<Seq<char>>
    decreases parts.len(),
{
    if parts.len() == 0 {
        Seq::<Seq<char>>::empty()
    } else {
        let r = clean_tokens(parts.drop_last());
        let t = lower(trim(parts.last()));
        if t.len() > 0 {
            r.push(t)
        } else {
            r
        }
    }
}

/// The tokens of a shortcut string: its `+`-separated parts, trimmed,
/// lower-cased, without empty ones.
pub open spec fn shortcut_tokens(raw: Seq<char>) -> Seq<Seq<char>> {
    clean_tokens(split(raw, '+'))
}

/// The normalised form of a shortcut string.
pub open spec fn normalized(raw: Seq<char>) -> Seq<char> {
    join(shortcut_tokens(raw), '+')
}

/// The result of parsing; `None` when parsing fails.
pub open spec fn parse_model(raw: Seq<char>) -> Option<ShortcutModel> {
    if shortcut_tokens(raw).len() == 0 {
        None
    } else {
        fold_tokens(shortcut_tokens(raw))
    }
}

/// The tokens of the canonical form: modifiers in a fixed order, then the key.
pub open spec fn format_tokens(v: ShortcutModel) -> Seq<Seq<char>> {
    (if v.fn_key { seq!["fn"@] } else { Seq::<Seq<char>>::empty() })
        + (if v.ctrl { seq!["ctrl"@] } else { Seq::<Seq<char>>::empty() })
        + (if v.shift { seq!["shift"@] } else { Seq::<Seq<char>>::empty() })
        + (if v.alt { seq!["alt"@] } else { Seq::<Seq<char>>::empty() })
        + (if v.meta { seq!["meta"@] } else { Seq::<Seq<char>>::empty() })
        + (match v.key {
        Some(k) => seq![k],
        None => Seq::<Seq<char>>::empty(),
    })
}

/// The canonical textual form of a shortcut.
pub open spec fn formatted(v: ShortcutModel) -> Seq<char> {
    join(format_tokens(v), '+')
}

/// The tokens of `raw` (see [`shortcut_tokens`]) as owned strings.
pub fn shortcut_token_list(raw: &str) -> (r: Vec<String>)
    ensures
        r.deep_view() == shortcut_tokens(raw@),
{
    let parts = split_char(raw, '+');
    let mut out: Vec<String> = Vec::new();
    let mut i: usize = 0;
    while i < parts.len()
        invariant
            i <= parts.len(),
            parts.deep_view() == split(raw@, '+'),
            out.deep_view() == clean_tokens(parts.deep_view().take(i as int)),
        decreases parts.len() - i,
    {
        let ghost prev = out.deep_view();
        assert(parts.deep_view().take(i + 1).drop_last() =~= parts.deep_view().take(i as int));
        assert(parts.deep_view().take(i + 1).last() == parts[i as int]@);
        let t = ascii_lowercase(trim_str(parts[i].as_str()));
        if t.unicode_len() > 0 {
            out.push(t);
            assert(out.deep_view() =~= prev.push(lower(trim(parts[i as int]@))));
        }
        i = i + 1;
    }
    assert(parts.deep_view().take(parts.len() as int) =~= parts.deep_view());
    out
}

/// Normalises a shortcut string: parts between `+` are trimmed and
/// lower-cased, empty parts dropped, and the rest joined with `+`.
pub fn normalize_shortcut(raw: &str) -> (r: String)
    ensures
        r@ == normalized(raw@),
{
    let tokens = shortcut_token_list(raw);
    join_with(&tokens, '+')
}


proof fn lemma_fold_none_stays(ts: Seq<Seq<char>>, i: int)
    requires
        0 <= i <= ts.len(),
        fold_tokens(ts.take(i)) is None,
    ensures
        fold_tokens(ts) is None,
    decreases ts.len() - i,
{
    if i < ts.len() {
        assert(ts.take(i + 1).drop_last() =~= ts.take(i));
        lemma_fold_none_stays(ts, i + 1);
    } else {
        assert(ts.take(i) =~= ts);
    }
}

/// Parses a shortcut such as `" Ctrl + Shift + K "`. Modifier names and
/// their aliases set flags; any other token is the key, of which there may
/// be one.
pub fn parse_shortcut(raw: &str) -> (r: Result<ShortcutSpec, String>)
    ensures
        r is Ok <==> parse_model(raw@) is Some,
        r matches Ok(v) ==> parse_model(raw@) == Some(v@),
        r matches Err(e) ==> e@ == (if shortcut_tokens(raw@).len() == 0 {
            "Shortcut cannot be empty"@
        } else {
            "Shortcut can include only one non-modifier key"@
        }),
{
    let tokens = shortcut_token_list(raw);
    if tokens.len() == 0 {
        return Err(String::from_str("Shortcut cannot be empty"));
    }
    let mut spec = ShortcutSpec::default();
    let mut i: usize = 0;
    while i < tokens.len()
        invariant
            i <= tokens.len(),
            tokens.deep_view() == shortcut_tokens(raw@),
            fold_tokens(tokens.deep_view().take(i as int)) == Some(spec@),
        decreases tokens.len() - i,
    {
        let ghost prev = spec@;
        let ghost ts = tokens.deep_view();
        assert(ts.take(i + 1).drop_last() =~= ts.take(i as int));
        assert(ts.take(i + 1).last() == tokens[i as int]@);
        let token = tokens[i].as_str();
        if str_eq(token, "fn") {
            spec.fn_key = true;
        } else if str_eq(token, "ctrl") || str_eq(token, "control") {
            spec.ctrl = true;
        } else if str_eq(token, "shift") {
            spec.shift = true;
        } else if str_eq(token, "alt") || str_eq(token, "option") {
            spec.alt = true;
        } else if str_eq(token, "meta") || str_eq(token, "cmd") || str_eq(token, "command")
            || str_eq(token, "win") || str_eq(token, "super") {
            spec.meta = true;
        } else {
            if spec.key.is_some() {
                proof {
                    lemma_fold_none_stays(ts, i + 1);
                }
                return Err(String::from_str("Shortcut can include only one non-modifier key"));
            }
            spec.key = Some(String::from_str(token));
        }
        i = i + 1;
    }
    assert(tokens.deep_view().take(tokens.len() as int) =~= tokens.deep_view());
    Ok(spec)
}

/// Writes a shortcut in canonical form: `fn`, `ctrl`, `shift`, `alt`,
/// `meta` in that order where set, then the key, joined with `+`.
pub fn format_shortcut(spec: &ShortcutSpec) -> (r: String)
    ensures
        r@ == formatted(spec@),
{
    let mut tokens: Vec<String> = Vec::new();
    let ghost e = Seq::<Seq<char>>::empty();
    if spec.fn_key {
        tokens.push(String::from_str("fn"));
    }
    let ghost t1 = if spec.fn_key { seq!["fn"@] } else { e };
    assert(tokens.deep_view() =~= t1);
    if spec.ctrl {
        tokens.push(String::from_str("ctrl"));
    }
    let ghost t2 = t1 + if spec.ctrl { seq!["ctrl"@] } else { e };
    assert(tokens.deep_view() =~= t2);
    if spec.shift {
        tokens.push(String::from_str("shift"));
    }
    let ghost t3 = t2 + if spec.shift { seq!["shift"@] } else { e };
    assert(tokens.deep_view() =~= t3);
    if spec.alt {
        tokens.push(String::from_str("alt"));
    }
    let ghost t4 = t3 + if spec.alt { seq!["alt"@] } else { e };
    assert(tokens.deep_view() =~= t4);
    if spec.meta {
        tokens.push(String::from_str("meta"));
    }
    let ghost t5 = t4 + if spec.meta { seq!["meta"@] } else { e };
    assert(tokens.deep_view() =~= t5);
    if let Some(key) = &spec.key {
        tokens.push(key.clone());
    }
    assert(tokens.deep_view() =~= format_tokens(spec@));
    join_with(&tokens, '+')
}

} // verus!
