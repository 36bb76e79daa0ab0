//! Properties of shortcut normalisation, parsing and formatting, taken
//! together.

use vstd::prelude::*;
use crate::text::{
    is_ws, lemma_trim_fixed, trim_end, trim_start, join, lacks, lemma_clean_lacks, lemma_lower_trimmed, lemma_split_join,
    lemma_split_parts_lack, lemma_trim_idem, lower, split, trim,
};
use crate::text::{lemma_split_nonempty, lower_char};
use vstd::seq_lib::{commutative_foldl, lemma_fold_left_permutation};
use crate::shortcut::{
    apply_token, clean_tokens, empty_model, fold_tokens, format_tokens, formatted, normalized,
    parse_model, shortcut_tokens, token_kind, ShortcutModel, TokenKind,
};

verus! {

/// A token as normalisation produces it: non-empty, trimmed, lower-case,
/// free of `+`.
pub open spec fn is_clean_token(t: Seq<char>) -> bool {
    &&& t.len() > 0
    &&& lower(trim(t)) == t
    &&& lacks(t, '+')
}

pub open spec fn all_clean(ts: Seq<Seq<char>>) -> bool {
    forall|i: int| 0 <= i < ts.len() ==> is_clean_token(#[trigger] ts[i])
}

proof fn lemma_clean_tokens_clean(parts: Seq<Seq<char>>)
    requires
        forall|i: int| 0 <= i < parts.len() ==> lacks(#[trigger] parts[i], '+'),
    ensures
        all_clean(clean_tokens(parts)),
    decreases parts.len(),
{
    if parts.len() > 0 {
        let init = parts.drop_last();
        assert forall|i: int| 0 <= i < init.len() implies lacks(#[trigger] init[i], '+') by {
            assert(init[i] == parts[i]);
        }
        lemma_clean_tokens_clean(init);
        let p = parts.last();
        let t = lower(trim(p));
        lemma_trim_idem(p);
        lemma_lower_trimmed(trim(p));
        assert(lacks(p, '+'));
        lemma_clean_lacks(p, '+');
        let r = clean_tokens(init);
        if t.len() > 0 {
            assert forall|i: int| 0 <= i < r.push(t).len() implies is_clean_token(
                #[trigger] r.push(t)[i],
            ) by {
                if i < r.len() {
                    assert(r.push(t)[i] == r[i]);
                }
            }
        }
    }
}

proof fn lemma_clean_tokens_fixed(ts: Seq<Seq<char>>)
    requires
        all_clean(ts),
    ensures
        clean_tokens(ts) == ts,
    decreases ts.len(),
{
    if ts.len() > 0 {
        let init = ts.drop_last();
        assert forall|i: int| 0 <= i < init.len() implies is_clean_token(#[trigger] init[i]) by {
            assert(init[i] == ts[i]);
        }
        lemma_clean_tokens_fixed(init);
        assert(is_clean_token(ts[ts.len() - 1]));
        assert(init.push(ts.last()) =~= ts);
    }
}

/// Every token of a shortcut string is clean.
pub proof fn lemma_tokens_clean(raw: Seq<char>)
    ensures
        all_clean(shortcut_tokens(raw)),
{
    lemma_split_parts_lack(raw, '+');
    lemma_clean_tokens_clean(split(raw, '+'));
}

/// Joining clean tokens with `+` and taking the tokens again gives them back.
pub proof fn lemma_tokens_of_join(ts: Seq<Seq<char>>)
    requires
        all_clean(ts),
    ensures
        shortcut_tokens(join(ts, '+')) == ts,
{
    if ts.len() == 0 {
        let e = Seq::<char>::empty();
        assert(split(e, '+') == seq![e]);
        assert(seq![e].drop_last() =~= Seq::<Seq<char>>::empty());
        assert(seq![e].last() == e);
        assert(trim(e) =~= e);
        assert(lower(trim(e)).len() == 0);
        assert(clean_tokens(Seq::<Seq<char>>::empty()) == Seq::<Seq<char>>::empty());
        assert(clean_tokens(seq![e]) =~= Seq::<Seq<char>>::empty());
    } else {
        assert forall|i: int| 0 <= i < ts.len() implies lacks(#[trigger] ts[i], '+') by {
            assert(is_clean_token(ts[i]));
        }
        lemma_split_join(ts, '+');
        lemma_clean_tokens_fixed(ts);
    }
}

/// Normalising is idempotent, and a normalised string has the same tokens
/// (so the same parse) as the string it came from.
pub proof fn law_normalize_idempotent(raw: Seq<char>)
    ensures
        shortcut_tokens(normalized(raw)) == shortcut_tokens(raw),
        normalized(normalized(raw)) == normalized(raw),
        parse_model(normalized(raw)) == parse_model(raw),
{
    lemma_tokens_clean(raw);
    lemma_tokens_of_join(shortcut_tokens(raw));
}

/// A parsed key is one of the tokens, and not a modifier name; a
/// successful fold of at least one token sets something.
proof fn lemma_fold_facts(ts: Seq<Seq<char>>)
    ensures
        fold_tokens(ts) matches Some(v) ==> (v.key matches Some(k) ==> (exists|i: int|
            0 <= i < ts.len() && ts[i] == k) && token_kind(k) is Key),
        fold_tokens(ts) matches Some(v) ==> (ts.len() > 0 ==> (v.fn_key || v.ctrl || v.shift
            || v.alt || v.meta || v.key is Some)),
    decreases ts.len(),
{
    if ts.len() > 0 {
        lemma_fold_facts(ts.drop_last());
        if let Some(v) = fold_tokens(ts) {
            if let Some(k) = v.key {
                let prev = fold_tokens(ts.drop_last()).unwrap();
                if prev.key == Some(k) {
                    let i = choose|i: int| 0 <= i < ts.drop_last().len() && ts.drop_last()[i] == k;
                    assert(ts[i] == k);
                } else {
                    assert(ts[ts.len() - 1] == k);
                }
            }
        }
    }
}

proof fn lemma_literal_tokens()
    ensures
        is_clean_token("fn"@),
        is_clean_token("ctrl"@),
        is_clean_token("shift"@),
        is_clean_token("alt"@),
        is_clean_token("meta"@),
        token_kind("fn"@) is Fn,
        token_kind("ctrl"@) is Ctrl,
        token_kind("shift"@) is Shift,
        token_kind("alt"@) is Alt,
        token_kind("meta"@) is Meta,
{
    reveal_strlit("fn");
    reveal_strlit("ctrl");
    reveal_strlit("control");
    reveal_strlit("shift");
    reveal_strlit("alt");
    reveal_strlit("option");
    reveal_strlit("meta");
    assert(trim("fn"@) =~= "fn"@);
    assert(lower("fn"@) =~= "fn"@);
    assert(trim("ctrl"@) =~= "ctrl"@);
    assert(lower("ctrl"@) =~= "ctrl"@);
    assert(trim("shift"@) =~= "shift"@);
    assert(lower("shift"@) =~= "shift"@);
    assert(trim("alt"@) =~= "alt"@);
    assert(lower("alt"@) =~= "alt"@);
    assert(trim("meta"@) =~= "meta"@);
    assert(lower("meta"@) =~= "meta"@);
    assert("ctrl"@ != "fn"@);
    assert("shift"@ != "fn"@);
    assert("shift"@ != "ctrl"@);
    assert("shift"@ != "control"@);
    assert("alt"@ != "fn"@);
    assert("alt"@ != "ctrl"@);
    assert("alt"@ != "control"@);
    assert("alt"@ != "shift"@);
    assert("meta"@ != "fn"@);
    assert("meta"@ != "ctrl"@);
    assert("meta"@ != "control"@);
    assert("meta"@ != "shift"@);
    assert("meta"@ != "alt"@);
    assert("meta"@ != "option"@);
}

proof fn lemma_fold_push(ts: Seq<Seq<char>>, t: Seq<char>)
    ensures
        fold_tokens(ts.push(t)) == match fold_tokens(ts) {
            Some(v) => apply_token(v, t),
            None => None,
        },
{
    assert(ts.push(t).drop_last() =~= ts);
}

/// The canonical tokens of a model whose key (if any) is a clean
/// non-modifier token fold back to that model.
proof fn lemma_format_tokens_fold(v: ShortcutModel)
    requires
        v.key matches Some(k) ==> is_clean_token(k) && token_kind(k) is Key,
    ensures
        all_clean(format_tokens(v)),
        fold_tokens(format_tokens(v)) == Some(v),
{
    lemma_literal_tokens();
    let e = Seq::<Seq<char>>::empty();
    let t0 = e;
    let m0 = empty_model();
    assert(fold_tokens(t0) == Some(m0));
    let t1 = if v.fn_key { t0.push("fn"@) } else { t0 };
    let m1 = ShortcutModel { fn_key: v.fn_key, ..m0 };
    lemma_fold_push(t0, "fn"@);
    assert(fold_tokens(t1) == Some(m1));
    let t2 = if v.ctrl { t1.push("ctrl"@) } else { t1 };
    let m2 = ShortcutModel { ctrl: v.ctrl, ..m1 };
    lemma_fold_push(t1, "ctrl"@);
    assert(fold_tokens(t2) == Some(m2));
    let t3 = if v.shift { t2.push("shift"@) } else { t2 };
    let m3 = ShortcutModel { shift: v.shift, ..m2 };
    lemma_fold_push(t2, "shift"@);
    assert(fold_tokens(t3) == Some(m3));
    let t4 = if v.alt { t3.push("alt"@) } else { t3 };
    let m4 = ShortcutModel { alt: v.alt, ..m3 };
    lemma_fold_push(t3, "alt"@);
    assert(fold_tokens(t4) == Some(m4));
    let t5 = if v.meta { t4.push("meta"@) } else { t4 };
    let m5 = ShortcutModel { meta: v.meta, ..m4 };
    lemma_fold_push(t4, "meta"@);
    assert(fold_tokens(t5) == Some(m5));
    let t6 = match v.key {
        Some(k) => t5.push(k),
        None => t5,
    };
    if let Some(k) = v.key {
        lemma_fold_push(t5, k);
    }
    assert(fold_tokens(t6) == Some(v));
    assert(format_tokens(v) =~= t6);
    assert forall|i: int| 0 <= i < t6.len() implies is_clean_token(#[trigger] t6[i]) by {
        if v.key is Some && i == t6.len() - 1 {
        } else {
            assert(t6[i] == "fn"@ || t6[i] == "ctrl"@ || t6[i] == "shift"@ || t6[i] == "alt"@
                || t6[i] == "meta"@);
        }
    }
}

/// What `parse_shortcut` accepts, written back by `format_shortcut`, is
/// already normalised and parses to the same shortcut again: the
/// canonical form is a fixed point of parse-then-format.
pub proof fn law_format_parse_roundtrip(raw: Seq<char>, v: ShortcutModel)
    requires
        parse_model(raw) == Some(v),
    ensures
        shortcut_tokens(formatted(v)) == format_tokens(v),
        normalized(formatted(v)) == formatted(v),
        parse_model(formatted(v)) == Some(v),
{
    let ts = shortcut_tokens(raw);
    lemma_tokens_clean(raw);
    lemma_fold_facts(ts);
    if let Some(k) = v.key {
        let i = choose|i: int| 0 <= i < ts.len() && ts[i] == k;
        assert(is_clean_token(ts[i]));
    }
    lemma_format_tokens_fold(v);
    lemma_tokens_of_join(format_tokens(v));
    if format_tokens(v).len() == 0 {
        assert(!(v.fn_key || v.ctrl || v.shift || v.alt || v.meta || v.key is Some)) by {
            if v.fn_key || v.ctrl || v.shift || v.alt || v.meta || v.key is Some {
                assert(format_tokens(v).len() > 0);
            }
        }
    }
}


/// Push-to-talk held on Fn alone.
pub open spec fn fn_only() -> ShortcutModel {
    ShortcutModel { fn_key: true, ..empty_model() }
}

/// Fn together with the space bar.
pub open spec fn fn_space() -> ShortcutModel {
    ShortcutModel { fn_key: true, key: Some("space"@), ..empty_model() }
}

/// The built-in shortcuts parse as intended: `fn` is Fn alone, `fn+space`
/// is Fn with the space bar.
pub proof fn lemma_builtin_shortcuts()
    ensures
        parse_model("fn"@) == Some(fn_only()),
        parse_model("fn+space"@) == Some(fn_space()),
{
    lemma_literal_tokens();
    reveal_strlit("fn");
    reveal_strlit("fn+space");
    reveal_strlit("space");
    reveal_strlit("ctrl");
    reveal_strlit("control");
    reveal_strlit("shift");
    reveal_strlit("alt");
    reveal_strlit("option");
    reveal_strlit("meta");
    reveal_strlit("cmd");
    reveal_strlit("command");
    reveal_strlit("win");
    reveal_strlit("super");
    let a = seq!["fn"@];
    assert(join(a, '+') == "fn"@);
    assert(is_clean_token("fn"@));
    assert(all_clean(a));
    lemma_tokens_of_join(a);
    lemma_fold_push(Seq::<Seq<char>>::empty(), "fn"@);
    assert(a =~= Seq::<Seq<char>>::empty().push("fn"@));
    let sp = "space"@;
    assert(trim(sp) =~= sp);
    assert(lower(sp) =~= sp);
    assert(is_clean_token(sp));
    assert(token_kind(sp) is Key);
    let b = seq!["fn"@, sp];
    assert(join(b, '+') =~= "fn+space"@) by {
        assert(b.drop_last() =~= a);
    }
    assert(all_clean(b));
    lemma_tokens_of_join(b);
    assert(b =~= a.push(sp));
    lemma_fold_push(a, sp);
}


/// How many tokens are not modifier names.
pub open spec fn key_count(ts: Seq<Seq<char>>) -> nat
    decreases ts.len(),
{
    if ts.len() == 0 {
        0
    } else {
        key_count(ts.drop_last()) + if token_kind(ts.last()) is Key {
            1nat
        } else {
            0nat
        }
    }
}

pub open spec fn has_kind_fn(ts: Seq<Seq<char>>) -> bool {
    exists|i: int| 0 <= i < ts.len() && token_kind(#[trigger] ts[i]) is Fn
}

pub open spec fn has_kind_ctrl(ts: Seq<Seq<char>>) -> bool {
    exists|i: int| 0 <= i < ts.len() && token_kind(#[trigger] ts[i]) is Ctrl
}

pub open spec fn has_kind_shift(ts: Seq<Seq<char>>) -> bool {
    exists|i: int| 0 <= i < ts.len() && token_kind(#[trigger] ts[i]) is Shift
}

pub open spec fn has_kind_alt(ts: Seq<Seq<char>>) -> bool {
    exists|i: int| 0 <= i < ts.len() && token_kind(#[trigger] ts[i]) is Alt
}

pub open spec fn has_kind_meta(ts: Seq<Seq<char>>) -> bool {
    exists|i: int| 0 <= i < ts.len() && token_kind(#[trigger] ts[i]) is Meta
}

proof fn lemma_has_kind_push(ts: Seq<Seq<char>>, t: Seq<char>)
    ensures
        has_kind_fn(ts.push(t)) == (has_kind_fn(ts) || token_kind(t) is Fn),
        has_kind_ctrl(ts.push(t)) == (has_kind_ctrl(ts) || token_kind(t) is Ctrl),
        has_kind_shift(ts.push(t)) == (has_kind_shift(ts) || token_kind(t) is Shift),
        has_kind_alt(ts.push(t)) == (has_kind_alt(ts) || token_kind(t) is Alt),
        has_kind_meta(ts.push(t)) == (has_kind_meta(ts) || token_kind(t) is Meta),
{
    let u = ts.push(t);
    assert(u[ts.len() as int] == t);
    assert forall|i: int| 0 <= i < ts.len() implies u[i] == ts[i] by {}
    if has_kind_fn(u) {
        let i = choose|i: int| 0 <= i < u.len() && token_kind(#[trigger] u[i]) is Fn;
        if i < ts.len() {
            assert(token_kind(ts[i]) is Fn);
        }
    }
    if has_kind_ctrl(u) {
        let i = choose|i: int| 0 <= i < u.len() && token_kind(#[trigger] u[i]) is Ctrl;
        if i < ts.len() {
            assert(token_kind(ts[i]) is Ctrl);
        }
    }
    if has_kind_shift(u) {
        let i = choose|i: int| 0 <= i < u.len() && token_kind(#[trigger] u[i]) is Shift;
        if i < ts.len() {
            assert(token_kind(ts[i]) is Shift);
        }
    }
    if has_kind_alt(u) {
        let i = choose|i: int| 0 <= i < u.len() && token_kind(#[trigger] u[i]) is Alt;
        if i < ts.len() {
            assert(token_kind(ts[i]) is Alt);
        }
    }
    if has_kind_meta(u) {
        let i = choose|i: int| 0 <= i < u.len() && token_kind(#[trigger] u[i]) is Meta;
        if i < ts.len() {
            assert(token_kind(ts[i]) is Meta);
        }
    }
    if has_kind_fn(ts) {
        let i = choose|i: int| 0 <= i < ts.len() && token_kind(#[trigger] ts[i]) is Fn;
        assert(token_kind(u[i]) is Fn);
    }
    if has_kind_ctrl(ts) {
        let i = choose|i: int| 0 <= i < ts.len() && token_kind(#[trigger] ts[i]) is Ctrl;
        assert(token_kind(u[i]) is Ctrl);
    }
    if has_kind_shift(ts) {
        let i = choose|i: int| 0 <= i < ts.len() && token_kind(#[trigger] ts[i]) is Shift;
        assert(token_kind(u[i]) is Shift);
    }
    if has_kind_alt(ts) {
        let i = choose|i: int| 0 <= i < ts.len() && token_kind(#[trigger] ts[i]) is Alt;
        assert(token_kind(u[i]) is Alt);
    }
    if has_kind_meta(ts) {
        let i = choose|i: int| 0 <= i < ts.len() && token_kind(#[trigger] ts[i]) is Meta;
        assert(token_kind(u[i]) is Meta);
    }
}

proof fn lemma_fold_characterized(ts: Seq<Seq<char>>)
    ensures
        fold_tokens(ts) is Some <==> key_count(ts) <= 1,
        fold_tokens(ts) matches Some(v) ==> {
            &&& v.fn_key == has_kind_fn(ts)
            &&& v.ctrl == has_kind_ctrl(ts)
            &&& v.shift == has_kind_shift(ts)
            &&& v.alt == has_kind_alt(ts)
            &&& v.meta == has_kind_meta(ts)
            &&& (v.key is None <==> key_count(ts) == 0)
        },
    decreases ts.len(),
{
    if ts.len() == 0 {
        assert(!has_kind_fn(ts) && !has_kind_ctrl(ts) && !has_kind_shift(ts) && !has_kind_alt(ts)
            && !has_kind_meta(ts));
    } else {
        let init = ts.drop_last();
        lemma_fold_characterized(init);
        lemma_has_kind_push(init, ts.last());
        assert(init.push(ts.last()) =~= ts);
    }
}

/// What parsing yields, without reference to token order: a shortcut
/// string parses exactly when it has a token and at most one token that is
/// not a modifier name; each modifier flag is set exactly when some token
/// names that modifier (or an alias of it); the key is that one
/// non-modifier token, or absent when there is none. In particular,
/// reordering the tokens does not change the result.
pub proof fn law_parse_characterized(raw: Seq<char>)
    ensures
        ({
            let ts = shortcut_tokens(raw);
            &&& (parse_model(raw) is Some <==> ts.len() > 0 && key_count(ts) <= 1)
            &&& parse_model(raw) matches Some(v) ==> {
                &&& v.fn_key == has_kind_fn(ts)
                &&& v.ctrl == has_kind_ctrl(ts)
                &&& v.shift == has_kind_shift(ts)
                &&& v.alt == has_kind_alt(ts)
                &&& v.meta == has_kind_meta(ts)
                &&& (v.key is None <==> key_count(ts) == 0)
                &&& (v.key matches Some(k) ==> exists|i: int|
                    0 <= i < ts.len() && ts[i] == k && token_kind(k) is Key)
            }
        }),
{
    let ts = shortcut_tokens(raw);
    lemma_fold_characterized(ts);
    lemma_fold_facts(ts);
}


/// A key name a shortcut can carry: a clean token that is not a modifier
/// name.
pub open spec fn nameable_key(t: Seq<char>) -> bool {
    is_clean_token(t) && token_kind(t) is Key
}

/// A shortcut made of a nameable key alone parses to exactly that key, and
/// its canonical form is the name itself.
pub proof fn law_single_key_shortcut(t: Seq<char>)
    requires
        nameable_key(t),
    ensures
        parse_model(t) == Some(ShortcutModel { key: Some(t), ..empty_model() }),
        formatted(ShortcutModel { key: Some(t), ..empty_model() }) == t,
{
    let ts = seq![t];
    assert(join(ts, '+') == t);
    assert(all_clean(ts));
    lemma_tokens_of_join(ts);
    assert(ts =~= Seq::<Seq<char>>::empty().push(t));
    lemma_fold_push(Seq::<Seq<char>>::empty(), t);
    let v = ShortcutModel { key: Some(t), ..empty_model() };
    assert(format_tokens(v) =~= ts);
}

/// A one-character name is nameable unless it is `+`, whitespace or an
/// upper-case ASCII letter.
pub proof fn lemma_single_char_nameable(c: char)
    requires
        c != '+',
        !is_ws(c),
        !('A' <= c && c <= 'Z'),
    ensures
        nameable_key(seq![c]),
{
    let t = seq![c];
    assert(trim_start(t) =~= t);
    assert(trim_end(t) =~= t);
    assert(lower(t) =~= t);
    reveal_strlit("fn");
    reveal_strlit("ctrl");
    reveal_strlit("control");
    reveal_strlit("shift");
    reveal_strlit("alt");
    reveal_strlit("option");
    reveal_strlit("meta");
    reveal_strlit("cmd");
    reveal_strlit("command");
    reveal_strlit("win");
    reveal_strlit("super");
}


/// Lower-case letters and digits only.
pub open spec fn is_word(t: Seq<char>) -> bool {
    forall|i: int| 0 <= i < t.len() ==> ('a' <= #[trigger] t[i] && t[i] <= 'z') || ('0' <= t[i]
        && t[i] <= '9')
}

/// A non-empty word of lower-case letters and digits that is not a
/// modifier name can be a shortcut's key.
pub proof fn lemma_word_nameable(t: Seq<char>)
    requires
        t.len() > 0,
        is_word(t),
        token_kind(t) is Key,
    ensures
        nameable_key(t),
{
    assert(!is_ws(t[0]));
    assert(!is_ws(t.last()));
    lemma_trim_fixed(t);
    assert(lower(t) =~= t);
    assert(lacks(t, '+')) by {
        assert forall|k: int| 0 <= k < t.len() implies t[k] != '+' by {
            assert(('a' <= t[k] && t[k] <= 'z') || ('0' <= t[k] && t[k] <= '9'));
        }
    }
}


/// Whether a character is an upper-case ASCII letter.
pub open spec fn is_ascii_upper(c: char) -> bool {
    'A' <= c && c <= 'Z'
}

/// No two `+` stand side by side.
pub open spec fn no_double_plus(s: Seq<char>) -> bool {
    forall|i: int| 0 <= i && i + 1 < s.len() ==> !(#[trigger] s[i] == '+' && s[i + 1] == '+')
}

/// Whether a part is blank: nothing is left of it once trimmed.
pub open spec fn is_blank(p: Seq<char>) -> bool {
    trim(p).len() == 0
}

proof fn lemma_lower_no_upper(s: Seq<char>)
    ensures
        forall|k: int| 0 <= k < s.len() ==> !is_ascii_upper(#[trigger] lower(s)[k]),
{
    assert forall|k: int| 0 <= k < s.len() implies !is_ascii_upper(#[trigger] lower(s)[k]) by {
        assert(lower(s)[k] == lower_char(s[k]));
        if 'A' <= s[k] && s[k] <= 'Z' {
            assert((s[k] as int) + 32 >= 'a' as int);
        }
    }
}

/// A clean token is its own trim and holds no upper-case letter.
proof fn lemma_clean_token_shape(t: Seq<char>)
    requires
        is_clean_token(t),
    ensures
        trim(t) == t,
        forall|k: int| 0 <= k < t.len() ==> !is_ascii_upper(#[trigger] t[k]),
{
    lemma_trim_idem(t);
    lemma_lower_trimmed(trim(t));
    lemma_lower_no_upper(trim(t));
}

/// The `+`-join of clean tokens neither starts nor ends with `+`, has no
/// `++`, and holds no upper-case letter.
proof fn lemma_join_clean_shape(ts: Seq<Seq<char>>)
    requires
        ts.len() >= 1,
        all_clean(ts),
    ensures
        join(ts, '+').len() > 0,
        join(ts, '+')[0] != '+',
        join(ts, '+').last() != '+',
        no_double_plus(join(ts, '+')),
        forall|k: int| 0 <= k < join(ts, '+').len() ==> !is_ascii_upper(#[trigger] join(ts, '+')[k]),
    decreases ts.len(),
{
    let r = join(ts, '+');
    if ts.len() == 1 {
        assert(is_clean_token(ts[0]));
        lemma_clean_token_shape(ts[0]);
    } else {
        let init = ts.drop_last();
        let t = ts.last();
        assert forall|i: int| 0 <= i < init.len() implies is_clean_token(#[trigger] init[i]) by {
            assert(init[i] == ts[i]);
        }
        lemma_join_clean_shape(init);
        assert(is_clean_token(ts[ts.len() - 1]));
        lemma_clean_token_shape(t);
        let j = join(init, '+');
        assert(r == j.push('+') + t);
        let n = j.len();
        assert forall|k: int| 0 <= k < r.len() implies !is_ascii_upper(#[trigger] r[k]) by {
            if k < n {
                assert(r[k] == j[k]);
            } else if k > n {
                assert(r[k] == t[k - n - 1]);
            }
        }
        assert forall|i: int| 0 <= i && i + 1 < r.len() implies !(#[trigger] r[i] == '+' && r[i + 1]
            == '+') by {
            if i + 1 < n {
                assert(r[i] == j[i] && r[i + 1] == j[i + 1]);
            } else if i + 1 == n {
                assert(r[i] == j.last());
            } else if i == n {
                assert(r[i + 1] == t[0]);
            } else {
                assert(r[i] == t[i - n - 1]);
            }
        }
        assert(r[0] == j[0]);
        assert(r.last() == t.last());
    }
}

proof fn lemma_clean_tokens_empty(parts: Seq<Seq<char>>)
    ensures
        clean_tokens(parts).len() == 0 <==> forall|i: int| 0 <= i < parts.len() ==> is_blank(
            #[trigger] parts[i],
        ),
    decreases parts.len(),
{
    if parts.len() > 0 {
        let init = parts.drop_last();
        lemma_clean_tokens_empty(init);
        assert(lower(trim(parts.last())).len() == trim(parts.last()).len());
        if forall|i: int| 0 <= i < parts.len() ==> is_blank(#[trigger] parts[i]) {
            assert forall|i: int| 0 <= i < init.len() implies is_blank(#[trigger] init[i]) by {
                assert(init[i] == parts[i]);
                assert(is_blank(parts[i]));
            }
            assert(is_blank(parts[parts.len() - 1]));
        }
        if forall|i: int| 0 <= i < init.len() ==> is_blank(#[trigger] init[i]) {
            if is_blank(parts.last()) {
                assert forall|i: int| 0 <= i < parts.len() implies is_blank(#[trigger] parts[i]) by {
                    if i < init.len() {
                        assert(init[i] == parts[i]);
                    }
                }
            }
        } else {
            let i = choose|i: int| 0 <= i < init.len() && !is_blank(#[trigger] init[i]);
            assert(parts[i] == init[i]);
        }
    }
}

/// The shape of a normalised shortcut string: it is its own
/// normalisation, holds no upper-case letter, neither starts nor ends with
/// `+`, has no `++`, each of its `+`-separated parts is its own trim (and,
/// when it is not empty, non-empty), and it is empty exactly when every
/// `+`-separated part of the input is blank.
pub proof fn law_normalized_shape(raw: Seq<char>)
    ensures
        ({
            let r = normalized(raw);
            &&& normalized(r) == r
            &&& forall|k: int| 0 <= k < r.len() ==> !is_ascii_upper(#[trigger] r[k])
            &&& r.len() > 0 ==> r[0] != '+' && r.last() != '+'
            &&& no_double_plus(r)
            &&& forall|i: int| 0 <= i < split(r, '+').len() ==> trim(#[trigger] split(r, '+')[i])
                == split(r, '+')[i]
            &&& r.len() > 0 ==> forall|i: int| 0 <= i < split(r, '+').len() ==> (#[trigger] split(
                r,
                '+',
            )[i]).len() > 0
            &&& (r.len() == 0 <==> forall|i: int| 0 <= i < split(raw, '+').len() ==> is_blank(
                #[trigger] split(raw, '+')[i],
            ))
        }),
{
    let ts = shortcut_tokens(raw);
    let r = normalized(raw);
    law_normalize_idempotent(raw);
    lemma_tokens_clean(raw);
    lemma_clean_tokens_empty(split(raw, '+'));
    if ts.len() == 0 {
        let e = Seq::<char>::empty();
        assert(r == e);
        assert(split(e, '+') == seq![e]);
        assert(trim(e) =~= e);
    } else {
        lemma_join_clean_shape(ts);
        assert forall|i: int| 0 <= i < ts.len() implies lacks(#[trigger] ts[i], '+') by {
            assert(is_clean_token(ts[i]));
        }
        lemma_split_join(ts, '+');
        assert forall|i: int| 0 <= i < ts.len() implies trim(#[trigger] ts[i]) == ts[i] by {
            assert(is_clean_token(ts[i]));
            lemma_clean_token_shape(ts[i]);
        }
    }
}

/// A shortcut written by hand, with at least one modifier or a key, and a
/// key (if any) that is a clean token and not a modifier name, is written
/// by `format_shortcut` in normalised form, and that form parses back to
/// it.
pub proof fn law_format_then_parse(v: ShortcutModel)
    requires
        v.fn_key || v.ctrl || v.shift || v.alt || v.meta || v.key is Some,
        v.key matches Some(k) ==> nameable_key(k),
    ensures
        shortcut_tokens(formatted(v)) == format_tokens(v),
        normalized(formatted(v)) == formatted(v),
        parse_model(formatted(v)) == Some(v),
{
    lemma_format_tokens_fold(v);
    lemma_tokens_of_join(format_tokens(v));
    assert(format_tokens(v).len() > 0);
}

/// What the `+`-separated parts of a shortcut string amount to, whatever
/// their order: whether any part is non-blank, which modifiers are named,
/// how many parts are keys, and the key when there is exactly one.
pub struct PartsSummary {
    pub nonblank: bool,
    pub fn_key: bool,
    pub ctrl: bool,
    pub shift: bool,
    pub alt: bool,
    pub meta: bool,
    pub keys: nat,
    pub key: Option<Seq<char>>,
}

pub open spec fn no_parts() -> PartsSummary {
    PartsSummary {
        nonblank: false,
        fn_key: false,
        ctrl: false,
        shift: false,
        alt: false,
        meta: false,
        keys: 0,
        key: None,
    }
}

/// The summary with one more part taken in.
pub open spec fn summarize_part(s: PartsSummary, part: Seq<char>) -> PartsSummary {
    let t = lower(trim(part));
    if t.len() == 0 {
        s
    } else {
        let s1 = PartsSummary { nonblank: true, ..s };
        match token_kind(t) {
            TokenKind::Fn => PartsSummary { fn_key: true, ..s1 },
            TokenKind::Ctrl => PartsSummary { ctrl: true, ..s1 },
            TokenKind::Shift => PartsSummary { shift: true, ..s1 },
            TokenKind::Alt => PartsSummary { alt: true, ..s1 },
            TokenKind::Meta => PartsSummary { meta: true, ..s1 },
            TokenKind::Key => PartsSummary {
                keys: s1.keys + 1,
                key: if s1.keys == 0 { Some(t) } else { None },
                ..s1
            },
        }
    }
}

pub open spec fn summarize(parts: Seq<Seq<char>>) -> PartsSummary {
    parts.fold_left(no_parts(), |s: PartsSummary, p: Seq<char>| summarize_part(s, p))
}

/// The parse a summary stands for.
pub open spec fn summary_parse(s: PartsSummary) -> Option<ShortcutModel> {
    if !s.nonblank || s.keys > 1 {
        None
    } else {
        Some(
            ShortcutModel {
                fn_key: s.fn_key,
                ctrl: s.ctrl,
                shift: s.shift,
                alt: s.alt,
                meta: s.meta,
                key: s.key,
            },
        )
    }
}

proof fn lemma_summary_tracks_fold(parts: Seq<Seq<char>>)
    ensures
        ({
            let s = summarize(parts);
            let ts = clean_tokens(parts);
            &&& s.nonblank == (ts.len() > 0)
            &&& fold_tokens(ts) == if s.keys <= 1 {
                Some(
                    ShortcutModel {
                        fn_key: s.fn_key,
                        ctrl: s.ctrl,
                        shift: s.shift,
                        alt: s.alt,
                        meta: s.meta,
                        key: s.key,
                    },
                )
            } else {
                None
            }
            &&& (s.keys == 0 ==> s.key is None)
            &&& (s.keys == 1 ==> s.key is Some)
        }),
    decreases parts.len(),
{
    if parts.len() > 0 {
        let init = parts.drop_last();
        lemma_summary_tracks_fold(init);
        let t = lower(trim(parts.last()));
        assert(summarize(parts) == summarize_part(summarize(init), parts.last()));
        if t.len() > 0 {
            assert(clean_tokens(parts) == clean_tokens(init).push(t));
            lemma_fold_push(clean_tokens(init), t);
        } else {
            assert(clean_tokens(parts) == clean_tokens(init));
        }
    }
}

proof fn lemma_summarize_commutes()
    ensures
        commutative_foldl(|s: PartsSummary, p: Seq<char>| summarize_part(s, p)),
{
    let f = |s: PartsSummary, p: Seq<char>| summarize_part(s, p);
    assert forall|x: Seq<char>, y: Seq<char>, v: PartsSummary| #[trigger] f(f(v, x), y) == f(
        f(v, y),
        x,
    ) by {
        assert(summarize_part(summarize_part(v, x), y) == summarize_part(summarize_part(v, y), x));
    }
}

/// Parsing looks only at which parts a shortcut string has, not at their
/// order: joining any rearrangement of its `+`-separated parts with `+`
/// gives a string that parses to the same result.
pub proof fn law_parse_order_independent(raw: Seq<char>, q: Seq<Seq<char>>)
    requires
        q.to_multiset() == split(raw, '+').to_multiset(),
    ensures
        parse_model(join(q, '+')) == parse_model(raw),
{
    broadcast use vstd::seq_lib::group_to_multiset_ensures;

    let p = split(raw, '+');
    lemma_split_parts_lack(raw, '+');
    lemma_split_nonempty(raw, '+');
    assert forall|i: int| 0 <= i < q.len() implies lacks(#[trigger] q[i], '+') by {
        assert(q.contains(q[i]));
        assert(q.to_multiset().count(q[i]) > 0);
        assert(p.contains(q[i]));
        let j = choose|j: int| 0 <= j < p.len() && p[j] == q[i];
        assert(lacks(p[j], '+'));
    }
    assert(q.to_multiset().len() == p.to_multiset().len());
    assert(q.len() == p.len());
    lemma_split_join(q, '+');
    lemma_summarize_commutes();
    lemma_fold_left_permutation(q, p, |s: PartsSummary, x: Seq<char>| summarize_part(s, x), no_parts());
    lemma_summary_tracks_fold(q);
    lemma_summary_tracks_fold(p);
}


/// Command with the K key.
pub open spec fn cmd_k() -> ShortcutModel {
    ShortcutModel { meta: true, key: Some("k"@), ..empty_model() }
}

/// `cmd+k` is Command with the K key.
pub proof fn law_cmd_k_parses()
    ensures
        parse_model("cmd+k"@) == Some(cmd_k()),
{
    reveal_strlit("cmd");
    reveal_strlit("k");
    reveal_strlit("cmd+k");
    lemma_modifier_names();
    let c = "cmd"@;
    let k = "k"@;
    assert(trim(c) =~= c);
    assert(lower(c) =~= c);
    assert(is_clean_token(c));
    assert(trim(k) =~= k);
    assert(lower(k) =~= k);
    assert(is_clean_token(k));
    let a = seq![c];
    let b = seq![c, k];
    assert(join(b, '+') =~= "cmd+k"@) by {
        assert(b.drop_last() =~= a);
        assert(join(a, '+') == c);
    }
    assert(all_clean(b));
    lemma_tokens_of_join(b);
    assert(a =~= Seq::<Seq<char>>::empty().push(c));
    lemma_fold_push(Seq::<Seq<char>>::empty(), c);
    assert(b =~= a.push(k));
    lemma_fold_push(a, k);
}

/// The modifier names and their aliases: `fn`; `ctrl` and `control`;
/// `shift`; `alt` and `option`; `meta`, `cmd`, `command`, `win` and
/// `super`. Anything else, such as `k` or `space`, is a key.
pub proof fn lemma_modifier_names()
    ensures
        token_kind("fn"@) is Fn,
        token_kind("ctrl"@) is Ctrl,
        token_kind("control"@) is Ctrl,
        token_kind("shift"@) is Shift,
        token_kind("alt"@) is Alt,
        token_kind("option"@) is Alt,
        token_kind("meta"@) is Meta,
        token_kind("cmd"@) is Meta,
        token_kind("command"@) is Meta,
        token_kind("win"@) is Meta,
        token_kind("super"@) is Meta,
        token_kind("k"@) is Key,
        token_kind("space"@) is Key,
{
    reveal_strlit("fn");
    reveal_strlit("ctrl");
    reveal_strlit("control");
    reveal_strlit("shift");
    reveal_strlit("alt");
    reveal_strlit("option");
    reveal_strlit("meta");
    reveal_strlit("cmd");
    reveal_strlit("command");
    reveal_strlit("win");
    reveal_strlit("super");
    reveal_strlit("k");
    reveal_strlit("space");
    assert("alt"@.len() == 3);
    assert("cmd"@.len() == 3);
    assert("command"@.len() == 7);
    assert("control"@.len() == 7);
    assert("ctrl"@.len() == 4);
    assert("fn"@.len() == 2);
    assert("k"@.len() == 1);
    assert("meta"@.len() == 4);
    assert("option"@.len() == 6);
    assert("shift"@.len() == 5);
    assert("space"@.len() == 5);
    assert("super"@.len() == 5);
    assert("win"@.len() == 3);
    assert("ctrl"@ != "fn"@);
    assert("control"@ != "fn"@);
    assert("control"@ != "ctrl"@);
    assert("shift"@ != "fn"@);
    assert("shift"@ != "ctrl"@);
    assert("shift"@ != "control"@);
    assert("alt"@ != "fn"@);
    assert("alt"@ != "ctrl"@);
    assert("alt"@ != "control"@);
    assert("alt"@ != "shift"@);
    assert("option"@ != "fn"@);
    assert("option"@ != "ctrl"@);
    assert("option"@ != "control"@);
    assert("option"@ != "shift"@);
    assert("option"@ != "alt"@);
    assert("meta"@ != "fn"@);
    assert("meta"@[0] != "ctrl"@[0]);
    assert("meta"@ != "ctrl"@);
    assert("meta"@ != "control"@);
    assert("meta"@ != "shift"@);
    assert("meta"@ != "alt"@);
    assert("meta"@ != "option"@);
    assert("cmd"@ != "fn"@);
    assert("cmd"@ != "ctrl"@);
    assert("cmd"@ != "control"@);
    assert("cmd"@ != "shift"@);
    assert("cmd"@[0] != "alt"@[0]);
    assert("cmd"@ != "alt"@);
    assert("cmd"@ != "option"@);
    assert("cmd"@ != "meta"@);
    assert("command"@ != "fn"@);
    assert("command"@ != "ctrl"@);
    assert("command"@[2] != "control"@[2]);
    assert("command"@ != "control"@);
    assert("command"@ != "shift"@);
    assert("command"@ != "alt"@);
    assert("command"@ != "option"@);
    assert("command"@ != "meta"@);
    assert("command"@ != "cmd"@);
    assert("win"@ != "fn"@);
    assert("win"@ != "ctrl"@);
    assert("win"@ != "control"@);
    assert("win"@ != "shift"@);
    assert("win"@[0] != "alt"@[0]);
    assert("win"@ != "alt"@);
    assert("win"@ != "option"@);
    assert("win"@ != "meta"@);
    assert("win"@[0] != "cmd"@[0]);
    assert("win"@ != "cmd"@);
    assert("win"@ != "command"@);
    assert("super"@ != "fn"@);
    assert("super"@ != "ctrl"@);
    assert("super"@ != "control"@);
    assert("super"@[1] != "shift"@[1]);
    assert("super"@ != "shift"@);
    assert("super"@ != "alt"@);
    assert("super"@ != "option"@);
    assert("super"@ != "meta"@);
    assert("super"@ != "cmd"@);
    assert("super"@ != "command"@);
    assert("super"@ != "win"@);
    assert("k"@ != "fn"@);
    assert("k"@ != "ctrl"@);
    assert("k"@ != "control"@);
    assert("k"@ != "shift"@);
    assert("k"@ != "alt"@);
    assert("k"@ != "option"@);
    assert("k"@ != "meta"@);
    assert("k"@ != "cmd"@);
    assert("k"@ != "command"@);
    assert("k"@ != "win"@);
    assert("k"@ != "super"@);
    assert("space"@ != "fn"@);
    assert("space"@ != "ctrl"@);
    assert("space"@ != "control"@);
    assert("space"@[1] != "shift"@[1]);
    assert("space"@ != "shift"@);
    assert("space"@ != "alt"@);
    assert("space"@ != "option"@);
    assert("space"@ != "meta"@);
    assert("space"@ != "cmd"@);
    assert("space"@ != "command"@);
    assert("space"@ != "win"@);
    assert("space"@[1] != "super"@[1]);
    assert("space"@ != "super"@);
}

/// The canonical form lists the modifiers in the order `fn`, `ctrl`,
/// `shift`, `alt`, `meta`, then the key, separated by `+`.
pub proof fn law_canonical_order(key: Seq<char>)
    ensures
        formatted(
            ShortcutModel { fn_key: true, ctrl: true, shift: true, alt: true, meta: true, key: Some(key) },
        ) == "fn"@ + seq!['+'] + "ctrl"@ + seq!['+'] + "shift"@ + seq!['+'] + "alt"@ + seq!['+']
            + "meta"@ + seq!['+'] + key,
        formatted(ShortcutModel { meta: true, key: Some(key), ..empty_model() }) == "meta"@ + seq!['+']
            + key,
        formatted(ShortcutModel { ctrl: true, alt: true, ..empty_model() }) == "ctrl"@ + seq!['+']
            + "alt"@,
{
    let v = ShortcutModel { fn_key: true, ctrl: true, shift: true, alt: true, meta: true, key: Some(key) };
    let t1 = seq!["fn"@];
    let t2 = t1.push("ctrl"@);
    let t3 = t2.push("shift"@);
    let t4 = t3.push("alt"@);
    let t5 = t4.push("meta"@);
    let t6 = t5.push(key);
    assert(format_tokens(v) =~= t6);
    assert(t2.drop_last() =~= t1);
    assert(t3.drop_last() =~= t2);
    assert(t4.drop_last() =~= t3);
    assert(t5.drop_last() =~= t4);
    assert(t6.drop_last() =~= t5);
    assert(join(t1, '+') == "fn"@);
    assert(join(t2, '+') =~= "fn"@ + seq!['+'] + "ctrl"@);
    assert(join(t3, '+') =~= "fn"@ + seq!['+'] + "ctrl"@ + seq!['+'] + "shift"@);
    assert(join(t4, '+') =~= "fn"@ + seq!['+'] + "ctrl"@ + seq!['+'] + "shift"@ + seq!['+'] + "alt"@);
    assert(join(t5, '+') =~= "fn"@ + seq!['+'] + "ctrl"@ + seq!['+'] + "shift"@ + seq!['+'] + "alt"@
        + seq!['+'] + "meta"@);
    assert(join(t6, '+') =~= "fn"@ + seq!['+'] + "ctrl"@ + seq!['+'] + "shift"@ + seq!['+'] + "alt"@
        + seq!['+'] + "meta"@ + seq!['+'] + key);
    let w = ShortcutModel { meta: true, key: Some(key), ..empty_model() };
    let m = seq!["meta"@, key];
    assert(format_tokens(w) =~= m);
    assert(m.drop_last() =~= seq!["meta"@]);
    assert(join(seq!["meta"@], '+') == "meta"@);
    assert(m.last() == key);
    assert(join(m, '+') =~= "meta"@ + seq!['+'] + key);
    let u = ShortcutModel { ctrl: true, alt: true, ..empty_model() };
    let ca = seq!["ctrl"@, "alt"@];
    assert(format_tokens(u) =~= ca);
    assert(ca.drop_last() =~= seq!["ctrl"@]);
    assert(join(seq!["ctrl"@], '+') == "ctrl"@);
    assert(ca.last() == "alt"@);
    assert(join(ca, '+') =~= "ctrl"@ + seq!['+'] + "alt"@);
}

} // verus!

