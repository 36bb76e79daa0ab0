//! Key names from platform key codes, and the key-state updates the
//! platform listeners make.

use vstd::prelude::*;
use vstd::string::*;
use std::collections::HashMap;
use crate::text::{is_ws, lower_char, push_char, trim, trim_end, trim_start, trim_str, starts_with};
use crate::hotkey::KeyState;
use crate::shortcut_laws::{is_word, lemma_single_char_nameable, lemma_word_nameable, nameable_key};

verus! {

broadcast use vstd::std_specs::hash::group_hash_axioms;

/// The key name for a macOS virtual key code, for the keys whose name does
/// not follow from the character they type.
pub open spec fn mac_keycode_name(keycode: int) -> Option<Seq<char>> {
    if keycode == 36 { Some("enter"@) }
    else if keycode == 48 { Some("tab"@) }
    else if keycode == 49 { Some("space"@) }
    else if keycode == 51 { Some("backspace"@) }
    else if keycode == 53 { Some("escape"@) }
    else if keycode == 123 { Some("left"@) }
    else if keycode == 124 { Some("right"@) }
    else if keycode == 125 { Some("down"@) }
    else if keycode == 126 { Some("up"@) }
    else if keycode == 122 { Some("f1"@) }
    else if keycode == 120 { Some("f2"@) }
    else if keycode == 99 { Some("f3"@) }
    else if keycode == 118 { Some("f4"@) }
    else if keycode == 96 { Some("f5"@) }
    else if keycode == 97 { Some("f6"@) }
    else if keycode == 98 { Some("f7"@) }
    else if keycode == 100 { Some("f8"@) }
    else if keycode == 101 { Some("f9"@) }
    else if keycode == 109 { Some("f10"@) }
    else if keycode == 103 { Some("f11"@) }
    else if keycode == 111 { Some("f12"@) }
    else { None }
}

fn some_str(s: &str) -> (r: Option<String>)
    ensures
        r matches Some(v) && v@ == s@,
{
    Some(String::from_str(s))
}

/// The key name for a macOS virtual key code (see [`mac_keycode_name`]).
pub fn key_token_from_keycode(keycode: i64) -> (r: Option<String>)
    ensures
        match r {
            Some(v) => mac_keycode_name(keycode as int) == Some(v@),
            None => mac_keycode_name(keycode as int) is None,
        },
{
    match keycode {
        36 => some_str("enter"),
        48 => some_str("tab"),
        49 => some_str("space"),
        51 => some_str("backspace"),
        53 => some_str("escape"),
        123 => some_str("left"),
        124 => some_str("right"),
        125 => some_str("down"),
        126 => some_str("up"),
        122 => some_str("f1"),
        120 => some_str("f2"),
        99 => some_str("f3"),
        118 => some_str("f4"),
        96 => some_str("f5"),
        97 => some_str("f6"),
        98 => some_str("f7"),
        100 => some_str("f8"),
        101 => some_str("f9"),
        109 => some_str("f10"),
        103 => some_str("f11"),
        111 => some_str("f12"),
        _ => None,
    }
}

// Windows virtual-key codes.
pub const VK_BACK: u16 = 0x08;
pub const VK_TAB: u16 = 0x09;
pub const VK_RETURN: u16 = 0x0D;
pub const VK_SHIFT: u16 = 0x10;
pub const VK_CONTROL: u16 = 0x11;
pub const VK_MENU: u16 = 0x12;
pub const VK_ESCAPE: u16 = 0x1B;
pub const VK_SPACE: u16 = 0x20;
pub const VK_0: u16 = 0x30;
pub const VK_9: u16 = 0x39;
pub const VK_A: u16 = 0x41;
pub const VK_LWIN: u16 = 0x5B;
pub const VK_RWIN: u16 = 0x5C;
pub const VK_F1: u16 = 0x70;
pub const VK_F12: u16 = 0x7B;
pub const VK_F22: u16 = 0x85;
pub const VK_F23: u16 = 0x86;
pub const VK_F24: u16 = 0x87;
pub const VK_LSHIFT: u16 = 0xA0;
pub const VK_RSHIFT: u16 = 0xA1;
pub const VK_LCONTROL: u16 = 0xA2;
pub const VK_RCONTROL: u16 = 0xA3;
pub const VK_LMENU: u16 = 0xA4;
pub const VK_RMENU: u16 = 0xA5;
pub const VK_OEM_1: u16 = 0xBA;
pub const VK_OEM_PLUS: u16 = 0xBB;
pub const VK_OEM_COMMA: u16 = 0xBC;
pub const VK_OEM_MINUS: u16 = 0xBD;
pub const VK_OEM_PERIOD: u16 = 0xBE;
pub const VK_OEM_2: u16 = 0xBF;
pub const VK_OEM_3: u16 = 0xC0;
pub const VK_OEM_4: u16 = 0xDB;
pub const VK_OEM_5: u16 = 0xDC;
pub const VK_OEM_6: u16 = 0xDD;
pub const VK_OEM_7: u16 = 0xDE;

/// `f1` .. `f12`.
pub open spec fn function_key_name(n: int) -> Seq<char> {
    if n < 10 {
        seq!['f', ((n + '0' as int)) as char]
    } else {
        seq!['f', '1', ((n - 10 + '0' as int)) as char]
    }
}

/// The key name for a Windows virtual key: letters and digits as the
/// character, function keys `f1`..`f12`, and a few named and punctuation
/// keys.
pub open spec fn vkey_name(vkey: u16) -> Option<Seq<char>> {
    if VK_A <= vkey && vkey <= VK_A + 25 {
        Some(seq![((vkey - VK_A) + 'a' as int) as char])
    } else if VK_0 <= vkey && vkey <= VK_9 {
        Some(seq![((vkey - VK_0) + '0' as int) as char])
    } else if VK_F1 <= vkey && vkey <= VK_F12 {
        Some(function_key_name(vkey - VK_F1 + 1))
    } else if vkey == VK_SPACE { Some("space"@) }
    else if vkey == VK_RETURN { Some("enter"@) }
    else if vkey == VK_TAB { Some("tab"@) }
    else if vkey == VK_ESCAPE { Some("escape"@) }
    else if vkey == VK_BACK { Some("backspace"@) }
    else if vkey == VK_OEM_MINUS { Some("-"@) }
    else if vkey == VK_OEM_PLUS { Some("="@) }
    else if vkey == VK_OEM_COMMA { Some(","@) }
    else if vkey == VK_OEM_PERIOD { Some("."@) }
    else if vkey == VK_OEM_1 { Some(";"@) }
    else if vkey == VK_OEM_2 { Some("/"@) }
    else if vkey == VK_OEM_3 { Some("`"@) }
    else if vkey == VK_OEM_4 { Some("["@) }
    else if vkey == VK_OEM_5 { Some("\\"@) }
    else if vkey == VK_OEM_6 { Some("]"@) }
    else if vkey == VK_OEM_7 { Some("'"@) }
    else { None }
}

fn one_char(c: char) -> (r: String)
    ensures
        r@ == seq![c],
{
    let mut s = String::new();
    push_char(&mut s, c);
    assert(s@ =~= seq![c]);
    s
}

/// The key name for a Windows virtual key (see [`vkey_name`]).
pub fn vkey_to_key_token(vkey: u16) -> (r: Option<String>)
    ensures
        match r {
            Some(v) => vkey_name(vkey) == Some(v@),
            None => vkey_name(vkey) is None,
        },
{
    if VK_A <= vkey && vkey <= VK_A + 25 {
        let c = ((vkey - VK_A) as u8 + 97u8) as char;
        return Some(one_char(c));
    }
    if VK_0 <= vkey && vkey <= VK_9 {
        let c = ((vkey - VK_0) as u8 + 48u8) as char;
        return Some(one_char(c));
    }
    if VK_F1 <= vkey && vkey <= VK_F12 {
        let n = vkey - VK_F1 + 1;
        let mut s = String::new();
        push_char(&mut s, 'f');
        if n < 10 {
            push_char(&mut s, ((n as u8) + 48u8) as char);
        } else {
            push_char(&mut s, '1');
            push_char(&mut s, ((n as u8) - 10 + 48u8) as char);
        }
        assert(s@ =~= function_key_name(n as int));
        return Some(s);
    }
    if vkey == VK_SPACE {
        some_str("space")
    } else if vkey == VK_RETURN {
        some_str("enter")
    } else if vkey == VK_TAB {
        some_str("tab")
    } else if vkey == VK_ESCAPE {
        some_str("escape")
    } else if vkey == VK_BACK {
        some_str("backspace")
    } else if vkey == VK_OEM_MINUS {
        some_str("-")
    } else if vkey == VK_OEM_PLUS {
        some_str("=")
    } else if vkey == VK_OEM_COMMA {
        some_str(",")
    } else if vkey == VK_OEM_PERIOD {
        some_str(".")
    } else if vkey == VK_OEM_1 {
        some_str(";")
    } else if vkey == VK_OEM_2 {
        some_str("/")
    } else if vkey == VK_OEM_3 {
        some_str("`")
    } else if vkey == VK_OEM_4 {
        some_str("[")
    } else if vkey == VK_OEM_5 {
        some_str("\\")
    } else if vkey == VK_OEM_6 {
        some_str("]")
    } else if vkey == VK_OEM_7 {
        some_str("'")
    } else {
        None
    }
}

/// Whether a Windows key event is the Fn key: by the configured virtual
/// key if there is one, else by the configured scan code, else one of
/// F22–F24.
pub open spec fn fn_key_match(vkey: u16, makecode: u16, vkey_override: Option<u16>, makecode_override: Option<u16>) -> bool {
    match vkey_override {
        Some(v) => vkey == v,
        None => match makecode_override {
            Some(m) => makecode == m,
            None => vkey == VK_F24 || vkey == VK_F23 || vkey == VK_F22,
        },
    }
}

pub fn is_fn_key(vkey: u16, makecode: u16, vkey_override: Option<u16>, makecode_override: Option<u16>) -> (r: bool)
    ensures
        r == fn_key_match(vkey, makecode, vkey_override, makecode_override),
{
    if let Some(v) = vkey_override {
        return vkey == v;
    }
    if let Some(m) = makecode_override {
        return makecode == m;
    }
    vkey == VK_F24 || vkey == VK_F23 || vkey == VK_F22
}

/// Applies one Windows raw keyboard event to the key state: the Fn key,
/// the modifier families (either side), and the named key, pressed or
/// released.
pub fn apply_windows_key(
    state: &mut KeyState,
    vkey: u16,
    makecode: u16,
    is_down: bool,
    vkey_override: Option<u16>,
    makecode_override: Option<u16>,
)
    requires
        old(state).wf(),
    ensures
        final(state).wf(),
        final(state).fn_down == if fn_key_match(vkey, makecode, vkey_override, makecode_override) {
            is_down
        } else {
            old(state).fn_down
        },
        final(state).ctrl_down == if vkey == VK_CONTROL || vkey == VK_LCONTROL || vkey == VK_RCONTROL {
            is_down
        } else {
            old(state).ctrl_down
        },
        final(state).shift_down == if vkey == VK_SHIFT || vkey == VK_LSHIFT || vkey == VK_RSHIFT {
            is_down
        } else {
            old(state).shift_down
        },
        final(state).alt_down == if vkey == VK_MENU || vkey == VK_LMENU || vkey == VK_RMENU {
            is_down
        } else {
            old(state).alt_down
        },
        final(state).meta_down == if vkey == VK_LWIN || vkey == VK_RWIN {
            is_down
        } else {
            old(state).meta_down
        },
        forall|t: Seq<char>| #[trigger] final(state)@.pressed.contains(t) <==> match vkey_name(vkey) {
            Some(name) => if is_down {
                old(state)@.pressed.contains(t) || t == name
            } else {
                old(state)@.pressed.contains(t) && t != name
            },
            None => old(state)@.pressed.contains(t),
        },
{
    if is_fn_key(vkey, makecode, vkey_override, makecode_override) {
        state.fn_down = is_down;
    }
    if vkey == VK_CONTROL || vkey == VK_LCONTROL || vkey == VK_RCONTROL {
        state.ctrl_down = is_down;
    } else if vkey == VK_SHIFT || vkey == VK_LSHIFT || vkey == VK_RSHIFT {
        state.shift_down = is_down;
    } else if vkey == VK_MENU || vkey == VK_LMENU || vkey == VK_RMENU {
        state.alt_down = is_down;
    } else if vkey == VK_LWIN || vkey == VK_RWIN {
        state.meta_down = is_down;
    }
    if let Some(token) = vkey_to_key_token(vkey) {
        if is_down {
            state.press_key(token);
        } else {
            state.release_key(token.as_str());
        }
    }
}

// Modifier bits of a macOS event's flags.
pub const MAC_FLAG_SHIFT: u64 = 0x0002_0000;
pub const MAC_FLAG_CONTROL: u64 = 0x0004_0000;
pub const MAC_FLAG_ALTERNATE: u64 = 0x0008_0000;
pub const MAC_FLAG_COMMAND: u64 = 0x0010_0000;
pub const MAC_FLAG_SECONDARY_FN: u64 = 0x0080_0000;
/// The virtual key code of the Fn key on macOS.
pub const MAC_FN_KEYCODE: i64 = 63;

/// Sets control, shift, option and command from a macOS event's flags;
/// Fn and the held keys are left alone.
pub fn apply_mac_modifier_flags(state: &mut KeyState, flags: u64)
    ensures
        final(state).ctrl_down == (flags & MAC_FLAG_CONTROL != 0),
        final(state).shift_down == (flags & MAC_FLAG_SHIFT != 0),
        final(state).alt_down == (flags & MAC_FLAG_ALTERNATE != 0),
        final(state).meta_down == (flags & MAC_FLAG_COMMAND != 0),
        final(state).fn_down == old(state).fn_down,
        final(state).pressed_keys == old(state).pressed_keys,
{
    state.ctrl_down = flags & MAC_FLAG_CONTROL != 0;
    state.shift_down = flags & MAC_FLAG_SHIFT != 0;
    state.alt_down = flags & MAC_FLAG_ALTERNATE != 0;
    state.meta_down = flags & MAC_FLAG_COMMAND != 0;
}

/// On a flags-changed event of the Fn key itself, Fn is down when either
/// the event or the global keyboard state says so; other events leave it.
pub fn apply_mac_fn_event(state: &mut KeyState, keycode: i64, event_flags: u64, global_flags: u64)
    ensures
        final(state).fn_down == if keycode == MAC_FN_KEYCODE {
            (event_flags & MAC_FLAG_SECONDARY_FN != 0) || (global_flags & MAC_FLAG_SECONDARY_FN != 0)
        } else {
            old(state).fn_down
        },
        final(state).ctrl_down == old(state).ctrl_down,
        final(state).shift_down == old(state).shift_down,
        final(state).alt_down == old(state).alt_down,
        final(state).meta_down == old(state).meta_down,
        final(state).pressed_keys == old(state).pressed_keys,
{
    if keycode == MAC_FN_KEYCODE {
        state.fn_down = (event_flags & MAC_FLAG_SECONDARY_FN != 0) || (global_flags
            & MAC_FLAG_SECONDARY_FN != 0);
    }
}

/// The names macOS key-down events were given, by key code, so the
/// matching key-up releases the same name.
pub struct KeycodeTokens {
    pub map: HashMap<i64, String>,
}

impl KeycodeTokens {
    pub fn new() -> (r: Self)
        ensures
            r.map@ == Map::<i64, String>::empty(),
    {
        KeycodeTokens { map: HashMap::new() }
    }
}

/// A macOS key-down: the name (if the event has one) is remembered for the
/// key code and marked held.
pub fn mac_key_down(state: &mut KeyState, tokens: &mut KeycodeTokens, keycode: i64, token: Option<String>)
    requires
        old(state).wf(),
    ensures
        final(state).wf(),
        match token {
            Some(t) => {
                &&& final(tokens).map@ == old(tokens).map@.insert(keycode, t)
                &&& forall|x: Seq<char>| #[trigger] final(state)@.pressed.contains(x) <==> (old(
                    state,
                )@.pressed.contains(x) || x == t@)
            },
            None => final(tokens).map@ == old(tokens).map@ && final(state)@ == old(state)@,
        },
        final(state).fn_down == old(state).fn_down,
        final(state).ctrl_down == old(state).ctrl_down,
        final(state).shift_down == old(state).shift_down,
        final(state).alt_down == old(state).alt_down,
        final(state).meta_down == old(state).meta_down,
{
    if let Some(t) = token {
        let copy = t.clone();
        tokens.map.insert(keycode, copy);
        state.press_key(t);
    }
}

/// A macOS key-up: the name remembered for the key code is released.
/// Returns whether one was remembered; if not, the caller releases the
/// name the event itself gives.
pub fn mac_key_up(state: &mut KeyState, tokens: &mut KeycodeTokens, keycode: i64) -> (r: bool)
    requires
        old(state).wf(),
    ensures
        final(state).wf(),
        r == old(tokens).map@.contains_key(keycode),
        final(tokens).map@ == old(tokens).map@.remove(keycode),
        r ==> forall|x: Seq<char>| #[trigger] final(state)@.pressed.contains(x) <==> (old(
            state,
        )@.pressed.contains(x) && x != old(tokens).map@[keycode]@),
        !r ==> final(state)@ == old(state)@,
        final(state).fn_down == old(state).fn_down,
        final(state).ctrl_down == old(state).ctrl_down,
        final(state).shift_down == old(state).shift_down,
        final(state).alt_down == old(state).alt_down,
        final(state).meta_down == old(state).meta_down,
{
    match tokens.map.remove(&keycode) {
        Some(existing) => {
            state.release_key(existing.as_str());
            true
        },
        None => false,
    }
}


/// The UTF-16 code units of one character.
pub open spec fn utf16_units(c: char) -> Seq<u16> {
    let v = c as int;
    if v < 0x10000 {
        seq![v as u16]
    } else {
        seq![(0xD800 + (v - 0x10000) / 1024) as u16, (0xDC00 + (v - 0x10000) % 1024) as u16]
    }
}

/// The UTF-16 encoding of a string.
pub open spec fn utf16(s: Seq<char>) -> Seq<u16>
    decreases s.len(),
{
    if s.len() == 0 {
        Seq::<u16>::empty()
    } else {
        utf16(s.drop_last()) + utf16_units(s.last())
    }
}

/// A string as a NUL-terminated UTF-16 buffer, as Windows APIs take it.
pub fn wide(s: &str) -> (r: Vec<u16>)
    ensures
        r@ == utf16(s@).push(0),
{
    let n = s.unicode_len();
    let mut out: Vec<u16> = Vec::new();
    let mut i: usize = 0;
    while i < n
        invariant
            n == s@.len(),
            i <= n,
            out@ == utf16(s@.take(i as int)),
        decreases n - i,
    {
        let c = s.get_char(i);
        let v = c as u32;
        assert(s@.take(i + 1).drop_last() =~= s@.take(i as int));
        assert(s@.take(i + 1).last() == c);
        if v < 0x10000 {
            out.push(v as u16);
        } else {
            let w = v - 0x10000;
            out.push((0xD800 + w / 1024) as u16);
            out.push((0xDC00 + w % 1024) as u16);
        }
        assert(out@ =~= utf16(s@.take(i + 1)));
        i = i + 1;
    }
    assert(s@.take(n as int) =~= s@);
    out.push(0);
    out
}

/// The value of a hexadecimal digit, either case.
pub open spec fn hex_digit(c: char) -> Option<int> {
    if '0' <= c && c <= '9' {
        Some(c as int - '0' as int)
    } else if 'a' <= c && c <= 'f' {
        Some(c as int - 'a' as int + 10)
    } else if 'A' <= c && c <= 'F' {
        Some(c as int - 'A' as int + 10)
    } else {
        None
    }
}

/// The value of a string of hexadecimal digits; `None` if any character is
/// not one.
pub open spec fn hex_value(s: Seq<char>) -> Option<int>
    decreases s.len(),
{
    if s.len() == 0 {
        Some(0)
    } else {
        match hex_value(s.drop_last()) {
            Some(v) => match hex_digit(s.last()) {
                Some(d) => Some(16 * v + d),
                None => None,
            },
            None => None,
        }
    }
}

/// `u16::from_str_radix(s, 16)`: an optional `+`, then at least one
/// hexadecimal digit, the value at most `0xFFFF`.
pub open spec fn parse_u16_hex(s: Seq<char>) -> Option<int> {
    if s.len() == 1 && (s[0] == '+' || s[0] == '-') {
        None
    } else {
        let body = if s.len() > 0 && s[0] == '+' {
            s.drop_first()
        } else {
            s
        };
        if body.len() == 0 {
            None
        } else {
            match hex_value(body) {
                Some(v) => if v <= 0xFFFF {
                    Some(v)
                } else {
                    None
                },
                None => None,
            }
        }
    }
}

/// `s.trim_start_matches("0x")`: every leading `0x` removed.
pub open spec fn strip_hex_prefixes(s: Seq<char>) -> Seq<char>
    decreases s.len(),
{
    if s.len() >= 2 && s[0] == '0' && s[1] == 'x' {
        strip_hex_prefixes(s.subrange(2, s.len() as int))
    } else {
        s
    }
}

proof fn lemma_hex_value_prefix(s: Seq<char>, i: int)
    requires
        0 <= i <= s.len(),
    ensures
        hex_value(s.take(i)) is None ==> hex_value(s) is None,
        hex_value(s.take(i)) matches Some(v) ==> (hex_value(s) is None || hex_value(s).unwrap()
            >= v),
    decreases s.len() - i,
{
    if i < s.len() {
        assert(s.take(i + 1).drop_last() =~= s.take(i));
        lemma_hex_value_nonneg(s.take(i));
        lemma_hex_value_prefix(s, i + 1);
    } else {
        assert(s.take(i) =~= s);
    }
}

proof fn lemma_hex_value_nonneg(s: Seq<char>)
    ensures
        hex_value(s) matches Some(v) ==> v >= 0,
    decreases s.len(),
{
    if s.len() > 0 {
        lemma_hex_value_nonneg(s.drop_last());
    }
}

/// Reads an optionally `+`-signed hexadecimal `u16` (see [`parse_u16_hex`]).
pub fn u16_from_hex(s: &str) -> (r: Option<u16>)
    ensures
        match r {
            Some(v) => parse_u16_hex(s@) == Some(v as int),
            None => parse_u16_hex(s@) is None,
        },
{
    let n = s.unicode_len();
    if n == 1 && (s.get_char(0) == '+' || s.get_char(0) == '-') {
        return None;
    }
    let start: usize = if n > 0 && s.get_char(0) == '+' { 1 } else { 0 };
    if start == n {
        return None;
    }
    let body = s.substring_char(start, n);
    assert(start == 1 ==> body@ =~= s@.drop_first());
    assert(start == 0 ==> body@ =~= s@);
    let m = body.unicode_len();
    let mut acc: u32 = 0;
    let mut i: usize = 0;
    assert(body@.take(0) =~= Seq::<char>::empty());
    while i < m
        invariant
            m == body@.len(),
            i <= m,
            hex_value(body@.take(i as int)) == Some(acc as int),
            acc <= 0xFFFF,
            match hex_value(body@) {
                Some(v) => parse_u16_hex(s@) == (if v <= 0xFFFF { Some(v) } else { None }),
                None => parse_u16_hex(s@) is None,
            },
        decreases m - i,
    {
        let c = body.get_char(i);
        assert(body@.take(i + 1).drop_last() =~= body@.take(i as int));
        assert(body@.take(i + 1).last() == c);
        let d: u32 = if '0' <= c && c <= '9' {
            (c as u32) - ('0' as u32)
        } else if 'a' <= c && c <= 'f' {
            (c as u32) - ('a' as u32) + 10
        } else if 'A' <= c && c <= 'F' {
            (c as u32) - ('A' as u32) + 10
        } else {
            proof {
                assert(hex_digit(c) is None);
                lemma_hex_value_prefix(body@, i + 1);
            }
            return None;
        };
        assert(hex_digit(c) == Some(d as int));
        let next = acc * 16 + d;
        if next > 0xFFFF {
            proof {
                lemma_hex_value_prefix(body@, i + 1);
            }
            return None;
        }
        acc = next;
        i = i + 1;
    }
    assert(body@.take(m as int) =~= body@);
    Some(acc as u16)
}

/// A key-code override as configured: surrounding whitespace and leading
/// `0x` are dropped, the rest read as hexadecimal.
pub open spec fn key_code_override(value: Seq<char>) -> Option<int> {
    parse_u16_hex(strip_hex_prefixes(trim(value)))
}

pub fn parse_hex_u16(value: &str) -> (r: Option<u16>)
    ensures
        match r {
            Some(v) => key_code_override(value@) == Some(v as int),
            None => key_code_override(value@) is None,
        },
{
    let t = trim_str(value);
    let mut rest = t;
    while starts_with(rest, "0x")
        invariant
            strip_hex_prefixes(rest@) == strip_hex_prefixes(trim(value@)),
        decreases rest@.len(),
    {
        let ghost before = rest@;
        proof {
            reveal_strlit("0x");
            assert(before.subrange(0, 2) == "0x"@);
            assert(before[0] == before.subrange(0, 2)[0]);
            assert(before[1] == before.subrange(0, 2)[1]);
        }
        let n = rest.unicode_len();
        rest = rest.substring_char(2, n);
    }
    proof {
        reveal_strlit("0x");
        if rest@.len() >= 2 && rest@[0] == '0' && rest@[1] == 'x' {
            assert(rest@.subrange(0, 2) =~= "0x"@);
        }
    }
    u16_from_hex(rest)
}

/// Control characters (general category Cc).
pub open spec fn is_control_char(c: char) -> bool {
    c <= '\u{1f}' || ('\u{7f}' <= c && c <= '\u{9f}')
}

/// The first character of UTF-16 text decoded lossily: a lone or
/// mismatched surrogate gives U+FFFD.
pub open spec fn first_utf16_char(u: Seq<u16>) -> char {
    let a = u[0] as int;
    if a < 0xD800 || a > 0xDFFF {
        a as char
    } else if a <= 0xDBFF && u.len() >= 2 && 0xDC00 <= u[1] && u[1] <= 0xDFFF {
        (0x10000 + (a - 0xD800) * 1024 + (u[1] - 0xDC00)) as char
    } else {
        '\u{FFFD}'
    }
}

/// The key name for the characters a macOS key event types: nothing for
/// no text or a control character, `space` for a space, else the first
/// character in ASCII lower case.
pub open spec fn typed_key_name(units: Seq<u16>) -> Option<Seq<char>> {
    if units.len() == 0 {
        None
    } else {
        let c = first_utf16_char(units);
        if is_control_char(c) {
            None
        } else if c == ' ' {
            Some("space"@)
        } else {
            Some(seq![lower_char(c)])
        }
    }
}

/// `char::from_u32`: the character with this code point, if there is one.
#[verifier::external_body]
fn char_from_u32(v: u32) -> (r: Option<char>)
    ensures
        (v <= 0x10FFFF && !(0xD800 <= v && v <= 0xDFFF)) ==> r == Some(v as char),
        !(v <= 0x10FFFF && !(0xD800 <= v && v <= 0xDFFF)) ==> r is None,
{
    char::from_u32(v)
}

pub fn key_token_from_unicode(units: &[u16]) -> (r: Option<String>)
    ensures
        match r {
            Some(v) => typed_key_name(units@) == Some(v@),
            None => typed_key_name(units@) is None,
        },
{
    if units.len() == 0 {
        return None;
    }
    let a = units[0] as u32;
    let code: u32 = if a < 0xD800 || a > 0xDFFF {
        a
    } else if a <= 0xDBFF && units.len() >= 2 && 0xDC00 <= units[1] && units[1] <= 0xDFFF {
        0x10000 + (a - 0xD800) * 1024 + (units[1] as u32 - 0xDC00)
    } else {
        0xFFFD
    };
    let c = match char_from_u32(code) {
        Some(c) => c,
        None => return None,
    };
    if c <= '\u{1f}' || ('\u{7f}' <= c && c <= '\u{9f}') {
        return None;
    }
    if c == ' ' {
        return some_str("space");
    }
    Some(one_char(crate::text::ascii_lower_char(c)))
}


/// The key name of a macOS key event: from its key code where the table
/// has one, otherwise from the characters it types.
pub open spec fn mac_event_key_name(keycode: int, units: Seq<u16>) -> Option<Seq<char>> {
    match mac_keycode_name(keycode) {
        Some(n) => Some(n),
        None => typed_key_name(units),
    }
}

pub fn key_token_from_event(keycode: i64, units: &[u16]) -> (r: Option<String>)
    ensures
        match r {
            Some(v) => mac_event_key_name(keycode as int, units@) == Some(v@),
            None => mac_event_key_name(keycode as int, units@) is None,
        },
{
    match key_token_from_keycode(keycode) {
        Some(t) => Some(t),
        None => key_token_from_unicode(units),
    }
}

/// The kinds of macOS keyboard events the listener receives.
#[derive(Debug, Clone, Copy, PartialEq, Eq, Structural)]
pub enum MacEventKind {
    FlagsChanged,
    KeyDown,
    KeyUp,
}

/// Applies one macOS keyboard event: modifiers from its flags; for a
/// flags change, the Fn state; for a key press, the key's name is
/// remembered and held; for a release, the remembered name (or else the
/// event's own name) is released.
pub fn apply_mac_event(
    state: &mut KeyState,
    tokens: &mut KeycodeTokens,
    kind: MacEventKind,
    keycode: i64,
    flags: u64,
    global_flags: u64,
    event_token: Option<String>,
)
    requires
        old(state).wf(),
    ensures
        final(state).wf(),
        final(state).ctrl_down == (flags & MAC_FLAG_CONTROL != 0),
        final(state).shift_down == (flags & MAC_FLAG_SHIFT != 0),
        final(state).alt_down == (flags & MAC_FLAG_ALTERNATE != 0),
        final(state).meta_down == (flags & MAC_FLAG_COMMAND != 0),
        final(state).fn_down == if kind == MacEventKind::FlagsChanged && keycode == MAC_FN_KEYCODE {
            (flags & MAC_FLAG_SECONDARY_FN != 0) || (global_flags & MAC_FLAG_SECONDARY_FN != 0)
        } else {
            old(state).fn_down
        },
        kind == MacEventKind::FlagsChanged ==> final(state)@.pressed == old(state)@.pressed
            && final(tokens).map@ == old(tokens).map@,
        kind == MacEventKind::KeyDown ==> match event_token {
            Some(t) => {
                &&& final(tokens).map@ == old(tokens).map@.insert(keycode, t)
                &&& forall|x: Seq<char>| #[trigger] final(state)@.pressed.contains(x) <==> (old(
                    state,
                )@.pressed.contains(x) || x == t@)
            },
            None => final(tokens).map@ == old(tokens).map@ && final(state)@.pressed == old(
                state,
            )@.pressed,
        },
        kind == MacEventKind::KeyUp ==> {
            &&& final(tokens).map@ == old(tokens).map@.remove(keycode)
            &&& forall|x: Seq<char>| #[trigger] final(state)@.pressed.contains(x) <==> (old(
                state,
            )@.pressed.contains(x) && if old(tokens).map@.contains_key(keycode) {
                x != old(tokens).map@[keycode]@
            } else {
                match event_token {
                    Some(t) => x != t@,
                    None => true,
                }
            })
        },
{
    apply_mac_modifier_flags(state, flags);
    match kind {
        MacEventKind::FlagsChanged => {
            apply_mac_fn_event(state, keycode, flags, global_flags);
        },
        MacEventKind::KeyDown => {
            mac_key_down(state, tokens, keycode, event_token);
        },
        MacEventKind::KeyUp => {
            if !mac_key_up(state, tokens, keycode) {
                if let Some(t) = event_token {
                    state.release_key(t.as_str());
                }
            }
        },
    }
}

/// The raw-input flag bit marking a key release.
pub const RI_KEY_BREAK: u16 = 1;

/// Whether a Windows raw keyboard event is a press.
pub fn raw_key_is_down(flags: u16) -> (r: bool)
    ensures
        r == (flags & RI_KEY_BREAK == 0),
{
    flags & RI_KEY_BREAK == 0
}


proof fn lemma_modifier_literals()
    ensures
        "fn"@ == seq!['f', 'n'],
        "ctrl"@ == seq!['c', 't', 'r', 'l'],
        "control"@ == seq!['c', 'o', 'n', 't', 'r', 'o', 'l'],
        "shift"@ == seq!['s', 'h', 'i', 'f', 't'],
        "alt"@ == seq!['a', 'l', 't'],
        "option"@ == seq!['o', 'p', 't', 'i', 'o', 'n'],
        "meta"@ == seq!['m', 'e', 't', 'a'],
        "cmd"@ == seq!['c', 'm', 'd'],
        "command"@ == seq!['c', 'o', 'm', 'm', 'a', 'n', 'd'],
        "win"@ == seq!['w', 'i', 'n'],
        "super"@ == seq!['s', 'u', 'p', 'e', 'r'],
{
    reveal_strlit("fn");
    reveal_strlit("ctrl");
    reveal_strlit("control");
    reveal_strlit("shift");
    reveal_strlit("alt");
    reveal_strlit("option");
    reveal_strlit("meta");
    reveal_strlit("cmd");
    reveal_strlit("command");
    reveal_strlit("win");
    reveal_strlit("super");
}

proof fn lemma_name_word(t: Seq<char>)
    requires
        t.len() > 0,
        is_word(t),
        t != "fn"@,
        t != "ctrl"@,
        t != "control"@,
        t != "shift"@,
        t != "alt"@,
        t != "option"@,
        t != "meta"@,
        t != "cmd"@,
        t != "command"@,
        t != "win"@,
        t != "super"@,
    ensures
        nameable_key(t),
{
    lemma_word_nameable(t);
}

/// Every key name the Windows listener reports can be the key of a
/// shortcut: shortcuts can name every key the listener can see.
pub proof fn law_windows_key_names_nameable(vkey: u16)
    ensures
        vkey_name(vkey) matches Some(n) ==> nameable_key(n),
{
    lemma_modifier_literals();
    if let Some(n) = vkey_name(vkey) {
        if VK_A <= vkey && vkey <= VK_A + 25 {
            lemma_single_char_nameable(n[0]);
            assert(n =~= seq![n[0]]);
        } else if VK_0 <= vkey && vkey <= VK_9 {
            lemma_single_char_nameable(n[0]);
            assert(n =~= seq![n[0]]);
        } else if VK_F1 <= vkey && vkey <= VK_F12 {
            lemma_name_word(n);
        } else if vkey == VK_SPACE {
            reveal_strlit("space");
            lemma_name_word(n);
        } else if vkey == VK_RETURN {
            reveal_strlit("enter");
            lemma_name_word(n);
        } else if vkey == VK_TAB {
            reveal_strlit("tab");
            lemma_name_word(n);
        } else if vkey == VK_ESCAPE {
            reveal_strlit("escape");
            lemma_name_word(n);
        } else if vkey == VK_BACK {
            reveal_strlit("backspace");
            lemma_name_word(n);
        } else {
            reveal_strlit("-");
            reveal_strlit("=");
            reveal_strlit(",");
            reveal_strlit(".");
            reveal_strlit(";");
            reveal_strlit("/");
            reveal_strlit("`");
            reveal_strlit("[");
            reveal_strlit("\\");
            reveal_strlit("]");
            reveal_strlit("'");
            lemma_single_char_nameable(n[0]);
            assert(n =~= seq![n[0]]);
        }
    }
}


/// Every key name the macOS listener reports can be the key of a shortcut,
/// except a typed `+` (the shortcut separator) or a typed whitespace
/// character (removed by trimming).
pub proof fn law_mac_key_names_nameable(keycode: int, units: Seq<u16>)
    ensures
        mac_event_key_name(keycode, units) matches Some(n) ==> (n != seq!['+'] && !(n.len() == 1
            && is_ws(n[0])) ==> nameable_key(n)),
{
    lemma_modifier_literals();
    match mac_keycode_name(keycode) {
        Some(n) => {
            reveal_strlit("enter");
            reveal_strlit("tab");
            reveal_strlit("space");
            reveal_strlit("backspace");
            reveal_strlit("escape");
            reveal_strlit("left");
            reveal_strlit("right");
            reveal_strlit("down");
            reveal_strlit("up");
            reveal_strlit("f1");
            reveal_strlit("f2");
            reveal_strlit("f3");
            reveal_strlit("f4");
            reveal_strlit("f5");
            reveal_strlit("f6");
            reveal_strlit("f7");
            reveal_strlit("f8");
            reveal_strlit("f9");
            reveal_strlit("f10");
            reveal_strlit("f11");
            reveal_strlit("f12");
            lemma_name_word(n);
        },
        None => {
            if let Some(n) = typed_key_name(units) {
                if n != seq!['+'] && !(n.len() == 1 && is_ws(n[0])) {
                    let c = first_utf16_char(units);
                    if c == ' ' {
                        reveal_strlit("space");
                        lemma_name_word(n);
                    } else {
                        assert(n == seq![lower_char(c)]);
                        assert(n[0] == lower_char(c));
                        assert(lower_char(c) != '+');
                        lemma_single_char_nameable(lower_char(c));
                    }
                }
            }
        },
    }
}


/// The macOS key codes name their physical keys: the arrow keys, the
/// named keys and the function keys each map to their own name, and no
/// other code has a name.
pub proof fn law_mac_keycodes_name_their_keys(keycode: int)
    ensures
        mac_keycode_name(123) == Some("left"@),
        mac_keycode_name(124) == Some("right"@),
        mac_keycode_name(125) == Some("down"@),
        mac_keycode_name(126) == Some("up"@),
        mac_keycode_name(36) == Some("enter"@),
        mac_keycode_name(48) == Some("tab"@),
        mac_keycode_name(49) == Some("space"@),
        mac_keycode_name(51) == Some("backspace"@),
        mac_keycode_name(53) == Some("escape"@),
        mac_keycode_name(122) == Some("f1"@),
        mac_keycode_name(120) == Some("f2"@),
        mac_keycode_name(99) == Some("f3"@),
        mac_keycode_name(118) == Some("f4"@),
        mac_keycode_name(96) == Some("f5"@),
        mac_keycode_name(97) == Some("f6"@),
        mac_keycode_name(98) == Some("f7"@),
        mac_keycode_name(100) == Some("f8"@),
        mac_keycode_name(101) == Some("f9"@),
        mac_keycode_name(109) == Some("f10"@),
        mac_keycode_name(103) == Some("f11"@),
        mac_keycode_name(111) == Some("f12"@),
        !(keycode == 123 || keycode == 124 || keycode == 125 || keycode == 126 || keycode == 36
            || keycode == 48 || keycode == 49 || keycode == 51 || keycode == 53 || keycode == 122
            || keycode == 120 || keycode == 99 || keycode == 118 || keycode == 96 || keycode == 97
            || keycode == 98 || keycode == 100 || keycode == 101 || keycode == 109 || keycode == 103
            || keycode == 111) ==> mac_keycode_name(keycode) is None,
{
}

/// The Windows virtual keys name their physical keys: `A`..`Z` are the
/// lower-case letters in order, `0`..`9` the digits, `F1`..`F12` the
/// function keys, and the named and punctuation keys their names.
pub proof fn law_vkeys_name_their_keys(i: u16)
    ensures
        i < 26 ==> (vkey_name((0x41 + i) as u16) matches Some(n) && n.len() == 1 && n[0] as int
            == 'a' as int + i),
        i < 10 ==> (vkey_name((0x30 + i) as u16) matches Some(n) && n.len() == 1 && n[0] as int
            == '0' as int + i),
        vkey_name(0x41) == Some(seq!['a']),
        vkey_name(0x4B) == Some(seq!['k']),
        vkey_name(0x5A) == Some(seq!['z']),
        vkey_name(0x30) == Some(seq!['0']),
        vkey_name(0x39) == Some(seq!['9']),
        vkey_name(0x70) == Some(seq!['f', '1']),
        vkey_name(0x78) == Some(seq!['f', '9']),
        vkey_name(0x79) == Some(seq!['f', '1', '0']),
        vkey_name(0x7B) == Some(seq!['f', '1', '2']),
        vkey_name(0x20) == Some("space"@),
        vkey_name(0x0D) == Some("enter"@),
        vkey_name(0x09) == Some("tab"@),
        vkey_name(0x1B) == Some("escape"@),
        vkey_name(0x08) == Some("backspace"@),
        vkey_name(0xBD) == Some("-"@),
        vkey_name(0xBB) == Some("="@),
        vkey_name(0xBC) == Some(","@),
        vkey_name(0xBE) == Some("."@),
        vkey_name(0xBA) == Some(";"@),
        vkey_name(0xBF) == Some("/"@),
        vkey_name(0xC0) == Some("`"@),
        vkey_name(0xDB) == Some("["@),
        vkey_name(0xDC) == Some("\\"@),
        vkey_name(0xDD) == Some("]"@),
        vkey_name(0xDE) == Some("'"@),
        vkey_name(0x10) is None,
        vkey_name(0x5B) is None,
{
    assert(vkey_name(0x41) =~~= Some(seq!['a']));
    assert(vkey_name(0x4B) =~~= Some(seq!['k']));
    assert(vkey_name(0x5A) =~~= Some(seq!['z']));
    assert(vkey_name(0x30) =~~= Some(seq!['0']));
    assert(vkey_name(0x39) =~~= Some(seq!['9']));
    assert(vkey_name(0x70) =~~= Some(seq!['f', '1']));
    assert(vkey_name(0x78) =~~= Some(seq!['f', '9']));
    assert(vkey_name(0x79) =~~= Some(seq!['f', '1', '0']));
    assert(vkey_name(0x7B) =~~= Some(seq!['f', '1', '2']));
}


/// The Fn key on Windows: with a configured virtual key, exactly that key;
/// else with a configured scan code, exactly that scan code; with neither,
/// exactly F22, F23 and F24 (not, say, F1 or F21).
pub proof fn law_fn_key_detection(vkey: u16, makecode: u16, v: u16, m: u16)
    ensures
        fn_key_match(vkey, makecode, Some(v), None) == (vkey == v),
        fn_key_match(vkey, makecode, Some(v), Some(m)) == (vkey == v),
        fn_key_match(vkey, makecode, None, Some(m)) == (makecode == m),
        fn_key_match(0x85, makecode, None, None),
        fn_key_match(0x86, makecode, None, None),
        fn_key_match(0x87, makecode, None, None),
        !fn_key_match(0x70, makecode, None, None),
        !fn_key_match(0x84, makecode, None, None),
        fn_key_match(vkey, makecode, None, None) ==> 0x85 <= vkey <= 0x87,
{
}

/// On macOS a key code the table names wins over the typed characters;
/// otherwise the typed character names the key: a space is `space`, a
/// letter its lower-case self, a control character nothing.
pub proof fn law_mac_event_names(keycode: int, units: Seq<u16>)
    ensures
        mac_keycode_name(keycode) is Some ==> mac_event_key_name(keycode, units) == mac_keycode_name(
            keycode,
        ),
        mac_event_key_name(126, units) == Some("up"@),
        mac_keycode_name(keycode) is None ==> mac_event_key_name(keycode, units) == typed_key_name(
            units,
        ),
        typed_key_name(seq![0x20u16]) == Some("space"@),
        typed_key_name(seq![0x4Bu16]) == Some(seq!['k']),
        typed_key_name(seq![0x6Bu16]) == Some(seq!['k']),
        typed_key_name(seq![0x0Du16]) is None,
        typed_key_name(Seq::<u16>::empty()) is None,
{
    assert(typed_key_name(seq![0x4Bu16]) =~~= Some(seq!['k']));
    assert(typed_key_name(seq![0x6Bu16]) =~~= Some(seq!['k']));
}


/// Key-code overrides are read in base sixteen, either case, with an
/// optional `+` and an optional `0x`; values above `0xFFFF`, other signs
/// and other characters are refused.
pub proof fn law_hex_overrides()
    ensures
        parse_u16_hex(seq!['f', 'f']) == Some(255int),
        parse_u16_hex(seq!['F', 'F']) == Some(255int),
        parse_u16_hex(seq!['3', 'A']) == Some(58int),
        parse_u16_hex(seq!['+', '1']) == Some(1int),
        parse_u16_hex(seq!['f', 'f', 'f', 'f']) == Some(65535int),
        parse_u16_hex(seq!['1', '0', '0', '0', '0']) is None,
        parse_u16_hex(seq!['-', '1']) is None,
        parse_u16_hex(seq!['+']) is None,
        parse_u16_hex(Seq::<char>::empty()) is None,
        parse_u16_hex(seq!['g']) is None,
        key_code_override(seq![' ', '0', 'x', '3', 'A', ' ']) == Some(58int),
{
    reveal_with_fuel(hex_value, 6);
    assert(seq!['+', '1'].drop_first() =~= seq!['1']);
    assert(seq!['-', '1'].drop_last() =~= seq!['-']);
    let s = seq![' ', '0', 'x', '3', 'A', ' '];
    let t = seq!['0', 'x', '3', 'A'];
    let s1 = seq!['0', 'x', '3', 'A', ' '];
    assert(s.drop_first() =~= s1);
    assert(s[0] == ' ' && is_ws(s[0]));
    assert(trim_start(s1) == s1);
    assert(trim_start(s) == trim_start(s1));
    assert(s1.drop_last() =~= t);
    assert(is_ws(s1.last()));
    assert(trim_end(t) == t);
    assert(trim_end(s1) == trim_end(t));
    assert(trim(s) =~= t);
    assert(t.subrange(2, 4) =~= seq!['3', 'A']);
    assert(strip_hex_prefixes(seq!['3', 'A']) == seq!['3', 'A']);
    assert(strip_hex_prefixes(t) == strip_hex_prefixes(t.subrange(2, t.len() as int)));
    let u = seq!['3', 'A'];
    assert(u.drop_last() =~= seq!['3']);
    assert(seq!['3'].drop_last() =~= Seq::<char>::empty());
    let v = seq!['f', 'f'];
    assert(v.drop_last() =~= seq!['f']);
    assert(seq!['f'].drop_last() =~= Seq::<char>::empty());
    let w = seq!['F', 'F'];
    assert(w.drop_last() =~= seq!['F']);
    assert(seq!['F'].drop_last() =~= Seq::<char>::empty());
    let x = seq!['f', 'f', 'f', 'f'];
    assert(x.drop_last() =~= seq!['f', 'f', 'f']);
    assert(seq!['f', 'f', 'f'].drop_last() =~= v);
    let y = seq!['1', '0', '0', '0', '0'];
    assert(y.drop_last() =~= seq!['1', '0', '0', '0']);
    assert(seq!['1', '0', '0', '0'].drop_last() =~= seq!['1', '0', '0']);
    assert(seq!['1', '0', '0'].drop_last() =~= seq!['1', '0']);
    assert(seq!['1', '0'].drop_last() =~= seq!['1']);
    assert(seq!['1'].drop_last() =~= Seq::<char>::empty());
    assert(seq!['g'].drop_last() =~= Seq::<char>::empty());
}

} // verus!
