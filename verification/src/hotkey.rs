//! Global hotkey tracking: which keys are held, whether the push-to-talk or
//! hands-free shortcut is active, and what the recorder should do.

use vstd::prelude::*;
use vstd::string::*;
use crate::text::str_eq;
use crate::shortcut::{parse_model, parse_shortcut, ShortcutModel, ShortcutSpec};
use crate::shortcut_laws::{fn_only, fn_space, lemma_builtin_shortcuts};
use crate::settings::Settings;

verus! {

/// Keys held down at the moment.
pub struct KeyState {
    pub fn_down: bool,
    pub ctrl_down: bool,
    pub shift_down: bool,
    pub alt_down: bool,
    pub meta_down: bool,
    /// Non-modifier keys held down, each once.
    pub pressed_keys: Vec<String>,
}

pub struct KeyModel {
    pub fn_down: bool,
    pub ctrl_down: bool,
    pub shift_down: bool,
    pub alt_down: bool,
    pub meta_down: bool,
    pub pressed: Seq<Seq<char>>,
}

impl View for KeyState {
    type V = KeyModel;

    open spec fn view(&self) -> KeyModel {
        KeyModel {
            fn_down: self.fn_down,
            ctrl_down: self.ctrl_down,
            shift_down: self.shift_down,
            alt_down: self.alt_down,
            meta_down: self.meta_down,
            pressed: self.pressed_keys.deep_view(),
        }
    }
}

/// No key is recorded twice.
pub open spec fn distinct(s: Seq<Seq<char>>) -> bool {
    forall|i: int, j: int| 0 <= i < j < s.len() ==> s[i] != s[j]
}

/// Whether a shortcut is held: each modifier it names is down and, if it
/// names a key, that key is the only non-modifier key down.
pub open spec fn shortcut_active(spec: ShortcutModel, k: KeyModel) -> bool {
    &&& spec.fn_key ==> k.fn_down
    &&& spec.ctrl ==> k.ctrl_down
    &&& spec.shift ==> k.shift_down
    &&& spec.alt ==> k.alt_down
    &&& spec.meta ==> k.meta_down
    &&& match spec.key {
        Some(key) => k.pressed.len() == 1 && k.pressed[0] == key,
        None => true,
    }
}

impl KeyState {
    pub open spec fn wf(&self) -> bool {
        distinct(self.pressed_keys.deep_view())
    }

    /// Nothing held.
    pub fn new() -> (r: Self)
        ensures
            r.wf(),
            !r.fn_down && !r.ctrl_down && !r.shift_down && !r.alt_down && !r.meta_down,
            r.pressed_keys.len() == 0,
    {
        KeyState {
            fn_down: false,
            ctrl_down: false,
            shift_down: false,
            alt_down: false,
            meta_down: false,
            pressed_keys: Vec::new(),
        }
    }

    fn position(&self, token: &str) -> (r: Option<usize>)
        ensures
            match r {
                Some(i) => i < self.pressed_keys.len() && self.pressed_keys[i as int]@ == token@,
                None => !self.pressed_keys.deep_view().contains(token@),
            },
    {
        let mut i: usize = 0;
        while i < self.pressed_keys.len()
            invariant
                i <= self.pressed_keys.len(),
                forall|k: int| 0 <= k < i ==> self.pressed_keys[k]@ != token@,
            decreases self.pressed_keys.len() - i,
        {
            if str_eq(self.pressed_keys[i].as_str(), token) {
                return Some(i);
            }
            i = i + 1;
        }
        assert(!self.pressed_keys.deep_view().contains(token@)) by {
            if self.pressed_keys.deep_view().contains(token@) {
                let k = choose|k: int|
                    0 <= k < self.pressed_keys.deep_view().len()
                        && self.pressed_keys.deep_view()[k] == token@;
                assert(self.pressed_keys[k]@ == token@);
            }
        }
        None
    }

    /// Whether `token` is held.
    pub fn is_pressed(&self, token: &str) -> (r: bool)
        ensures
            r == self@.pressed.contains(token@),
    {
        match self.position(token) {
            Some(i) => {
                assert(self.pressed_keys.deep_view()[i as int] == token@);
                true
            },
            None => false,
        }
    }

    /// Records a key as held (a set insertion).
    pub fn press_key(&mut self, token: String)
        requires
            old(self).wf(),
        ensures
            final(self).wf(),
            forall|t: Seq<char>| #[trigger] final(self)@.pressed.contains(t) <==> (old(
                self,
            )@.pressed.contains(t) || t == token@),
            final(self)@.fn_down == old(self)@.fn_down,
            final(self)@.ctrl_down == old(self)@.ctrl_down,
            final(self)@.shift_down == old(self)@.shift_down,
            final(self)@.alt_down == old(self)@.alt_down,
            final(self)@.meta_down == old(self)@.meta_down,
    {
        if self.is_pressed(token.as_str()) {
            return;
        }
        let ghost prev = self.pressed_keys.deep_view();
        let ghost tv = token@;
        self.pressed_keys.push(token);
        assert(self.pressed_keys.deep_view() =~= prev.push(tv));
        assert forall|t: Seq<char>| #[trigger] prev.push(tv).contains(t) <==> (prev.contains(t)
            || t == tv) by {
            if prev.push(tv).contains(t) {
                let k = choose|k: int| 0 <= k < prev.push(tv).len() && prev.push(tv)[k] == t;
                if k < prev.len() {
                    assert(prev[k] == t);
                }
            }
            if prev.contains(t) {
                let k = choose|k: int| 0 <= k < prev.len() && prev[k] == t;
                assert(prev.push(tv)[k] == t);
            }
            if t == tv {
                assert(prev.push(tv)[prev.len() as int] == t);
            }
        }
    }

    /// Records a key as released (a set removal).
    pub fn release_key(&mut self, token: &str)
        requires
            old(self).wf(),
        ensures
            final(self).wf(),
            forall|t: Seq<char>| #[trigger] final(self)@.pressed.contains(t) <==> (old(
                self,
            )@.pressed.contains(t) && t != token@),
            final(self)@.fn_down == old(self)@.fn_down,
            final(self)@.ctrl_down == old(self)@.ctrl_down,
            final(self)@.shift_down == old(self)@.shift_down,
            final(self)@.alt_down == old(self)@.alt_down,
            final(self)@.meta_down == old(self)@.meta_down,
    {
        match self.position(token) {
            None => {},
            Some(i) => {
                let ghost prev = self.pressed_keys.deep_view();
                let _ = self.pressed_keys.remove(i);
                let ghost now = self.pressed_keys.deep_view();
                assert(now =~= prev.remove(i as int));
                assert forall|a: int, b: int| 0 <= a < b < now.len() implies now[a] != now[b] by {
                    let a2 = if a < i { a } else { a + 1 };
                    let b2 = if b < i { b } else { b + 1 };
                    assert(now[a] == prev[a2]);
                    assert(now[b] == prev[b2]);
                }
                assert forall|t: Seq<char>| #[trigger] now.contains(t) <==> (prev.contains(t) && t
                    != token@) by {
                    if now.contains(t) {
                        let k = choose|k: int| 0 <= k < now.len() && now[k] == t;
                        let k2 = if k < i { k } else { k + 1 };
                        assert(prev[k2] == t);
                        assert(k2 != i);
                        assert(prev[i as int] == token@);
                        if k2 < i {
                            assert(prev[k2] != prev[i as int]);
                        } else {
                            assert(prev[i as int] != prev[k2]);
                        }
                    }
                    if prev.contains(t) && t != token@ {
                        let k = choose|k: int| 0 <= k < prev.len() && prev[k] == t;
                        assert(k != i);
                        if k < i {
                            assert(now[k] == t);
                        } else {
                            assert(now[k - 1] == t);
                        }
                    }
                }
            },
        }
    }
}

/// Whether `spec` is held in the key state `state`.
pub fn is_shortcut_active(spec: &ShortcutSpec, state: &KeyState) -> (r: bool)
    ensures
        r == shortcut_active(spec@, state@),
{
    if spec.fn_key && !state.fn_down {
        return false;
    }
    if spec.ctrl && !state.ctrl_down {
        return false;
    }
    if spec.shift && !state.shift_down {
        return false;
    }
    if spec.alt && !state.alt_down {
        return false;
    }
    if spec.meta && !state.meta_down {
        return false;
    }
    if let Some(key) = &spec.key {
        return state.pressed_keys.len() == 1 && str_eq(state.pressed_keys[0].as_str(), key.as_str());
    }
    true
}


/// The recorder's state as the hotkey listener sees it.
pub struct HotkeyState {
    pub keys: KeyState,
    pub is_push_active: bool,
    pub is_hands_free: bool,
    pub is_recording_active: bool,
    pub hold_emitted: bool,
    pub hands_free_combo_prev_active: bool,
}

pub struct HotkeyModel {
    pub keys: KeyModel,
    pub is_push_active: bool,
    pub is_hands_free: bool,
    pub is_recording_active: bool,
    pub hold_emitted: bool,
    pub hands_free_combo_prev_active: bool,
}

impl View for HotkeyState {
    type V = HotkeyModel;

    open spec fn view(&self) -> HotkeyModel {
        HotkeyModel {
            keys: self.keys@,
            is_push_active: self.is_push_active,
            is_hands_free: self.is_hands_free,
            is_recording_active: self.is_recording_active,
            hold_emitted: self.hold_emitted,
            hands_free_combo_prev_active: self.hands_free_combo_prev_active,
        }
    }
}

/// What the recorder should do next.
#[derive(Debug, PartialEq, Eq, Clone, Copy)]
pub enum RecordingAction {
    Keep,
    Start,
    Stop,
}

/// The state after the shortcuts are evaluated against the held keys:
/// the hands-free mode flips when its combination becomes active (not while
/// it stays held), and push-to-talk counts only outside hands-free mode.
pub open spec fn after_shortcuts(s: HotkeyModel, push: ShortcutModel, hands_free: ShortcutModel) -> HotkeyModel {
    let combo = shortcut_active(hands_free, s.keys);
    let hands = if combo && !s.hands_free_combo_prev_active {
        !s.is_hands_free
    } else {
        s.is_hands_free
    };
    HotkeyModel {
        is_hands_free: hands,
        hands_free_combo_prev_active: combo,
        is_push_active: if hands {
            false
        } else {
            shortcut_active(push, s.keys)
        },
        ..s
    }
}

/// Whether audio should be recorded.
pub open spec fn should_record(s: HotkeyModel) -> bool {
    s.is_hands_free || s.is_push_active
}

pub open spec fn action_for(s: HotkeyModel) -> RecordingAction {
    if should_record(s) == s.is_recording_active {
        RecordingAction::Keep
    } else if should_record(s) {
        RecordingAction::Start
    } else {
        RecordingAction::Stop
    }
}

/// Whether a start attempt leaves the recorder running: it succeeded, or
/// a recording was already under way.
pub open spec fn start_took_effect(r: Result<(), Seq<char>>) -> bool {
    match r {
        Ok(_) => true,
        Err(e) => e == "Already recording"@,
    }
}

impl HotkeyState {
    pub open spec fn wf(&self) -> bool {
        self.keys.wf()
    }

    /// No keys held, nothing recording.
    pub fn new() -> (r: Self)
        ensures
            r.wf(),
            r.keys.pressed_keys.len() == 0,
            !r.keys.fn_down && !r.keys.ctrl_down && !r.keys.shift_down && !r.keys.alt_down
                && !r.keys.meta_down,
            !r.is_push_active && !r.is_hands_free && !r.is_recording_active && !r.hold_emitted
                && !r.hands_free_combo_prev_active,
    {
        HotkeyState {
            keys: KeyState::new(),
            is_push_active: false,
            is_hands_free: false,
            is_recording_active: false,
            hold_emitted: false,
            hands_free_combo_prev_active: false,
        }
    }

    /// Evaluates both shortcuts against the held keys. Returns the new
    /// hands-free setting when it flipped.
    pub fn update_shortcuts(&mut self, push: &ShortcutSpec, hands_free: &ShortcutSpec) -> (r: Option<bool>)
        ensures
            final(self)@ == after_shortcuts(old(self)@, push@, hands_free@),
            final(self).keys == old(self).keys,
            r == (if final(self).is_hands_free != old(self).is_hands_free {
                Some(final(self).is_hands_free)
            } else {
                None
            }),
    {
        let combo = is_shortcut_active(hands_free, &self.keys);
        let mut toggled = None;
        if combo && !self.hands_free_combo_prev_active {
            self.is_hands_free = !self.is_hands_free;
            toggled = Some(self.is_hands_free);
        }
        self.hands_free_combo_prev_active = combo;
        self.is_push_active = if self.is_hands_free {
            false
        } else {
            is_shortcut_active(push, &self.keys)
        };
        toggled
    }

    /// What the recorder should do: start when it should record and is
    /// not, stop in the opposite case, otherwise nothing.
    pub fn recording_action(&self) -> (r: RecordingAction)
        ensures
            r == action_for(self@),
    {
        let should = self.is_hands_free || self.is_push_active;
        if should == self.is_recording_active {
            RecordingAction::Keep
        } else if should {
            RecordingAction::Start
        } else {
            RecordingAction::Stop
        }
    }

    /// Records the outcome of a start attempt.
    pub fn finish_start(&mut self, result: &Result<(), String>)
        ensures
            final(self)@ == (HotkeyModel {
                is_recording_active: start_took_effect(match result {
                    Ok(_) => Ok(()),
                    Err(e) => Err(e@),
                }),
                ..old(self)@
            }),
            final(self).keys == old(self).keys,
    {
        self.is_recording_active = match result {
            Ok(_) => true,
            Err(e) => str_eq(e.as_str(), "Already recording"),
        };
    }

    /// Records that the recorder was told to stop.
    pub fn finish_stop(&mut self)
        ensures
            final(self)@ == (HotkeyModel { is_recording_active: false, ..old(self)@ }),
            final(self).keys == old(self).keys,
    {
        self.is_recording_active = false;
    }

    /// The hold indicator to send, if it changed: whether recording is
    /// wanted.
    pub fn take_hold_signal(&mut self) -> (r: Option<bool>)
        ensures
            final(self)@ == (HotkeyModel { hold_emitted: should_record(old(self)@), ..old(self)@ }),
            final(self).keys == old(self).keys,
            r == (if should_record(old(self)@) != old(self).hold_emitted {
                Some(should_record(old(self)@))
            } else {
                None
            }),
    {
        let should = self.is_hands_free || self.is_push_active;
        if should != self.hold_emitted {
            self.hold_emitted = should;
            Some(should)
        } else {
            None
        }
    }
}

/// The state after the recorder action was carried out: a start records
/// whether it took effect, a stop that recording ended.
pub open spec fn after_action(s: HotkeyModel, action: RecordingAction, start_result: Result<(), Seq<char>>) -> HotkeyModel {
    match action {
        RecordingAction::Keep => s,
        RecordingAction::Start => HotkeyModel { is_recording_active: start_took_effect(start_result), ..s },
        RecordingAction::Stop => HotkeyModel { is_recording_active: false, ..s },
    }
}

impl HotkeyState {
    /// The first half of handling a key change: the shortcuts are
    /// evaluated against the held keys, and the recorder action follows
    /// from the result. Returns the new hands-free setting when it flipped,
    /// and the action for the recorder.
    pub fn begin_key_change(&mut self, push: &ShortcutSpec, hands_free: &ShortcutSpec) -> (r: (
        Option<bool>,
        RecordingAction,
    ))
        ensures
            final(self)@ == after_shortcuts(old(self)@, push@, hands_free@),
            final(self).keys == old(self).keys,
            r.0 == (if final(self).is_hands_free != old(self).is_hands_free {
                Some(final(self).is_hands_free)
            } else {
                None
            }),
            r.1 == action_for(final(self)@),
    {
        let toggled = self.update_shortcuts(push, hands_free);
        let action = self.recording_action();
        (toggled, action)
    }

    /// The second half: the outcome of the recorder action is taken in
    /// (`start_result` counts only for a start), then the hold indicator
    /// is brought up to date. Returns the hold indicator to send, if it
    /// changed.
    pub fn end_key_change(&mut self, action: RecordingAction, start_result: &Result<(), String>) -> (r: Option<bool>)
        ensures
            ({
                let done = after_action(old(self)@, action, match start_result {
                    Ok(_) => Ok(()),
                    Err(e) => Err(e@),
                });
                &&& final(self)@ == (HotkeyModel { hold_emitted: should_record(done), ..done })
                &&& r == (if should_record(done) != done.hold_emitted {
                    Some(should_record(done))
                } else {
                    None
                })
            }),
            final(self).keys == old(self).keys,
    {
        match action {
            RecordingAction::Keep => {},
            RecordingAction::Start => self.finish_start(start_result),
            RecordingAction::Stop => self.finish_stop(),
        }
        self.take_hold_signal()
    }
}

/// After the shortcuts are evaluated, hands-free mode and push-to-talk are
/// never both active.
pub proof fn law_hands_free_excludes_push(s: HotkeyModel, push: ShortcutModel, hands_free: ShortcutModel)
    ensures
        after_shortcuts(s, push, hands_free).is_hands_free ==> !after_shortcuts(
            s,
            push,
            hands_free,
        ).is_push_active,
{
}

/// Holding the hands-free combination flips the mode once: evaluating
/// again with the same keys held changes nothing further.
pub proof fn law_hands_free_toggles_once(s: HotkeyModel, push: ShortcutModel, hands_free: ShortcutModel)
    ensures
        after_shortcuts(after_shortcuts(s, push, hands_free), push, hands_free)
            == after_shortcuts(s, push, hands_free),
{
}

/// After the shortcuts are evaluated and the recorder action carried out
/// (a start that took effect, or a stop), recording is on exactly when
/// hands-free mode or push-to-talk is active; the hold indicator then
/// agrees too.
pub proof fn law_recording_follows_shortcuts(s: HotkeyModel, push: ShortcutModel, hands_free: ShortcutModel)
    ensures
        ({
            let u = after_shortcuts(s, push, hands_free);
            let done = match action_for(u) {
                RecordingAction::Keep => u,
                RecordingAction::Start => HotkeyModel { is_recording_active: true, ..u },
                RecordingAction::Stop => HotkeyModel { is_recording_active: false, ..u },
            };
            let held = HotkeyModel { hold_emitted: should_record(done), ..done };
            &&& done.is_recording_active == should_record(u)
            &&& held.hold_emitted == held.is_recording_active
        }),
{
}


/// The push-to-talk shortcut used when the stored one does not parse: Fn.
pub fn fallback_push_spec() -> (r: ShortcutSpec)
    ensures
        r@ == fn_only(),
{
    proof {
        lemma_builtin_shortcuts();
    }
    match parse_shortcut("fn") {
        Ok(v) => v,
        Err(_) => ShortcutSpec::default(),
    }
}

/// The hands-free shortcut used when the stored one does not parse:
/// Fn with the space bar.
pub fn fallback_hands_free_spec() -> (r: ShortcutSpec)
    ensures
        r@ == fn_space(),
{
    proof {
        lemma_builtin_shortcuts();
    }
    match parse_shortcut("fn+space") {
        Ok(v) => v,
        Err(_) => ShortcutSpec::default(),
    }
}

/// The push-to-talk and hands-free shortcuts from the settings, each
/// replaced by its fallback when it does not parse.
pub fn load_shortcuts(settings: &Settings) -> (r: (ShortcutSpec, ShortcutSpec))
    ensures
        r.0@ == match parse_model(settings.shortcuts.push_to_talk@) {
            Some(v) => v,
            None => fn_only(),
        },
        r.1@ == match parse_model(settings.shortcuts.hands_free_toggle@) {
            Some(v) => v,
            None => fn_space(),
        },
{
    let push = match parse_shortcut(settings.shortcuts.push_to_talk.as_str()) {
        Ok(v) => v,
        Err(_) => fallback_push_spec(),
    };
    let hands_free = match parse_shortcut(settings.shortcuts.hands_free_toggle.as_str()) {
        Ok(v) => v,
        Err(_) => fallback_hands_free_spec(),
    };
    (push, hands_free)
}


/// A shortcut is held exactly when every modifier it names is down (the
/// same modifier, whatever the others are doing) and, if it names a key,
/// that key is the only non-modifier key down.
pub proof fn law_shortcut_held_iff_named_keys_down(spec: ShortcutModel, k: KeyModel)
    ensures
        shortcut_active(spec, k) ==> (spec.fn_key ==> k.fn_down),
        shortcut_active(spec, k) ==> (spec.ctrl ==> k.ctrl_down),
        shortcut_active(spec, k) ==> (spec.shift ==> k.shift_down),
        shortcut_active(spec, k) ==> (spec.alt ==> k.alt_down),
        shortcut_active(spec, k) ==> (spec.meta ==> k.meta_down),
        shortcut_active(spec, k) ==> (spec.key matches Some(key) ==> k.pressed =~= seq![key]),
        (spec.fn_key ==> k.fn_down) && (spec.ctrl ==> k.ctrl_down) && (spec.shift ==> k.shift_down)
            && (spec.alt ==> k.alt_down) && (spec.meta ==> k.meta_down) && (match spec.key {
            Some(key) => k.pressed =~= seq![key],
            None => true,
        }) ==> shortcut_active(spec, k),
{
    if let Some(key) = spec.key {
        if k.pressed =~= seq![key] {
            assert(k.pressed[0] == key);
        }
        if k.pressed.len() == 1 && k.pressed[0] == key {
            assert(k.pressed =~= seq![key]);
        }
    }
}

/// Command+K is held when Command and K are down, whatever Option is
/// doing, and not when only Option and K are down.
pub proof fn law_command_shortcut_needs_command(k: KeyModel)
    ensures
        parse_model("cmd+k"@) matches Some(spec) && {
            &&& (k.meta_down && k.pressed =~= seq!["k"@] ==> shortcut_active(spec, k))
            &&& (!k.meta_down ==> !shortcut_active(spec, k))
        },
{
    crate::shortcut_laws::law_cmd_k_parses();
    law_shortcut_held_iff_named_keys_down(crate::shortcut_laws::cmd_k(), k);
}

} // verus!
