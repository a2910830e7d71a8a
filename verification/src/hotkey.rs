//! The push-to-talk hotkey: which key combination the configuration names,
//! and the press/release tracking that turns raw key events into one
//! `Pressed` and one `Released` per hold.

use vstd::prelude::*;

use crate::config::HotkeyConfig;
use crate::text::{
    is_white_space, trim_end_seq, trim_start_seq,
    lower_seq, matches_token, split_char, str_eq, to_ascii_lowercase, trim, trim_seq, split_seq,
    views,
};

verus! {

/// The two supported push-to-talk gestures.
#[derive(Clone, Copy, Debug, PartialEq, Eq, Structural)]
pub enum HotkeyMode {
    /// Hold F8 (no modifier).
    F8Hold,
    /// Hold Ctrl and Shift together (either side of each).
    CtrlShiftHold,
}

/// The gesture a configuration names, or that it names none the listener
/// supports.
#[derive(Clone, Copy, Debug, PartialEq, Eq, Structural)]
pub enum HotkeyModeConfig {
    Known(HotkeyMode),
    Unknown,
}

/// What the hotkey listener reports.
#[derive(Clone, Debug)]
pub enum HotkeyEvent {
    /// The push-to-talk gesture started.
    Pressed,
    /// The push-to-talk gesture ended.
    Released,
    /// The keyboard hook failed; the message describes why.
    ListenerError(String),
}

/// The keys the listener tells apart.
#[derive(Clone, Copy, Debug, PartialEq, Eq, Structural)]
pub enum KeyKind {
    F8,
    ControlLeft,
    ControlRight,
    ShiftLeft,
    ShiftRight,
    /// Any other key.
    Other,
}

/// A key going down or coming up.
#[derive(Clone, Copy, Debug, PartialEq, Eq, Structural)]
pub enum KeyEvent {
    Press(KeyKind),
    Release(KeyKind),
}

impl HotkeyModeConfig {
    /// The gesture the listener uses: the named one, or F8 hold when the
    /// configuration names none it supports.
    pub open spec fn spec_effective(self) -> HotkeyMode {
        match self {
            HotkeyModeConfig::Known(mode) => mode,
            HotkeyModeConfig::Unknown => HotkeyMode::F8Hold,
        }
    }

    /// The gesture the listener uses.
    pub fn effective(self) -> (r: HotkeyMode)
        ensures
            r == self.spec_effective(),
    {
        match self {
            HotkeyModeConfig::Known(mode) => mode,
            HotkeyModeConfig::Unknown => HotkeyMode::F8Hold,
        }
    }

    /// Whether the configuration named no supported gesture.
    pub fn is_unknown(self) -> (r: bool)
        ensures
            r == (self is Unknown),
    {
        matches!(self, HotkeyModeConfig::Unknown)
    }
}

/// The accepted spellings of a Ctrl key.
pub open spec fn ctrl_tokens() -> Seq<Seq<char>> {
    seq![
        "ctrl"@,
        "control"@,
        "lctrl"@,
        "rctrl"@,
        "leftctrl"@,
        "rightctrl"@,
        "left_control"@,
        "right_control"@,
        "control_left"@,
        "control_right"@,
    ]
}

/// The accepted spellings of a Shift key.
pub open spec fn shift_tokens() -> Seq<Seq<char>> {
    seq![
        "shift"@,
        "lshift"@,
        "rshift"@,
        "leftshift"@,
        "rightshift"@,
        "left_shift"@,
        "right_shift"@,
        "shift_left"@,
        "shift_right"@,
    ]
}

/// The spellings of "no modifier".
pub open spec fn no_modifier_tokens() -> Seq<Seq<char>> {
    seq!["none"@, ""@, "null"@]
}

/// Whether `value` spells a Ctrl key.
pub fn is_ctrl_token(value: &str) -> (r: bool)
    ensures
        r == ctrl_tokens().contains(value@),
{
    let options: [&str; 10] = [
        "ctrl",
        "control",
        "lctrl",
        "rctrl",
        "leftctrl",
        "rightctrl",
        "left_control",
        "right_control",
        "control_left",
        "control_right",
    ];
    let r = matches_token(value, &options);
    assert(options@.map_values(|o: &str| o@) =~= ctrl_tokens());
    proof {
        if r {
            let i = choose|i: int| 0 <= i < options@.len() && (#[trigger] options@[i])@ == value@;
            assert(ctrl_tokens()[i] == value@);
        }
        if ctrl_tokens().contains(value@) {
            let i = choose|i: int| 0 <= i < ctrl_tokens().len() && ctrl_tokens()[i] == value@;
            assert(options@[i]@ == value@);
        }
    }
    r
}

/// Whether `value` spells a Shift key.
pub fn is_shift_token(value: &str) -> (r: bool)
    ensures
        r == shift_tokens().contains(value@),
{
    let options: [&str; 9] = [
        "shift",
        "lshift",
        "rshift",
        "leftshift",
        "rightshift",
        "left_shift",
        "right_shift",
        "shift_left",
        "shift_right",
    ];
    let r = matches_token(value, &options);
    assert(options@.map_values(|o: &str| o@) =~= shift_tokens());
    proof {
        if r {
            let i = choose|i: int| 0 <= i < options@.len() && (#[trigger] options@[i])@ == value@;
            assert(shift_tokens()[i] == value@);
        }
        if shift_tokens().contains(value@) {
            let i = choose|i: int| 0 <= i < shift_tokens().len() && shift_tokens()[i] == value@;
            assert(options@[i]@ == value@);
        }
    }
    r
}

/// Whether `value` spells "no modifier".
pub fn is_no_modifier_token(value: &str) -> (r: bool)
    ensures
        r == no_modifier_tokens().contains(value@),
{
    let options: [&str; 3] = ["none", "", "null"];
    let r = matches_token(value, &options);
    assert(options@.map_values(|o: &str| o@) =~= no_modifier_tokens());
    proof {
        if r {
            let i = choose|i: int| 0 <= i < options@.len() && (#[trigger] options@[i])@ == value@;
            assert(no_modifier_tokens()[i] == value@);
        }
        if no_modifier_tokens().contains(value@) {
            let i = choose|i: int|
                0 <= i < no_modifier_tokens().len() && no_modifier_tokens()[i] == value@;
            assert(options@[i]@ == value@);
        }
    }
    r
}

/// A configuration token as compared: trimmed and ASCII-lower-cased.
pub open spec fn norm_token(s: Seq<char>) -> Seq<char> {
    lower_seq(trim_seq(s))
}

/// The `+`-separated parts of a modifier, each normalised.
pub open spec fn modifier_parts(modifier: Seq<char>) -> Seq<Seq<char>> {
    split_seq(modifier, '+').map_values(|p: Seq<char>| norm_token(p))
}

/// Whether some part is one of `tokens`.
pub open spec fn any_part_in(parts: Seq<Seq<char>>, tokens: Seq<Seq<char>>) -> bool {
    exists|i: int| 0 <= i < parts.len() && tokens.contains(#[trigger] parts[i])
}

/// The gesture that a modifier and key name: F8 hold for key `f8` with no
/// modifier; Ctrl+Shift hold when the modifier holds a Ctrl part and the key
/// is a Shift, or the modifier holds a Shift part and the key is a Ctrl;
/// otherwise none.
pub open spec fn spec_mode(modifier: Seq<char>, key: Seq<char>) -> HotkeyModeConfig {
    let parts = modifier_parts(modifier);
    let k = norm_token(key);
    let no_modifier = parts.len() == 1 && no_modifier_tokens().contains(parts[0]);
    if k == "f8"@ && no_modifier {
        HotkeyModeConfig::Known(HotkeyMode::F8Hold)
    } else if (any_part_in(parts, ctrl_tokens()) && shift_tokens().contains(k)) || (any_part_in(
        parts,
        shift_tokens(),
    ) && ctrl_tokens().contains(k)) {
        HotkeyModeConfig::Known(HotkeyMode::CtrlShiftHold)
    } else {
        HotkeyModeConfig::Unknown
    }
}

/// `s` trimmed and ASCII-lower-cased.
fn normalize_token(s: &str) -> (r: String)
    ensures
        r@ == norm_token(s@),
{
    let t = trim(s);
    to_ascii_lowercase(t.as_str())
}

/// Whether some part spells a Ctrl key (`ctrl`) or a Shift key (`!ctrl`).
fn any_part_is(parts: &Vec<String>, ctrl: bool) -> (r: bool)
    ensures
        ctrl ==> r == any_part_in(views(parts@), ctrl_tokens()),
        !ctrl ==> r == any_part_in(views(parts@), shift_tokens()),
{
    let mut i: usize = 0;
    while i < parts.len()
        invariant
            i <= parts.len(),
            ctrl ==> forall|j: int| 0 <= j < i ==> !ctrl_tokens().contains(#[trigger] views(parts@)[j]),
            !ctrl ==> forall|j: int| 0 <= j < i ==> !shift_tokens().contains(#[trigger] views(parts@)[j]),
        decreases parts.len() - i,
    {
        let hit = if ctrl {
            is_ctrl_token(parts[i].as_str())
        } else {
            is_shift_token(parts[i].as_str())
        };
        assert(views(parts@)[i as int] == parts@[i as int]@);
        if hit {
            return true;
        }
        i += 1;
    }
    false
}

impl HotkeyConfig {
    /// The gesture this configuration names.
    pub fn mode(&self) -> (r: HotkeyModeConfig)
        ensures
            r == spec_mode(self.modifier@, self.key@),
    {
        let raw = split_char(self.modifier.as_str(), '+');
        let mut parts: Vec<String> = Vec::new();
        let mut i: usize = 0;
        while i < raw.len()
            invariant
                i <= raw.len(),
                views(raw@) == split_seq(self.modifier@, '+'),
                views(parts@) == views(raw@).take(i as int).map_values(
                    |p: Seq<char>| norm_token(p),
                ),
            decreases raw.len() - i,
        {
            let ghost before = views(parts@);
            let n = normalize_token(raw[i].as_str());
            parts.push(n);
            assert(views(parts@) =~= before.push(n@));
            assert(views(raw@).take(i + 1) =~= views(raw@).take(i as int).push(raw@[i as int]@));
            assert(views(parts@) =~= views(raw@).take(i + 1).map_values(
                |p: Seq<char>| norm_token(p),
            ));
            i += 1;
        }
        assert(views(raw@).take(raw.len() as int) =~= views(raw@));
        let ghost gparts = modifier_parts(self.modifier@);
        assert(views(parts@) == gparts);
        let key_value = normalize_token(self.key.as_str());
        let no_modifier = parts.len() == 1 && is_no_modifier_token(parts[0].as_str());
        if str_eq(key_value.as_str(), "f8") && no_modifier {
            return HotkeyModeConfig::Known(HotkeyMode::F8Hold);
        }
        let modifier_has_ctrl = any_part_is(&parts, true);
        let modifier_has_shift = any_part_is(&parts, false);
        let key_is_ctrl = is_ctrl_token(key_value.as_str());
        let key_is_shift = is_shift_token(key_value.as_str());
        if (modifier_has_ctrl && key_is_shift) || (modifier_has_shift && key_is_ctrl) {
            return HotkeyModeConfig::Known(HotkeyMode::CtrlShiftHold);
        }
        HotkeyModeConfig::Unknown
    }
}

/// Whether a key is either Ctrl key.
pub open spec fn spec_is_ctrl_key(k: KeyKind) -> bool {
    k == KeyKind::ControlLeft || k == KeyKind::ControlRight
}

/// Whether a key is either Shift key.
pub open spec fn spec_is_shift_key(k: KeyKind) -> bool {
    k == KeyKind::ShiftLeft || k == KeyKind::ShiftRight
}

/// Whether `key` is a Ctrl key (left or right).
pub fn is_ctrl_key(key: KeyKind) -> (r: bool)
    ensures
        r == spec_is_ctrl_key(key),
{
    matches!(key, KeyKind::ControlLeft | KeyKind::ControlRight)
}

/// Whether `key` is a Shift key (left or right).
pub fn is_shift_key(key: KeyKind) -> (r: bool)
    ensures
        r == spec_is_shift_key(key),
{
    matches!(key, KeyKind::ShiftLeft | KeyKind::ShiftRight)
}

/// Whether `key` is F8.
pub fn is_f8_key(key: KeyKind) -> (r: bool)
    ensures
        r == (key == KeyKind::F8),
{
    key == KeyKind::F8
}

/// Which relevant keys are down, and whether the push-to-talk gesture is
/// active (its `Pressed` has been reported and its `Released` not yet).
#[derive(Clone, Copy, Debug, PartialEq, Eq, Structural)]
pub struct HotkeyTracker {
    pub f8_down: bool,
    pub ctrl_down: bool,
    pub shift_down: bool,
    pub ptt_down: bool,
}

/// A push-to-talk edge: `true` for `Pressed`, `false` for `Released`.
pub open spec fn edge_event(pressed: bool) -> HotkeyEvent {
    if pressed {
        HotkeyEvent::Pressed
    } else {
        HotkeyEvent::Released
    }
}

/// The tracker after a key event in `mode`, and the push-to-talk edge it
/// reports (`Some(true)` for `Pressed`, `Some(false)` for `Released`).
///
/// A key press sets that key's flag. In F8 mode the first F8 press starts the
/// gesture (repeats while held are ignored). In Ctrl+Shift mode a Ctrl press
/// while Shift is down, or a Shift press while Ctrl is down, starts it. A
/// release of a Ctrl or Shift key clears that key's flag. The gesture ends,
/// if it was active, only on the release of its own key: F8 in F8 mode, a
/// Ctrl or Shift key in Ctrl+Shift mode. Other keys change nothing.
pub open spec fn spec_step(t: HotkeyTracker, mode: HotkeyMode, ev: KeyEvent) -> (
    HotkeyTracker,
    Option<bool>,
) {
    match ev {
        KeyEvent::Press(k) => {
            if mode == HotkeyMode::F8Hold && k == KeyKind::F8 {
                if t.f8_down {
                    (t, None)
                } else if t.ptt_down {
                    (HotkeyTracker { f8_down: true, ..t }, None)
                } else {
                    (HotkeyTracker { f8_down: true, ptt_down: true, ..t }, Some(true))
                }
            } else if spec_is_ctrl_key(k) {
                if mode == HotkeyMode::CtrlShiftHold && t.shift_down && !t.ptt_down {
                    (HotkeyTracker { ctrl_down: true, ptt_down: true, ..t }, Some(true))
                } else {
                    (HotkeyTracker { ctrl_down: true, ..t }, None)
                }
            } else if spec_is_shift_key(k) {
                if mode == HotkeyMode::CtrlShiftHold && t.ctrl_down && !t.ptt_down {
                    (HotkeyTracker { shift_down: true, ptt_down: true, ..t }, Some(true))
                } else {
                    (HotkeyTracker { shift_down: true, ..t }, None)
                }
            } else {
                (t, None)
            }
        },
        KeyEvent::Release(k) => {
            let edge = if t.ptt_down {
                Some(false)
            } else {
                None
            };
            if mode == HotkeyMode::F8Hold && k == KeyKind::F8 {
                (HotkeyTracker { f8_down: false, ptt_down: false, ..t }, edge)
            } else if spec_is_ctrl_key(k) {
                if mode == HotkeyMode::CtrlShiftHold {
                    (HotkeyTracker { ctrl_down: false, ptt_down: false, ..t }, edge)
                } else {
                    (HotkeyTracker { ctrl_down: false, ..t }, None)
                }
            } else if spec_is_shift_key(k) {
                if mode == HotkeyMode::CtrlShiftHold {
                    (HotkeyTracker { shift_down: false, ptt_down: false, ..t }, edge)
                } else {
                    (HotkeyTracker { shift_down: false, ..t }, None)
                }
            } else {
                (t, None)
            }
        },
    }
}

impl HotkeyTracker {
    /// No key down, gesture inactive.
    pub fn new() -> (r: HotkeyTracker)
        ensures
            !r.f8_down && !r.ctrl_down && !r.shift_down && !r.ptt_down,
    {
        HotkeyTracker { f8_down: false, ctrl_down: false, shift_down: false, ptt_down: false }
    }

    /// Applies a key event and returns the push-to-talk event it reports, if
    /// any.
    pub fn on_key(&mut self, mode: HotkeyMode, event: KeyEvent) -> (r: Option<HotkeyEvent>)
        ensures
            *final(self) == spec_step(*old(self), mode, event).0,
            match spec_step(*old(self), mode, event).1 {
                Some(p) => r == Some(edge_event(p)),
                None => r is None,
            },
    {
        match event {
            KeyEvent::Press(key) => {
                if mode == HotkeyMode::F8Hold && is_f8_key(key) {
                    let was_down = self.f8_down;
                    self.f8_down = true;
                    if !was_down {
                        let was_pressed = self.ptt_down;
                        self.ptt_down = true;
                        if !was_pressed {
                            return Some(HotkeyEvent::Pressed);
                        }
                    }
                    return None;
                }
                if is_ctrl_key(key) {
                    self.ctrl_down = true;
                    if mode == HotkeyMode::CtrlShiftHold && self.shift_down {
                        let was_pressed = self.ptt_down;
                        self.ptt_down = true;
                        if !was_pressed {
                            return Some(HotkeyEvent::Pressed);
                        }
                    }
                    return None;
                }
                if is_shift_key(key) {
                    self.shift_down = true;
                    if mode == HotkeyMode::CtrlShiftHold && self.ctrl_down {
                        let was_pressed = self.ptt_down;
                        self.ptt_down = true;
                        if !was_pressed {
                            return Some(HotkeyEvent::Pressed);
                        }
                    }
                }
                None
            },
            KeyEvent::Release(key) => {
                if mode == HotkeyMode::F8Hold && is_f8_key(key) {
                    self.f8_down = false;
                    let was_pressed = self.ptt_down;
                    self.ptt_down = false;
                    if was_pressed {
                        return Some(HotkeyEvent::Released);
                    }
                    return None;
                }
                if is_ctrl_key(key) {
                    self.ctrl_down = false;
                    if mode == HotkeyMode::CtrlShiftHold {
                        let was_pressed = self.ptt_down;
                        self.ptt_down = false;
                        if was_pressed {
                            return Some(HotkeyEvent::Released);
                        }
                    }
                    return None;
                }
                if is_shift_key(key) {
                    self.shift_down = false;
                    if mode == HotkeyMode::CtrlShiftHold {
                        let was_pressed = self.ptt_down;
                        self.ptt_down = false;
                        if was_pressed {
                            return Some(HotkeyEvent::Released);
                        }
                    }
                }
                None
            },
        }
    }
}

/// The tracker after a sequence of key events, and the push-to-talk edges
/// reported along the way, in order.
pub open spec fn spec_run(t: HotkeyTracker, mode: HotkeyMode, events: Seq<KeyEvent>) -> (
    HotkeyTracker,
    Seq<bool>,
)
    decreases events.len(),
{
    if events.len() == 0 {
        (t, Seq::<bool>::empty())
    } else {
        let (mid, edges) = spec_run(t, mode, events.drop_last());
        let (after, e) = spec_step(mid, mode, events.last());
        match e {
            Some(p) => (after, edges.push(p)),
            None => (after, edges),
        }
    }
}

/// A reported `Pressed` always starts an inactive gesture and a reported
/// `Released` always ends an active one; an event that reports nothing leaves
/// the gesture as it was.
pub proof fn lemma_edges_toggle_gesture(t: HotkeyTracker, mode: HotkeyMode, ev: KeyEvent)
    ensures
        spec_step(t, mode, ev).1 == Some(true) ==> !t.ptt_down && spec_step(t, mode, ev).0.ptt_down,
        spec_step(t, mode, ev).1 == Some(false) ==> t.ptt_down && !spec_step(t, mode, ev).0.ptt_down,
        spec_step(t, mode, ev).1 is None ==> spec_step(t, mode, ev).0.ptt_down == t.ptt_down,
{
}

/// From a tracker with the gesture inactive, the reported events alternate
/// `Pressed`, `Released`, `Pressed`, ... whatever keys are pressed and
/// released, and the gesture is active exactly when an odd number of events
/// has been reported.
pub proof fn lemma_events_alternate(t: HotkeyTracker, mode: HotkeyMode, events: Seq<KeyEvent>)
    requires
        !t.ptt_down,
    ensures
        forall|i: int|
            0 <= i < spec_run(t, mode, events).1.len() ==> (#[trigger] spec_run(t, mode, events).1[i])
                == (i % 2 == 0),
        spec_run(t, mode, events).0.ptt_down == (spec_run(t, mode, events).1.len() % 2 == 1),
    decreases events.len(),
{
    if events.len() > 0 {
        lemma_events_alternate(t, mode, events.drop_last());
        let (mid, edges) = spec_run(t, mode, events.drop_last());
        lemma_edges_toggle_gesture(mid, mode, events.last());
    }
}

/// In F8 mode only a press of F8 starts the gesture.
pub proof fn lemma_f8_mode_starts_on_f8(t: HotkeyTracker, ev: KeyEvent)
    ensures
        spec_step(t, HotkeyMode::F8Hold, ev).1 == Some(true) ==> ev == KeyEvent::Press(KeyKind::F8),
{
}

/// The gesture starts on whichever key completes it: in Ctrl+Shift mode a
/// press of either Ctrl key while a Shift key is held, or of either Shift key
/// while a Ctrl key is held, starts an inactive gesture; in F8 mode the first
/// F8 press does. Releasing the gesture's own key ends an active gesture.
pub proof fn lemma_gesture_starts_and_ends(t: HotkeyTracker, k: KeyKind)
    ensures
        spec_is_ctrl_key(k) && t.shift_down && !t.ptt_down ==> spec_step(
            t,
            HotkeyMode::CtrlShiftHold,
            KeyEvent::Press(k),
        ).1 == Some(true) && spec_step(t, HotkeyMode::CtrlShiftHold, KeyEvent::Press(k)).0.ptt_down,
        spec_is_shift_key(k) && t.ctrl_down && !t.ptt_down ==> spec_step(
            t,
            HotkeyMode::CtrlShiftHold,
            KeyEvent::Press(k),
        ).1 == Some(true) && spec_step(t, HotkeyMode::CtrlShiftHold, KeyEvent::Press(k)).0.ptt_down,
        !t.f8_down && !t.ptt_down ==> spec_step(t, HotkeyMode::F8Hold, KeyEvent::Press(KeyKind::F8)).1
            == Some(true),
        (spec_is_ctrl_key(k) || spec_is_shift_key(k)) && t.ptt_down ==> spec_step(
            t,
            HotkeyMode::CtrlShiftHold,
            KeyEvent::Release(k),
        ).1 == Some(false),
        t.ptt_down ==> spec_step(t, HotkeyMode::F8Hold, KeyEvent::Release(KeyKind::F8)).1 == Some(
            false,
        ),
{
}

/// A configured gesture is used as configured; only an unknown one falls back
/// to F8 hold.
pub proof fn lemma_effective_keeps_known(m: HotkeyMode)
    ensures
        HotkeyModeConfig::Known(m).spec_effective() == m,
        HotkeyModeConfig::Unknown.spec_effective() == HotkeyMode::F8Hold,
{
}

/// A text without the separator splits into itself alone.
pub proof fn lemma_split_without_separator(s: Seq<char>, sep: char)
    requires
        !s.contains(sep),
    ensures
        split_seq(s, sep) == seq![s],
    decreases s.len(),
{
    if s.len() > 0 {
        let d = s.drop_last();
        assert(!d.contains(sep)) by {
            if d.contains(sep) {
                let i = choose|i: int| 0 <= i < d.len() && d[i] == sep;
                assert(s[i] == sep);
            }
        }
        lemma_split_without_separator(d, sep);
        assert(s.last() != sep) by {
            assert(s[s.len() - 1] == s.last());
        }
        assert(d.push(s.last()) =~= s);
        let rest = split_seq(d, sep);
        assert(rest.len() == 1 && rest.last() == d);
        assert(split_seq(s, sep) == rest.update(rest.len() - 1, rest.last().push(s.last())));
        assert(rest.update(0, d.push(s.last())) =~= seq![s]);
    } else {
        assert(s =~= Seq::<char>::empty());
    }
}

/// A lower-case token with no white space and no `+` is its own normal form
/// and the modifier's only part.
proof fn lemma_plain_token(s: Seq<char>)
    requires
        s.len() > 0,
        !s.contains('+'),
        forall|i: int| 0 <= i < s.len() ==> !is_white_space(#[trigger] s[i]) && !('A' <= s[i]
            && s[i] <= 'Z'),
    ensures
        norm_token(s) == s,
        modifier_parts(s) == seq![s],
{
    assert(!is_white_space(s[0]));
    assert(!is_white_space(s[s.len() - 1]));
    assert(trim_start_seq(s) == s);
    assert(trim_end_seq(s) == s);
    assert(lower_seq(s) =~= s);
    lemma_split_without_separator(s, '+');
    assert(seq![s].map_values(|p: Seq<char>| norm_token(p)) =~= seq![s]);
}

/// The default hotkey (modifier `none`, key `f8`) is F8 hold, and the
/// recommended one (modifier `rctrl`, key `rshift`) is Ctrl+Shift hold.
pub proof fn lemma_documented_hotkeys()
    ensures
        spec_mode("none"@, "f8"@) == HotkeyModeConfig::Known(HotkeyMode::F8Hold),
        spec_mode("rctrl"@, "rshift"@) == HotkeyModeConfig::Known(HotkeyMode::CtrlShiftHold),
        spec_mode("none"@, "f8"@).spec_effective() == HotkeyMode::F8Hold,
{
    reveal_strlit("none");
    reveal_strlit("f8");
    reveal_strlit("rctrl");
    reveal_strlit("rshift");
    lemma_plain_token("none"@);
    lemma_plain_token("f8"@);
    lemma_plain_token("rctrl"@);
    lemma_plain_token("rshift"@);
    let parts = modifier_parts("rctrl"@);
    assert(parts[0] == "rctrl"@);
    assert(ctrl_tokens()[3] == "rctrl"@);
    assert(ctrl_tokens().contains(parts[0]));
    assert(any_part_in(parts, ctrl_tokens()));
    assert(shift_tokens()[2] == "rshift"@);
    assert(shift_tokens().contains(norm_token("rshift"@)));
    assert(no_modifier_tokens()[0] == "none"@);
    assert(no_modifier_tokens().contains(modifier_parts("none"@)[0]));
    assert("rshift"@ != "f8"@);
}

/// The gesture ends only when its own key comes up: F8 in F8 mode (releasing
/// Ctrl or Shift while F8 is held does not end it), a Ctrl or Shift key in
/// Ctrl+Shift mode.
pub proof fn lemma_gesture_ends_on_own_key(t: HotkeyTracker, mode: HotkeyMode, ev: KeyEvent)
    ensures
        spec_step(t, mode, ev).1 == Some(false) ==> match ev {
            KeyEvent::Release(k) => if mode == HotkeyMode::F8Hold {
                k == KeyKind::F8
            } else {
                spec_is_ctrl_key(k) || spec_is_shift_key(k)
            },
            KeyEvent::Press(_) => false,
        },
        mode == HotkeyMode::F8Hold && t.ptt_down && ev != KeyEvent::Release(KeyKind::F8)
            ==> spec_step(t, mode, ev).0.ptt_down,
{
}

/// In Ctrl+Shift mode the gesture starts only when a Ctrl key goes down while
/// a Shift key is held, or a Shift key goes down while a Ctrl key is held.
pub proof fn lemma_ctrl_shift_mode_starts_on_chord(t: HotkeyTracker, ev: KeyEvent)
    ensures
        spec_step(t, HotkeyMode::CtrlShiftHold, ev).1 == Some(true) ==> match ev {
            KeyEvent::Press(k) => (spec_is_ctrl_key(k) && t.shift_down) || (spec_is_shift_key(k)
                && t.ctrl_down),
            KeyEvent::Release(_) => false,
        },
{
}

} // verus!
