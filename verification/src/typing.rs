//! Typing text into the focused window: the keyboard input sequences that a
//! paste or a character-by-character fallback sends, and the plan that the
//! application carries out with the operating system's input and clipboard
//! services.

use vstd::prelude::*;

use crate::text::{encode_utf16, u64_to_decimal, utf16_seq, decimal_seq};

verus! {

/// How the focused window expects a paste.
#[derive(Clone, Copy, Debug, PartialEq, Eq, Structural)]
pub enum PasteStyle {
    /// Ctrl+V.
    Standard,
    /// Ctrl+Shift+V, as terminals expect.
    Terminal,
}

/// Windows virtual-key codes used here (values from `WinUser.h`).
pub const VK_SHIFT: u16 = 0x10;
pub const VK_CONTROL: u16 = 0x11;
pub const VK_MENU: u16 = 0x12;
pub const VK_V: u16 = 0x56;
pub const VK_LWIN: u16 = 0x5B;
pub const VK_RWIN: u16 = 0x5C;
pub const VK_LSHIFT: u16 = 0xA0;
pub const VK_RSHIFT: u16 = 0xA1;
pub const VK_LCONTROL: u16 = 0xA2;
pub const VK_RCONTROL: u16 = 0xA3;
pub const VK_LMENU: u16 = 0xA4;
pub const VK_RMENU: u16 = 0xA5;

/// One synthetic keyboard event: either a virtual key, or (when `unicode`) a
/// UTF-16 code unit carried in `scan_code`; `key_up` tells release from press.
#[derive(Clone, Copy, Debug, PartialEq, Eq, Structural)]
pub struct KeyInput {
    pub virtual_key: u16,
    pub scan_code: u16,
    pub unicode: bool,
    pub key_up: bool,
}

/// The event for one UTF-16 code unit going down or up.
pub open spec fn spec_unicode_key(code_unit: u16, key_up: bool) -> KeyInput {
    KeyInput { virtual_key: 0, scan_code: code_unit, unicode: true, key_up }
}

/// The event for a virtual key going down or up.
pub open spec fn spec_virtual_key(vk: u16, key_up: bool) -> KeyInput {
    KeyInput { virtual_key: vk, scan_code: 0, unicode: false, key_up }
}

/// The event for one UTF-16 code unit going down (`keyup == false`) or up.
pub fn unicode_key_input(code_unit: u16, keyup: bool) -> (r: KeyInput)
    ensures
        r == spec_unicode_key(code_unit, keyup),
{
    KeyInput { virtual_key: 0, scan_code: code_unit, unicode: true, key_up: keyup }
}

/// The event for a virtual key going down (`keyup == false`) or up.
pub fn virtual_key_input(vk: u16, keyup: bool) -> (r: KeyInput)
    ensures
        r == spec_virtual_key(vk, keyup),
{
    KeyInput { virtual_key: vk, scan_code: 0, unicode: false, key_up: keyup }
}

/// Each code unit pressed and released, in order.
pub open spec fn spec_unicode_inputs(units: Seq<u16>) -> Seq<KeyInput>
    decreases units.len(),
{
    if units.len() == 0 {
        Seq::<KeyInput>::empty()
    } else {
        spec_unicode_inputs(units.drop_last()) + seq![
            spec_unicode_key(units.last(), false),
            spec_unicode_key(units.last(), true),
        ]
    }
}

/// The events that type `text` character by character: each UTF-16 code unit
/// pressed and released, in order.
pub fn unicode_inputs(text: &str) -> (r: Vec<KeyInput>)
    ensures
        r@ == spec_unicode_inputs(utf16_seq(text@)),
{
    let units = encode_utf16(text);
    let mut inputs: Vec<KeyInput> = Vec::new();
    let mut i: usize = 0;
    while i < units.len()
        invariant
            i <= units.len(),
            inputs@ == spec_unicode_inputs(units@.take(i as int)),
        decreases units.len() - i,
    {
        let u = units[i];
        inputs.push(unicode_key_input(u, false));
        inputs.push(unicode_key_input(u, true));
        assert(units@.take(i + 1).drop_last() == units@.take(i as int));
        assert(inputs@ =~= spec_unicode_inputs(units@.take(i + 1)));
        i += 1;
    }
    assert(units@.take(units.len() as int) == units@);
    inputs
}

/// Each modifier pressed in order, V pressed and released, then the
/// modifiers released in reverse order.
pub open spec fn spec_chord(modifiers: Seq<u16>) -> Seq<KeyInput> {
    modifiers.map_values(|m: u16| spec_virtual_key(m, false)) + seq![
        spec_virtual_key(VK_V, false),
        spec_virtual_key(VK_V, true),
    ] + modifiers.reverse().map_values(|m: u16| spec_virtual_key(m, true))
}

/// The events of a paste chord: the modifiers down, V down and up, the
/// modifiers up in reverse order.
pub fn chord_inputs(modifiers: &[u16]) -> (r: Vec<KeyInput>)
    ensures
        r@ == spec_chord(modifiers@),
{
    let mut inputs: Vec<KeyInput> = Vec::new();
    let mut i: usize = 0;
    while i < modifiers.len()
        invariant
            i <= modifiers@.len(),
            inputs@ == modifiers@.take(i as int).map_values(|m: u16| spec_virtual_key(m, false)),
        decreases modifiers.len() - i,
    {
        inputs.push(virtual_key_input(modifiers[i], false));
        assert(modifiers@.take(i + 1) == modifiers@.take(i as int).push(modifiers@[i as int]));
        assert(inputs@ =~= modifiers@.take(i + 1).map_values(|m: u16| spec_virtual_key(m, false)));
        i += 1;
    }
    assert(modifiers@.take(modifiers@.len() as int) == modifiers@);
    inputs.push(virtual_key_input(VK_V, false));
    inputs.push(virtual_key_input(VK_V, true));
    let ghost head = modifiers@.map_values(|m: u16| spec_virtual_key(m, false)) + seq![
        spec_virtual_key(VK_V, false),
        spec_virtual_key(VK_V, true),
    ];
    assert(inputs@ =~= head);
    let mut j: usize = modifiers.len();
    while j > 0
        invariant
            j <= modifiers@.len(),
            inputs@ == head + modifiers@.reverse().take(modifiers@.len() - j).map_values(
                |m: u16| spec_virtual_key(m, true),
            ),
        decreases j,
    {
        let ghost n = modifiers@.len();
        let ghost before = inputs@;
        inputs.push(virtual_key_input(modifiers[j - 1], true));
        assert(modifiers@.reverse()[n - j] == modifiers@[j - 1]);
        assert(modifiers@.reverse().take(n - j + 1) =~= modifiers@.reverse().take(n - j).push(
            modifiers@[j - 1],
        ));
        assert(inputs@ =~= head + modifiers@.reverse().take(n - (j - 1)).map_values(
            |m: u16| spec_virtual_key(m, true),
        ));
        j -= 1;
    }
    assert(modifiers@.reverse().take(modifiers@.len() as int) =~= modifiers@.reverse());
    inputs
}

/// The modifiers held during a paste: Ctrl, plus Shift for terminals.
pub open spec fn spec_paste_modifiers(style: PasteStyle) -> Seq<u16> {
    match style {
        PasteStyle::Standard => seq![VK_CONTROL],
        PasteStyle::Terminal => seq![VK_CONTROL, VK_SHIFT],
    }
}

/// The modifier keys released before typing: both Ctrl, Shift, Alt and
/// Windows keys, generic and sided.
pub open spec fn spec_released_modifiers() -> Seq<u16> {
    seq![
        VK_CONTROL,
        VK_LCONTROL,
        VK_RCONTROL,
        VK_SHIFT,
        VK_LSHIFT,
        VK_RSHIFT,
        VK_MENU,
        VK_LMENU,
        VK_RMENU,
        VK_LWIN,
        VK_RWIN,
    ]
}

/// Key-up events for every modifier that might still be held from the
/// hotkey, so that the paste is not combined with them.
pub fn release_modifier_inputs() -> (r: Vec<KeyInput>)
    ensures
        r@ == spec_released_modifiers().map_values(|m: u16| spec_virtual_key(m, true)),
{
    let modifiers: [u16; 11] = [
        VK_CONTROL,
        VK_LCONTROL,
        VK_RCONTROL,
        VK_SHIFT,
        VK_LSHIFT,
        VK_RSHIFT,
        VK_MENU,
        VK_LMENU,
        VK_RMENU,
        VK_LWIN,
        VK_RWIN,
    ];
    assert(modifiers@ =~= spec_released_modifiers());
    let mut inputs: Vec<KeyInput> = Vec::new();
    let mut i: usize = 0;
    while i < 11
        invariant
            i <= 11,
            modifiers@ == spec_released_modifiers(),
            inputs@ == modifiers@.take(i as int).map_values(|m: u16| spec_virtual_key(m, true)),
        decreases 11 - i,
    {
        inputs.push(virtual_key_input(modifiers[i], true));
        assert(modifiers@.take(i + 1) == modifiers@.take(i as int).push(modifiers@[i as int]));
        assert(inputs@ =~= modifiers@.take(i + 1).map_values(|m: u16| spec_virtual_key(m, true)));
        i += 1;
    }
    assert(modifiers@.take(11) == modifiers@);
    inputs
}

/// The paste chord for a style: Ctrl+V, or Ctrl+Shift+V for terminals.
pub fn paste_chord_inputs(style: PasteStyle) -> (r: Vec<KeyInput>)
    ensures
        r@ == spec_chord(spec_paste_modifiers(style)),
{
    match style {
        PasteStyle::Standard => {
            let m: [u16; 1] = [VK_CONTROL];
            assert(m@ =~= spec_paste_modifiers(style));
            chord_inputs(&m)
        },
        PasteStyle::Terminal => {
            let m: [u16; 2] = [VK_CONTROL, VK_SHIFT];
            assert(m@ =~= spec_paste_modifiers(style));
            chord_inputs(&m)
        },
    }
}

/// A standard paste is Ctrl down, V down, V up, Ctrl up; a terminal paste is
/// Ctrl down, Shift down, V down, V up, Shift up, Ctrl up.
pub proof fn lemma_paste_chords()
    ensures
        spec_chord(spec_paste_modifiers(PasteStyle::Standard)) == seq![
            spec_virtual_key(VK_CONTROL, false),
            spec_virtual_key(VK_V, false),
            spec_virtual_key(VK_V, true),
            spec_virtual_key(VK_CONTROL, true),
        ],
        spec_chord(spec_paste_modifiers(PasteStyle::Terminal)) == seq![
            spec_virtual_key(VK_CONTROL, false),
            spec_virtual_key(VK_SHIFT, false),
            spec_virtual_key(VK_V, false),
            spec_virtual_key(VK_V, true),
            spec_virtual_key(VK_SHIFT, true),
            spec_virtual_key(VK_CONTROL, true),
        ],
{
    let one = seq![VK_CONTROL];
    let two = seq![VK_CONTROL, VK_SHIFT];
    assert(one.reverse() =~= one);
    assert(two.reverse() =~= seq![VK_SHIFT, VK_CONTROL]);
    assert(spec_chord(one) =~= seq![
        spec_virtual_key(VK_CONTROL, false),
        spec_virtual_key(VK_V, false),
        spec_virtual_key(VK_V, true),
        spec_virtual_key(VK_CONTROL, true),
    ]);
    assert(spec_chord(two) =~= seq![
        spec_virtual_key(VK_CONTROL, false),
        spec_virtual_key(VK_SHIFT, false),
        spec_virtual_key(VK_V, false),
        spec_virtual_key(VK_V, true),
        spec_virtual_key(VK_SHIFT, true),
        spec_virtual_key(VK_CONTROL, true),
    ]);
}

/// Every text is typed by a press and a release per UTF-16 code unit, the
/// press first.
pub proof fn lemma_unicode_inputs_pair_up(units: Seq<u16>)
    ensures
        spec_unicode_inputs(units).len() == 2 * units.len(),
        forall|i: int|
            0 <= i < units.len() ==> #[trigger] spec_unicode_inputs(units)[2 * i] == spec_unicode_key(
                units[i],
                false,
            ) && spec_unicode_inputs(units)[2 * i + 1] == spec_unicode_key(units[i], true),
    decreases units.len(),
{
    if units.len() > 0 {
        lemma_unicode_inputs_pair_up(units.drop_last());
        let n = units.len() - 1;
        assert forall|i: int| 0 <= i < units.len() implies #[trigger] spec_unicode_inputs(units)[2
            * i] == spec_unicode_key(units[i], false) && spec_unicode_inputs(units)[2 * i + 1]
            == spec_unicode_key(units[i], true) by {
            if i < n {
                assert(units.drop_last()[i] == units[i]);
                assert(spec_unicode_inputs(units.drop_last())[2 * i] == spec_unicode_key(
                    units.drop_last()[i],
                    false,
                ));
            }
        }
    }
}

/// What typing one piece of text takes, in the order the application carries
/// it out: send `release_modifiers` (stop on failure), wait `settle_ms`, put
/// `clipboard_text` on the clipboard, wait `clipboard_settle_ms`, send
/// `paste_chord` (named `paste_label` in an error); if setting the clipboard
/// or sending the chord fails, send `unicode_fallback` instead (stop on
/// failure).
#[derive(Clone, Debug)]
pub struct TypingPlan {
    pub release_modifiers: Vec<KeyInput>,
    pub settle_ms: u64,
    pub clipboard_text: String,
    pub clipboard_settle_ms: u64,
    pub paste_chord: Vec<KeyInput>,
    pub paste_label: String,
    pub unicode_fallback: Vec<KeyInput>,
}

/// How a paste's key events are named in an error message.
pub open spec fn spec_paste_label(style: PasteStyle) -> Seq<char> {
    match style {
        PasteStyle::Standard => "clipboard paste key events"@,
        PasteStyle::Terminal => "terminal clipboard paste key events"@,
    }
}

/// The name of a paste's key events in an error message.
pub fn paste_label(style: PasteStyle) -> (r: String)
    ensures
        r@ == spec_paste_label(style),
{
    match style {
        PasteStyle::Standard => String::from_str("clipboard paste key events"),
        PasteStyle::Terminal => String::from_str("terminal clipboard paste key events"),
    }
}

/// Whether `p` types `text` with the given paste style: every modifier
/// released, an 8 ms pause, `text` on the clipboard, a 12 ms pause, the
/// style's paste chord, and the text's code units as the fallback.
pub open spec fn is_plan_for(p: TypingPlan, text: Seq<char>, style: PasteStyle) -> bool {
    &&& p.release_modifiers@ == spec_released_modifiers().map_values(
        |m: u16| spec_virtual_key(m, true),
    )
    &&& p.settle_ms == 8
    &&& p.clipboard_text@ == text
    &&& p.clipboard_settle_ms == 12
    &&& p.paste_chord@ == spec_chord(spec_paste_modifiers(style))
    &&& p.paste_label@ == spec_paste_label(style)
    &&& p.unicode_fallback@ == spec_unicode_inputs(utf16_seq(text))
}

/// Types text into the focused window.
#[derive(Clone, Copy, Debug)]
pub struct TextTyper;

impl TextTyper {
    /// A typer.
    pub fn new() -> (r: TextTyper) {
        TextTyper
    }

    /// The plan for typing `text` with the given paste style, or `None` when
    /// `text` is empty and there is nothing to do.
    pub fn type_text(&self, text: &str, paste_style: PasteStyle) -> (r: Option<TypingPlan>)
        ensures
            text@.len() == 0 <==> r is None,
            r matches Some(p) ==> is_plan_for(p, text@, paste_style),
    {
        if text.is_empty() {
            return None;
        }
        Some(
            TypingPlan {
                release_modifiers: release_modifier_inputs(),
                settle_ms: 8,
                clipboard_text: String::from_str(text),
                clipboard_settle_ms: 12,
                paste_chord: paste_chord_inputs(paste_style),
                paste_label: paste_label(paste_style),
                unicode_fallback: unicode_inputs(text),
            },
        )
    }
}

/// A batch of keyboard events that the system accepted only in part.
#[derive(Clone, Debug)]
pub struct SendShortfall {
    pub sent: u32,
    pub expected: usize,
    pub label: String,
}

/// Whether a batch of `expected` events went through, given that the system
/// reports `sent` of them accepted (`SendInput` compares against the count
/// taken as a `u32`).
pub fn check_sent(sent: u32, expected: usize, label: &str) -> (r: Result<(), SendShortfall>)
    ensures
        r is Ok <==> sent == expected as u32,
        r matches Err(e) ==> e.sent == sent && e.expected == expected && e.label@ == label@,
{
    if sent != expected as u32 {
        return Err(SendShortfall { sent, expected, label: String::from_str(label) });
    }
    Ok(())
}

impl SendShortfall {
    /// `SendInput wrote only {sent} of {expected} {label}`.
    pub fn message(&self) -> (r: String)
        ensures
            r@ == "SendInput wrote only "@ + decimal_seq(self.sent as nat) + " of "@ + decimal_seq(
                self.expected as nat,
            ) + " "@ + self.label@,
    {
        let mut m = String::from_str("SendInput wrote only ");
        let a = u64_to_decimal(self.sent as u64);
        m.append(a.as_str());
        m.append(" of ");
        let b = u64_to_decimal(self.expected as u64);
        m.append(b.as_str());
        m.append(" ");
        m.append(self.label.as_str());
        m
    }
}

} // verus!
