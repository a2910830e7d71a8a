use hermes::typing::{
    check_sent, chord_inputs, release_modifier_inputs, unicode_inputs, KeyInput, PasteStyle,
    TextTyper, VK_CONTROL, VK_SHIFT, VK_V,
};

fn vk(k: u16, up: bool) -> KeyInput {
    KeyInput { virtual_key: k, scan_code: 0, unicode: false, key_up: up }
}

fn uni(u: u16, up: bool) -> KeyInput {
    KeyInput { virtual_key: 0, scan_code: u, unicode: true, key_up: up }
}

#[test]
fn empty_text_needs_no_typing() {
    assert!(TextTyper::new().type_text("", PasteStyle::Standard).is_none());
}

#[test]
fn standard_paste_plan() {
    let plan = TextTyper::new().type_text("hi", PasteStyle::Standard).unwrap();
    assert_eq!(plan.clipboard_text, "hi");
    assert_eq!(plan.settle_ms, 8);
    assert_eq!(plan.clipboard_settle_ms, 12);
    assert_eq!(
        plan.paste_chord,
        vec![vk(VK_CONTROL, false), vk(VK_V, false), vk(VK_V, true), vk(VK_CONTROL, true)]
    );
    assert_eq!(
        plan.unicode_fallback,
        vec![uni('h' as u16, false), uni('h' as u16, true), uni('i' as u16, false), uni('i' as u16, true)]
    );
    assert_eq!(plan.release_modifiers.len(), 11);
    assert!(plan.release_modifiers.iter().all(|k| k.key_up && !k.unicode));
    assert_eq!(plan.release_modifiers, release_modifier_inputs());
}

#[test]
fn terminal_paste_uses_ctrl_shift_v() {
    let plan = TextTyper::new().type_text("x", PasteStyle::Terminal).unwrap();
    assert_eq!(
        plan.paste_chord,
        vec![
            vk(VK_CONTROL, false),
            vk(VK_SHIFT, false),
            vk(VK_V, false),
            vk(VK_V, true),
            vk(VK_SHIFT, true),
            vk(VK_CONTROL, true),
        ]
    );
    assert_eq!(chord_inputs(&[]), vec![vk(VK_V, false), vk(VK_V, true)]);
}

#[test]
fn astral_characters_type_as_surrogate_pairs() {
    let inputs = unicode_inputs("😀");
    assert_eq!(
        inputs,
        vec![uni(0xD83D, false), uni(0xD83D, true), uni(0xDE00, false), uni(0xDE00, true)]
    );
}

#[test]
fn partial_sends_are_errors() {
    assert!(check_sent(4, 4, "unicode key events").is_ok());
    let e = check_sent(3, 4, "unicode key events").unwrap_err();
    assert_eq!(e.message(), "SendInput wrote only 3 of 4 unicode key events");
}
