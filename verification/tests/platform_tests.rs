use hermes::platform::{
    blank_icon_rgba, capture_foreground_target, is_terminal_window, is_terminal_window_class,
    is_terminal_window_title, paste_style_for, recording_start_sound, recording_stop_sound,
    tray_tooltip, ForegroundTarget, MenuChoice, TrayRequests, TrayStatus, WindowInfo,
};
use hermes::typing::{PasteStyle, TextTyper};

fn info(class: Option<&str>, title: Option<&str>) -> WindowInfo {
    WindowInfo {
        class_name: class.map(str::to_string),
        title: title.map(str::to_string),
    }
}

#[test]
fn terminal_detection() {
    assert!(is_terminal_window_class("CASCADIA_HOSTING_WINDOW_CLASS"));
    assert!(is_terminal_window_class("ConsoleWindowClass"));
    assert!(is_terminal_window_class("mintty"));
    assert!(!is_terminal_window_class("Notepad"));
    assert!(is_terminal_window_title("Administrator: Windows PowerShell"));
    assert!(is_terminal_window_title("user@host: ~ - ZSH"));
    assert!(!is_terminal_window_title("Untitled - Notepad"));
    assert!(is_terminal_window(&info(Some("Notepad"), Some("bash - notes"))));
    assert!(!is_terminal_window(&info(None, None)));
    assert!(ForegroundTarget { window: 7 }.is_terminal(&info(Some("ConsoleWindowClass"), None)));
}

#[test]
fn capture_rules() {
    let notepad = info(Some("Notepad"), Some("notes"));
    let term = info(Some("ConsoleWindowClass"), None);
    assert_eq!(capture_foreground_target(0, 0, false, &notepad), None);
    assert_eq!(capture_foreground_target(5, 5, true, &notepad), None);
    assert_eq!(
        capture_foreground_target(5, 0, false, &notepad),
        Some(ForegroundTarget { window: 5 })
    );
    assert_eq!(capture_foreground_target(5, 9, false, &term), None);
    assert_eq!(
        capture_foreground_target(5, 9, true, &term),
        Some(ForegroundTarget { window: 5 })
    );
    assert_eq!(paste_style_for(true), PasteStyle::Terminal);
    assert_eq!(paste_style_for(false), PasteStyle::Standard);
}

#[test]
fn tray_labels_and_requests() {
    assert_eq!(tray_tooltip(TrayStatus::Idle), "Hermes: Idle");
    assert_eq!(tray_tooltip(TrayStatus::Recording), "Hermes: Recording");
    assert_eq!(tray_tooltip(TrayStatus::Transcribing), "Hermes: Transcribing");
    assert_eq!(tray_tooltip(TrayStatus::Typing), "Hermes: Typing");
    assert_eq!(tray_tooltip(TrayStatus::Error), "Hermes: Error");
    let mut r = TrayRequests::new();
    assert!(!r.take_open_settings_requested());
    r.on_tray_double_click();
    assert!(r.take_open_settings_requested());
    assert!(!r.take_open_settings_requested());
    r.on_menu_choice(MenuChoice::Other);
    assert!(!r.should_quit());
    r.on_menu_choice(MenuChoice::Settings);
    r.on_menu_choice(MenuChoice::Quit);
    assert!(r.should_quit());
    assert!(r.take_open_settings_requested());
    assert_eq!(recording_start_sound(), "SystemAsterisk");
    assert_eq!(recording_stop_sound(), "SystemDefault");
}

#[test]
fn icon_has_dark_border() {
    let rgba = blank_icon_rgba();
    assert_eq!(rgba.len(), 16 * 16 * 4);
    assert_eq!(&rgba[0..4], &[14, 42, 77, 255]);
    let inner = (16 + 1) * 4;
    assert_eq!(&rgba[inner..inner + 4], &[0, 160, 220, 255]);
    let last = (16 * 16 - 1) * 4;
    assert_eq!(&rgba[last..last + 4], &[14, 42, 77, 255]);
}

#[test]
fn typing_plan_follows_the_target_window() {
    let typer = TextTyper::new();
    let target = ForegroundTarget { window: 9 };
    let plan = target
        .typing_plan(&typer, "hi", &info(Some("CASCADIA_HOSTING_WINDOW_CLASS"), None))
        .expect("text to type");
    assert_eq!(plan.paste_label, "terminal clipboard paste key events");
    assert_eq!(plan.paste_chord.len(), 6);
    let plan = target
        .typing_plan(&typer, "hi", &info(Some("Notepad"), Some("notes.txt")))
        .expect("text to type");
    assert_eq!(plan.paste_label, "clipboard paste key events");
    assert_eq!(plan.paste_chord.len(), 4);
    assert_eq!(plan.clipboard_text, "hi");
    assert!(target.typing_plan(&typer, "", &info(None, None)).is_none());
}
