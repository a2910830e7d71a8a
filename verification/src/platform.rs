//! The desktop side of the application as decisions on plain values: the
//! tray's tooltip and its pending requests, which foreground window may
//! receive text and whether it is a terminal, the tray icon's pixels, and the
//! sounds that mark recording.

use vstd::prelude::*;

use crate::text::{contains, contains_seq, lower_seq, to_ascii_lowercase};
use crate::typing::{is_plan_for, PasteStyle, TextTyper, TypingPlan};

verus! {

/// What the tray shows.
#[derive(Clone, Copy, Debug, PartialEq, Eq, Structural)]
pub enum TrayStatus {
    Idle,
    Recording,
    Transcribing,
    Typing,
    Error,
}

/// The tray tooltip for a status.
pub open spec fn spec_tooltip(status: TrayStatus) -> Seq<char> {
    match status {
        TrayStatus::Idle => "Hermes: Idle"@,
        TrayStatus::Recording => "Hermes: Recording"@,
        TrayStatus::Transcribing => "Hermes: Transcribing"@,
        TrayStatus::Typing => "Hermes: Typing"@,
        TrayStatus::Error => "Hermes: Error"@,
    }
}

/// The tray tooltip for a status.
pub fn tray_tooltip(status: TrayStatus) -> (r: &'static str)
    ensures
        r@ == spec_tooltip(status),
{
    match status {
        TrayStatus::Idle => "Hermes: Idle",
        TrayStatus::Recording => "Hermes: Recording",
        TrayStatus::Transcribing => "Hermes: Transcribing",
        TrayStatus::Typing => "Hermes: Typing",
        TrayStatus::Error => "Hermes: Error",
    }
}

/// The tooltip the tray starts with.
pub fn initial_tray_tooltip() -> (r: &'static str)
    ensures
        r@ == spec_tooltip(TrayStatus::Idle),
{
    tray_tooltip(TrayStatus::Idle)
}

/// Which tray menu entry was chosen.
#[derive(Clone, Copy, Debug, PartialEq, Eq, Structural)]
pub enum MenuChoice {
    Settings,
    Quit,
    Other,
}

/// The requests the tray has collected since they were last read.
#[derive(Clone, Copy, Debug, PartialEq, Eq, Structural)]
pub struct TrayRequests {
    pub open_settings_requested: bool,
    pub should_quit: bool,
}

impl TrayRequests {
    /// No request yet.
    pub fn new() -> (r: TrayRequests)
        ensures
            !r.open_settings_requested && !r.should_quit,
    {
        TrayRequests { open_settings_requested: false, should_quit: false }
    }

    /// A double click on the tray icon asks for the settings dialog.
    pub fn on_tray_double_click(&mut self)
        ensures
            final(self).open_settings_requested,
            final(self).should_quit == old(self).should_quit,
    {
        self.open_settings_requested = true;
    }

    /// A menu choice: "Settings" asks for the settings dialog, "Quit" asks to
    /// quit, anything else changes nothing.
    pub fn on_menu_choice(&mut self, choice: MenuChoice)
        ensures
            final(self).open_settings_requested == (old(self).open_settings_requested || choice
                == MenuChoice::Settings),
            final(self).should_quit == (old(self).should_quit || choice == MenuChoice::Quit),
    {
        match choice {
            MenuChoice::Settings => {
                self.open_settings_requested = true;
            },
            MenuChoice::Quit => {
                self.should_quit = true;
            },
            MenuChoice::Other => {},
        }
    }

    /// Whether the settings dialog was asked for; the request is consumed.
    pub fn take_open_settings_requested(&mut self) -> (r: bool)
        ensures
            (r, *final(self)) == spec_take_settings(*old(self)),
    {
        let requested = self.open_settings_requested;
        self.open_settings_requested = false;
        requested
    }

    /// Whether quitting was asked for.
    pub fn should_quit(&self) -> (r: bool)
        ensures
            r == self.should_quit,
    {
        self.should_quit
    }
}

/// Reading the settings request: whether it was pending, and the requests
/// with it cleared.
pub open spec fn spec_take_settings(t: TrayRequests) -> (bool, TrayRequests) {
    (t.open_settings_requested, TrayRequests { open_settings_requested: false, ..t })
}

/// A settings request is answered once: reading it twice in a row yields
/// `false` the second time, and reading never touches the quit request.
pub proof fn lemma_settings_request_taken_once(t: TrayRequests)
    ensures
        !spec_take_settings(spec_take_settings(t).1).0,
        spec_take_settings(t).1.should_quit == t.should_quit,
{
}

/// Window-class fragments that mark a terminal.
pub open spec fn terminal_class_hints() -> Seq<Seq<char>> {
    seq!["console"@, "cascadia"@, "terminal"@, "mintty"@]
}

/// Window-title fragments that mark a terminal.
pub open spec fn terminal_title_hints() -> Seq<Seq<char>> {
    seq![
        "terminal"@,
        "powershell"@,
        "wsl"@,
        "cmd.exe"@,
        "command prompt"@,
        "bash"@,
        "zsh"@,
        "fish"@,
    ]
}

/// Whether the ASCII-lower-cased `s` contains one of `hints`.
pub open spec fn contains_any_hint(s: Seq<char>, hints: Seq<Seq<char>>) -> bool {
    exists|i: int| 0 <= i < hints.len() && contains_seq(lower_seq(s), #[trigger] hints[i])
}

/// Whether the lower-cased `s` contains one of `hints`.
fn contains_any(s: &str, hints: &[&str]) -> (r: bool)
    ensures
        r == (exists|i: int|
            0 <= i < hints@.len() && contains_seq(lower_seq(s@), (#[trigger] hints@[i])@)),
{
    let lower = to_ascii_lowercase(s);
    let mut i: usize = 0;
    while i < hints.len()
        invariant
            lower@ == lower_seq(s@),
            i <= hints@.len(),
            forall|j: int| 0 <= j < i ==> !contains_seq(lower_seq(s@), (#[trigger] hints@[j])@),
        decreases hints.len() - i,
    {
        if contains(lower.as_str(), hints[i]) {
            return true;
        }
        i += 1;
    }
    false
}

/// Whether a window class names a console or terminal host.
pub fn is_terminal_window_class(class: &str) -> (r: bool)
    ensures
        r == contains_any_hint(class@, terminal_class_hints()),
{
    let hints: [&str; 4] = ["console", "cascadia", "terminal", "mintty"];
    let r = contains_any(class, &hints);
    assert(hints@.map_values(|h: &str| h@) =~= terminal_class_hints());
    proof {
        if r {
            let i = choose|i: int|
                0 <= i < hints@.len() && contains_seq(lower_seq(class@), (#[trigger] hints@[i])@);
            assert(contains_seq(lower_seq(class@), terminal_class_hints()[i]));
        }
        if contains_any_hint(class@, terminal_class_hints()) {
            let i = choose|i: int|
                0 <= i < terminal_class_hints().len() && contains_seq(
                    lower_seq(class@),
                    #[trigger] terminal_class_hints()[i],
                );
            assert(contains_seq(lower_seq(class@), hints@[i]@));
        }
    }
    r
}

/// Whether a window title suggests a terminal or shell.
pub fn is_terminal_window_title(title: &str) -> (r: bool)
    ensures
        r == contains_any_hint(title@, terminal_title_hints()),
{
    let hints: [&str; 8] = [
        "terminal",
        "powershell",
        "wsl",
        "cmd.exe",
        "command prompt",
        "bash",
        "zsh",
        "fish",
    ];
    let r = contains_any(title, &hints);
    assert(hints@.map_values(|h: &str| h@) =~= terminal_title_hints());
    proof {
        if r {
            let i = choose|i: int|
                0 <= i < hints@.len() && contains_seq(lower_seq(title@), (#[trigger] hints@[i])@);
            assert(contains_seq(lower_seq(title@), terminal_title_hints()[i]));
        }
        if contains_any_hint(title@, terminal_title_hints()) {
            let i = choose|i: int|
                0 <= i < terminal_title_hints().len() && contains_seq(
                    lower_seq(title@),
                    #[trigger] terminal_title_hints()[i],
                );
            assert(contains_seq(lower_seq(title@), hints@[i]@));
        }
    }
    r
}

/// What the system reports of a window: its class name and its title, each
/// absent when it could not be read or is empty.
#[derive(Clone, Debug)]
pub struct WindowInfo {
    pub class_name: Option<String>,
    pub title: Option<String>,
}

/// Whether a window looks like a terminal: by its class, or else by its
/// title.
pub open spec fn spec_is_terminal(info: WindowInfo) -> bool {
    (info.class_name matches Some(c) && contains_any_hint(c@, terminal_class_hints())) || (
    info.title matches Some(t) && contains_any_hint(t@, terminal_title_hints()))
}

/// Whether the window described by `info` looks like a terminal.
pub fn is_terminal_window(info: &WindowInfo) -> (r: bool)
    ensures
        r == spec_is_terminal(*info),
{
    let by_class = match &info.class_name {
        Some(c) => is_terminal_window_class(c.as_str()),
        None => false,
    };
    by_class || match &info.title {
        Some(t) => is_terminal_window_title(t.as_str()),
        None => false,
    }
}

/// The window that was in front when recording started; text goes there.
/// `window` is the system's handle for it, as an integer.
#[derive(Clone, Copy, Debug, PartialEq, Eq, Structural)]
pub struct ForegroundTarget {
    pub window: usize,
}

impl ForegroundTarget {
    /// The plan for typing `text` into this window once it is back in front,
    /// given what the system now reports of it: a terminal paste for a
    /// terminal, a standard one otherwise; `None` when `text` is empty.
    pub fn typing_plan(&self, typer: &TextTyper, text: &str, info: &WindowInfo) -> (r: Option<
        TypingPlan,
    >)
        ensures
            text@.len() == 0 <==> r is None,
            r matches Some(p) ==> is_plan_for(
                p,
                text@,
                if spec_is_terminal(*info) {
                    PasteStyle::Terminal
                } else {
                    PasteStyle::Standard
                },
            ),
    {
        let style = paste_style_for(self.is_terminal(info));
        typer.type_text(text, style)
    }

    /// Whether this window looks like a terminal, given what the system now
    /// reports of it.
    pub fn is_terminal(&self, info: &WindowInfo) -> (r: bool)
        ensures
            r == spec_is_terminal(*info),
    {
        is_terminal_window(info)
    }
}

/// The window that may receive text: none when no window is in front (handle
/// 0), when the front window is this process's own console, or when it looks
/// like a terminal and terminals are not allowed.
pub open spec fn spec_capture(foreground: usize, console: usize, allow_terminal: bool, info: WindowInfo) -> Option<
    ForegroundTarget,
> {
    if foreground == 0 {
        None
    } else if console != 0 && foreground == console {
        None
    } else if !allow_terminal && spec_is_terminal(info) {
        None
    } else {
        Some(ForegroundTarget { window: foreground })
    }
}

/// Chooses the text target from the front window `foreground`, this
/// process's console window `console` (0 when there is none), whether
/// terminals may receive text, and what the system reports of the front
/// window.
pub fn capture_foreground_target(foreground: usize, console: usize, allow_terminal: bool, info: &WindowInfo) -> (r: Option<ForegroundTarget>)
    ensures
        r == spec_capture(foreground, console, allow_terminal, *info),
{
    if foreground == 0 {
        return None;
    }
    if console != 0 && foreground == console {
        return None;
    }
    if !allow_terminal && is_terminal_window(info) {
        return None;
    }
    Some(ForegroundTarget { window: foreground })
}

/// Which window is captured: none when nothing is in front or the front
/// window is this process's own console; otherwise the front window itself,
/// unless it looks like a terminal and terminals are not allowed. In
/// particular any other window that is not a terminal is always captured,
/// whether or not the process has a console and whatever the terminal setting.
pub proof fn lemma_capture_rules(foreground: usize, console: usize, allow_terminal: bool, info: WindowInfo)
    ensures
        foreground == 0 ==> spec_capture(foreground, console, allow_terminal, info) is None,
        foreground != 0 && foreground == console ==> spec_capture(
            foreground,
            console,
            allow_terminal,
            info,
        ) is None,
        foreground != 0 && foreground != console && !spec_is_terminal(info) ==> spec_capture(
            foreground,
            console,
            allow_terminal,
            info,
        ) == Some(ForegroundTarget { window: foreground }),
        foreground != 0 && foreground != console && allow_terminal ==> spec_capture(
            foreground,
            console,
            allow_terminal,
            info,
        ) == Some(ForegroundTarget { window: foreground }),
        spec_capture(foreground, console, allow_terminal, info) matches Some(t) ==> t.window
            == foreground,
{
}

/// Terminals receive text only when allowed: with terminals not allowed, a
/// window that looks like a terminal is never captured; and allowing them
/// never loses a target that would otherwise be captured.
pub proof fn lemma_terminals_need_permission(foreground: usize, console: usize, info: WindowInfo)
    ensures
        spec_is_terminal(info) ==> spec_capture(foreground, console, false, info) is None,
        spec_capture(foreground, console, false, info) is Some ==> spec_capture(
            foreground,
            console,
            true,
            info,
        ) == spec_capture(foreground, console, false, info),
{
}

/// How to paste into a target: terminals take Ctrl+Shift+V.
pub fn paste_style_for(is_terminal: bool) -> (r: PasteStyle)
    ensures
        r == (if is_terminal {
            PasteStyle::Terminal
        } else {
            PasteStyle::Standard
        }),
{
    if is_terminal {
        PasteStyle::Terminal
    } else {
        PasteStyle::Standard
    }
}

/// The system sound alias played when recording starts.
pub fn recording_start_sound() -> (r: &'static str)
    ensures
        r@ == "SystemAsterisk"@,
{
    "SystemAsterisk"
}

/// The system sound alias played when recording stops.
pub fn recording_stop_sound() -> (r: &'static str)
    ensures
        r@ == "SystemDefault"@,
{
    "SystemDefault"
}

/// The tray icon's side length in pixels.
pub const ICON_SIZE: u32 = 16;

/// Whether pixel `(x, y)` lies on the icon's one-pixel border.
pub open spec fn on_border(x: int, y: int) -> bool {
    x == 0 || y == 0 || x == ICON_SIZE - 1 || y == ICON_SIZE - 1
}

/// The RGBA colour of pixel `(x, y)`: dark blue on the border, light blue
/// inside, fully opaque.
pub open spec fn icon_pixel(x: int, y: int) -> Seq<u8> {
    if on_border(x, y) {
        seq![14u8, 42u8, 77u8, 255u8]
    } else {
        seq![0u8, 160u8, 220u8, 255u8]
    }
}

/// The RGBA bytes of the tray icon, row by row.
pub fn blank_icon_rgba() -> (r: Vec<u8>)
    ensures
        r@.len() == ICON_SIZE * ICON_SIZE * 4,
        forall|y: int, x: int, k: int|
            0 <= y < ICON_SIZE && 0 <= x < ICON_SIZE && 0 <= k < 4 ==> #[trigger] r@[(y * 16 + x) * 4
                + k] == icon_pixel(x, y)[k],
{
    let width: u32 = ICON_SIZE;
    let height: u32 = ICON_SIZE;
    let mut rgba: Vec<u8> = Vec::new();
    let mut y: u32 = 0;
    while y < height
        invariant
            width == 16,
            height == 16,
            y <= 16,
            rgba@.len() == y * 16 * 4,
            forall|yy: int, x: int, k: int|
                0 <= yy < y && 0 <= x < 16 && 0 <= k < 4 ==> #[trigger] rgba@[(yy * 16 + x) * 4 + k]
                    == icon_pixel(x, yy)[k],
        decreases 16 - y,
    {
        let mut x: u32 = 0;
        while x < width
            invariant
                width == 16,
                height == 16,
                y < 16,
                x <= 16,
                rgba@.len() == (y * 16 + x) * 4,
                forall|yy: int, xx: int, k: int|
                    0 <= yy * 16 + xx < y * 16 + x && 0 <= xx < 16 && 0 <= yy && 0 <= k < 4
                        ==> #[trigger] rgba@[(yy * 16 + xx) * 4 + k] == icon_pixel(xx, yy)[k],
            decreases 16 - x,
        {
            let on_border = x == 0 || y == 0 || x == width - 1 || y == height - 1;
            let px: [u8; 4] = if on_border {
                [14u8, 42u8, 77u8, 255u8]
            } else {
                [0u8, 160u8, 220u8, 255u8]
            };
            let ghost before = rgba@;
            rgba.push(px[0]);
            rgba.push(px[1]);
            rgba.push(px[2]);
            rgba.push(px[3]);
            assert(px@ =~= icon_pixel(x as int, y as int));
            assert forall|yy: int, xx: int, kk: int|
                0 <= yy * 16 + xx < y * 16 + x + 1 && 0 <= xx < 16 && 0 <= yy && 0 <= kk < 4
                    implies #[trigger] rgba@[(yy * 16 + xx) * 4 + kk] == icon_pixel(xx, yy)[kk] by {
                let idx = (yy * 16 + xx) * 4 + kk;
                if yy * 16 + xx < y * 16 + x {
                    assert(idx < before.len());
                    assert(before[idx] == icon_pixel(xx, yy)[kk]);
                    assert(rgba@[idx] == before[idx]);
                } else {
                    assert(yy == y && xx == x) by (nonlinear_arith)
                        requires
                            yy * 16 + xx == y * 16 + x,
                            0 <= xx < 16,
                            0 <= x < 16,
                            0 <= yy;
                    assert(idx == before.len() + kk);
                }
            }
            x += 1;
        }
        y += 1;
    }
    rgba
}

} // verus!
