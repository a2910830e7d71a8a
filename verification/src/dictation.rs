//! The dictation loop's decisions: what a hotkey press, a release, a
//! finished recording, a transcript or a typing outcome leads to, as a state
//! machine that the application drives. The application performs each step
//! (audio, transcription, typing, tray) and reports the outcome as the next
//! event. Also the text rules applied to a transcript before it is typed.

use vstd::prelude::*;

use crate::config::{spec_uses_whispercpp, AppConfig};
use crate::platform::{ForegroundTarget, TrayStatus};
use crate::text::{
    is_white_space, lemma_trim_shape, normalize_whitespace, normalized_seq, str_eq, trim, trim_end_seq,
    trim_seq, trim_start_seq,
};

verus! {

/// What the application is doing.
#[derive(Clone, Copy, Debug, PartialEq, Eq, Structural)]
pub enum AppPhase {
    Idle,
    Recording,
    Transcribing,
    Typing,
    Error,
}

/// The tray status that shows a phase.
pub open spec fn status_of(phase: AppPhase) -> TrayStatus {
    match phase {
        AppPhase::Idle => TrayStatus::Idle,
        AppPhase::Recording => TrayStatus::Recording,
        AppPhase::Transcribing => TrayStatus::Transcribing,
        AppPhase::Typing => TrayStatus::Typing,
        AppPhase::Error => TrayStatus::Error,
    }
}

/// The tray status that shows a phase.
pub fn tray_status_for(phase: AppPhase) -> (r: TrayStatus)
    ensures
        r == status_of(phase),
{
    match phase {
        AppPhase::Idle => TrayStatus::Idle,
        AppPhase::Recording => TrayStatus::Recording,
        AppPhase::Transcribing => TrayStatus::Transcribing,
        AppPhase::Typing => TrayStatus::Typing,
        AppPhase::Error => TrayStatus::Error,
    }
}

/// How long the loop sleeps between iterations: longer after an error.
pub fn loop_delay_ms(phase: AppPhase) -> (r: u64)
    ensures
        phase == AppPhase::Error ==> r == 250,
        phase != AppPhase::Error ==> r == 20,
{
    if phase == AppPhase::Error {
        250
    } else {
        20
    }
}

/// Whether a character ends a sentence.
pub open spec fn is_terminal_punctuation(c: char) -> bool {
    c == '.' || c == '!' || c == '?'
}

/// `text` with a full stop appended when punctuation is enabled, the text is
/// not empty, and it does not already end with `.`, `!` or `?`.
pub open spec fn spec_punctuated(text: Seq<char>, enabled: bool) -> Seq<char> {
    if !enabled || text.len() == 0 || is_terminal_punctuation(text.last()) {
        text
    } else {
        text.push('.')
    }
}

/// Appends a full stop to an unpunctuated transcript when enabled.
pub fn maybe_append_terminal_punctuation(text: String, enabled: bool) -> (r: String)
    ensures
        r@ == spec_punctuated(text@, enabled),
{
    let mut text = text;
    if !enabled || text.as_str().is_empty() {
        return text;
    }
    let n = text.as_str().unicode_len();
    let last = text.as_str().get_char(n - 1);
    if last == '.' || last == '!' || last == '?' {
        return text;
    }
    crate::text::push_char(&mut text, '.');
    text
}

/// A transcript as it is shown and typed: trimmed, then punctuated.
pub open spec fn spec_cleaned(text: Seq<char>, auto_punctuation: bool) -> Seq<char> {
    spec_punctuated(trim_seq(text), auto_punctuation)
}

/// A transcript as it is shown and typed: trimmed, then punctuated when
/// `auto_punctuation` is on.
pub fn clean_transcript(text: &str, auto_punctuation: bool) -> (r: String)
    ensures
        r@ == spec_cleaned(text@, auto_punctuation),
{
    maybe_append_terminal_punctuation(trim(text), auto_punctuation)
}

/// Text compared by its words: runs of white space become single spaces and
/// the ends are trimmed.
pub fn normalize_typing_text(text: &str) -> (r: String)
    ensures
        r@ == normalized_seq(text@),
{
    normalize_whitespace(text)
}

/// What is typed when the hotkey is released: the whole transcript unless
/// live typing already typed part of it; then the untyped `remainder`, or the
/// whole transcript again when nothing remains but what was typed differs
/// (word for word) from the transcript.
pub open spec fn spec_release_text(
    live_typing: bool,
    typed_output: Seq<char>,
    cleaned: Seq<char>,
    remainder: Seq<char>,
) -> Seq<char> {
    if !live_typing || typed_output.len() == 0 {
        cleaned
    } else if remainder.len() == 0 && normalized_seq(typed_output) != normalized_seq(cleaned) {
        cleaned
    } else {
        remainder
    }
}

/// The text to type on release, given what was already typed while recording
/// and the part of `cleaned` not yet typed (`remainder`).
pub fn release_typing_text(live_typing: bool, typed_output: &str, cleaned: &str, remainder: &str) -> (r:
    String)
    ensures
        r@ == spec_release_text(live_typing, typed_output@, cleaned@, remainder@),
{
    if !live_typing || typed_output.is_empty() {
        return String::from_str(cleaned);
    }
    if remainder.is_empty() {
        let a = normalize_typing_text(typed_output);
        let b = normalize_typing_text(cleaned);
        if !str_eq(a.as_str(), b.as_str()) {
            return String::from_str(cleaned);
        }
    }
    String::from_str(remainder)
}

/// A chunk typed while recording: the delta, after a space unless it is the
/// first chunk.
pub open spec fn spec_stream_chunk(typed_output: Seq<char>, delta: Seq<char>) -> Seq<char> {
    if typed_output.len() == 0 {
        delta
    } else {
        seq![' '] + delta
    }
}

/// The chunk to type for a newly committed piece of transcript.
pub fn stream_chunk_text(typed_output: &str, delta: &str) -> (r: String)
    ensures
        r@ == spec_stream_chunk(typed_output@, delta@),
{
    if typed_output.is_empty() {
        String::from_str(delta)
    } else {
        let mut s = String::from_str(" ");
        proof {
            reveal_strlit(" ");
        }
        s.append(delta);
        s
    }
}

/// The hint shown when no text target was captured.
pub fn no_target_hint(allow_terminal_output: bool) -> (r: &'static str)
    ensures
        allow_terminal_output ==> r@ == "click a text field before holding Right Ctrl+Right Shift"@,
        !allow_terminal_output ==> r@
            == "click a text field (not a terminal) before holding Right Ctrl+Right Shift, or enable allow_terminal_output"@,
{
    if allow_terminal_output {
        "click a text field before holding Right Ctrl+Right Shift"
    } else {
        "click a text field (not a terminal) before holding Right Ctrl+Right Shift, or enable allow_terminal_output"
    }
}

/// The settings the loop decides by.
#[derive(Clone, Copy, Debug, PartialEq, Eq, Structural)]
pub struct LoopSettings {
    /// Recordings shorter than this are discarded.
    pub min_record_ms: u64,
    /// Append a full stop to unpunctuated transcripts.
    pub auto_punctuation: bool,
    /// Type transcripts into the target window.
    pub type_output: bool,
    /// Stream committed text while recording (already restricted to the
    /// backends that support it).
    pub stream_output: bool,
}

impl LoopSettings {
    /// Whether text is typed while the hotkey is still held.
    pub open spec fn live_typing(self) -> bool {
        self.type_output && self.stream_output
    }
}

/// The outcome the loop waits for, if any.
#[derive(Clone, Copy, Debug, PartialEq, Eq, Structural)]
pub enum Pending {
    Nothing,
    AudioInit,
    SessionStart,
    SessionFinish,
    Transcription,
    ReleaseTyping,
    StreamTyping,
}

/// What happened: a hotkey event, or the outcome of the step the loop asked
/// for.
#[derive(Clone, Debug)]
pub enum LoopEvent {
    HotkeyPressed,
    HotkeyReleased,
    /// The hotkey listener failed.
    ListenerError,
    /// Audio capture was set up (`true`) or could not be (`false`).
    AudioInitialized(bool),
    /// A recording session started; the window that will receive text, if
    /// one was captured.
    SessionStarted(Option<ForegroundTarget>),
    SessionStartFailed,
    /// The recording ended and lasted this many milliseconds.
    SessionFinished(u64),
    SessionFinishFailed,
    /// The transcript, and the part of its cleaned form not yet typed while
    /// recording (as the streaming transcriber reports it).
    Transcribed { text: String, remainder: String },
    TranscriptionFailed,
    /// Typing the last text succeeded (`true`) or failed.
    Typed(bool),
    /// The streaming transcriber committed more text while recording.
    StreamDelta(String),
    /// The settings dialog was closed.
    SettingsClosed,
}

/// What the application does next.
#[derive(Clone, Debug)]
pub enum Step {
    /// Nothing more for this event; go on with the iteration.
    Proceed,
    /// Skip the rest of this iteration.
    NextIteration,
    /// Set up audio capture and report `AudioInitialized`.
    InitAudio,
    /// Start a recording session, capture the text target, and report
    /// `SessionStarted` or `SessionStartFailed`.
    StartSession,
    /// End the recording session and report `SessionFinished` or
    /// `SessionFinishFailed`.
    FinishSession,
    /// Transcribe the recording (through the streaming transcriber when
    /// `use_stream`) and report `Transcribed` or `TranscriptionFailed`.
    Transcribe { use_stream: bool },
    /// Bring `target` to the front and type `text` there (nothing when there
    /// is no target), then report `Typed`.
    Type { text: String, target: Option<ForegroundTarget> },
}

/// The dictation loop's state.
#[derive(Clone, Debug)]
pub struct DictationLoop {
    pub settings: LoopSettings,
    pub phase: AppPhase,
    /// The status last shown on the tray.
    pub tray: TrayStatus,
    pub pending: Pending,
    /// Audio capture is set up.
    pub audio_ready: bool,
    /// A recording session is open.
    pub recording: bool,
    /// A streaming transcriber accompanies the session.
    pub streaming: bool,
    /// Where text goes.
    pub target: Option<ForegroundTarget>,
    /// What was typed while recording.
    pub typed_output: String,
    /// The chunk being typed while recording, until its outcome is known.
    pub in_flight: String,
}

/// The loop's state as values.
#[verifier::ext_equal]
pub struct LoopView {
    pub settings: LoopSettings,
    pub phase: AppPhase,
    pub tray: TrayStatus,
    pub pending: Pending,
    pub audio_ready: bool,
    pub recording: bool,
    pub streaming: bool,
    pub target: Option<ForegroundTarget>,
    pub typed: Seq<char>,
    pub in_flight: Seq<char>,
}

/// An event as values.
pub enum EventView {
    HotkeyPressed,
    HotkeyReleased,
    ListenerError,
    AudioInitialized(bool),
    SessionStarted(Option<ForegroundTarget>),
    SessionStartFailed,
    SessionFinished(u64),
    SessionFinishFailed,
    Transcribed { text: Seq<char>, remainder: Seq<char> },
    TranscriptionFailed,
    Typed(bool),
    StreamDelta(Seq<char>),
    SettingsClosed,
}

/// A step as values.
#[verifier::ext_equal]
pub enum StepView {
    Proceed,
    NextIteration,
    InitAudio,
    StartSession,
    FinishSession,
    Transcribe { use_stream: bool },
    Type { text: Seq<char>, target: Option<ForegroundTarget> },
}

impl DictationLoop {
    pub open spec fn view(&self) -> LoopView {
        LoopView {
            settings: self.settings,
            phase: self.phase,
            tray: self.tray,
            pending: self.pending,
            audio_ready: self.audio_ready,
            recording: self.recording,
            streaming: self.streaming,
            target: self.target,
            typed: self.typed_output@,
            in_flight: self.in_flight@,
        }
    }
}

impl LoopEvent {
    pub open spec fn view(&self) -> EventView {
        match *self {
            LoopEvent::HotkeyPressed => EventView::HotkeyPressed,
            LoopEvent::HotkeyReleased => EventView::HotkeyReleased,
            LoopEvent::ListenerError => EventView::ListenerError,
            LoopEvent::AudioInitialized(ok) => EventView::AudioInitialized(ok),
            LoopEvent::SessionStarted(t) => EventView::SessionStarted(t),
            LoopEvent::SessionStartFailed => EventView::SessionStartFailed,
            LoopEvent::SessionFinished(d) => EventView::SessionFinished(d),
            LoopEvent::SessionFinishFailed => EventView::SessionFinishFailed,
            LoopEvent::Transcribed { text, remainder } => EventView::Transcribed {
                text: text@,
                remainder: remainder@,
            },
            LoopEvent::TranscriptionFailed => EventView::TranscriptionFailed,
            LoopEvent::Typed(ok) => EventView::Typed(ok),
            LoopEvent::StreamDelta(d) => EventView::StreamDelta(d@),
            LoopEvent::SettingsClosed => EventView::SettingsClosed,
        }
    }
}

impl Step {
    pub open spec fn view(&self) -> StepView {
        match *self {
            Step::Proceed => StepView::Proceed,
            Step::NextIteration => StepView::NextIteration,
            Step::InitAudio => StepView::InitAudio,
            Step::StartSession => StepView::StartSession,
            Step::FinishSession => StepView::FinishSession,
            Step::Transcribe { use_stream } => StepView::Transcribe { use_stream },
            Step::Type { text, target } => StepView::Type { text: text@, target },
        }
    }
}

/// `s` in `phase`, with the tray showing it.
pub open spec fn enter(s: LoopView, phase: AppPhase) -> LoopView {
    LoopView { phase, tray: status_of(phase), ..s }
}

/// The loop's response to an event: its next state and the step the
/// application takes. An outcome the loop is not waiting for changes nothing.
pub open spec fn spec_handle(s: LoopView, e: EventView) -> (LoopView, StepView) {
    match e {
        EventView::HotkeyPressed => if s.pending != Pending::Nothing || s.recording {
            (s, StepView::Proceed)
        } else if !s.audio_ready {
            (LoopView { pending: Pending::AudioInit, ..s }, StepView::InitAudio)
        } else {
            (LoopView { pending: Pending::SessionStart, ..s }, StepView::StartSession)
        },
        EventView::AudioInitialized(ok) => if s.pending != Pending::AudioInit {
            (s, StepView::Proceed)
        } else if ok {
            (LoopView { pending: Pending::SessionStart, audio_ready: true, ..s }, StepView::StartSession)
        } else {
            (enter(LoopView { pending: Pending::Nothing, ..s }, AppPhase::Error), StepView::NextIteration)
        },
        EventView::SessionStarted(target) => if s.pending != Pending::SessionStart {
            (s, StepView::Proceed)
        } else {
            (
                enter(
                    LoopView {
                        pending: Pending::Nothing,
                        recording: true,
                        streaming: s.settings.stream_output,
                        target,
                        typed: Seq::<char>::empty(),
                        ..s
                    },
                    AppPhase::Recording,
                ),
                StepView::Proceed,
            )
        },
        EventView::SessionStartFailed => if s.pending != Pending::SessionStart {
            (s, StepView::Proceed)
        } else {
            (
                enter(
                    LoopView { pending: Pending::Nothing, audio_ready: false, streaming: false, ..s },
                    AppPhase::Error,
                ),
                StepView::Proceed,
            )
        },
        EventView::HotkeyReleased => if s.pending != Pending::Nothing || !s.recording {
            (s, StepView::Proceed)
        } else {
            (LoopView { pending: Pending::SessionFinish, recording: false, ..s }, StepView::FinishSession)
        },
        EventView::SessionFinishFailed => if s.pending != Pending::SessionFinish {
            (s, StepView::Proceed)
        } else {
            (
                enter(LoopView { pending: Pending::Nothing, streaming: false, ..s }, AppPhase::Error),
                StepView::NextIteration,
            )
        },
        EventView::SessionFinished(duration_ms) => if s.pending != Pending::SessionFinish {
            (s, StepView::Proceed)
        } else if duration_ms < s.settings.min_record_ms {
            (
                enter(
                    LoopView { pending: Pending::Nothing, streaming: false, target: None, ..s },
                    AppPhase::Idle,
                ),
                StepView::NextIteration,
            )
        } else {
            (
                enter(
                    LoopView { pending: Pending::Transcription, streaming: false, ..s },
                    AppPhase::Transcribing,
                ),
                StepView::Transcribe { use_stream: s.streaming },
            )
        },
        EventView::TranscriptionFailed => if s.pending != Pending::Transcription {
            (s, StepView::Proceed)
        } else {
            (enter(LoopView { pending: Pending::Nothing, ..s }, AppPhase::Error), StepView::NextIteration)
        },
        EventView::Transcribed { text, remainder } => if s.pending != Pending::Transcription {
            (s, StepView::Proceed)
        } else {
            let cleaned = spec_cleaned(text, s.settings.auto_punctuation);
            let to_type = if s.settings.type_output && cleaned.len() > 0 {
                spec_release_text(s.settings.live_typing(), s.typed, cleaned, remainder)
            } else {
                Seq::<char>::empty()
            };
            if to_type.len() > 0 {
                (
                    enter(LoopView { pending: Pending::ReleaseTyping, ..s }, AppPhase::Typing),
                    StepView::Type { text: to_type, target: s.target },
                )
            } else {
                (
                    enter(LoopView { pending: Pending::Nothing, target: None, ..s }, AppPhase::Idle),
                    StepView::Proceed,
                )
            }
        },
        EventView::Typed(ok) => if s.pending == Pending::ReleaseTyping {
            if ok {
                (
                    enter(LoopView { pending: Pending::Nothing, target: None, ..s }, AppPhase::Idle),
                    StepView::Proceed,
                )
            } else {
                (
                    enter(LoopView { pending: Pending::Nothing, ..s }, AppPhase::Error),
                    StepView::NextIteration,
                )
            }
        } else if s.pending == Pending::StreamTyping {
            if ok {
                (
                    enter(
                        LoopView {
                            pending: Pending::Nothing,
                            typed: s.typed + s.in_flight,
                            in_flight: Seq::<char>::empty(),
                            ..s
                        },
                        AppPhase::Recording,
                    ),
                    StepView::Proceed,
                )
            } else {
                (
                    enter(
                        LoopView { pending: Pending::Nothing, in_flight: Seq::<char>::empty(), ..s },
                        AppPhase::Error,
                    ),
                    StepView::Proceed,
                )
            }
        } else {
            (s, StepView::Proceed)
        },
        EventView::StreamDelta(delta) => if s.pending != Pending::Nothing || !s.recording
            || !s.streaming || !s.settings.live_typing() {
            (s, StepView::Proceed)
        } else {
            (
                enter(
                    LoopView {
                        pending: Pending::StreamTyping,
                        in_flight: spec_stream_chunk(s.typed, delta),
                        ..s
                    },
                    AppPhase::Typing,
                ),
                StepView::Type { text: spec_stream_chunk(s.typed, delta), target: s.target },
            )
        },
        EventView::ListenerError => (enter(s, AppPhase::Error), StepView::Proceed),
        EventView::SettingsClosed => (LoopView { tray: TrayStatus::Idle, ..s }, StepView::Proceed),
    }
}

impl LoopSettings {
    /// The loop settings of a configuration; streaming only where the backend
    /// supports it.
    pub fn from_config(config: &AppConfig) -> (r: LoopSettings)
        ensures
            r.min_record_ms == config.min_record_ms,
            r.auto_punctuation == config.auto_punctuation,
            r.type_output == config.type_output,
            r.stream_output == (config.stream_output && spec_uses_whispercpp(config.stt_backend@)),
    {
        LoopSettings {
            min_record_ms: config.min_record_ms,
            auto_punctuation: config.auto_punctuation,
            type_output: config.type_output,
            stream_output: config.effective_stream_output(),
        }
    }
}

/// A loop at rest: idle, nothing set up, nothing typed.
pub open spec fn initial_loop(settings: LoopSettings) -> LoopView {
    LoopView {
        settings,
        phase: AppPhase::Idle,
        tray: TrayStatus::Idle,
        pending: Pending::Nothing,
        audio_ready: false,
        recording: false,
        streaming: false,
        target: None,
        typed: Seq::<char>::empty(),
        in_flight: Seq::<char>::empty(),
    }
}

impl DictationLoop {
    /// A loop at rest: idle, nothing set up, nothing typed.
    pub fn new(settings: LoopSettings) -> (r: DictationLoop)
        ensures
            r.view() == initial_loop(settings),
    {
        DictationLoop {
            settings,
            phase: AppPhase::Idle,
            tray: TrayStatus::Idle,
            pending: Pending::Nothing,
            audio_ready: false,
            recording: false,
            streaming: false,
            target: None,
            typed_output: String::new(),
            in_flight: String::new(),
        }
    }

    fn enter(&mut self, phase: AppPhase)
        ensures
            final(self).view() == enter(old(self).view(), phase),
    {
        self.phase = phase;
        self.tray = tray_status_for(phase);
    }

    /// Whether text is typed while the hotkey is held.
    pub fn live_typing(&self) -> (r: bool)
        ensures
            r == self.settings.live_typing(),
    {
        self.settings.type_output && self.settings.stream_output
    }

    /// Whether the streaming transcriber should be given more audio now.
    pub fn should_tick_stream(&self) -> (r: bool)
        ensures
            r == (self.pending == Pending::Nothing && self.recording && self.streaming),
    {
        self.pending == Pending::Nothing && self.recording && self.streaming
    }

    /// How long to sleep before the next iteration.
    pub fn delay_ms(&self) -> (r: u64)
        ensures
            self.phase == AppPhase::Error ==> r == 250,
            self.phase != AppPhase::Error ==> r == 20,
    {
        loop_delay_ms(self.phase)
    }

    /// Responds to an event: updates the state and returns the step the
    /// application takes next.
    pub fn handle(&mut self, event: LoopEvent) -> (step: Step)
        ensures
            final(self).view() == spec_handle(old(self).view(), event.view()).0,
            step.view() == spec_handle(old(self).view(), event.view()).1,
    {
        match event {
            LoopEvent::HotkeyPressed => {
                if self.pending != Pending::Nothing || self.recording {
                    Step::Proceed
                } else if !self.audio_ready {
                    self.pending = Pending::AudioInit;
                    Step::InitAudio
                } else {
                    self.pending = Pending::SessionStart;
                    Step::StartSession
                }
            },
            LoopEvent::AudioInitialized(ok) => {
                if self.pending != Pending::AudioInit {
                    Step::Proceed
                } else if ok {
                    self.pending = Pending::SessionStart;
                    self.audio_ready = true;
                    Step::StartSession
                } else {
                    self.pending = Pending::Nothing;
                    self.enter(AppPhase::Error);
                    Step::NextIteration
                }
            },
            LoopEvent::SessionStarted(target) => {
                if self.pending != Pending::SessionStart {
                    Step::Proceed
                } else {
                    self.pending = Pending::Nothing;
                    self.recording = true;
                    self.streaming = self.settings.stream_output;
                    self.target = target;
                    self.typed_output = String::new();
                    self.enter(AppPhase::Recording);
                    Step::Proceed
                }
            },
            LoopEvent::SessionStartFailed => {
                if self.pending != Pending::SessionStart {
                    Step::Proceed
                } else {
                    self.pending = Pending::Nothing;
                    self.audio_ready = false;
                    self.streaming = false;
                    self.enter(AppPhase::Error);
                    Step::Proceed
                }
            },
            LoopEvent::HotkeyReleased => {
                if self.pending != Pending::Nothing || !self.recording {
                    Step::Proceed
                } else {
                    self.pending = Pending::SessionFinish;
                    self.recording = false;
                    Step::FinishSession
                }
            },
            LoopEvent::SessionFinishFailed => {
                if self.pending != Pending::SessionFinish {
                    Step::Proceed
                } else {
                    self.pending = Pending::Nothing;
                    self.streaming = false;
                    self.enter(AppPhase::Error);
                    Step::NextIteration
                }
            },
            LoopEvent::SessionFinished(duration_ms) => {
                if self.pending != Pending::SessionFinish {
                    Step::Proceed
                } else if duration_ms < self.settings.min_record_ms {
                    self.pending = Pending::Nothing;
                    self.streaming = false;
                    self.target = None;
                    self.enter(AppPhase::Idle);
                    Step::NextIteration
                } else {
                    let use_stream = self.streaming;
                    self.pending = Pending::Transcription;
                    self.streaming = false;
                    self.enter(AppPhase::Transcribing);
                    Step::Transcribe { use_stream }
                }
            },
            LoopEvent::TranscriptionFailed => {
                if self.pending != Pending::Transcription {
                    Step::Proceed
                } else {
                    self.pending = Pending::Nothing;
                    self.enter(AppPhase::Error);
                    Step::NextIteration
                }
            },
            LoopEvent::Transcribed { text, remainder } => {
                if self.pending != Pending::Transcription {
                    return Step::Proceed;
                }
                let cleaned = clean_transcript(text.as_str(), self.settings.auto_punctuation);
                let to_type = if self.settings.type_output && !cleaned.as_str().is_empty() {
                    release_typing_text(
                        self.live_typing(),
                        self.typed_output.as_str(),
                        cleaned.as_str(),
                        remainder.as_str(),
                    )
                } else {
                    String::new()
                };
                if !to_type.as_str().is_empty() {
                    self.pending = Pending::ReleaseTyping;
                    self.enter(AppPhase::Typing);
                    Step::Type { text: to_type, target: self.target }
                } else {
                    self.pending = Pending::Nothing;
                    self.target = None;
                    self.enter(AppPhase::Idle);
                    Step::Proceed
                }
            },
            LoopEvent::Typed(ok) => {
                if self.pending == Pending::ReleaseTyping {
                    self.pending = Pending::Nothing;
                    if ok {
                        self.target = None;
                        self.enter(AppPhase::Idle);
                        Step::Proceed
                    } else {
                        self.enter(AppPhase::Error);
                        Step::NextIteration
                    }
                } else if self.pending == Pending::StreamTyping {
                    self.pending = Pending::Nothing;
                    let mut chunk = String::new();
                    std::mem::swap(&mut chunk, &mut self.in_flight);
                    if ok {
                        self.typed_output.append(chunk.as_str());
                        self.enter(AppPhase::Recording);
                    } else {
                        self.enter(AppPhase::Error);
                    }
                    Step::Proceed
                } else {
                    Step::Proceed
                }
            },
            LoopEvent::StreamDelta(delta) => {
                if self.pending != Pending::Nothing || !self.recording || !self.streaming
                    || !self.live_typing() {
                    Step::Proceed
                } else {
                    let chunk = stream_chunk_text(self.typed_output.as_str(), delta.as_str());
                    self.in_flight = chunk.clone();
                    self.pending = Pending::StreamTyping;
                    self.enter(AppPhase::Typing);
                    Step::Type { text: chunk, target: self.target }
                }
            },
            LoopEvent::ListenerError => {
                self.enter(AppPhase::Error);
                Step::Proceed
            },
            LoopEvent::SettingsClosed => {
                self.tray = TrayStatus::Idle;
                Step::Proceed
            },
        }
    }
}


/// The loop's standing facts: a session needs audio; streaming needs the
/// streaming setting; text is typed during a recording only with live
/// typing; a session is started only while none is open and audio is ready;
/// finishing, transcribing and the typing on release happen only once the
/// recording is closed; a chunk is typed while recording only from an open,
/// streaming session.
pub open spec fn loop_wf(s: LoopView) -> bool {
    &&& s.recording ==> s.audio_ready
    &&& s.streaming ==> s.settings.stream_output
    &&& s.typed.len() > 0 ==> s.settings.live_typing()
    &&& s.pending == Pending::SessionStart ==> s.audio_ready && !s.recording
    &&& s.pending == Pending::AudioInit ==> !s.recording
    &&& s.pending == Pending::SessionFinish ==> !s.recording
    &&& s.pending == Pending::Transcription ==> !s.recording
    &&& s.pending == Pending::ReleaseTyping ==> !s.recording
    &&& s.pending == Pending::StreamTyping ==> s.recording && s.streaming
        && s.settings.live_typing()
}

/// The loop's standing facts hold from the start and after every event.
pub proof fn lemma_loop_wf_preserved(settings: LoopSettings, s: LoopView, e: EventView)
    requires
        loop_wf(s),
    ensures
        loop_wf(initial_loop(settings)),
        loop_wf(spec_handle(s, e).0),
{
}

/// Without streaming (as with WhisperX, whose streaming is never in effect)
/// nothing is typed while the hotkey is held: text is typed only in answer to
/// the transcript of a closed recording, and that leaves the loop waiting for
/// the typing outcome, so a second transcript is not typed. A transcription is
/// asked for only when a finished session is reported, and a session is
/// finished only on a release while recording, so each session leads to at
/// most one typing.
pub proof fn lemma_release_only_types_once_per_session(s: LoopView, e: EventView)
    requires
        loop_wf(s),
        !s.settings.stream_output,
    ensures
        spec_handle(s, e).1 is Type ==> {
            &&& e is Transcribed
            &&& s.pending == Pending::Transcription
            &&& !s.recording
            &&& spec_handle(s, e).0.pending == Pending::ReleaseTyping
        },
        spec_handle(s, e).0.pending == Pending::Transcription && s.pending != Pending::Transcription
            ==> s.pending == Pending::SessionFinish && e is SessionFinished,
        spec_handle(s, e).0.pending == Pending::SessionFinish && s.pending != Pending::SessionFinish
            ==> s.recording && e is HotkeyReleased && !spec_handle(s, e).0.recording,
{
}

/// With typing turned off nothing is ever typed, neither while recording nor
/// on release.
pub proof fn lemma_no_typing_without_type_output(s: LoopView, e: EventView)
    requires
        !s.settings.type_output,
    ensures
        !(spec_handle(s, e).1 is Type),
{
}

/// A press while a recording is open starts nothing and changes nothing.
pub proof fn lemma_press_while_recording_ignored(s: LoopView)
    requires
        s.recording,
    ensures
        spec_handle(s, EventView::HotkeyPressed).0 == s,
        spec_handle(s, EventView::HotkeyPressed).1 is Proceed,
{
}

/// Every failure the loop is waiting on, and every listener error, leaves
/// the loop in the error phase with the tray showing it.
pub proof fn lemma_failures_show_error(s: LoopView, e: EventView)
    requires
        match e {
            EventView::AudioInitialized(ok) => !ok && s.pending == Pending::AudioInit,
            EventView::SessionStartFailed => s.pending == Pending::SessionStart,
            EventView::SessionFinishFailed => s.pending == Pending::SessionFinish,
            EventView::TranscriptionFailed => s.pending == Pending::Transcription,
            EventView::Typed(ok) => !ok && (s.pending == Pending::ReleaseTyping || s.pending
                == Pending::StreamTyping),
            EventView::ListenerError => true,
            _ => false,
        },
    ensures
        spec_handle(s, e).0.phase == AppPhase::Error,
        spec_handle(s, e).0.tray == TrayStatus::Error,
{
}

/// A recording shorter than the minimum is discarded: no transcription, the
/// loop goes back to idle and forgets its target.
pub proof fn lemma_short_recording_discarded(s: LoopView, duration_ms: u64)
    requires
        s.pending == Pending::SessionFinish,
        duration_ms < s.settings.min_record_ms,
    ensures
        spec_handle(s, EventView::SessionFinished(duration_ms)).1 is NextIteration,
        spec_handle(s, EventView::SessionFinished(duration_ms)).0.phase == AppPhase::Idle,
        spec_handle(s, EventView::SessionFinished(duration_ms)).0.target is None,
        spec_handle(s, EventView::SessionFinished(duration_ms)).0.pending == Pending::Nothing,
{
}

/// Without live typing, releasing the hotkey types the whole cleaned
/// transcript (when there is one and typing is on), into the captured target.
pub proof fn lemma_release_only_types_whole_transcript(
    s: LoopView,
    text: Seq<char>,
    remainder: Seq<char>,
)
    requires
        s.pending == Pending::Transcription,
        !s.settings.live_typing(),
        s.settings.type_output,
        spec_cleaned(text, s.settings.auto_punctuation).len() > 0,
    ensures
        spec_handle(s, EventView::Transcribed { text, remainder }).1 == (StepView::Type {
            text: spec_cleaned(text, s.settings.auto_punctuation),
            target: s.target,
        }),
{
}

/// With live typing, text already typed while recording is not typed again:
/// on release only the untyped remainder is typed when there is one.
pub proof fn lemma_live_typing_types_only_remainder(
    s: LoopView,
    text: Seq<char>,
    remainder: Seq<char>,
)
    requires
        s.pending == Pending::Transcription,
        s.settings.live_typing(),
        s.typed.len() > 0,
        remainder.len() > 0,
        spec_cleaned(text, s.settings.auto_punctuation).len() > 0,
    ensures
        spec_handle(s, EventView::Transcribed { text, remainder }).1 == (StepView::Type {
            text: remainder,
            target: s.target,
        }),
{
}

/// While recording with live typing, a committed delta is typed into the
/// captured target (after a space unless it is the first chunk); when that
/// typing succeeds the chunk is added to what was typed and recording goes on,
/// and when it fails nothing is added and the loop shows the error.
pub proof fn lemma_stream_chunk_recorded(s: LoopView, delta: Seq<char>, ok: bool)
    requires
        s.pending == Pending::Nothing,
        s.recording,
        s.streaming,
        s.settings.live_typing(),
    ensures
        ({
            let (s1, step) = spec_handle(s, EventView::StreamDelta(delta));
            let s2 = spec_handle(s1, EventView::Typed(ok)).0;
            &&& step == (StepView::Type { text: spec_stream_chunk(s.typed, delta), target: s.target })
            &&& ok ==> s2.typed == s.typed + spec_stream_chunk(s.typed, delta) && s2.phase
                == AppPhase::Recording
            &&& !ok ==> s2.typed == s.typed && s2.phase == AppPhase::Error
            &&& s2.recording && s2.pending == Pending::Nothing && s2.in_flight.len() == 0
        }),
{
}

/// Every recording session starts with nothing typed: once a pending start is
/// reported, the text typed so far is empty, recording is on, the captured
/// window is the target, and with live typing the first committed chunk is
/// typed as it is, with no leading space.
pub proof fn lemma_session_starts_with_nothing_typed(
    s: LoopView,
    target: Option<ForegroundTarget>,
    delta: Seq<char>,
)
    requires
        s.pending == Pending::SessionStart,
    ensures
        ({
            let s1 = spec_handle(s, EventView::SessionStarted(target)).0;
            &&& s1.typed.len() == 0
            &&& s1.recording
            &&& s1.target == target
            &&& s1.pending == Pending::Nothing
            &&& s1.phase == AppPhase::Recording
            &&& s.settings.live_typing() ==> spec_handle(s1, EventView::StreamDelta(delta)).1
                == (StepView::Type { text: delta, target })
        }),
{
}

/// A second session does not inherit what the first one typed: after a
/// session whose chunk was typed and which ended, a new session types its
/// first chunk as it is and, when its transcript adds nothing, types nothing
/// on release.
pub proof fn lemma_sessions_do_not_share_typed_text(
    s: LoopView,
    target: Option<ForegroundTarget>,
    delta: Seq<char>,
)
    requires
        s.pending == Pending::SessionStart,
        s.settings.live_typing(),
        s.typed.len() > 0,
    ensures
        ({
            let s1 = spec_handle(s, EventView::SessionStarted(target)).0;
            let (s2, step2) = spec_handle(s1, EventView::StreamDelta(delta));
            let s3 = spec_handle(s2, EventView::Typed(true)).0;
            &&& step2 == (StepView::Type { text: delta, target })
            &&& s3.typed == delta
        }),
{
    assert(Seq::<char>::empty() + delta =~= delta);
}

/// The tray shows the loop's phase after every event but the closing of the
/// settings dialog (which resets the tray to idle).
pub proof fn lemma_tray_shows_phase(s: LoopView, e: EventView)
    requires
        s.tray == status_of(s.phase),
        !(e is SettingsClosed),
    ensures
        spec_handle(s, e).0.tray == status_of(spec_handle(s, e).0.phase),
{
}

/// A full recording round trip: press (audio ready), session started, release,
/// session long enough, transcript, typing done, returns the loop to idle with
/// the target forgotten and nothing pending.
pub proof fn lemma_round_trip_returns_to_idle(
    s: LoopView,
    target: Option<ForegroundTarget>,
    duration_ms: u64,
    text: Seq<char>,
    remainder: Seq<char>,
)
    requires
        loop_wf(s),
        s.pending == Pending::Nothing,
        !s.recording,
        s.audio_ready,
        duration_ms >= s.settings.min_record_ms,
    ensures
        ({
            let s1 = spec_handle(s, EventView::HotkeyPressed).0;
            let s2 = spec_handle(s1, EventView::SessionStarted(target)).0;
            let s3 = spec_handle(s2, EventView::HotkeyReleased).0;
            let s4 = spec_handle(s3, EventView::SessionFinished(duration_ms)).0;
            let (s5, step5) = spec_handle(s4, EventView::Transcribed { text, remainder });
            let s6 = if step5 is Type {
                spec_handle(s5, EventView::Typed(true)).0
            } else {
                s5
            };
            &&& s6.phase == AppPhase::Idle
            &&& s6.tray == TrayStatus::Idle
            &&& s6.pending == Pending::Nothing
            &&& s6.target is None
            &&& !s6.recording
            &&& !s6.streaming
        }),
{
}


/// Punctuating twice is punctuating once, and a punctuated non-empty text
/// ends with `.`, `!` or `?` when punctuation is on.
pub proof fn lemma_punctuation_idempotent(text: Seq<char>, enabled: bool)
    ensures
        spec_punctuated(spec_punctuated(text, enabled), enabled) == spec_punctuated(text, enabled),
        enabled && text.len() > 0 ==> is_terminal_punctuation(spec_punctuated(text, enabled).last()),
{
}

/// A sequence that neither starts nor ends with white space is its own trim.
pub proof fn lemma_trim_of_trimmed(s: Seq<char>)
    requires
        s.len() > 0 ==> !is_white_space(s[0]) && !is_white_space(s.last()),
    ensures
        trim_seq(s) == s,
{
    assert(trim_start_seq(s) == s);
    assert(trim_end_seq(s) == s);
}

/// Cleaning a cleaned transcript changes nothing.
pub proof fn lemma_clean_idempotent(text: Seq<char>, auto_punctuation: bool)
    ensures
        spec_cleaned(spec_cleaned(text, auto_punctuation), auto_punctuation) == spec_cleaned(
            text,
            auto_punctuation,
        ),
{
    let t = trim_seq(text);
    lemma_trim_shape(text);
    let p = spec_punctuated(t, auto_punctuation);
    if p.len() > 0 {
        if p != t {
            assert(p == t.push('.'));
            assert(p[0] == t[0]);
        }
    }
    lemma_trim_of_trimmed(p);
    lemma_punctuation_idempotent(t, auto_punctuation);
}

} // verus!
