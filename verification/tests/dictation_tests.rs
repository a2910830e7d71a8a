use hermes::config::AppConfig;
use hermes::dictation::{
    clean_transcript, loop_delay_ms, maybe_append_terminal_punctuation, no_target_hint,
    normalize_typing_text, release_typing_text, stream_chunk_text, tray_status_for, AppPhase,
    DictationLoop, LoopEvent, LoopSettings, Pending, Step,
};
use hermes::platform::{ForegroundTarget, TrayStatus};

fn settings(type_output: bool, stream_output: bool) -> LoopSettings {
    LoopSettings {
        min_record_ms: 200,
        auto_punctuation: true,
        type_output,
        stream_output,
    }
}

#[test]
fn punctuation_rules() {
    assert_eq!(maybe_append_terminal_punctuation("hello".to_string(), true), "hello.");
    assert_eq!(maybe_append_terminal_punctuation("hello?".to_string(), true), "hello?");
    assert_eq!(maybe_append_terminal_punctuation("wow!".to_string(), true), "wow!");
    assert_eq!(maybe_append_terminal_punctuation("hello".to_string(), false), "hello");
    assert_eq!(maybe_append_terminal_punctuation(String::new(), true), "");
    assert_eq!(clean_transcript("  hi there \n", true), "hi there.");
    assert_eq!(clean_transcript(clean_transcript(" a ", true).as_str(), true), "a.");
    assert_eq!(clean_transcript("   ", true), "");
}

#[test]
fn release_text_rules() {
    assert_eq!(release_typing_text(false, "Hello.", "Hello. World.", " World."), "Hello. World.");
    assert_eq!(release_typing_text(true, "", "Hello.", ""), "Hello.");
    assert_eq!(release_typing_text(true, "Hello.", "Hello. World.", " World."), " World.");
    assert_eq!(release_typing_text(true, "Hello.", " Hello. ", ""), "");
    assert_eq!(release_typing_text(true, "Hello.", "Goodbye.", ""), "Goodbye.");
    assert_eq!(normalize_typing_text(" a  b\n"), "a b");
    assert_eq!(stream_chunk_text("", "One."), "One.");
    assert_eq!(stream_chunk_text("One.", "Two."), " Two.");
}

#[test]
fn small_rules() {
    assert_eq!(loop_delay_ms(AppPhase::Error), 250);
    assert_eq!(loop_delay_ms(AppPhase::Idle), 20);
    assert_eq!(tray_status_for(AppPhase::Transcribing), TrayStatus::Transcribing);
    assert_eq!(
        no_target_hint(true),
        "click a text field before holding Right Ctrl+Right Shift"
    );
    assert!(no_target_hint(false).contains("allow_terminal_output"));
    let mut c = AppConfig::default_in("/d");
    c.stream_output = true;
    let s = LoopSettings::from_config(&c);
    assert!(s.stream_output && s.type_output);
    c.stt_backend = "whisperx".to_string();
    assert!(!LoopSettings::from_config(&c).stream_output);
}

#[test]
fn release_only_round_trip() {
    let mut l = DictationLoop::new(settings(true, false));
    assert!(matches!(l.handle(LoopEvent::HotkeyPressed), Step::InitAudio));
    assert!(matches!(l.handle(LoopEvent::AudioInitialized(true)), Step::StartSession));
    let target = Some(ForegroundTarget { window: 42 });
    assert!(matches!(l.handle(LoopEvent::SessionStarted(target)), Step::Proceed));
    assert_eq!(l.phase, AppPhase::Recording);
    assert_eq!(l.tray, TrayStatus::Recording);
    assert!(!l.should_tick_stream());
    assert!(matches!(l.handle(LoopEvent::HotkeyPressed), Step::Proceed));
    assert!(matches!(l.handle(LoopEvent::HotkeyReleased), Step::FinishSession));
    match l.handle(LoopEvent::SessionFinished(900)) {
        Step::Transcribe { use_stream } => assert!(!use_stream),
        other => panic!("unexpected {other:?}"),
    }
    assert_eq!(l.phase, AppPhase::Transcribing);
    match l.handle(LoopEvent::Transcribed { text: " hello world ".to_string(), remainder: String::new() }) {
        Step::Type { text, target: t } => {
            assert_eq!(text, "hello world.");
            assert_eq!(t, target);
        }
        other => panic!("unexpected {other:?}"),
    }
    assert_eq!(l.phase, AppPhase::Typing);
    assert!(matches!(l.handle(LoopEvent::Typed(true)), Step::Proceed));
    assert_eq!(l.phase, AppPhase::Idle);
    assert_eq!(l.target, None);
    assert_eq!(l.pending, Pending::Nothing);
    assert!(matches!(l.handle(LoopEvent::HotkeyPressed), Step::StartSession));
}

#[test]
fn short_recordings_are_discarded() {
    let mut l = DictationLoop::new(settings(true, false));
    l.handle(LoopEvent::HotkeyPressed);
    l.handle(LoopEvent::AudioInitialized(true));
    l.handle(LoopEvent::SessionStarted(Some(ForegroundTarget { window: 1 })));
    l.handle(LoopEvent::HotkeyReleased);
    assert!(matches!(l.handle(LoopEvent::SessionFinished(199)), Step::NextIteration));
    assert_eq!(l.phase, AppPhase::Idle);
    assert_eq!(l.target, None);
}

#[test]
fn failures_enter_error() {
    let mut l = DictationLoop::new(settings(true, false));
    l.handle(LoopEvent::HotkeyPressed);
    assert!(matches!(l.handle(LoopEvent::AudioInitialized(false)), Step::NextIteration));
    assert_eq!(l.phase, AppPhase::Error);
    assert_eq!(l.delay_ms(), 250);
    assert!(matches!(l.handle(LoopEvent::HotkeyPressed), Step::InitAudio));
    l.handle(LoopEvent::AudioInitialized(true));
    assert!(matches!(l.handle(LoopEvent::SessionStartFailed), Step::Proceed));
    assert_eq!(l.tray, TrayStatus::Error);
    assert!(!l.audio_ready);
    l.handle(LoopEvent::SettingsClosed);
    assert_eq!(l.tray, TrayStatus::Idle);
    assert_eq!(l.phase, AppPhase::Error);
    l.handle(LoopEvent::ListenerError);
    assert_eq!(l.tray, TrayStatus::Error);
}

#[test]
fn typing_off_types_nothing() {
    let mut l = DictationLoop::new(settings(false, false));
    l.handle(LoopEvent::HotkeyPressed);
    l.handle(LoopEvent::AudioInitialized(true));
    l.handle(LoopEvent::SessionStarted(None));
    l.handle(LoopEvent::HotkeyReleased);
    l.handle(LoopEvent::SessionFinished(1000));
    assert!(matches!(
        l.handle(LoopEvent::Transcribed { text: "hello".to_string(), remainder: String::new() }),
        Step::Proceed
    ));
    assert_eq!(l.phase, AppPhase::Idle);
}

#[test]
fn live_typing_streams_then_types_remainder() {
    let mut l = DictationLoop::new(settings(true, true));
    assert!(l.live_typing());
    l.handle(LoopEvent::HotkeyPressed);
    l.handle(LoopEvent::AudioInitialized(true));
    l.handle(LoopEvent::SessionStarted(Some(ForegroundTarget { window: 3 })));
    assert!(l.should_tick_stream());
    match l.handle(LoopEvent::StreamDelta("One.".to_string())) {
        Step::Type { text, .. } => assert_eq!(text, "One."),
        other => panic!("unexpected {other:?}"),
    }
    l.handle(LoopEvent::Typed(true));
    assert_eq!(l.phase, AppPhase::Recording);
    match l.handle(LoopEvent::StreamDelta("Two.".to_string())) {
        Step::Type { text, .. } => assert_eq!(text, " Two."),
        other => panic!("unexpected {other:?}"),
    }
    l.handle(LoopEvent::Typed(true));
    assert_eq!(l.typed_output, "One. Two.");
    l.handle(LoopEvent::HotkeyReleased);
    match l.handle(LoopEvent::SessionFinished(3000)) {
        Step::Transcribe { use_stream } => assert!(use_stream),
        other => panic!("unexpected {other:?}"),
    }
    match l.handle(LoopEvent::Transcribed {
        text: "One. Two. Three".to_string(),
        remainder: " Three.".to_string(),
    }) {
        Step::Type { text, .. } => assert_eq!(text, " Three."),
        other => panic!("unexpected {other:?}"),
    }
    l.handle(LoopEvent::Typed(false));
    assert_eq!(l.phase, AppPhase::Error);
}

#[test]
fn failed_stream_chunk_is_not_recorded() {
    let mut l = DictationLoop::new(settings(true, true));
    l.handle(LoopEvent::HotkeyPressed);
    l.handle(LoopEvent::AudioInitialized(true));
    l.handle(LoopEvent::SessionStarted(Some(ForegroundTarget { window: 5 })));
    match l.handle(LoopEvent::StreamDelta("Hello.".to_string())) {
        Step::Type { text, target } => {
            assert_eq!(text, "Hello.");
            assert_eq!(target, Some(ForegroundTarget { window: 5 }));
        }
        other => panic!("unexpected {other:?}"),
    }
    assert_eq!(l.pending, Pending::StreamTyping);
    assert!(matches!(l.handle(LoopEvent::Typed(false)), Step::Proceed));
    assert_eq!(l.typed_output, "");
    assert_eq!(l.in_flight, "");
    assert_eq!(l.phase, AppPhase::Error);
    assert_eq!(l.tray, TrayStatus::Error);
    assert!(l.recording);
    assert_eq!(l.pending, Pending::Nothing);
}
