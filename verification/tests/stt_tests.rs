use std::path::Path;

use hermes::config::AppConfig;
use hermes::paths::{AppDirs, LaunchDirs};
use hermes::stt::{
    bootstrap_failure_message, bootstrap_step, join_segment_texts, needs_transcription,
    runtime_after_bootstrap, runtime_step, BootstrapStep, LaunchOutcome, RuntimeStep,
    create_transcriber, parse_whisperx_json, rand_seed_from, resolve_device_and_compute,
    transcript_json_path, transcript_source, transcript_txt_path, whisperx_runtime_dir,
    BackendTranscriber, SttError, TranscriptSource, WhisperXTranscriber,
};

fn join(a: &str, b: &str) -> String {
    Path::new(a).join(b).to_string_lossy().into_owned()
}

#[test]
fn parse_whisperx_json_joins_segment_text() {
    let raw = r#"{"segments":[{"text":" hello"},{"text":" world "}]}"#;
    assert_eq!(
        parse_whisperx_json(raw).expect("json should parse"),
        "hello world"
    );
}

#[test]
fn parse_whisperx_json_skips_blank_and_missing_text() {
    let raw = r#"{"segments":[{"text":"  "},{"start":1},{"text":"a"},{"text":7},{"text":"b c "}]}"#;
    assert_eq!(parse_whisperx_json(raw).unwrap(), "a b c");
    assert_eq!(parse_whisperx_json(r#"{"segments":[]}"#).unwrap(), "");
}

#[test]
fn parse_whisperx_json_errors() {
    assert!(matches!(
        parse_whisperx_json(r#"{"text":"x"}"#),
        Err(SttError::MissingSegments)
    ));
    assert!(matches!(
        parse_whisperx_json(r#"{"segments":"x"}"#),
        Err(SttError::MissingSegments)
    ));
    match parse_whisperx_json("not json") {
        Err(SttError::InvalidJson(m)) => assert!(!m.is_empty()),
        other => panic!("unexpected {other:?}"),
    }
    assert_eq!(
        SttError::MissingSegments.message(),
        "WhisperX JSON output did not include segments"
    );
    assert_eq!(
        SttError::UnknownBackend("vosk".to_string()).message(),
        "unknown stt_backend: vosk"
    );
}

#[test]
fn resolve_auto_device_prefers_cpu_when_python_missing() {
    // An interpreter that does not exist cannot report a CUDA device.
    let cuda_available = Path::new("missing-python.exe").exists();
    let (device, compute) = resolve_device_and_compute(cuda_available, "auto", "auto")
        .expect("resolution should succeed");
    assert_eq!(device, "cpu");
    assert_eq!(compute, "int8");
}

#[test]
fn resolve_auto_device_prefers_cuda_when_available() {
    let (device, compute) = resolve_device_and_compute(true, " AUTO ", "Auto").unwrap();
    assert_eq!(device, "cuda");
    assert_eq!(compute, "float16");
    let (device, compute) = resolve_device_and_compute(true, " CPU", "auto").unwrap();
    assert_eq!(device, "cpu");
    assert_eq!(compute, "int8");
    let (device, compute) = resolve_device_and_compute(false, "cuda", " Float32 ").unwrap();
    assert_eq!(device, "cuda");
    assert_eq!(compute, "float32");
}

#[test]
fn backend_selection() {
    let mut config = AppConfig::default_in("/data");
    assert_eq!(create_transcriber(&config).unwrap(), BackendTranscriber::WhisperCpp);
    config.stt_backend = "WhisperX".to_string();
    assert_eq!(create_transcriber(&config).unwrap(), BackendTranscriber::WhisperX);
    config.stt_backend = "vosk".to_string();
    match create_transcriber(&config) {
        Err(SttError::UnknownBackend(b)) => assert_eq!(b, "vosk"),
        other => panic!("unexpected {other:?}"),
    }
}

#[test]
fn whisperx_setup_and_invocation() {
    let dirs = AppDirs {
        config_dir: "/cfg".to_string(),
        data_local_dir: "/data".to_string(),
    };
    let launch = LaunchDirs {
        exe_dir: Some("/opt/app".to_string()),
        current_dir: None,
    };
    let mut config = AppConfig::default_in("/data");
    config.stt_backend = "whisperx".to_string();
    let t = WhisperXTranscriber::new(&config, &dirs, &launch, false);
    assert_eq!(t.scratch_dir, join("/data", "scratch"));
    assert_eq!(t.model_dir, join("/data", "whisperx-models"));
    assert_eq!(t.python_path, join("/opt/app", &config.whisperx_python));
    assert_eq!(t.device, "cpu");
    assert_eq!(t.compute_type, "int8");
    assert_eq!(t.model, "small");
    assert_eq!(t.transcription_language(""), "en");
    assert_eq!(t.transcription_language("de"), "de");
    let wav = t.scratch_wav_path(42);
    assert_eq!(wav, join(&join("/data", "scratch"), "ptt-42.wav"));
    let args = t.whisperx_args(&wav, "en");
    let expected: Vec<String> = [
        "-m", "whisperx", &wav, "--model", "small", "--language", "en", "--output_dir",
        &t.scratch_dir, "--output_format", "txt", "--device", "cpu", "--compute_type", "int8",
        "--model_dir", &t.model_dir, "--batch_size", "8", "--verbose", "False",
    ]
    .iter()
    .map(|s| s.to_string())
    .collect();
    assert_eq!(args, expected);
    assert_eq!(transcript_txt_path(&wav, "/out"), join("/out", "ptt-42.txt"));
    assert_eq!(transcript_txt_path("", "/out"), join("/out", "transcript.txt"));
    assert_eq!(transcript_json_path("/s/ptt-1.wav"), "/s/ptt-1.json");
}

#[test]
fn runtime_dir_is_two_levels_up() {
    assert_eq!(
        whisperx_runtime_dir("/r/venv/Scripts/python.exe"),
        Some("/r/venv".to_string())
    );
    assert_eq!(whisperx_runtime_dir("python.exe"), None);
}

#[test]
fn rand_seed_mixes_high_bits() {
    let nanos: u128 = (5u128 << 64) | (3u128 << 32) | 7u128;
    assert_eq!(rand_seed_from(nanos), ((3u64 << 32) | 7) ^ ((5u64 << 32) | 3));
    assert_eq!(rand_seed_from(0), 0);
}

#[test]
fn transcript_source_prefers_text_then_json() {
    let wav = "/s/ptt-9.wav";
    assert!(matches!(
        transcript_source(wav, "/s", false, true, true),
        TranscriptSource::RunFailed
    ));
    match transcript_source(wav, "/out", true, true, true) {
        TranscriptSource::Text(p) => assert_eq!(p, join("/out", "ptt-9.txt")),
        other => panic!("unexpected {other:?}"),
    }
    match transcript_source(wav, "/out", true, false, true) {
        TranscriptSource::Json(p) => assert_eq!(p, "/s/ptt-9.json"),
        other => panic!("unexpected {other:?}"),
    }
    match transcript_source(wav, "/out", true, false, false) {
        TranscriptSource::NotFound { txt_path, json_path } => {
            assert_eq!(txt_path, join("/out", "ptt-9.txt"));
            assert_eq!(json_path, "/s/ptt-9.json");
        }
        other => panic!("unexpected {other:?}"),
    }
}

#[test]
fn runtime_steps() {
    let python = "/r/venv/Scripts/python.exe";
    assert!(matches!(runtime_step(python, true), RuntimeStep::Ready));
    match runtime_step(python, false) {
        RuntimeStep::Bootstrap { runtime_dir } => assert_eq!(runtime_dir, "/r/venv"),
        other => panic!("unexpected {other:?}"),
    }
    match runtime_step("python.exe", false) {
        RuntimeStep::Fail(m) => assert_eq!(m, "whisperx python path has no runtime directory"),
        other => panic!("unexpected {other:?}"),
    }
    assert!(runtime_after_bootstrap(python, Ok(()), true).is_ok());
    assert_eq!(
        runtime_after_bootstrap(python, Ok(()), false).unwrap_err(),
        "automatic WhisperX setup completed, but python is still missing at /r/venv/Scripts/python.exe"
    );
    assert_eq!(
        runtime_after_bootstrap(python, Err("no pip".to_string()), true).unwrap_err(),
        "WhisperX python not found at /r/venv/Scripts/python.exe\nautomatic setup failed: no pip\nmanual fix: run `python scripts/ptt_tooling.py ensure-whisperx` from the Hermes repo."
    );
}

#[test]
fn bootstrap_tries_launchers_in_order() {
    let mut outcomes: Vec<LaunchOutcome> = Vec::new();
    assert!(matches!(bootstrap_step(2, &outcomes), BootstrapStep::Launch(0)));
    outcomes.push(LaunchOutcome::FailedToStart {
        program: "py".to_string(),
        args: vec!["-3".to_string()],
        error: "not found".to_string(),
    });
    assert!(matches!(bootstrap_step(2, &outcomes), BootstrapStep::Launch(1)));
    let mut done = outcomes.clone();
    done.push(LaunchOutcome::Succeeded);
    assert!(matches!(bootstrap_step(2, &done), BootstrapStep::Done));
    outcomes.push(LaunchOutcome::Exited {
        program: "python".to_string(),
        args: Vec::new(),
        status: "exit code: 1".to_string(),
    });
    match bootstrap_step(2, &outcomes) {
        BootstrapStep::Failed(lines) => {
            assert_eq!(
                lines,
                vec![
                    "py -3 failed to start: not found".to_string(),
                    "python  exited with status exit code: 1".to_string(),
                ]
            );
            assert_eq!(
                bootstrap_failure_message("/tmp/t.py", &lines),
                "failed to invoke Python WhisperX bootstrap helper at /tmp/t.py:\npy -3 failed to start: not found\npython  exited with status exit code: 1"
            );
        }
        other => panic!("unexpected {other:?}"),
    }
}

#[test]
fn segment_texts_and_empty_audio() {
    let segments = vec![Some(" hello".to_string()), None, Some("  ".to_string()), Some(" world ".to_string())];
    assert_eq!(join_segment_texts(&segments), "hello world");
    assert!(!needs_transcription(0));
    assert!(needs_transcription(1));
}
