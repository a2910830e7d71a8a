use std::path::Path;

use hermes::config::AppConfig;
use hermes::diagnostics::{run_diagnostics, DiagnosticFacts};
use hermes::paths::{AppDirs, LaunchDirs};

fn join(a: &str, b: &str) -> String {
    Path::new(a).join(b).to_string_lossy().into_owned()
}

#[test]
fn whispercpp_report() {
    let dirs = AppDirs { config_dir: "/cfg".to_string(), data_local_dir: "/data".to_string() };
    let launch = LaunchDirs { exe_dir: Some("/app".to_string()), current_dir: None };
    let config = AppConfig::default_in("/data");
    let facts = DiagnosticFacts {
        whisperx_python_exists: false,
        cuda_available: false,
        model_exists: true,
        whisper_cli_exists: false,
        audio_ok: true,
    };
    let lines = run_diagnostics(&config, &dirs, &launch, facts);
    assert_eq!(
        lines,
        vec![
            "Hermes diagnostics".to_string(),
            format!("config path: {}", join("/cfg", "config.toml")),
            "stt backend: whispercpp".to_string(),
            "hotkey: none+f8".to_string(),
            "language: en".to_string(),
            "stream output effective: false".to_string(),
            format!("model path: {}", config.model_path),
            format!("whisper-cli path: {}", join("/app", &config.whisper_cli_path)),
            "inference mode: cpu_only".to_string(),
            "model file: OK".to_string(),
            "whisper-cli binary: MISSING".to_string(),
            "audio input device: OK".to_string(),
            "diagnostics complete".to_string(),
        ]
    );
}

#[test]
fn whisperx_report() {
    let dirs = AppDirs { config_dir: "/cfg".to_string(), data_local_dir: "/data".to_string() };
    let launch = LaunchDirs { exe_dir: Some("/app".to_string()), current_dir: None };
    let mut config = AppConfig::default_in("/data");
    config.stt_backend = "whisperx".to_string();
    config.stream_output = true;
    let facts = DiagnosticFacts {
        whisperx_python_exists: true,
        cuda_available: true,
        model_exists: false,
        whisper_cli_exists: false,
        audio_ok: false,
    };
    let lines = run_diagnostics(&config, &dirs, &launch, facts);
    assert_eq!(lines[5], "stream output effective: false");
    assert_eq!(lines[6], format!("whisperx python: {}", join("/app", &config.whisperx_python)));
    assert_eq!(lines[7], "whisperx model: small");
    assert_eq!(lines[8], format!("whisperx model dir: {}", join("/data", "whisperx-models")));
    assert_eq!(lines[9], "whisperx python binary: OK");
    assert_eq!(lines[10], "cuda available: YES");
    assert_eq!(lines[11], "audio input device: FAILED");
    assert_eq!(lines.len(), 13);
}
