use std::path::Path;

use hermes::config::{
    default_whisper_cli_path, default_whisperx_python_path, is_legacy_default_whisper_cli_path,
    startup_directories, whisper_cli_candidates, AppConfig,
};
use hermes::paths::{resolve_app_relative_path, AppDirs, LaunchDirs};

fn join(a: &str, b: &str) -> String {
    Path::new(a).join(b).to_string_lossy().into_owned()
}

fn sample_dirs() -> AppDirs {
    AppDirs {
        config_dir: "/home/u/.config/hermes".to_string(),
        data_local_dir: "/home/u/.local/share/hermes".to_string(),
    }
}

fn launch(exe: Option<&str>, cwd: Option<&str>) -> LaunchDirs {
    LaunchDirs {
        exe_dir: exe.map(str::to_string),
        current_dir: cwd.map(str::to_string),
    }
}

#[test]
fn default_config_includes_stream_output_default() {
    let config = AppConfig::default();
    assert!(!config.stream_output);
    assert!(!config.allow_terminal_output);
}

#[test]
fn default_config_values() {
    let config = AppConfig::default_in("/data");
    assert_eq!(config.hotkey.modifier, "none");
    assert_eq!(config.hotkey.key, "f8");
    assert_eq!(config.stt_backend, "whispercpp");
    assert_eq!(
        config.model_path,
        join(&join("/data", "models"), "ggml-medium.en.bin")
    );
    assert_eq!(config.whisper_cli_path, join("whisper-runtime", "whisper-cli.exe"));
    assert_eq!(
        config.whisperx_python,
        join(&join(&join("whisperx-runtime", "venv"), "Scripts"), "python.exe")
    );
    assert_eq!(config.whisperx_model, "small");
    assert_eq!(config.whisperx_language, "en");
    assert_eq!(config.whisperx_device, "auto");
    assert_eq!(config.whisperx_compute_type, "auto");
    assert_eq!(config.whisperx_model_dir, "");
    assert_eq!(config.min_record_ms, 200);
    assert!(config.auto_punctuation);
    assert!(config.type_output);
    assert_eq!(config.language, "en");
    assert_eq!(default_whisperx_python_path(), config.whisperx_python);
}

#[test]
fn default_config_uses_whispercpp_without_streaming() {
    let mut config = AppConfig::default_in("/data");
    assert!(config.uses_whispercpp());
    assert!(!config.uses_whisperx());
    assert!(!config.effective_stream_output());
    config.stream_output = true;
    assert!(config.effective_stream_output());
}

#[test]
fn backend_names_ignore_ascii_case() {
    let mut config = AppConfig::default_in("/data");
    config.stt_backend = "WhisperX".to_string();
    assert!(config.uses_whisperx());
    assert!(!config.uses_whispercpp());
    config.stream_output = true;
    assert!(!config.effective_stream_output());
    config.stt_backend = "WHISPERCPP".to_string();
    assert!(config.uses_whispercpp());
    config.stt_backend = String::new();
    assert!(config.uses_whispercpp());
    assert!(!config.uses_whisperx());
    config.stt_backend = "vosk".to_string();
    assert!(!config.uses_whispercpp());
    assert!(!config.uses_whisperx());
    assert!(!config.effective_stream_output());
}

#[test]
fn whisperx_config_disables_streaming() {
    let mut config = AppConfig::default_in("/data");
    config.stt_backend = "whisperx".to_string();
    config.whisperx_model = "small".to_string();
    config.stream_output = true;
    config.hotkey.modifier = "rctrl".to_string();
    config.hotkey.key = "rshift".to_string();
    assert!(config.uses_whisperx());
    assert!(!config.effective_stream_output());
    assert_eq!(config.whisperx_model, "small");
}

#[test]
fn config_and_data_paths() {
    let dirs = sample_dirs();
    let config = AppConfig::default_in(&dirs.data_local_dir);
    assert_eq!(
        AppConfig::config_path(&dirs),
        join("/home/u/.config/hermes", "config.toml")
    );
    assert_eq!(config.data_dir(&dirs), "/home/u/.local/share/hermes");
    assert_eq!(config.logs_dir(&dirs), "/home/u/.local/share/hermes");
}

#[test]
fn relative_paths_resolve_against_exe_then_cwd() {
    assert_eq!(
        resolve_app_relative_path("tools/x.exe", &launch(Some("/opt/app"), Some("/work"))),
        join("/opt/app", "tools/x.exe")
    );
    assert_eq!(
        resolve_app_relative_path("tools/x.exe", &launch(None, Some("/work"))),
        join("/work", "tools/x.exe")
    );
    assert_eq!(
        resolve_app_relative_path("tools/x.exe", &launch(None, None)),
        "tools/x.exe"
    );
    assert_eq!(
        resolve_app_relative_path("/abs/x.exe", &launch(Some("/opt/app"), None)),
        "/abs/x.exe"
    );
}

#[test]
fn whisperx_model_dir_defaults_under_data_dir() {
    let dirs = sample_dirs();
    let l = launch(Some("/opt/app"), None);
    let mut config = AppConfig::default_in(&dirs.data_local_dir);
    assert_eq!(
        config.resolved_whisperx_model_dir(&dirs, &l),
        join("/home/u/.local/share/hermes", "whisperx-models")
    );
    config.whisperx_model_dir = "models".to_string();
    assert_eq!(
        config.resolved_whisperx_model_dir(&dirs, &l),
        join("/opt/app", "models")
    );
    assert_eq!(
        config.resolved_whisperx_python_path(&l),
        join("/opt/app", &config.whisperx_python)
    );
    assert_eq!(
        config.resolved_whisper_cli_path(&l),
        join("/opt/app", &config.whisper_cli_path)
    );
}

#[test]
fn candidates_follow_fixed_order() {
    let packaged = default_whisper_cli_path();
    let c = whisper_cli_candidates(&launch(Some("/opt/app"), Some("/work")));
    assert_eq!(
        c,
        vec![
            packaged.clone(),
            "whisper-cli.exe".to_string(),
            join("/opt/app", &packaged),
            join("/work", &packaged),
        ]
    );
    let c = whisper_cli_candidates(&launch(None, None));
    assert_eq!(c[2], packaged);
    assert_eq!(c[3], packaged);
}

#[test]
fn legacy_cli_name_is_recognised() {
    assert!(is_legacy_default_whisper_cli_path("whisper-cli.exe"));
    assert!(!is_legacy_default_whisper_cli_path(&default_whisper_cli_path()));
}

#[test]
fn migration_keeps_existing_tool() {
    let l = launch(Some("/opt/app"), None);
    let mut config = AppConfig::default_in("/data");
    config.whisper_cli_path = "/tools/whisper-cli.exe".to_string();
    let existing = vec!["/tools/whisper-cli.exe".to_string()];
    assert!(!config.migrate_whisper_cli_path(&l, &existing));
    assert_eq!(config.whisper_cli_path, "/tools/whisper-cli.exe");
}

#[test]
fn migration_moves_legacy_name_to_packaged_tool() {
    let l = launch(Some("/opt/app"), None);
    let mut config = AppConfig::default_in("/data");
    config.whisper_cli_path = "whisper-cli.exe".to_string();
    let probes = config.whisper_cli_probe_paths(&l);
    assert_eq!(probes[0], join("/opt/app", "whisper-cli.exe"));
    let existing = vec![
        join("/opt/app", "whisper-cli.exe"),
        join("/opt/app", &default_whisper_cli_path()),
    ];
    assert!(config.migrate_whisper_cli_path(&l, &existing));
    assert_eq!(config.whisper_cli_path, default_whisper_cli_path());
}

#[test]
fn migration_picks_first_existing_candidate() {
    let l = launch(Some("/opt/app"), Some("/work"));
    let mut config = AppConfig::default_in("/data");
    config.whisper_cli_path = "/gone/whisper-cli.exe".to_string();
    let existing = vec![join("/work", &default_whisper_cli_path())];
    assert!(config.migrate_whisper_cli_path(&l, &existing));
    assert_eq!(config.whisper_cli_path, join("/work", &default_whisper_cli_path()));
    let mut other = AppConfig::default_in("/data");
    other.whisper_cli_path = "/gone/whisper-cli.exe".to_string();
    assert!(!other.migrate_whisper_cli_path(&l, &Vec::new()));
    assert_eq!(other.whisper_cli_path, "/gone/whisper-cli.exe");
}

#[test]
fn startup_directories_need_model_parent() {
    let dirs = sample_dirs();
    let config = AppConfig::default_in(&dirs.data_local_dir);
    let (model_dir, data_dir) = startup_directories(&config, &dirs).expect("model has a parent");
    assert_eq!(model_dir, join("/home/u/.local/share/hermes", "models"));
    assert_eq!(data_dir, "/home/u/.local/share/hermes");
    let mut rootless = config.clone();
    rootless.model_path = "/".to_string();
    assert!(startup_directories(&rootless, &dirs).is_none());
}

#[test]
fn a_second_migration_changes_nothing() {
    let l = launch(Some("/opt/app"), Some("/work"));
    let existing = vec![
        join("/opt/app", "whisper-cli.exe"),
        join("/opt/app", &default_whisper_cli_path()),
    ];
    let mut config = AppConfig::default_in("/data");
    config.whisper_cli_path = "whisper-cli.exe".to_string();
    assert!(config.migrate_whisper_cli_path(&l, &existing));
    let after_first = config.whisper_cli_path.clone();
    assert!(!config.migrate_whisper_cli_path(&l, &existing));
    assert_eq!(config.whisper_cli_path, after_first);
}

#[test]
fn resolving_twice_is_resolving_once() {
    let l = launch(Some("/opt/app"), None);
    let once = resolve_app_relative_path("models/x.bin", &l);
    assert_eq!(resolve_app_relative_path(&once, &l), once);
}

#[test]
fn located_directories_belong_to_the_project() {
    if let Some(dirs) = AppDirs::locate() {
        assert!(dirs.config_dir.to_lowercase().contains("hermes"));
        assert!(dirs.data_local_dir.to_lowercase().contains("hermes"));
        let config = AppConfig::default();
        assert!(config.model_path.starts_with(&dirs.data_local_dir));
    }
}

#[test]
fn a_repaired_candidate_needs_no_second_repair() {
    let l = launch(None, Some("/work"));
    let existing = vec![join("/work", &default_whisper_cli_path())];
    let mut config = AppConfig::default_in("/data");
    config.whisper_cli_path = "/gone/whisper-cli.exe".to_string();
    assert!(config.migrate_whisper_cli_path(&l, &existing));
    assert_eq!(config.whisper_cli_path, default_whisper_cli_path());
    assert!(!config.migrate_whisper_cli_path(&l, &existing));
    assert_eq!(config.whisper_cli_path, default_whisper_cli_path());
    assert!(!is_legacy_default_whisper_cli_path(&default_whisper_cli_path()));
    let once = resolve_app_relative_path("a/b.txt", &l);
    assert_eq!(once, join("/work", "a/b.txt"));
    assert_eq!(resolve_app_relative_path(&once, &l), once);
}
