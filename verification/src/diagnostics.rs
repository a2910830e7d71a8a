//! The setup report printed by `--diagnose`: which backend is configured,
//! where its files are expected, and whether they and the microphone were
//! found.

use vstd::prelude::*;

use crate::config::{spec_uses_whispercpp, spec_uses_whisperx, AppConfig};
use crate::paths::{opt_view, spec_path_join, spec_resolve_app_relative, AppDirs, LaunchDirs};
use crate::text::{lower_seq, views};

verus! {

/// What was found on this machine when the report was made.
#[derive(Clone, Copy, Debug, PartialEq, Eq, Structural)]
pub struct DiagnosticFacts {
    /// The resolved WhisperX interpreter exists.
    pub whisperx_python_exists: bool,
    /// The interpreter reports a CUDA device.
    pub cuda_available: bool,
    /// The configured ggml model file exists.
    pub model_exists: bool,
    /// The resolved whisper.cpp tool exists.
    pub whisper_cli_exists: bool,
    /// An audio input device could be opened.
    pub audio_ok: bool,
}

/// `"true"` or `"false"`.
pub open spec fn bool_text(b: bool) -> Seq<char> {
    if b {
        "true"@
    } else {
        "false"@
    }
}

/// `yes` when `b`, else `no`.
pub open spec fn pick(b: bool, yes: Seq<char>, no: Seq<char>) -> Seq<char> {
    if b {
        yes
    } else {
        no
    }
}

/// The lines of the report, in order.
pub open spec fn spec_diagnostics(
    c: AppConfig,
    config_path: Seq<char>,
    data_local_dir: Seq<char>,
    exe_dir: Option<Seq<char>>,
    current_dir: Option<Seq<char>>,
    f: DiagnosticFacts,
) -> Seq<Seq<char>> {
    let head = seq![
        "Hermes diagnostics"@,
        "config path: "@ + config_path,
        "stt backend: "@ + c.stt_backend@,
        "hotkey: "@ + c.hotkey.modifier@ + "+"@ + c.hotkey.key@,
        "language: "@ + c.language@,
        "stream output effective: "@ + bool_text(
            c.stream_output && spec_uses_whispercpp(c.stt_backend@),
        ),
    ];
    let backend = if spec_uses_whisperx(c.stt_backend@) {
        seq![
            "whisperx python: "@ + spec_resolve_app_relative(c.whisperx_python@, exe_dir, current_dir),
            "whisperx model: "@ + c.whisperx_model@,
            "whisperx model dir: "@ + (if c.whisperx_model_dir@.len() == 0 {
                spec_path_join(data_local_dir, "whisperx-models"@)
            } else {
                spec_resolve_app_relative(c.whisperx_model_dir@, exe_dir, current_dir)
            }),
            "whisperx python binary: "@ + pick(f.whisperx_python_exists, "OK"@, "MISSING"@),
            "cuda available: "@ + pick(f.cuda_available, "YES"@, "NO"@),
        ]
    } else {
        seq![
            "model path: "@ + c.model_path@,
            "whisper-cli path: "@ + spec_resolve_app_relative(c.whisper_cli_path@, exe_dir, current_dir),
            "inference mode: cpu_only"@,
            "model file: "@ + pick(f.model_exists, "OK"@, "MISSING"@),
            "whisper-cli binary: "@ + pick(f.whisper_cli_exists, "OK"@, "MISSING"@),
        ]
    };
    head + backend + seq![
        "audio input device: "@ + pick(f.audio_ok, "OK"@, "FAILED"@),
        "diagnostics complete"@,
    ]
}

/// `prefix` followed by `value` as a new string.
fn line(prefix: &str, value: &str) -> (r: String)
    ensures
        r@ == prefix@ + value@,
{
    let mut s = String::from_str(prefix);
    s.append(value);
    s
}

/// The report's lines for a configuration, its directories, and what was
/// found.
pub fn run_diagnostics(config: &AppConfig, dirs: &AppDirs, launch: &LaunchDirs, facts: DiagnosticFacts) -> (r: Vec<String>)
    ensures
        views(r@) == spec_diagnostics(
            *config,
            spec_path_join(dirs.config_dir@, "config.toml"@),
            dirs.data_local_dir@,
            opt_view(launch.exe_dir),
            opt_view(launch.current_dir),
            facts,
        ),
{
    let mut out: Vec<String> = Vec::new();
    out.push(String::from_str("Hermes diagnostics"));
    let path = AppConfig::config_path(dirs);
    out.push(line("config path: ", path.as_str()));
    out.push(line("stt backend: ", config.stt_backend.as_str()));
    let mut hk = line("hotkey: ", config.hotkey.modifier.as_str());
    hk.append("+");
    hk.append(config.hotkey.key.as_str());
    out.push(hk);
    out.push(line("language: ", config.language.as_str()));
    let effective = if config.effective_stream_output() {
        "true"
    } else {
        "false"
    };
    out.push(line("stream output effective: ", effective));
    if config.uses_whisperx() {
        let python = config.resolved_whisperx_python_path(launch);
        out.push(line("whisperx python: ", python.as_str()));
        out.push(line("whisperx model: ", config.whisperx_model.as_str()));
        let model_dir = config.resolved_whisperx_model_dir(dirs, launch);
        out.push(line("whisperx model dir: ", model_dir.as_str()));
        out.push(
            line(
                "whisperx python binary: ",
                if facts.whisperx_python_exists {
                    "OK"
                } else {
                    "MISSING"
                },
            ),
        );
        out.push(
            line(
                "cuda available: ",
                if facts.cuda_available {
                    "YES"
                } else {
                    "NO"
                },
            ),
        );
    } else {
        out.push(line("model path: ", config.model_path.as_str()));
        let cli = config.resolved_whisper_cli_path(launch);
        out.push(line("whisper-cli path: ", cli.as_str()));
        out.push(String::from_str("inference mode: cpu_only"));
        out.push(
            line(
                "model file: ",
                if facts.model_exists {
                    "OK"
                } else {
                    "MISSING"
                },
            ),
        );
        out.push(
            line(
                "whisper-cli binary: ",
                if facts.whisper_cli_exists {
                    "OK"
                } else {
                    "MISSING"
                },
            ),
        );
    }
    out.push(
        line(
            "audio input device: ",
            if facts.audio_ok {
                "OK"
            } else {
                "FAILED"
            },
        ),
    );
    out.push(String::from_str("diagnostics complete"));
    assert(views(out@) =~= spec_diagnostics(
        *config,
        spec_path_join(dirs.config_dir@, "config.toml"@),
        dirs.data_local_dir@,
        opt_view(launch.exe_dir),
        opt_view(launch.current_dir),
        facts,
    ));
    out
}


/// The report's sixth line states whether streaming is in effect: `true`
/// exactly when streaming is asked for and the backend is whisper.cpp (named
/// `whispercpp` in any ASCII case, or not named), so a `whispercpp`
/// configuration with streaming reports `true` and a `whisperx` one reports
/// `false`.
pub proof fn lemma_stream_line(
    c: AppConfig,
    config_path: Seq<char>,
    data_local_dir: Seq<char>,
    exe_dir: Option<Seq<char>>,
    current_dir: Option<Seq<char>>,
    f: DiagnosticFacts,
)
    ensures
        ({
            let line = spec_diagnostics(c, config_path, data_local_dir, exe_dir, current_dir, f)[5];
            &&& line == "stream output effective: "@ + bool_text(
                c.stream_output && spec_uses_whispercpp(c.stt_backend@),
            )
            &&& c.stream_output && c.stt_backend@ == "whispercpp"@ ==> line
                == "stream output effective: true"@
            &&& c.stream_output && c.stt_backend@.len() == 0 ==> line
                == "stream output effective: true"@
            &&& !c.stream_output ==> line == "stream output effective: false"@
            &&& c.stt_backend@ == "whisperx"@ ==> line == "stream output effective: false"@
        }),
{
    reveal_strlit("whispercpp");
    reveal_strlit("whisperx");
    reveal_strlit("stream output effective: ");
    reveal_strlit("stream output effective: true");
    reveal_strlit("stream output effective: false");
    reveal_strlit("true");
    reveal_strlit("false");
    assert("stream output effective: "@ + "true"@ =~= "stream output effective: true"@);
    assert("stream output effective: "@ + "false"@ =~= "stream output effective: false"@);
    let l = spec_diagnostics(c, config_path, data_local_dir, exe_dir, current_dir, f);
    assert(l[5] == "stream output effective: "@ + bool_text(
        c.stream_output && spec_uses_whispercpp(c.stt_backend@),
    ));
    if c.stt_backend@ == "whisperx"@ {
        assert(lower_seq("whisperx"@).len() == 8);
        assert(lower_seq("whispercpp"@).len() == 10);
        assert(!spec_uses_whispercpp(c.stt_backend@));
    }
}

} // verus!
