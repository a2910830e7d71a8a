//! Speech-to-text backends: which one the configuration selects, how the
//! WhisperX command is set up and invoked, where its transcript lands, and
//! how its JSON output is read.

use vstd::prelude::*;

use crate::config::{spec_uses_whispercpp, spec_uses_whisperx, AppConfig};
use crate::paths::{
    opt_view, path_file_stem, path_join, path_parent, path_with_extension, spec_path_file_stem,
    spec_path_join, spec_path_parent, spec_path_with_extension, AppDirs, LaunchDirs,
};
use crate::text::{
    decimal_seq, join_seq, join_strings, lower_seq, str_eq, to_ascii_lowercase, trim, trim_seq,
    u64_to_decimal, views,
};

verus! {

/// The transcription engine a configuration selects.
#[derive(Clone, Copy, Debug, PartialEq, Eq, Structural)]
pub enum BackendTranscriber {
    /// The whisper.cpp command-line tool.
    WhisperCpp,
    /// The WhisperX Python pipeline.
    WhisperX,
}

/// Why a transcription step could not go on.
#[derive(Clone, Debug)]
pub enum SttError {
    /// The configuration names a backend that does not exist.
    UnknownBackend(String),
    /// The WhisperX JSON output is not valid JSON; the parser's message.
    InvalidJson(String),
    /// The WhisperX JSON output has no `segments` array.
    MissingSegments,
}

impl SttError {
    /// A one-line description of the error.
    pub fn message(&self) -> (r: String)
        ensures
            match *self {
                SttError::UnknownBackend(b) => r@ == "unknown stt_backend: "@ + b@,
                SttError::InvalidJson(m) => r@ == "failed to parse WhisperX JSON output: "@ + m@,
                SttError::MissingSegments => r@ == "WhisperX JSON output did not include segments"@,
            },
    {
        match self {
            SttError::UnknownBackend(b) => {
                let mut m = String::from_str("unknown stt_backend: ");
                m.append(b.as_str());
                m
            },
            SttError::InvalidJson(detail) => {
                let mut m = String::from_str("failed to parse WhisperX JSON output: ");
                m.append(detail.as_str());
                m
            },
            SttError::MissingSegments => String::from_str(
                "WhisperX JSON output did not include segments",
            ),
        }
    }
}

/// The backend a configuration selects: WhisperX if named, else whisper.cpp
/// if named or unnamed, else an error naming the unknown backend.
pub fn create_transcriber(config: &AppConfig) -> (r: Result<BackendTranscriber, SttError>)
    ensures
        spec_uses_whisperx(config.stt_backend@) ==> r == Ok::<
            BackendTranscriber,
            SttError,
        >(BackendTranscriber::WhisperX),
        !spec_uses_whisperx(config.stt_backend@) && spec_uses_whispercpp(config.stt_backend@)
            ==> r == Ok::<BackendTranscriber, SttError>(BackendTranscriber::WhisperCpp),
        !spec_uses_whisperx(config.stt_backend@) && !spec_uses_whispercpp(config.stt_backend@)
            ==> (r matches Err(SttError::UnknownBackend(b)) && b@ == config.stt_backend@),
{
    if config.uses_whisperx() {
        return Ok(BackendTranscriber::WhisperX);
    }
    if config.uses_whispercpp() {
        return Ok(BackendTranscriber::WhisperCpp);
    }
    Err(SttError::UnknownBackend(config.stt_backend.clone()))
}

/// The device WhisperX runs on: for `auto` (any case, surrounding white space
/// ignored) CUDA when it is available and the CPU otherwise; any other value
/// as written, trimmed and lower-cased.
pub open spec fn spec_resolved_device(cuda_available: bool, device: Seq<char>) -> Seq<char> {
    let d = lower_seq(trim_seq(device));
    if d == "auto"@ {
        if cuda_available {
            "cuda"@
        } else {
            "cpu"@
        }
    } else {
        d
    }
}

/// The compute type WhisperX uses: for `auto`, `float16` on CUDA and `int8`
/// otherwise; any other value as written, trimmed and lower-cased.
pub open spec fn spec_resolved_compute(resolved_device: Seq<char>, compute_type: Seq<char>) -> Seq<
    char,
> {
    let c = lower_seq(trim_seq(compute_type));
    if c == "auto"@ {
        if resolved_device == "cuda"@ {
            "float16"@
        } else {
            "int8"@
        }
    } else {
        c
    }
}

/// The resolved device and compute type.
fn resolve_pair(cuda_available: bool, device: &str, compute_type: &str) -> (r: (String, String))
    ensures
        r.0@ == spec_resolved_device(cuda_available, device@),
        r.1@ == spec_resolved_compute(r.0@, compute_type@),
{
    let d = to_ascii_lowercase(trim(device).as_str());
    let resolved_device = if str_eq(d.as_str(), "auto") {
        if cuda_available {
            String::from_str("cuda")
        } else {
            String::from_str("cpu")
        }
    } else {
        d
    };
    let c = to_ascii_lowercase(trim(compute_type).as_str());
    let resolved_compute = if str_eq(c.as_str(), "auto") {
        if str_eq(resolved_device.as_str(), "cuda") {
            String::from_str("float16")
        } else {
            String::from_str("int8")
        }
    } else {
        c
    };
    (resolved_device, resolved_compute)
}

/// The device and compute type for WhisperX, given whether CUDA is available
/// to its interpreter. Always succeeds.
pub fn resolve_device_and_compute(cuda_available: bool, device: &str, compute_type: &str) -> (r:
    Result<(String, String), SttError>)
    ensures
        r matches Ok((d, c)) && d@ == spec_resolved_device(cuda_available, device@) && c@
            == spec_resolved_compute(d@, compute_type@),
{
    Ok(resolve_pair(cuda_available, device, compute_type))
}

/// A WhisperX transcription setup: the interpreter, model and language, the
/// resolved device and compute type, and where models and scratch files go.
#[derive(Clone, Debug)]
pub struct WhisperXTranscriber {
    pub python_path: String,
    pub model: String,
    pub language: String,
    pub device: String,
    pub compute_type: String,
    pub model_dir: String,
    pub scratch_dir: String,
}

/// Where WhisperX audio and transcripts are written: `scratch` under the
/// data directory.
pub fn whisperx_scratch_dir(dirs: &AppDirs) -> (r: String)
    ensures
        r@ == spec_path_join(dirs.data_local_dir@, "scratch"@),
{
    path_join(dirs.data_local_dir.as_str(), "scratch")
}

/// The parent of the parent of a WhisperX interpreter path.
pub open spec fn spec_runtime_dir(python_path: Seq<char>) -> Option<Seq<char>> {
    match spec_path_parent(python_path) {
        Some(scripts) => spec_path_parent(scripts),
        None => None,
    }
}

/// The runtime directory that holds a WhisperX interpreter
/// (`<runtime>/venv/Scripts/python.exe`): the parent of its parent.
pub fn whisperx_runtime_dir(python_path: &str) -> (r: Option<String>)
    ensures
        opt_view(r) == spec_runtime_dir(python_path@),
{
    match path_parent(python_path) {
        Some(scripts) => path_parent(scripts.as_str()),
        None => None,
    }
}

/// What to do about the WhisperX runtime before transcribing.
#[derive(Clone, Debug)]
pub enum RuntimeStep {
    /// The interpreter exists; nothing to do.
    Ready,
    /// Set the runtime up in `runtime_dir` with the bootstrap helper, then
    /// look for the interpreter again.
    Bootstrap { runtime_dir: String },
    /// The runtime cannot be set up; the message says why.
    Fail(String),
}

/// The message when the interpreter path has no runtime directory.
pub open spec fn no_runtime_dir_message() -> Seq<char> {
    "whisperx python path has no runtime directory"@
}

/// The next step for an interpreter at `python_path`: nothing when it exists,
/// else a bootstrap into its runtime directory, or a failure when the path
/// has none.
pub fn runtime_step(python_path: &str, python_exists: bool) -> (r: RuntimeStep)
    ensures
        python_exists ==> r is Ready,
        !python_exists ==> match spec_runtime_dir(python_path@) {
            Some(dir) => (r matches RuntimeStep::Bootstrap { runtime_dir } && runtime_dir@ == dir),
            None => (r matches RuntimeStep::Fail(m) && m@ == no_runtime_dir_message()),
        },
{
    if python_exists {
        return RuntimeStep::Ready;
    }
    match whisperx_runtime_dir(python_path) {
        Some(runtime_dir) => RuntimeStep::Bootstrap { runtime_dir },
        None => RuntimeStep::Fail(String::from_str("whisperx python path has no runtime directory")),
    }
}

/// The message when the bootstrap ran but the interpreter is still missing.
pub open spec fn still_missing_message(python_path: Seq<char>) -> Seq<char> {
    "automatic WhisperX setup completed, but python is still missing at "@ + python_path
}

/// The message when the bootstrap failed with `error`, with the manual fix.
pub open spec fn bootstrap_failed_message(python_path: Seq<char>, error: Seq<char>) -> Seq<char> {
    "WhisperX python not found at "@ + python_path + "\nautomatic setup failed: "@ + error
        + "\nmanual fix: run `python scripts/ptt_tooling.py ensure-whisperx` from the Hermes repo."@
}

/// The outcome of setting the runtime up: ready when the bootstrap succeeded
/// and the interpreter now exists; an error saying it is still missing when
/// the bootstrap succeeded without it; an error with the bootstrap's failure
/// and the manual fix otherwise.
pub fn runtime_after_bootstrap(python_path: &str, bootstrap: Result<(), String>, python_exists: bool) -> (r:
    Result<(), String>)
    ensures
        match bootstrap {
            Ok(()) => if python_exists {
                r is Ok
            } else {
                r matches Err(m) && m@ == still_missing_message(python_path@)
            },
            Err(e) => (r matches Err(m) && m@ == bootstrap_failed_message(python_path@, e@)),
        },
{
    match bootstrap {
        Ok(()) => {
            if python_exists {
                Ok(())
            } else {
                let mut m = String::from_str(
                    "automatic WhisperX setup completed, but python is still missing at ",
                );
                m.append(python_path);
                Err(m)
            }
        },
        Err(e) => {
            let mut m = String::from_str("WhisperX python not found at ");
            m.append(python_path);
            m.append("\nautomatic setup failed: ");
            m.append(e.as_str());
            m.append(
                "\nmanual fix: run `python scripts/ptt_tooling.py ensure-whisperx` from the Hermes repo.",
            );
            Err(m)
        },
    }
}

/// What one launch of the bootstrap helper came to.
#[derive(Clone, Debug)]
pub enum LaunchOutcome {
    /// The helper ran and reported success.
    Succeeded,
    /// `program` with `args` ran and exited unsuccessfully with `status`.
    Exited { program: String, args: Vec<String>, status: String },
    /// `program` with `args` could not be started; `error` says why.
    FailedToStart { program: String, args: Vec<String>, error: String },
}

/// What to do next while bootstrapping.
#[derive(Clone, Debug)]
pub enum BootstrapStep {
    /// A launch succeeded; stop.
    Done,
    /// Try the launcher with this index.
    Launch(usize),
    /// Every launcher failed; one line per attempt, in order.
    Failed(Vec<String>),
}

/// A launcher as it is named in messages: the program, a space, and its
/// arguments separated by spaces.
pub open spec fn launcher_text(program: Seq<char>, args: Seq<Seq<char>>) -> Seq<char> {
    program + " "@ + join_seq(args, " "@)
}

/// The line that reports a failed attempt (empty for a success).
pub open spec fn attempt_line(o: LaunchOutcome) -> Seq<char> {
    match o {
        LaunchOutcome::Succeeded => Seq::<char>::empty(),
        LaunchOutcome::Exited { program, args, status } => launcher_text(program@, views(args@))
            + " exited with status "@ + status@,
        LaunchOutcome::FailedToStart { program, args, error } => launcher_text(
            program@,
            views(args@),
        ) + " failed to start: "@ + error@,
    }
}

/// Whether some launch succeeded.
pub open spec fn any_succeeded(outcomes: Seq<LaunchOutcome>) -> bool {
    exists|i: int| 0 <= i < outcomes.len() && #[trigger] outcomes[i] is Succeeded
}

fn attempt_line_text(o: &LaunchOutcome) -> (r: String)
    ensures
        r@ == attempt_line(*o),
{
    match o {
        LaunchOutcome::Succeeded => String::new(),
        LaunchOutcome::Exited { program, args, status } => {
            let mut m = String::from_str(program.as_str());
            m.append(" ");
            let a = join_strings(args, " ");
            m.append(a.as_str());
            m.append(" exited with status ");
            m.append(status.as_str());
            m
        },
        LaunchOutcome::FailedToStart { program, args, error } => {
            let mut m = String::from_str(program.as_str());
            m.append(" ");
            let a = join_strings(args, " ");
            m.append(a.as_str());
            m.append(" failed to start: ");
            m.append(error.as_str());
            m
        },
    }
}

/// The next bootstrap step after the launches so far (`outcomes`, in order)
/// with `n_launchers` launchers available: done once one succeeded, else the
/// next launcher while one is left, else a failure listing every attempt.
pub fn bootstrap_step(n_launchers: usize, outcomes: &Vec<LaunchOutcome>) -> (r: BootstrapStep)
    ensures
        any_succeeded(outcomes@) ==> r is Done,
        !any_succeeded(outcomes@) && outcomes.len() < n_launchers ==> (r matches BootstrapStep::Launch(
            k,
        ) && k == outcomes.len()),
        !any_succeeded(outcomes@) && outcomes.len() >= n_launchers ==> (r matches BootstrapStep::Failed(
            lines,
        ) && views(lines@) == outcomes@.map_values(|o: LaunchOutcome| attempt_line(o))),
{
    let mut lines: Vec<String> = Vec::new();
    let mut i: usize = 0;
    while i < outcomes.len()
        invariant
            i <= outcomes.len(),
            forall|j: int| 0 <= j < i ==> !(#[trigger] outcomes@[j] is Succeeded),
            views(lines@) == outcomes@.take(i as int).map_values(|o: LaunchOutcome| attempt_line(o)),
        decreases outcomes.len() - i,
    {
        if let LaunchOutcome::Succeeded = &outcomes[i] {
            return BootstrapStep::Done;
        }
        let ghost before = views(lines@);
        let line = attempt_line_text(&outcomes[i]);
        lines.push(line);
        assert(views(lines@) =~= before.push(line@));
        assert(outcomes@.take(i + 1) =~= outcomes@.take(i as int).push(outcomes@[i as int]));
        assert(views(lines@) =~= outcomes@.take(i + 1).map_values(
            |o: LaunchOutcome| attempt_line(o),
        ));
        i += 1;
    }
    assert(outcomes@.take(outcomes.len() as int) =~= outcomes@);
    if outcomes.len() < n_launchers {
        BootstrapStep::Launch(outcomes.len())
    } else {
        BootstrapStep::Failed(lines)
    }
}

/// The message when every launch of the bootstrap helper at `script_path`
/// failed: a heading, then the attempt lines one per line.
pub fn bootstrap_failure_message(script_path: &str, lines: &Vec<String>) -> (r: String)
    ensures
        r@ == "failed to invoke Python WhisperX bootstrap helper at "@ + script_path@ + ":\n"@
            + join_seq(views(lines@), "\n"@),
{
    let mut m = String::from_str("failed to invoke Python WhisperX bootstrap helper at ");
    m.append(script_path);
    m.append(":\n");
    let body = join_strings(lines, "\n");
    m.append(body.as_str());
    m
}

impl WhisperXTranscriber {
    /// The setup for a configuration, given whether CUDA is available to the
    /// configured interpreter.
    pub fn new(config: &AppConfig, dirs: &AppDirs, launch: &LaunchDirs, cuda_available: bool) -> (r:
        WhisperXTranscriber)
        ensures
            r.scratch_dir@ == spec_path_join(dirs.data_local_dir@, "scratch"@),
            r.python_path@ == crate::paths::spec_resolve_app_relative(
                config.whisperx_python@,
                opt_view(launch.exe_dir),
                opt_view(launch.current_dir),
            ),
            config.whisperx_model_dir@.len() == 0 ==> r.model_dir@ == spec_path_join(
                dirs.data_local_dir@,
                "whisperx-models"@,
            ),
            config.whisperx_model_dir@.len() != 0 ==> r.model_dir@
                == crate::paths::spec_resolve_app_relative(
                config.whisperx_model_dir@,
                opt_view(launch.exe_dir),
                opt_view(launch.current_dir),
            ),
            r.device@ == spec_resolved_device(cuda_available, config.whisperx_device@),
            r.compute_type@ == spec_resolved_compute(r.device@, config.whisperx_compute_type@),
            r.model@ == config.whisperx_model@,
            r.language@ == config.whisperx_language@,
    {
        let scratch_dir = whisperx_scratch_dir(dirs);
        let python_path = config.resolved_whisperx_python_path(launch);
        let model_dir = config.resolved_whisperx_model_dir(dirs, launch);
        let (device, compute_type) = resolve_pair(
            cuda_available,
            config.whisperx_device.as_str(),
            config.whisperx_compute_type.as_str(),
        );
        WhisperXTranscriber {
            python_path,
            model: config.whisperx_model.clone(),
            language: config.whisperx_language.clone(),
            device,
            compute_type,
            model_dir,
            scratch_dir,
        }
    }

    /// The language to transcribe in: the requested one, or the configured
    /// WhisperX language when none is requested.
    pub fn transcription_language(&self, requested: &str) -> (r: String)
        ensures
            requested@.len() == 0 ==> r@ == self.language@,
            requested@.len() != 0 ==> r@ == requested@,
    {
        if requested.is_empty() {
            self.language.clone()
        } else {
            String::from_str(requested)
        }
    }

    /// Where the audio of one utterance is written: `ptt-<nonce>.wav` in the
    /// scratch directory.
    pub fn scratch_wav_path(&self, nonce: u64) -> (r: String)
        ensures
            r@ == spec_path_join(self.scratch_dir@, "ptt-"@ + decimal_seq(nonce as nat) + ".wav"@),
    {
        let mut name = String::from_str("ptt-");
        let n = u64_to_decimal(nonce);
        name.append(n.as_str());
        name.append(".wav");
        path_join(self.scratch_dir.as_str(), name.as_str())
    }

    /// The arguments passed to the interpreter to transcribe `wav_path` in
    /// `language` (the program is `python_path`).
    pub fn whisperx_args(&self, wav_path: &str, language: &str) -> (r: Vec<String>)
        ensures
            views(r@) == seq![
                "-m"@,
                "whisperx"@,
                wav_path@,
                "--model"@,
                self.model@,
                "--language"@,
                language@,
                "--output_dir"@,
                self.scratch_dir@,
                "--output_format"@,
                "txt"@,
                "--device"@,
                self.device@,
                "--compute_type"@,
                self.compute_type@,
                "--model_dir"@,
                self.model_dir@,
                "--batch_size"@,
                "8"@,
                "--verbose"@,
                "False"@,
            ],
    {
        let mut a: Vec<String> = Vec::new();
        a.push(String::from_str("-m"));
        a.push(String::from_str("whisperx"));
        a.push(String::from_str(wav_path));
        a.push(String::from_str("--model"));
        a.push(self.model.clone());
        a.push(String::from_str("--language"));
        a.push(String::from_str(language));
        a.push(String::from_str("--output_dir"));
        a.push(self.scratch_dir.clone());
        a.push(String::from_str("--output_format"));
        a.push(String::from_str("txt"));
        a.push(String::from_str("--device"));
        a.push(self.device.clone());
        a.push(String::from_str("--compute_type"));
        a.push(self.compute_type.clone());
        a.push(String::from_str("--model_dir"));
        a.push(self.model_dir.clone());
        a.push(String::from_str("--batch_size"));
        a.push(String::from_str("8"));
        a.push(String::from_str("--verbose"));
        a.push(String::from_str("False"));
        assert(views(a@) =~= seq![
            "-m"@,
            "whisperx"@,
            wav_path@,
            "--model"@,
            self.model@,
            "--language"@,
            language@,
            "--output_dir"@,
            self.scratch_dir@,
            "--output_format"@,
            "txt"@,
            "--device"@,
            self.device@,
            "--compute_type"@,
            self.compute_type@,
            "--model_dir"@,
            self.model_dir@,
            "--batch_size"@,
            "8"@,
            "--verbose"@,
            "False"@,
        ]);
        a
    }
}

/// Where WhisperX writes the text transcript of `wav_path`: `<stem>.txt` in
/// `output_dir`, with `transcript` as the stem when the path has none.
pub open spec fn spec_transcript_txt_path(wav_path: Seq<char>, output_dir: Seq<char>) -> Seq<char> {
    let stem = match spec_path_file_stem(wav_path) {
        Some(s) => s,
        None => "transcript"@,
    };
    spec_path_join(output_dir, stem + ".txt"@)
}

/// Where WhisperX writes the text transcript of `wav_path`.
pub fn transcript_txt_path(wav_path: &str, output_dir: &str) -> (r: String)
    ensures
        r@ == spec_transcript_txt_path(wav_path@, output_dir@),
{
    let mut stem = match path_file_stem(wav_path) {
        Some(s) => s,
        None => String::from_str("transcript"),
    };
    stem.append(".txt");
    path_join(output_dir, stem.as_str())
}

/// Where a JSON transcript of `wav_path` would be: the same path with a
/// `json` extension.
pub fn transcript_json_path(wav_path: &str) -> (r: String)
    ensures
        r@ == spec_path_with_extension(wav_path@, "json"@),
{
    proof {
        reveal_strlit("json");
    }
    path_with_extension(wav_path, "json")
}

/// Where the transcript of a WhisperX run is to be read from.
#[derive(Clone, Debug)]
pub enum TranscriptSource {
    /// The run failed; its output is to be reported.
    RunFailed,
    /// Read this text file.
    Text(String),
    /// Read this JSON file and take the transcript from its segments.
    Json(String),
    /// The run succeeded but left neither file.
    NotFound { txt_path: String, json_path: String },
}

/// Where to read the transcript of a WhisperX run over `wav_path`, given
/// whether the run succeeded and which of its output files exist: the text
/// file first, else the JSON file.
pub fn transcript_source(
    wav_path: &str,
    output_dir: &str,
    run_succeeded: bool,
    txt_exists: bool,
    json_exists: bool,
) -> (r: TranscriptSource)
    ensures
        !run_succeeded ==> r is RunFailed,
        run_succeeded && txt_exists ==> (r matches TranscriptSource::Text(p) && p@
            == spec_transcript_txt_path(wav_path@, output_dir@)),
        run_succeeded && !txt_exists && json_exists ==> (r matches TranscriptSource::Json(p) && p@
            == spec_path_with_extension(wav_path@, "json"@)),
        run_succeeded && !txt_exists && !json_exists ==> (r matches TranscriptSource::NotFound {
            txt_path,
            json_path,
        } && txt_path@ == spec_transcript_txt_path(wav_path@, output_dir@) && json_path@
            == spec_path_with_extension(wav_path@, "json"@)),
{
    if !run_succeeded {
        return TranscriptSource::RunFailed;
    }
    let txt_path = transcript_txt_path(wav_path, output_dir);
    if txt_exists {
        return TranscriptSource::Text(txt_path);
    }
    let json_path = transcript_json_path(wav_path);
    if json_exists {
        return TranscriptSource::Json(json_path);
    }
    TranscriptSource::NotFound { txt_path, json_path }
}

/// What `serde_json` finds in `raw` when asked for the string member
/// `field_key` of each element of the array member `array_key` of the
/// document: `Err` with the parser's message when `raw` is not JSON; `Ok(None)`
/// when the document has no such array; otherwise, per element, the string or
/// `None` when the element has no such string member.
pub uninterp spec fn spec_json_string_fields(
    raw: Seq<char>,
    array_key: Seq<char>,
    field_key: Seq<char>,
) -> Result<Option<Seq<Option<Seq<char>>>>, Seq<char>>;

/// The views of per-element strings.
pub open spec fn fields_view(v: Option<Vec<Option<String>>>) -> Option<Seq<Option<Seq<char>>>> {
    match v {
        Some(items) => Some(items@.map_values(|o: Option<String>| opt_view(o))),
        None => None,
    }
}

/// `serde_json::from_str::<serde_json::Value>` followed by `Value::get`,
/// `Value::as_array` and `Value::as_str`: parses `raw` and reads the string
/// member `field_key` of each element of the array member `array_key`. The
/// contract names the result; JSON syntax and lookup are serde_json's.
#[verifier::external_body]
fn json_string_fields(raw: &str, array_key: &str, field_key: &str) -> (r: Result<
    Option<Vec<Option<String>>>,
    String,
>)
    ensures
        match r {
            Ok(v) => spec_json_string_fields(raw@, array_key@, field_key@) == Ok::<
                Option<Seq<Option<Seq<char>>>>,
                Seq<char>,
            >(fields_view(v)),
            Err(m) => spec_json_string_fields(raw@, array_key@, field_key@) == Err::<
                Option<Seq<Option<Seq<char>>>>,
                Seq<char>,
            >(m@),
        },
{
    let value: serde_json::Value = serde_json::from_str(raw).map_err(|e| e.to_string())?;
    Ok(value.get(array_key).and_then(|a| a.as_array()).map(
        |items|
            items.iter().map(|item| item.get(field_key).and_then(|t| t.as_str()).map(String::from)).collect(),
    ))
}

/// The segment texts that make it into a transcript: each present text,
/// trimmed, unless it is empty after trimming.
pub open spec fn kept_texts(texts: Seq<Option<Seq<char>>>) -> Seq<Seq<char>>
    decreases texts.len(),
{
    if texts.len() == 0 {
        Seq::<Seq<char>>::empty()
    } else {
        let rest = kept_texts(texts.drop_last());
        match texts.last() {
            Some(t) => if trim_seq(t).len() > 0 {
                rest.push(trim_seq(t))
            } else {
                rest
            },
            None => rest,
        }
    }
}

/// The transcript made of segment texts (`None` for a segment without
/// text): each present text trimmed, the empty ones dropped, the rest joined
/// by single spaces.
pub fn join_segment_texts(segments: &Vec<Option<String>>) -> (r: String)
    ensures
        r@ == join_seq(
            kept_texts(segments@.map_values(|o: Option<String>| opt_view(o))),
            seq![' '],
        ),
{
    let ghost texts = segments@.map_values(|o: Option<String>| opt_view(o));
    let mut kept: Vec<String> = Vec::new();
    let mut i: usize = 0;
    while i < segments.len()
        invariant
            i <= segments.len(),
            texts == segments@.map_values(|o: Option<String>| opt_view(o)),
            views(kept@) == kept_texts(texts.take(i as int)),
        decreases segments.len() - i,
    {
        assert(texts.take(i + 1).drop_last() =~= texts.take(i as int));
        assert(texts.take(i + 1).last() == opt_view(segments@[i as int]));
        match &segments[i] {
            Some(t) => {
                let trimmed = trim(t.as_str());
                if !trimmed.as_str().is_empty() {
                    let ghost before = views(kept@);
                    kept.push(trimmed);
                    assert(views(kept@) =~= before.push(trimmed@));
                }
            },
            None => {},
        }
        i += 1;
    }
    assert(texts.take(segments.len() as int) =~= texts);
    let sp = " ";
    proof {
        reveal_strlit(" ");
    }
    assert(sp@ =~= seq![' ']);
    join_strings(&kept, sp)
}

/// The transcript in WhisperX JSON output: the trimmed, non-empty `text` of
/// each element of `segments`, joined by single spaces.
pub fn parse_whisperx_json(raw: &str) -> (r: Result<String, SttError>)
    ensures
        match spec_json_string_fields(raw@, "segments"@, "text"@) {
            Ok(Some(texts)) => (r matches Ok(s) && s@ == join_seq(kept_texts(texts), seq![' '])),
            Ok(None) => r matches Err(SttError::MissingSegments),
            Err(m) => (r matches Err(SttError::InvalidJson(e)) && e@ == m),
        },
{
    let parsed = json_string_fields(raw, "segments", "text");
    let segments = match parsed {
        Err(m) => {
            return Err(SttError::InvalidJson(m));
        },
        Ok(None) => {
            return Err(SttError::MissingSegments);
        },
        Ok(Some(v)) => v,
    };
    Ok(join_segment_texts(&segments))
}

/// Whether recorded audio goes to WhisperX at all: empty audio gives an empty
/// transcript without running it.
pub fn needs_transcription(sample_count: usize) -> (r: bool)
    ensures
        r == (sample_count > 0),
{
    sample_count > 0
}

/// A scratch-file nonce from a time in nanoseconds: the low 64 bits xor the
/// bits above the low 32, truncated to 64.
pub fn rand_seed_from(nanos: u128) -> (r: u64)
    ensures
        r == (nanos as u64) ^ ((nanos >> 32u128) as u64),
{
    (nanos as u64) ^ ((nanos >> 32) as u64)
}

} // verus!
