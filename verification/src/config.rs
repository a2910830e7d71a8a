//! The application's configuration: its fields and defaults, the backend
//! choice, the paths it resolves, and the one-time repair of a stale
//! `whisper_cli_path`.

use vstd::prelude::*;

use crate::paths::{
    opt_view, path_eq, path_parent, spec_path_parent, path_is_empty, path_join, resolve_app_relative_path,
    is_plain_name, spec_path_eq, spec_path_join, spec_resolve_app_relative, is_project_dirs, AppDirs, LaunchDirs,
};
use crate::text::{eq_ignore_ascii_case, lower_seq, str_eq, views};

verus! {

/// The push-to-talk key combination as written in the configuration file.
#[derive(Clone, Debug)]
pub struct HotkeyConfig {
    /// The modifier part, such as `"none"`, `"rctrl"` or `"ctrl+shift"`.
    pub modifier: String,
    /// The key part, such as `"f8"` or `"rshift"`.
    pub key: String,
}

/// The application's settings. Paths are kept as written; relative ones are
/// resolved against the launch directories when used.
#[derive(Clone, Debug)]
pub struct AppConfig {
    pub hotkey: HotkeyConfig,
    /// `"whisperx"`, `"whispercpp"`, or empty (which means whisper.cpp).
    pub stt_backend: String,
    pub model_path: String,
    pub whisper_cli_path: String,
    pub whisperx_python: String,
    pub whisperx_model: String,
    pub whisperx_language: String,
    pub whisperx_device: String,
    pub whisperx_compute_type: String,
    /// Empty means "under the data directory".
    pub whisperx_model_dir: String,
    pub min_record_ms: u64,
    pub auto_punctuation: bool,
    pub type_output: bool,
    pub stream_output: bool,
    pub allow_terminal_output: bool,
    pub language: String,
}

/// `whisper-runtime` / `whisper-cli.exe`: where the packaged whisper.cpp
/// command-line tool sits, relative to the executable.
pub open spec fn spec_default_whisper_cli_path() -> Seq<char> {
    spec_path_join("whisper-runtime"@, "whisper-cli.exe"@)
}

/// `whisperx-runtime` / `venv` / `Scripts` / `python.exe`.
pub open spec fn spec_default_whisperx_python_path() -> Seq<char> {
    spec_path_join(
        spec_path_join(spec_path_join("whisperx-runtime"@, "venv"@), "Scripts"@),
        "python.exe"@,
    )
}

/// The default ggml model under the local data directory.
pub open spec fn spec_default_model_path(data_local_dir: Seq<char>) -> Seq<char> {
    spec_path_join(spec_path_join(data_local_dir, "models"@), "ggml-medium.en.bin"@)
}

/// Whether `c` is the default configuration for a user whose local data
/// directory is `data_local_dir`.
pub open spec fn is_default_config(c: AppConfig, data_local_dir: Seq<char>) -> bool {
    &&& c.hotkey.modifier@ == "none"@
    &&& c.hotkey.key@ == "f8"@
    &&& c.stt_backend@ == "whispercpp"@
    &&& c.model_path@ == spec_default_model_path(data_local_dir)
    &&& c.whisper_cli_path@ == spec_default_whisper_cli_path()
    &&& c.whisperx_python@ == spec_default_whisperx_python_path()
    &&& c.whisperx_model@ == "small"@
    &&& c.whisperx_language@ == "en"@
    &&& c.whisperx_device@ == "auto"@
    &&& c.whisperx_compute_type@ == "auto"@
    &&& c.whisperx_model_dir@ == Seq::<char>::empty()
    &&& c.min_record_ms == 200
    &&& c.auto_punctuation
    &&& c.type_output
    &&& !c.stream_output
    &&& !c.allow_terminal_output
    &&& c.language@ == "en"@
}

/// The packaged whisper.cpp tool path, relative to the executable; as a path
/// it differs from the bare name `whisper-cli.exe`.
pub fn default_whisper_cli_path() -> (r: String)
    ensures
        r@ == spec_default_whisper_cli_path(),
        !spec_path_eq(r@, "whisper-cli.exe"@),
{
    proof {
        reveal_strlit("whisper-runtime");
        reveal_strlit("whisper-cli.exe");
    }
    assert(is_plain_name("whisper-runtime"@));
    assert(is_plain_name("whisper-cli.exe"@));
    path_join("whisper-runtime", "whisper-cli.exe")
}

/// The packaged WhisperX interpreter path, relative to the executable.
pub fn default_whisperx_python_path() -> (r: String)
    ensures
        r@ == spec_default_whisperx_python_path(),
{
    let a = path_join("whisperx-runtime", "venv");
    let b = path_join(a.as_str(), "Scripts");
    path_join(b.as_str(), "python.exe")
}

/// Whether a backend name selects WhisperX (ASCII case ignored).
pub open spec fn spec_uses_whisperx(backend: Seq<char>) -> bool {
    lower_seq(backend) == lower_seq("whisperx"@)
}

/// Whether a backend name selects whisper.cpp: empty, or `whispercpp` with
/// ASCII case ignored.
pub open spec fn spec_uses_whispercpp(backend: Seq<char>) -> bool {
    backend.len() == 0 || lower_seq(backend) == lower_seq("whispercpp"@)
}

/// The candidates tried, in order, when the configured whisper.cpp tool is
/// missing: the packaged path, the bare file name, the packaged path under the
/// executable's directory, and the packaged path under the working directory.
pub open spec fn spec_whisper_cli_candidates(
    exe_dir: Option<Seq<char>>,
    current_dir: Option<Seq<char>>,
) -> Seq<Seq<char>> {
    seq![
        spec_default_whisper_cli_path(),
        "whisper-cli.exe"@,
        match exe_dir {
            Some(d) => spec_path_join(d, spec_default_whisper_cli_path()),
            None => spec_default_whisper_cli_path(),
        },
        match current_dir {
            Some(d) => spec_path_join(d, spec_default_whisper_cli_path()),
            None => spec_default_whisper_cli_path(),
        },
    ]
}

/// The first of `cands` whose resolved path is among `existing`.
pub open spec fn spec_first_existing(
    cands: Seq<Seq<char>>,
    existing: Seq<Seq<char>>,
    exe_dir: Option<Seq<char>>,
    current_dir: Option<Seq<char>>,
) -> Option<Seq<char>>
    decreases cands.len(),
{
    if cands.len() == 0 {
        None
    } else if existing.contains(spec_resolve_app_relative(cands[0], exe_dir, current_dir)) {
        Some(cands[0])
    } else {
        spec_first_existing(cands.drop_first(), existing, exe_dir, current_dir)
    }
}

/// The whisper.cpp tool path that should replace `current`, if any, given the
/// resolved paths that exist on disk. When the configured tool exists it is
/// kept, except that the bare legacy name `whisper-cli.exe` moves to the
/// packaged path when that exists too. When it does not exist, the first
/// existing candidate is taken.
pub open spec fn spec_migration_target(
    current: Seq<char>,
    existing: Seq<Seq<char>>,
    exe_dir: Option<Seq<char>>,
    current_dir: Option<Seq<char>>,
) -> Option<Seq<char>> {
    if existing.contains(spec_resolve_app_relative(current, exe_dir, current_dir)) {
        if spec_path_eq(current, "whisper-cli.exe"@) && existing.contains(
            spec_resolve_app_relative(spec_default_whisper_cli_path(), exe_dir, current_dir),
        ) {
            Some(spec_default_whisper_cli_path())
        } else {
            None
        }
    } else {
        spec_first_existing(
            spec_whisper_cli_candidates(exe_dir, current_dir),
            existing,
            exe_dir,
            current_dir,
        )
    }
}

/// Whether two configurations agree on every field but `whisper_cli_path`.
pub open spec fn same_except_cli_path(a: AppConfig, b: AppConfig) -> bool {
    &&& a.hotkey == b.hotkey
    &&& a.stt_backend == b.stt_backend
    &&& a.model_path == b.model_path
    &&& a.whisperx_python == b.whisperx_python
    &&& a.whisperx_model == b.whisperx_model
    &&& a.whisperx_language == b.whisperx_language
    &&& a.whisperx_device == b.whisperx_device
    &&& a.whisperx_compute_type == b.whisperx_compute_type
    &&& a.whisperx_model_dir == b.whisperx_model_dir
    &&& a.min_record_ms == b.min_record_ms
    &&& a.auto_punctuation == b.auto_punctuation
    &&& a.type_output == b.type_output
    &&& a.stream_output == b.stream_output
    &&& a.allow_terminal_output == b.allow_terminal_output
    &&& a.language == b.language
}

/// Whether `p` is one of `existing`.
fn is_listed(p: &str, existing: &Vec<String>) -> (r: bool)
    ensures
        r == views(existing@).contains(p@),
{
    let mut i: usize = 0;
    while i < existing.len()
        invariant
            i <= existing.len(),
            forall|j: int| 0 <= j < i ==> (#[trigger] existing@[j])@ != p@,
        decreases existing.len() - i,
    {
        if str_eq(existing[i].as_str(), p) {
            assert(views(existing@)[i as int] == p@);
            return true;
        }
        i += 1;
    }
    assert forall|j: int| 0 <= j < views(existing@).len() implies views(existing@)[j] != p@ by {
        assert(existing@[j]@ != p@);
    }
    false
}

/// The whisper.cpp tool candidates, in the order they are tried.
pub fn whisper_cli_candidates(launch: &LaunchDirs) -> (r: Vec<String>)
    ensures
        views(r@) == spec_whisper_cli_candidates(
            opt_view(launch.exe_dir),
            opt_view(launch.current_dir),
        ),
        !spec_path_eq(r@[0]@, r@[1]@),
{
    let packaged = default_whisper_cli_path();
    let bare = String::from_str("whisper-cli.exe");
    let under_exe = match &launch.exe_dir {
        Some(d) => path_join(d.as_str(), packaged.as_str()),
        None => default_whisper_cli_path(),
    };
    let under_cwd = match &launch.current_dir {
        Some(d) => path_join(d.as_str(), packaged.as_str()),
        None => default_whisper_cli_path(),
    };
    let mut v: Vec<String> = Vec::new();
    v.push(packaged);
    v.push(bare);
    v.push(under_exe);
    v.push(under_cwd);
    assert(views(v@) =~= spec_whisper_cli_candidates(
        opt_view(launch.exe_dir),
        opt_view(launch.current_dir),
    ));
    assert(v@[1]@ == "whisper-cli.exe"@);
    v
}

/// Whether `path` is the bare legacy tool name `whisper-cli.exe`.
pub fn is_legacy_default_whisper_cli_path(path: &str) -> (r: bool)
    ensures
        r == spec_path_eq(path@, "whisper-cli.exe"@),
{
    path_eq(path, "whisper-cli.exe")
}

impl AppConfig {
    /// The default configuration for a user whose local data directory is
    /// `data_local_dir`.
    pub fn default_in(data_local_dir: &str) -> (r: AppConfig)
        ensures
            is_default_config(r, data_local_dir@),
    {
        let models = path_join(data_local_dir, "models");
        let model_path = path_join(models.as_str(), "ggml-medium.en.bin");
        AppConfig {
            hotkey: HotkeyConfig {
                modifier: String::from_str("none"),
                key: String::from_str("f8"),
            },
            stt_backend: String::from_str("whispercpp"),
            model_path,
            whisper_cli_path: default_whisper_cli_path(),
            whisperx_python: default_whisperx_python_path(),
            whisperx_model: String::from_str("small"),
            whisperx_language: String::from_str("en"),
            whisperx_device: String::from_str("auto"),
            whisperx_compute_type: String::from_str("auto"),
            whisperx_model_dir: String::new(),
            min_record_ms: 200,
            auto_punctuation: true,
            type_output: true,
            stream_output: false,
            allow_terminal_output: false,
            language: String::from_str("en"),
        }
    }

    /// Where the configuration file lives: `config.toml` in the configuration
    /// directory.
    pub fn config_path(dirs: &AppDirs) -> (r: String)
        ensures
            r@ == spec_path_join(dirs.config_dir@, "config.toml"@),
    {
        path_join(dirs.config_dir.as_str(), "config.toml")
    }

    /// Where logs are written: the local data directory.
    pub fn logs_dir(&self, dirs: &AppDirs) -> (r: String)
        ensures
            r@ == dirs.data_local_dir@,
    {
        dirs.data_local_dir.clone()
    }

    /// Where data (models, scratch files) is kept: the local data directory.
    pub fn data_dir(&self, dirs: &AppDirs) -> (r: String)
        ensures
            r@ == dirs.data_local_dir@,
    {
        dirs.data_local_dir.clone()
    }

    /// The whisper.cpp tool path, resolved against the launch directories.
    pub fn resolved_whisper_cli_path(&self, launch: &LaunchDirs) -> (r: String)
        ensures
            r@ == spec_resolve_app_relative(
                self.whisper_cli_path@,
                opt_view(launch.exe_dir),
                opt_view(launch.current_dir),
            ),
    {
        resolve_app_relative_path(self.whisper_cli_path.as_str(), launch)
    }

    /// The WhisperX interpreter path, resolved against the launch directories.
    pub fn resolved_whisperx_python_path(&self, launch: &LaunchDirs) -> (r: String)
        ensures
            r@ == spec_resolve_app_relative(
                self.whisperx_python@,
                opt_view(launch.exe_dir),
                opt_view(launch.current_dir),
            ),
    {
        resolve_app_relative_path(self.whisperx_python.as_str(), launch)
    }

    /// The WhisperX model directory: `whisperx-models` under the data
    /// directory when none is configured, else the configured one resolved
    /// against the launch directories.
    pub fn resolved_whisperx_model_dir(&self, dirs: &AppDirs, launch: &LaunchDirs) -> (r: String)
        ensures
            self.whisperx_model_dir@.len() == 0 ==> r@ == spec_path_join(
                dirs.data_local_dir@,
                "whisperx-models"@,
            ),
            self.whisperx_model_dir@.len() != 0 ==> r@ == spec_resolve_app_relative(
                self.whisperx_model_dir@,
                opt_view(launch.exe_dir),
                opt_view(launch.current_dir),
            ),
    {
        if path_is_empty(self.whisperx_model_dir.as_str()) {
            let data = self.data_dir(dirs);
            path_join(data.as_str(), "whisperx-models")
        } else {
            resolve_app_relative_path(self.whisperx_model_dir.as_str(), launch)
        }
    }

    /// Whether the WhisperX backend is selected.
    pub fn uses_whisperx(&self) -> (r: bool)
        ensures
            r == spec_uses_whisperx(self.stt_backend@),
    {
        eq_ignore_ascii_case(self.stt_backend.as_str(), "whisperx")
    }

    /// Whether the whisper.cpp backend is selected (also when no backend is
    /// named).
    pub fn uses_whispercpp(&self) -> (r: bool)
        ensures
            r == spec_uses_whispercpp(self.stt_backend@),
    {
        self.stt_backend.as_str().is_empty() || eq_ignore_ascii_case(
            self.stt_backend.as_str(),
            "whispercpp",
        )
    }

    /// Whether words are streamed while the hotkey is held: only when asked
    /// for and only with the whisper.cpp backend.
    pub fn effective_stream_output(&self) -> (r: bool)
        ensures
            r == (self.stream_output && spec_uses_whispercpp(self.stt_backend@)),
    {
        self.stream_output && self.uses_whispercpp()
    }

    /// The resolved paths whose existence decides the tool-path repair: the
    /// configured tool first, then each candidate.
    pub fn whisper_cli_probe_paths(&self, launch: &LaunchDirs) -> (r: Vec<String>)
        ensures
            views(r@) == seq![
                spec_resolve_app_relative(
                    self.whisper_cli_path@,
                    opt_view(launch.exe_dir),
                    opt_view(launch.current_dir),
                ),
            ] + spec_whisper_cli_candidates(
                opt_view(launch.exe_dir),
                opt_view(launch.current_dir),
            ).map_values(
                |c: Seq<char>|
                    spec_resolve_app_relative(
                        c,
                        opt_view(launch.exe_dir),
                        opt_view(launch.current_dir),
                    ),
            ),
    {
        let cands = whisper_cli_candidates(launch);
        let mut out: Vec<String> = Vec::new();
        out.push(self.resolved_whisper_cli_path(launch));
        let ghost exe = opt_view(launch.exe_dir);
        let ghost cwd = opt_view(launch.current_dir);
        let ghost target = views(cands@).map_values(
            |c: Seq<char>| spec_resolve_app_relative(c, exe, cwd),
        );
        let mut i: usize = 0;
        while i < cands.len()
            invariant
                i <= cands.len(),
                exe == opt_view(launch.exe_dir),
                cwd == opt_view(launch.current_dir),
                target == views(cands@).map_values(
                    |c: Seq<char>| spec_resolve_app_relative(c, exe, cwd),
                ),
                views(out@) == seq![
                    spec_resolve_app_relative(self.whisper_cli_path@, exe, cwd),
                ] + target.take(i as int),
            decreases cands.len() - i,
        {
            let ghost before = views(out@);
            let x = resolve_app_relative_path(cands[i].as_str(), launch);
            out.push(x);
            assert(views(out@) =~= before.push(x@));
            assert(target[i as int] == spec_resolve_app_relative(cands@[i as int]@, exe, cwd));
            assert(target.take(i + 1) =~= target.take(i as int).push(target[i as int]));
            assert(views(out@) =~= seq![
                spec_resolve_app_relative(self.whisper_cli_path@, exe, cwd),
            ] + target.take(i + 1));
            i += 1;
        }
        assert(target.take(cands.len() as int) =~= target);
        out
    }

    /// The tool path that should replace the configured one, given which of
    /// the probe paths exist.
    pub fn whisper_cli_migration_target(&self, launch: &LaunchDirs, existing: &Vec<String>) -> (r:
        Option<String>)
        ensures
            opt_view(r) == spec_migration_target(
                self.whisper_cli_path@,
                views(existing@),
                opt_view(launch.exe_dir),
                opt_view(launch.current_dir),
            ),
            r matches Some(p) ==> spec_migration_target(
                p@,
                views(existing@),
                opt_view(launch.exe_dir),
                opt_view(launch.current_dir),
            ) is None,
    {
        let ghost exe = opt_view(launch.exe_dir);
        let ghost cwd = opt_view(launch.current_dir);
        let resolved = self.resolved_whisper_cli_path(launch);
        if is_listed(resolved.as_str(), existing) {
            if is_legacy_default_whisper_cli_path(self.whisper_cli_path.as_str()) {
                let packaged = default_whisper_cli_path();
                let packaged_resolved = resolve_app_relative_path(packaged.as_str(), launch);
                if is_listed(packaged_resolved.as_str(), existing) {
                    proof {
                        lemma_migration_settles(self.whisper_cli_path@, views(existing@), exe, cwd);
                    }
                    return Some(packaged);
                }
            }
            return None;
        }
        let cands = whisper_cli_candidates(launch);
        let mut i: usize = 0;
        assert(views(cands@).skip(0) =~= views(cands@));
        while i < cands.len()
            invariant
                i <= cands.len(),
                exe == opt_view(launch.exe_dir),
                cwd == opt_view(launch.current_dir),
                views(cands@) == spec_whisper_cli_candidates(exe, cwd),
                !spec_path_eq(cands@[0]@, cands@[1]@),
                !views(existing@).contains(
                    spec_resolve_app_relative(self.whisper_cli_path@, exe, cwd),
                ),
                spec_first_existing(views(cands@), views(existing@), exe, cwd)
                    == spec_first_existing(views(cands@).skip(i as int), views(existing@), exe, cwd),
            decreases cands.len() - i,
        {
            let ghost rest = views(cands@).skip(i as int);
            assert(rest[0] == cands@[i as int]@);
            assert(rest.drop_first() =~= views(cands@).skip(i + 1));
            let p = resolve_app_relative_path(cands[i].as_str(), launch);
            if is_listed(p.as_str(), existing) {
                assert(spec_first_existing(rest, views(existing@), exe, cwd) == Some(rest[0]));
                let found = cands[i].clone();
                assert(found@ == rest[0]);
                proof {
                    lemma_migration_settles(self.whisper_cli_path@, views(existing@), exe, cwd);
                    assert(views(cands@)[0] == cands@[0]@);
                    assert(views(cands@)[1] == cands@[1]@);
                }
                return Some(found);
            }
            i += 1;
        }
        assert(views(cands@).skip(cands.len() as int).len() == 0);
        None
    }

    /// Repairs `whisper_cli_path` when it points at a missing tool (or at the
    /// legacy bare name while the packaged tool exists), given which of the
    /// probe paths exist. Returns whether the path changed; nothing else
    /// changes. Afterwards nothing is left to repair: with the same files on
    /// disk, a second call returns `false` and changes nothing.
    pub fn migrate_whisper_cli_path(&mut self, launch: &LaunchDirs, existing: &Vec<String>) -> (r:
        bool)
        ensures
            same_except_cli_path(*final(self), *old(self)),
            match spec_migration_target(
                old(self).whisper_cli_path@,
                views(existing@),
                opt_view(launch.exe_dir),
                opt_view(launch.current_dir),
            ) {
                Some(p) => r && final(self).whisper_cli_path@ == p,
                None => !r && final(self).whisper_cli_path == old(self).whisper_cli_path,
            },
            spec_migration_target(
                final(self).whisper_cli_path@,
                views(existing@),
                opt_view(launch.exe_dir),
                opt_view(launch.current_dir),
            ) is None,
    {
        match self.whisper_cli_migration_target(launch, existing) {
            Some(p) => {
                self.whisper_cli_path = p;
                true
            },
            None => false,
        }
    }
}

/// The directories that must exist before the application starts: the one
/// that holds the model file, and the data directory; `None` when the model
/// path has no parent directory.
pub fn startup_directories(config: &AppConfig, dirs: &AppDirs) -> (r: Option<(String, String)>)
    ensures
        match spec_path_parent(config.model_path@) {
            Some(p) => (r matches Some((a, b)) && a@ == p && b@ == dirs.data_local_dir@),
            None => r is None,
        },
{
    match path_parent(config.model_path.as_str()) {
        Some(model_parent) => Some((model_parent, config.data_dir(dirs))),
        None => None,
    }
}

impl Default for AppConfig {
    /// The default configuration under the current user's local data
    /// directory (the `dev` / `Hermes` / `Hermes` project's). When the
    /// environment reports no home directory the data directory is taken as
    /// empty, so the model path stays relative.
    fn default() -> (r: AppConfig)
        ensures
            is_default_config(r, Seq::<char>::empty()) || exists|d: AppDirs|
                #[trigger] is_project_dirs(d) && is_default_config(r, d.data_local_dir@),
    {
        match AppDirs::locate() {
            Some(dirs) => {
                let r = AppConfig::default_in(dirs.data_local_dir.as_str());
                assert(is_project_dirs(dirs) && is_default_config(r, dirs.data_local_dir@));
                r
            },
            None => {
                let r = AppConfig::default_in("");
                proof {
                    reveal_strlit("");
                }
                assert(""@ =~= Seq::<char>::empty());
                r
            },
        }
    }
}


/// Repairing the tool path settles at once: with the same files on disk, a
/// second repair finds nothing to change, unless the packaged path itself
/// counted as the legacy bare name, in which case it names the same path
/// again. (`default_whisper_cli_path` shows that it does not, so
/// `migrate_whisper_cli_path` states the plain law.)
pub proof fn lemma_migration_settles(
    current: Seq<char>,
    existing: Seq<Seq<char>>,
    exe_dir: Option<Seq<char>>,
    current_dir: Option<Seq<char>>,
)
    ensures
        spec_migration_target(current, existing, exe_dir, current_dir) matches Some(p) ==> {
            ||| spec_migration_target(p, existing, exe_dir, current_dir) is None
            ||| spec_migration_target(p, existing, exe_dir, current_dir) == Some(p) && p
                == spec_default_whisper_cli_path() && spec_path_eq(p, "whisper-cli.exe"@)
        },
{
    reveal_with_fuel(spec_first_existing, 5);
    let packaged = spec_default_whisper_cli_path();
    let cands = spec_whisper_cli_candidates(exe_dir, current_dir);
    assert(cands[0] == packaged);
    assert(cands.drop_first()[0] == cands[1]);
    assert(cands.drop_first().drop_first()[0] == cands[2]);
    assert(cands.drop_first().drop_first().drop_first()[0] == cands[3]);
    assert(cands.drop_first().drop_first().drop_first().drop_first().len() == 0);
}

/// No backend name selects both engines.
pub proof fn lemma_backends_exclusive(backend: Seq<char>)
    ensures
        !(spec_uses_whisperx(backend) && spec_uses_whispercpp(backend)),
{
    reveal_strlit("whisperx");
    reveal_strlit("whispercpp");
    if spec_uses_whisperx(backend) {
        assert(lower_seq(backend).len() == 8);
        assert(lower_seq("whispercpp"@).len() == 10);
    }
}

/// Live streaming is never in effect with the WhisperX backend, whatever
/// `stream_output` says.
pub proof fn lemma_whisperx_never_streams(c: AppConfig)
    requires
        spec_uses_whisperx(c.stt_backend@),
    ensures
        !(c.stream_output && spec_uses_whispercpp(c.stt_backend@)),
{
    lemma_backends_exclusive(c.stt_backend@);
}

/// A configuration that names no backend, and the default configuration,
/// use whisper.cpp, not WhisperX, and do not stream.
pub proof fn lemma_default_backend_is_whispercpp(c: AppConfig, d: Seq<char>)
    ensures
        spec_uses_whispercpp(Seq::<char>::empty()),
        !spec_uses_whisperx(Seq::<char>::empty()),
        is_default_config(c, d) ==> spec_uses_whispercpp(c.stt_backend@) && !spec_uses_whisperx(
            c.stt_backend@,
        ) && !(c.stream_output && spec_uses_whispercpp(c.stt_backend@)),
{
    reveal_strlit("whisperx");
    reveal_strlit("whispercpp");
    assert(lower_seq(Seq::<char>::empty()).len() == 0);
    lemma_backends_exclusive(c.stt_backend@);
}

} // verus!
