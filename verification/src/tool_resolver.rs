//! Where the external tools of the local runtime come from (a configured
//! interpreter, the bundled runtime, or the system `PATH`), and whether the
//! runtime is complete.
//!
//! Looking at the file system, the environment and running the interpreter
//! is left to the caller, which hands in what it found.

use vstd::prelude::*;
use crate::text::concat2;

verus! {

/// The external tools the local runtime needs.
#[derive(Debug, Clone, Copy, PartialEq, Eq, Structural)]
pub enum ToolKind {
    Python,
    Ffmpeg,
    YtDlp,
}

pub open spec fn tool_name(k: ToolKind) -> Seq<char> {
    match k {
        ToolKind::Python => "python"@,
        ToolKind::Ffmpeg => "ffmpeg"@,
        ToolKind::YtDlp => "yt-dlp"@,
    }
}

pub open spec fn tool_executable(k: ToolKind, windows: bool) -> Seq<char> {
    match k {
        ToolKind::Python => if windows { "python.exe"@ } else { "python3"@ },
        ToolKind::Ffmpeg => if windows { "ffmpeg.exe"@ } else { "ffmpeg"@ },
        ToolKind::YtDlp => if windows { "yt-dlp.exe"@ } else { "yt-dlp"@ },
    }
}

pub open spec fn tool_install_hint(k: ToolKind) -> Seq<char> {
    match k {
        ToolKind::Python => "The packaged runtime is missing Python. Reinstall the app."@,
        ToolKind::Ffmpeg => "The packaged runtime is missing ffmpeg. Reinstall the app."@,
        ToolKind::YtDlp => "The packaged runtime is missing yt-dlp. Reinstall the app."@,
    }
}

pub open spec fn tool_dev_hint(k: ToolKind) -> Seq<char> {
    match k {
        ToolKind::Python => "Install Python locally for development or rebuild the packaged runtime."@,
        ToolKind::Ffmpeg => "Install ffmpeg locally for development or rebuild the packaged runtime."@,
        ToolKind::YtDlp => "Install yt-dlp locally for development or rebuild the packaged runtime."@,
    }
}

impl ToolKind {
    /// The file name of the tool's executable on this platform.
    pub fn executable_name(self, windows: bool) -> (r: &'static str)
        ensures
            r@ == tool_executable(self, windows),
    {
        match self {
            ToolKind::Python => if windows {
                "python.exe"
            } else {
                "python3"
            },
            ToolKind::Ffmpeg => if windows {
                "ffmpeg.exe"
            } else {
                "ffmpeg"
            },
            ToolKind::YtDlp => if windows {
                "yt-dlp.exe"
            } else {
                "yt-dlp"
            },
        }
    }

    pub fn name(self) -> (r: &'static str)
        ensures
            r@ == tool_name(self),
    {
        match self {
            ToolKind::Python => "python",
            ToolKind::Ffmpeg => "ffmpeg",
            ToolKind::YtDlp => "yt-dlp",
        }
    }

    pub fn install_hint(self) -> (r: &'static str)
        ensures
            r@ == tool_install_hint(self),
    {
        match self {
            ToolKind::Python => "The packaged runtime is missing Python. Reinstall the app.",
            ToolKind::Ffmpeg => "The packaged runtime is missing ffmpeg. Reinstall the app.",
            ToolKind::YtDlp => "The packaged runtime is missing yt-dlp. Reinstall the app.",
        }
    }

    fn dev_hint(self) -> (r: &'static str)
        ensures
            r@ == tool_dev_hint(self),
    {
        match self {
            ToolKind::Python => "Install Python locally for development or rebuild the packaged runtime.",
            ToolKind::Ffmpeg => "Install ffmpeg locally for development or rebuild the packaged runtime.",
            ToolKind::YtDlp => "Install yt-dlp locally for development or rebuild the packaged runtime.",
        }
    }
}

/// Where to look for the tools, and what must be there.
#[derive(Debug, Clone)]
pub struct ResolveConfig {
    pub bundled_dir: Option<String>,
    pub allow_system_path: bool,
    pub python_bin: String,
    pub required_tools: Vec<ToolKind>,
    pub required_python_modules: Vec<String>,
}

/// The name to look for: the configured interpreter for Python, the
/// platform's executable name for the others.
pub fn tool_exe(kind: ToolKind, python_bin: &str, windows: bool) -> (r: String)
    ensures
        kind == ToolKind::Python ==> r@ == python_bin@,
        kind != ToolKind::Python ==> r@ == tool_executable(kind, windows),
{
    match kind {
        ToolKind::Python => python_bin.to_string(),
        _ => kind.executable_name(windows).to_string(),
    }
}

/// What the caller found for one tool, each path already normalized:
/// the configured interpreter path, when it has a directory part and
/// exists (Python only); the candidate in the bundled runtime, when it
/// exists; the first match on `PATH`, when system tools are allowed.
#[derive(Debug, Clone)]
pub struct ToolProbe {
    pub configured: Option<String>,
    pub bundled: Option<String>,
    pub on_path: Option<String>,
}

/// A tool that was found.
#[derive(Debug, Clone)]
pub struct ResolvedTool {
    pub tool: String,
    pub path: String,
    pub source: String,
    pub version: Option<String>,
    pub checksum: Option<String>,
}

/// Where a tool is taken from, in order of preference: the configured
/// interpreter, the bundled runtime, then `PATH` when it is allowed.
pub open spec fn resolution(kind: ToolKind, probe: ToolProbe, allow_system_path: bool) -> Option<(Seq<char>, Seq<char>)> {
    if kind == ToolKind::Python && probe.configured is Some {
        Some((probe.configured->0@, "configured"@))
    } else if probe.bundled is Some {
        Some((probe.bundled->0@, "bundled"@))
    } else if allow_system_path && probe.on_path is Some {
        Some((probe.on_path->0@, "path"@))
    } else {
        None
    }
}

pub fn resolve_tool(kind: ToolKind, probe: &ToolProbe, allow_system_path: bool) -> (r: Option<ResolvedTool>)
    ensures
        match resolution(kind, *probe, allow_system_path) {
            Some((path, source)) => {
                &&& r matches Some(t)
                &&& r->0.tool@ == tool_name(kind)
                &&& r->0.path@ == path
                &&& r->0.source@ == source
                &&& r->0.version is None
                &&& r->0.checksum is None
            },
            None => r is None,
        },
{
    let found: Option<(String, &str)> = if kind == ToolKind::Python && probe.configured.is_some() {
        Some((probe.configured.clone().unwrap(), "configured"))
    } else if probe.bundled.is_some() {
        Some((probe.bundled.clone().unwrap(), "bundled"))
    } else if allow_system_path && probe.on_path.is_some() {
        Some((probe.on_path.clone().unwrap(), "path"))
    } else {
        None
    };
    match found {
        Some((path, source)) => Some(
            ResolvedTool {
                tool: kind.name().to_string(),
                path,
                source: source.to_string(),
                version: None,
                checksum: None,
            },
        ),
        None => None,
    }
}

/// The state of one tool or Python module.
#[derive(Debug, Clone)]
pub struct ToolStatus {
    pub tool: String,
    pub ok: bool,
    pub path: Option<String>,
    pub source: Option<String>,
    pub message: String,
}

/// Whether the local runtime is complete, tool by tool and module by module.
#[derive(Debug, Clone)]
pub struct RuntimeValidationResult {
    pub ok: bool,
    pub tools: Vec<ToolStatus>,
    pub python_packages: Vec<ToolStatus>,
    pub local_runtime_ready: bool,
}

/// `Missing tool '{name}'. {hint}`: with the reinstall hint when a bundled
/// runtime is configured, the development hint otherwise.
pub open spec fn missing_tool_message(kind: ToolKind, bundled: bool) -> Seq<char> {
    "Missing tool '"@ + tool_name(kind) + "'. "@ + if bundled {
        tool_install_hint(kind)
    } else {
        tool_dev_hint(kind)
    }
}

/// The status reported for a tool.
pub open spec fn is_tool_status(s: ToolStatus, kind: ToolKind, probe: ToolProbe, cfg: ResolveConfig) -> bool {
    match resolution(kind, probe, cfg.allow_system_path) {
        Some((path, source)) => {
            &&& s.tool@ == tool_name(kind)
            &&& s.ok
            &&& s.path matches Some(p) && p@ == path
            &&& s.source matches Some(x) && x@ == source
            &&& s.message@ == "ok"@
        },
        None => s.tool@ == tool_name(kind) && !s.ok && s.path is None && s.source is None && s.message@
            == missing_tool_message(kind, cfg.bundled_dir is Some),
    }
}

fn tool_status(kind: ToolKind, probe: &ToolProbe, cfg: &ResolveConfig) -> (s: ToolStatus)
    ensures
        is_tool_status(s, kind, *probe, *cfg),
{
    match resolve_tool(kind, probe, cfg.allow_system_path) {
        Some(t) => ToolStatus {
            tool: t.tool,
            ok: true,
            path: Some(t.path),
            source: Some(t.source),
            message: "ok".to_string(),
        },
        None => {
            let hint = if cfg.bundled_dir.is_some() {
                kind.install_hint()
            } else {
                kind.dev_hint()
            };
            let a = concat2("Missing tool '", kind.name());
            let b = concat2(a.as_str(), "'. ");
            ToolStatus {
                tool: kind.name().to_string(),
                ok: false,
                path: None,
                source: None,
                message: concat2(b.as_str(), hint),
            }
        },
    }
}

/// The statuses of the required tools, in order.
pub fn check_tools(cfg: &ResolveConfig, probes: &Vec<ToolProbe>) -> (r: Vec<ToolStatus>)
    requires
        probes@.len() == cfg.required_tools@.len(),
    ensures
        r@.len() == cfg.required_tools@.len(),
        forall|i: int| 0 <= i < r@.len() ==> is_tool_status(
            #[trigger] r@[i],
            cfg.required_tools@[i],
            probes@[i],
            *cfg,
        ),
{
    let mut r: Vec<ToolStatus> = Vec::new();
    let mut i: usize = 0;
    while i < cfg.required_tools.len()
        invariant
            probes@.len() == cfg.required_tools@.len(),
            i <= cfg.required_tools@.len(),
            r@.len() == i,
            forall|k: int| 0 <= k < i ==> is_tool_status(
                #[trigger] r@[k],
                cfg.required_tools@[k],
                probes@[k],
                *cfg,
            ),
        decreases cfg.required_tools@.len() - i,
    {
        r.push(tool_status(cfg.required_tools[i], &probes[i], cfg));
        i += 1;
    }
    r
}

/// Whether Python is usable: the first status named `python` is ok.
pub open spec fn python_usable(tools: Seq<ToolStatus>) -> bool
    decreases tools.len(),
{
    if tools.len() == 0 {
        false
    } else if tools[0].tool@ == "python"@ {
        tools[0].ok
    } else {
        python_usable(tools.drop_first())
    }
}

pub fn python_ready(tools: &Vec<ToolStatus>) -> (b: bool)
    ensures
        b == python_usable(tools@),
{
    let python = "python".to_string();
    let mut i: usize = 0;
    assert(tools@.skip(0) =~= tools@);
    while i < tools.len()
        invariant
            i <= tools@.len(),
            python@ == "python"@,
            python_usable(tools@) == python_usable(tools@.skip(i as int)),
        decreases tools@.len() - i,
    {
        assert(tools@.skip(i as int).drop_first() =~= tools@.skip(i + 1));
        if tools[i].tool == python {
            return tools[i].ok;
        }
        i += 1;
    }
    false
}

/// What checking a Python module found: `ok` when importing it worked;
/// otherwise why not, depending on whether the interpreter could be run.
pub open spec fn module_check_result(module: Seq<char>, ran: bool, succeeded: bool) -> Result<Seq<char>, Seq<char>> {
    if !ran {
        Err("Python module '"@ + module + "' is missing or Python is not executable."@)
    } else if succeeded {
        Ok("ok"@)
    } else {
        Err("Python module '"@ + module + "' is unavailable. Ensure bundled runtime is complete."@)
    }
}

/// The outcome of importing a module with the interpreter.
#[derive(Debug, Clone, Copy)]
pub struct ModuleProbe {
    pub ran: bool,
    pub succeeded: bool,
}

pub fn check_python_module(module: &str, probe: ModuleProbe) -> (r: Result<String, String>)
    ensures
        match (r, module_check_result(module@, probe.ran, probe.succeeded)) {
            (Ok(a), Ok(b)) => a@ == b,
            (Err(a), Err(b)) => a@ == b,
            _ => false,
        },
{
    if !probe.ran {
        let a = concat2("Python module '", module);
        Err(concat2(a.as_str(), "' is missing or Python is not executable."))
    } else if probe.succeeded {
        Ok("ok".to_string())
    } else {
        let a = concat2("Python module '", module);
        Err(concat2(a.as_str(), "' is unavailable. Ensure bundled runtime is complete."))
    }
}

/// The status reported for a required module.
pub open spec fn is_module_status(s: ToolStatus, module: Seq<char>, python: bool, probe: ModuleProbe) -> bool {
    &&& s.tool@ == module
    &&& s.path is None
    &&& s.source is None
    &&& if python {
        match module_check_result(module, probe.ran, probe.succeeded) {
            Ok(m) => s.ok && s.message@ == m,
            Err(m) => !s.ok && s.message@ == m,
        }
    } else {
        !s.ok && s.message@ == "Python runtime is unavailable; cannot verify module."@
    }
}

pub open spec fn all_ok(s: Seq<ToolStatus>) -> bool {
    forall|i: int| 0 <= i < s.len() ==> (#[trigger] s[i]).ok
}

fn every_ok(s: &Vec<ToolStatus>) -> (b: bool)
    ensures
        b == all_ok(s@),
{
    let mut i: usize = 0;
    while i < s.len()
        invariant
            i <= s@.len(),
            forall|k: int| 0 <= k < i ==> (#[trigger] s@[k]).ok,
        decreases s@.len() - i,
    {
        if !s[i].ok {
            return false;
        }
        i += 1;
    }
    true
}

/// Whether the local runtime is complete. `module_probes` gives, for each
/// required module in order, what importing it found; they count only when
/// Python is usable, and the caller need not run them otherwise.
pub fn validate_runtime_tools(
    cfg: &ResolveConfig,
    probes: &Vec<ToolProbe>,
    module_probes: &Vec<ModuleProbe>,
) -> (r: RuntimeValidationResult)
    requires
        probes@.len() == cfg.required_tools@.len(),
        module_probes@.len() == cfg.required_python_modules@.len(),
    ensures
        r.tools@.len() == cfg.required_tools@.len(),
        forall|i: int| 0 <= i < r.tools@.len() ==> is_tool_status(
            #[trigger] r.tools@[i],
            cfg.required_tools@[i],
            probes@[i],
            *cfg,
        ),
        r.python_packages@.len() == cfg.required_python_modules@.len(),
        forall|i: int| 0 <= i < r.python_packages@.len() ==> is_module_status(
            #[trigger] r.python_packages@[i],
            cfg.required_python_modules@[i]@,
            python_usable(r.tools@),
            module_probes@[i],
        ),
        r.ok == (all_ok(r.tools@) && all_ok(r.python_packages@)),
        r.local_runtime_ready == r.ok,
{
    let tools = check_tools(cfg, probes);
    let python = python_ready(&tools);
    let mut packages: Vec<ToolStatus> = Vec::new();
    let mut i: usize = 0;
    while i < cfg.required_python_modules.len()
        invariant
            i <= cfg.required_python_modules@.len(),
            module_probes@.len() == cfg.required_python_modules@.len(),
            packages@.len() == i,
            forall|k: int| 0 <= k < i ==> is_module_status(
                #[trigger] packages@[k],
                cfg.required_python_modules@[k]@,
                python,
                module_probes@[k],
            ),
        decreases cfg.required_python_modules@.len() - i,
    {
        let module = &cfg.required_python_modules[i];
        let status = if python {
            match check_python_module(module.as_str(), module_probes[i]) {
                Ok(m) => ToolStatus { tool: module.clone(), ok: true, path: None, source: None, message: m },
                Err(m) => ToolStatus { tool: module.clone(), ok: false, path: None, source: None, message: m },
            }
        } else {
            ToolStatus {
                tool: module.clone(),
                ok: false,
                path: None,
                source: None,
                message: "Python runtime is unavailable; cannot verify module.".to_string(),
            }
        };
        packages.push(status);
        i += 1;
    }
    let ok = every_ok(&tools) && every_ok(&packages);
    RuntimeValidationResult { ok, tools, python_packages: packages, local_runtime_ready: ok }
}

} // verus!
