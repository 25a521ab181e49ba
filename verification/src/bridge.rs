//! The local-mode bridge to the Python pipeline: a JSON request on the
//! interpreter's standard input, a JSON reply on its standard output, under
//! a deadline.
//!
//! Spawning the interpreter and reading its pipes is the caller's; the
//! functions here decide how long to wait and what the outcome means.

use vstd::prelude::*;
use crate::process_supervisor::ProcessOutput;
use crate::python_runtime::PythonInvokeRequest;
use crate::text::{concat2, trim, trim_str};

verus! {

/// The one version of the bridge contract.
pub open spec fn contract_version() -> Seq<char> {
    "1"@
}

/// Why a bridge call failed.
#[derive(Debug, Clone, Copy, PartialEq, Eq, Structural)]
pub enum BridgeErrorCode {
    ContractVersion,
    Timeout,
    ProcessExit,
    MalformedJson,
    PythonError,
    Runtime,
}

pub open spec fn bridge_code_name(c: BridgeErrorCode) -> Seq<char> {
    match c {
        BridgeErrorCode::ContractVersion => "ContractVersion"@,
        BridgeErrorCode::Timeout => "Timeout"@,
        BridgeErrorCode::ProcessExit => "ProcessExit"@,
        BridgeErrorCode::MalformedJson => "MalformedJson"@,
        BridgeErrorCode::PythonError => "PythonError"@,
        BridgeErrorCode::Runtime => "Runtime"@,
    }
}

impl BridgeErrorCode {
    /// The code's name, as error details report it.
    pub fn name(self) -> (r: &'static str)
        ensures
            r@ == bridge_code_name(self),
    {
        match self {
            BridgeErrorCode::ContractVersion => "ContractVersion",
            BridgeErrorCode::Timeout => "Timeout",
            BridgeErrorCode::ProcessExit => "ProcessExit",
            BridgeErrorCode::MalformedJson => "MalformedJson",
            BridgeErrorCode::PythonError => "PythonError",
            BridgeErrorCode::Runtime => "Runtime",
        }
    }
}

/// A failed bridge call, with the interpreter's exit code and error output
/// when it ran.
#[derive(Debug, Clone)]
pub struct BridgeError {
    pub code: BridgeErrorCode,
    pub message: String,
    pub exit_code: Option<i32>,
    pub stderr: String,
}

/// The parts of a bridge reply that decide its outcome: its contract
/// version, whether it reports success, and the message of its error
/// object when that has a text `message`.
#[derive(Debug, Clone)]
pub struct BridgeReply {
    pub version: String,
    pub ok: bool,
    pub error_message: Option<String>,
}

/// A request of another contract version is refused before anything runs.
pub fn check_bridge_request(version: &str) -> (r: Result<(), BridgeError>)
    ensures
        version@ == contract_version() ==> r is Ok,
        version@ != contract_version() ==> (r matches Err(e) && e.code == BridgeErrorCode::ContractVersion
            && e.message@ == "unsupported bridge contract version: "@ + version@ && e.exit_code is None
            && e.stderr@ == Seq::<char>::empty()),
{
    let one = "1".to_string();
    if version.to_string() == one {
        Ok(())
    } else {
        proof {
            reveal_strlit("");
        }
        Err(
            BridgeError {
                code: BridgeErrorCode::ContractVersion,
                message: concat2("unsupported bridge contract version: ", version),
                exit_code: None,
                stderr: "".to_string(),
            },
        )
    }
}

/// The text of the reply: the interpreter's output without surrounding
/// whitespace.
pub fn reply_text(out: &ProcessOutput) -> (r: String)
    ensures
        r@ == trim(out.stdout@),
{
    trim_str(out.stdout.as_str())
}

/// What a bridge call comes to, in this order: the interpreter could not
/// be run; it timed out; it exited other than with 0 (no exit code counts
/// as 1); its reply is not JSON; the reply is of another contract version;
/// the reply reports an error (its message, else a generic one); otherwise
/// success.
pub open spec fn bridge_outcome(
    invoked: Result<ProcessOutput, String>,
    reply: Result<BridgeReply, String>,
) -> Result<(), (BridgeErrorCode, Seq<char>)> {
    match invoked {
        Err(e) => Err((BridgeErrorCode::Runtime, "python invoke failed: "@ + e@)),
        Ok(out) => if out.timed_out {
            Err((BridgeErrorCode::Timeout, "python bridge timed out"@))
        } else if out.status_code != Some(0i32) {
            Err((BridgeErrorCode::ProcessExit, "python bridge exited non-zero"@))
        } else {
            match reply {
                Err(e) => Err((BridgeErrorCode::MalformedJson, "invalid bridge json: "@ + e@)),
                Ok(r) => if r.version@ != contract_version() {
                    Err((BridgeErrorCode::ContractVersion, "unsupported response version: "@ + r.version@))
                } else if !r.ok {
                    Err(
                        (
                            BridgeErrorCode::PythonError,
                            match r.error_message {
                                Some(m) => m@,
                                None => "python bridge returned error"@,
                            },
                        ),
                    )
                } else {
                    Ok(())
                },
            }
        },
    }
}

/// Decides a bridge call from the process outcome and the parsed reply
/// (`reply` is read only when the process exited cleanly). A failure after
/// the process ran carries its exit code and error output.
pub fn run_local_bridge(
    invoked: &Result<ProcessOutput, String>,
    reply: &Result<BridgeReply, String>,
) -> (r: Result<(), BridgeError>)
    ensures
        match bridge_outcome(*invoked, *reply) {
            Ok(()) => r is Ok,
            Err((code, message)) => r matches Err(e) && e.code == code && e.message@ == message
                && match *invoked {
                Ok(out) => e.exit_code == out.status_code && e.stderr == out.stderr,
                Err(_) => e.exit_code is None && e.stderr@ == Seq::<char>::empty(),
            },
        },
{
    let out = match invoked {
        Err(e) => {
            proof {
                reveal_strlit("");
            }
            return Err(
                BridgeError {
                    code: BridgeErrorCode::Runtime,
                    message: concat2("python invoke failed: ", e.as_str()),
                    exit_code: None,
                    stderr: "".to_string(),
                },
            );
        },
        Ok(out) => out,
    };
    if out.timed_out {
        return Err(
            BridgeError {
                code: BridgeErrorCode::Timeout,
                message: "python bridge timed out".to_string(),
                exit_code: out.status_code,
                stderr: out.stderr.clone(),
            },
        );
    }
    let exit = match out.status_code {
        Some(c) => c,
        None => 1,
    };
    if exit != 0 {
        return Err(
            BridgeError {
                code: BridgeErrorCode::ProcessExit,
                message: "python bridge exited non-zero".to_string(),
                exit_code: out.status_code,
                stderr: out.stderr.clone(),
            },
        );
    }
    let parsed = match reply {
        Err(e) => {
            return Err(
                BridgeError {
                    code: BridgeErrorCode::MalformedJson,
                    message: concat2("invalid bridge json: ", e.as_str()),
                    exit_code: out.status_code,
                    stderr: out.stderr.clone(),
                },
            );
        },
        Ok(p) => p,
    };
    let one = "1".to_string();
    if parsed.version != one {
        return Err(
            BridgeError {
                code: BridgeErrorCode::ContractVersion,
                message: concat2("unsupported response version: ", parsed.version.as_str()),
                exit_code: out.status_code,
                stderr: out.stderr.clone(),
            },
        );
    }
    if !parsed.ok {
        let message = match &parsed.error_message {
            Some(m) => m.clone(),
            None => "python bridge returned error".to_string(),
        };
        return Err(
            BridgeError {
                code: BridgeErrorCode::PythonError,
                message,
                exit_code: out.status_code,
                stderr: out.stderr.clone(),
            },
        );
    }
    Ok(())
}

/// How a bridge request of contract `version`, encoded as `encoded`, is
/// started: refused before any interpreter runs when the version is not the
/// one this bridge speaks; refused as a runtime error when it could not be
/// encoded; else the interpreter call that carries it.
pub fn plan_local_bridge(
    version: &str,
    cfg: BridgeConfig,
    encoded: Result<Vec<u8>, String>,
) -> (r: Result<PythonInvokeRequest, BridgeError>)
    ensures
        version@ != contract_version() ==> (r matches Err(e) && e.code == BridgeErrorCode::ContractVersion
            && e.message@ == "unsupported bridge contract version: "@ + version@ && e.exit_code is None
            && e.stderr@ == Seq::<char>::empty()),
        version@ == contract_version() ==> match encoded {
            Err(m) => r matches Err(e) && e.code == BridgeErrorCode::Runtime && e.message == m
                && e.exit_code is None && e.stderr@ == Seq::<char>::empty(),
            Ok(bytes) => r matches Ok(q) && q.python_bin == cfg.python_bin && q.entry_script
                == cfg.entry_script && q.env == cfg.env && q.stdin_json == bytes && q.timeout_ms
                == cfg.timeout_ms,
        },
{
    if let Err(e) = check_bridge_request(version) {
        return Err(e);
    }
    match encoded {
        Err(m) => {
            proof {
                reveal_strlit("");
            }
            Err(BridgeError { code: BridgeErrorCode::Runtime, message: m, exit_code: None, stderr: "".to_string() })
        },
        Ok(bytes) => Ok(python_invoke_request(cfg, bytes)),
    }
}

/// The environment handed to the local pipeline: the whisper model and
/// device, and the OpenAI key when there is one.
pub fn local_bridge_env(whisper_model: &str, whisper_device: &str, openai_api_key: &str) -> (r: Vec<(String, String)>)
    ensures
        openai_api_key@.len() == 0 ==> r@.len() == 2,
        openai_api_key@.len() > 0 ==> r@.len() == 3 && r@[2].0@ == "OPENAI_API_KEY"@ && r@[2].1@
            == openai_api_key@,
        r@[0].0@ == "LOCAL_WHISPER_MODEL"@ && r@[0].1@ == whisper_model@,
        r@[1].0@ == "LOCAL_WHISPER_DEVICE"@ && r@[1].1@ == whisper_device@,
{
    let mut env: Vec<(String, String)> = Vec::new();
    env.push(("LOCAL_WHISPER_MODEL".to_string(), whisper_model.to_string()));
    env.push(("LOCAL_WHISPER_DEVICE".to_string(), whisper_device.to_string()));
    if !openai_api_key.is_empty() {
        env.push(("OPENAI_API_KEY".to_string(), openai_api_key.to_string()));
    }
    env
}

/// How long the bridge may run: the configured milliseconds when they
/// parse, else five minutes.
pub fn bridge_timeout_ms(raw: Option<&str>) -> (r: u64)
    ensures
        r == match raw {
            Some(v) => match crate::numbers::parse_unsigned(v@, u64::MAX as nat) {
                Some(n) => n,
                None => 300_000,
            },
            None => 300_000,
        },
{
    match raw {
        Some(v) => match crate::numbers::parse_u64_str(v) {
            Some(n) => n,
            None => 300_000,
        },
        None => 300_000,
    }
}

/// How the bridge runs: the interpreter, the bridge script, the
/// environment and the time limit. The environment holds secrets, so the
/// type has no `Debug`.
#[derive(Clone)]
pub struct BridgeConfig {
    pub python_bin: String,
    pub entry_script: String,
    pub env: Vec<(String, String)>,
    pub timeout_ms: u64,
}

/// The interpreter call for a bridge request whose JSON encoding is
/// `stdin_json`.
pub fn python_invoke_request(cfg: BridgeConfig, stdin_json: Vec<u8>) -> (r: PythonInvokeRequest)
    ensures
        r.python_bin == cfg.python_bin,
        r.entry_script == cfg.entry_script,
        r.env == cfg.env,
        r.stdin_json == stdin_json,
        r.timeout_ms == cfg.timeout_ms,
{
    PythonInvokeRequest {
        python_bin: cfg.python_bin,
        entry_script: cfg.entry_script,
        env: cfg.env,
        stdin_json,
        timeout_ms: cfg.timeout_ms,
    }
}

} // verus!
