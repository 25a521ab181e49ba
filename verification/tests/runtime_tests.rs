use shorts_tauri_app::bridge::{
    bridge_timeout_ms, check_bridge_request, local_bridge_env, plan_local_bridge, python_invoke_request, reply_text,
    run_local_bridge, BridgeConfig, BridgeErrorCode, BridgeReply,
};
use shorts_tauri_app::process_supervisor::{
    supervise, supervision_deadline, ChildPoll, ProcessOutput, SupervisorAction,
};
use shorts_tauri_app::fs_output::{missing_parent_error, no_parent_error, FsOutputErrorCode};
use shorts_tauri_app::python_runtime::{
    env_from, env_keys, env_remove, env_set, python_process_spec, resolve_python_bridge_paths,
    with_python_runtime_env, RuntimeDirProbe,
};
use shorts_tauri_app::tool_resolver::{
    check_python_module, resolve_tool, tool_exe, validate_runtime_tools, ModuleProbe,
    ResolveConfig, ToolKind, ToolProbe,
};

fn exited(code: Option<i32>, stdout: &str, stderr: &str) -> ProcessOutput {
    ProcessOutput {
        status_code: code,
        stdout: stdout.to_string(),
        stderr: stderr.to_string(),
        timed_out: false,
    }
}

fn reply(version: &str, ok: bool, message: Option<&str>) -> BridgeReply {
    BridgeReply { version: version.to_string(), ok, error_message: message.map(|m| m.to_string()) }
}

#[test]
fn valid_json_roundtrip() {
    let out = exited(Some(0), "{\"version\":\"1\",\"ok\":true,\"result\":{\"mode\":\"local\"}}\n", "");
    assert_eq!(
        reply_text(&out),
        "{\"version\":\"1\",\"ok\":true,\"result\":{\"mode\":\"local\"}}"
    );
    assert!(run_local_bridge(&Ok(out), &Ok(reply("1", true, None))).is_ok());
}

#[test]
fn malformed_json_from_python_maps_error() {
    let out = exited(Some(0), "{not json", "");
    let err = run_local_bridge(&Ok(out), &Err("expected value".to_string()))
        .expect_err("malformed json must fail");
    assert_eq!(err.code, BridgeErrorCode::MalformedJson);
    assert_eq!(err.message, "invalid bridge json: expected value");
}

#[test]
fn hang_timeout_then_terminate() {
    let deadline = supervision_deadline(1_000, 150);
    assert_eq!(deadline, 1_150);
    assert!(matches!(supervise(&ChildPoll::Running, 1_100, deadline), SupervisorAction::Wait { sleep_ms: 10 }));
    assert!(matches!(supervise(&ChildPoll::Running, 1_150, deadline), SupervisorAction::KillTimedOut));
    let out = ProcessOutput { status_code: None, stdout: String::new(), stderr: String::new(), timed_out: true };
    let err = run_local_bridge(&Ok(out), &Err("unused".to_string())).expect_err("hung process must timeout");
    assert_eq!(err.code, BridgeErrorCode::Timeout);
}

#[test]
fn non_zero_exit_mapping() {
    let out = exited(Some(17), "", "");
    let err = run_local_bridge(&Ok(out), &Ok(reply("1", true, None))).expect_err("non-zero must error");
    assert_eq!(err.code, BridgeErrorCode::ProcessExit);
    assert_eq!(err.exit_code, Some(17));
}

#[test]
fn stderr_capture_propagation() {
    let out = exited(Some(0), "{}", "bridge stderr test\n");
    let err = run_local_bridge(&Ok(out), &Ok(reply("1", false, Some("boom"))))
        .expect_err("must include stderr");
    assert_eq!(err.code, BridgeErrorCode::PythonError);
    assert!(err.stderr.contains("bridge stderr test"));
    assert_eq!(err.message, "boom");
}

#[test]
fn bridge_failures_in_order() {
    let err = run_local_bridge(&Err("no such file".to_string()), &Ok(reply("1", true, None))).unwrap_err();
    assert_eq!(err.code, BridgeErrorCode::Runtime);
    assert_eq!(err.message, "python invoke failed: no such file");
    assert_eq!(err.exit_code, None);

    let err = run_local_bridge(&Ok(exited(None, "", "")), &Ok(reply("1", true, None))).unwrap_err();
    assert_eq!(err.code, BridgeErrorCode::ProcessExit);

    let err = run_local_bridge(&Ok(exited(Some(0), "", "")), &Ok(reply("2", true, None))).unwrap_err();
    assert_eq!(err.code, BridgeErrorCode::ContractVersion);
    assert_eq!(err.message, "unsupported response version: 2");

    let err = run_local_bridge(&Ok(exited(Some(0), "", "")), &Ok(reply("1", false, None))).unwrap_err();
    assert_eq!(err.message, "python bridge returned error");

    assert!(check_bridge_request("1").is_ok());
    let err = check_bridge_request("0").unwrap_err();
    assert_eq!(err.code, BridgeErrorCode::ContractVersion);
    assert_eq!(err.message, "unsupported bridge contract version: 0");
    assert_eq!(BridgeErrorCode::MalformedJson.name(), "MalformedJson");
}

#[test]
fn supervision_deadline_saturates() {
    assert_eq!(supervision_deadline(u64::MAX - 1, 5), u64::MAX);
    assert!(matches!(supervise(&ChildPoll::Exited, 0, 0), SupervisorAction::Collect));
    assert!(matches!(supervise(&ChildPoll::Failed("x".to_string()), 0, 9), SupervisorAction::Fail(ref e) if e == "x"));
}

#[test]
fn bridge_timeout_and_env() {
    assert_eq!(bridge_timeout_ms(Some("2500")), 2500);
    let env = local_bridge_env("base", "cpu", "");
    assert!(env.iter().all(|(k, _)| k != "OPENAI_API_KEY"));
    let env = local_bridge_env("base", "cpu", "sk-1");
    assert!(env.iter().any(|(k, v)| k == "OPENAI_API_KEY" && v == "sk-1"));
}

#[test]
fn output_json_invalid_path_returns_structured_error() {
    let err = missing_parent_error("/tmp/missing");
    assert_eq!(err.code, FsOutputErrorCode::ParentMissing);
    assert!(err.message.contains("parent directory"));
    assert_eq!(err.path, "/tmp/missing");
    let err = no_parent_error("result.json");
    assert_eq!(err.code, FsOutputErrorCode::ParentMissing);
    assert!(err.message.contains("parent directory"));
}

fn config(tools: Vec<ToolKind>, allow_system_path: bool) -> ResolveConfig {
    ResolveConfig {
        bundled_dir: None,
        allow_system_path,
        python_bin: "python3".to_string(),
        required_tools: tools,
        required_python_modules: vec![],
    }
}

fn probe(configured: Option<&str>, bundled: Option<&str>, on_path: Option<&str>) -> ToolProbe {
    ToolProbe {
        configured: configured.map(|s| s.to_string()),
        bundled: bundled.map(|s| s.to_string()),
        on_path: on_path.map(|s| s.to_string()),
    }
}

#[test]
fn runtime_validator_reports_missing_tool_with_actionable_message() {
    let cfg = config(vec![ToolKind::Ffmpeg], false);
    let result = validate_runtime_tools(&cfg, &vec![probe(None, None, Some("/usr/bin/ffmpeg"))], &vec![]);
    assert_eq!(result.tools.len(), 1);
    assert!(!result.tools[0].ok);
    assert_eq!(result.tools[0].tool, "ffmpeg");
    assert!(result.tools[0].message.contains("Install ffmpeg"));
    assert!(!result.ok);
    assert!(!result.local_runtime_ready);
}

#[test]
fn resolver_prefers_bundled_then_system_path() {
    let p = probe(None, Some("/app/bin/ffmpeg"), Some("/usr/bin/ffmpeg"));
    let resolved = resolve_tool(ToolKind::Ffmpeg, &p, true).expect("resolver should find bundled");
    assert_eq!(resolved.path, "/app/bin/ffmpeg");
    assert_eq!(resolved.source, "bundled");

    let p = probe(None, None, Some("/usr/bin/ffmpeg"));
    let resolved = resolve_tool(ToolKind::Ffmpeg, &p, true).expect("system path");
    assert_eq!(resolved.source, "path");
    assert!(resolve_tool(ToolKind::Ffmpeg, &p, false).is_none());

    let p = probe(Some("/opt/py"), Some("/app/bin/python3"), None);
    assert_eq!(resolve_tool(ToolKind::Python, &p, true).unwrap().source, "configured");
    assert_eq!(resolve_tool(ToolKind::Ffmpeg, &p, true).unwrap().source, "bundled");
}

#[test]
fn tool_names_and_executables() {
    assert_eq!(tool_exe(ToolKind::Python, "/opt/python3", false), "/opt/python3");
    assert_eq!(tool_exe(ToolKind::YtDlp, "python3", true), "yt-dlp.exe");
    assert_eq!(tool_exe(ToolKind::Ffmpeg, "python3", false), "ffmpeg");
}

#[test]
fn python_modules_count_only_with_python() {
    let mut cfg = config(vec![ToolKind::Python], false);
    cfg.required_python_modules = vec!["whisper".to_string()];
    let ok_probe = ModuleProbe { ran: true, succeeded: true };
    let result = validate_runtime_tools(&cfg, &vec![probe(None, None, None)], &vec![ok_probe]);
    assert!(!result.python_packages[0].ok);
    assert!(!result.ok);
    let result = validate_runtime_tools(&cfg, &vec![probe(None, Some("/b/python3"), None)], &vec![ok_probe]);
    assert!(result.python_packages[0].ok);
    assert!(result.ok);
    assert!(check_python_module("whisper", ModuleProbe { ran: true, succeeded: false }).is_err());
}

#[test]
fn bundled_runtime_env_adds_site_packages_to_pythonpath() {
    let env = with_python_runtime_env(
        &vec![],
        Some("/rt"),
        Some("/rt/site-packages"),
        Some("/usr/bin"),
        false,
    );
    let pythonpath = env.iter().find(|(k, _)| k == "PYTHONPATH").map(|(_, v)| v.clone()).expect("pythonpath");
    assert!(pythonpath.contains("site-packages"));
    let path = env.iter().find(|(k, _)| k == "PATH").map(|(_, v)| v.clone()).expect("path");
    assert_eq!(path, "/rt:/usr/bin");
}

#[test]
fn runtime_env_keeps_existing_values_after_runtime_entries() {
    let base = vec![
        ("PYTHONPATH".to_string(), "/old".to_string()),
        ("A".to_string(), "1".to_string()),
        ("A".to_string(), "2".to_string()),
    ];
    let env = with_python_runtime_env(&base, Some("C:\\rt"), Some("C:\\rt\\sp"), None, true);
    assert_eq!(
        env,
        vec![
            ("A".to_string(), "2".to_string()),
            ("PATH".to_string(), "C:\\rt".to_string()),
            ("PYTHONPATH".to_string(), "C:\\rt\\sp;/old".to_string()),
        ]
    );
    let plain = with_python_runtime_env(&base, None, None, Some("/usr/bin"), false);
    assert_eq!(plain.len(), 2);
}

#[test]
fn env_set_and_remove_keep_keys_sorted_and_unique() {
    let mut env = env_from(&vec![("B".to_string(), "1".to_string())]);
    env_set(&mut env, "A".to_string(), "x".to_string());
    env_set(&mut env, "B".to_string(), "2".to_string());
    assert_eq!(env, vec![("A".to_string(), "x".to_string()), ("B".to_string(), "2".to_string())]);
    env_remove(&mut env, "A");
    assert_eq!(env, vec![("B".to_string(), "2".to_string())]);
}

#[test]
fn bridge_paths_prefer_dev_then_pack_then_bundled() {
    let pack = RuntimeDirProbe { dir: "/pack".into(), python: "/pack/py".into(), entry: "/pack/e.py".into(), complete: true };
    let bundled = RuntimeDirProbe { dir: "/b".into(), python: "/b/py".into(), entry: "/b/e.py".into(), complete: true };
    let dev = Some(("/venv/py".to_string(), "/repo/e.py".to_string()));
    let p = resolve_python_bridge_paths(true, dev.clone(), Some(pack.clone()), Some(bundled.clone()));
    assert_eq!(p.python_bin, "/venv/py");
    let p = resolve_python_bridge_paths(false, dev, Some(pack), Some(bundled.clone()));
    assert_eq!(p.bundled_runtime_dir.as_deref(), Some("/pack"));
    let p = resolve_python_bridge_paths(false, None, None, Some(bundled));
    assert_eq!(p.entry_script, "/b/e.py");
    let p = resolve_python_bridge_paths(false, None, None, None);
    assert_eq!(p.python_bin, "__missing_bundled_python__");
    let p = resolve_python_bridge_paths(true, None, None, None);
    assert_eq!(p.python_bin, "python3");
}

#[test]
fn bridge_config_becomes_an_interpreter_process() {
    let cfg = BridgeConfig {
        python_bin: "/venv/python3".to_string(),
        entry_script: "bridge_entry.py".to_string(),
        env: vec![("A".to_string(), "1".to_string())],
        timeout_ms: 5_000,
    };
    let req = python_invoke_request(cfg, b"{}".to_vec());
    assert_eq!(req.stdin_json, b"{}".to_vec());
    let spec = python_process_spec(req);
    assert_eq!(spec.program, "/venv/python3");
    assert_eq!(spec.args, vec!["bridge_entry.py".to_string()]);
    assert_eq!(spec.env, vec![("A".to_string(), "1".to_string())]);
    assert_eq!(spec.stdin_bytes, b"{}".to_vec());
    assert_eq!(spec.timeout_ms, 5_000);
}

#[test]
fn env_keys_show_names_without_values() {
    let env = vec![
        ("OPENAI_API_KEY".to_string(), "sk-secret".to_string()),
        ("PATH".to_string(), "/usr/bin".to_string()),
    ];
    let keys = env_keys(&env);
    assert_eq!(keys, vec!["OPENAI_API_KEY".to_string(), "PATH".to_string()]);
    assert!(!format!("{keys:?}").contains("sk-secret"));
}

fn plan_config() -> BridgeConfig {
    BridgeConfig {
        python_bin: "/venv/python3".to_string(),
        entry_script: "bridge_entry.py".to_string(),
        env: vec![("A".to_string(), "1".to_string())],
        timeout_ms: 5_000,
    }
}

#[test]
fn bridge_refuses_another_contract_version_before_python_starts() {
    let err = match plan_local_bridge("2", plan_config(), Ok(b"{}".to_vec())) {
        Err(e) => e,
        Ok(_) => panic!("version 2 must be refused"),
    };
    assert_eq!(err.code, BridgeErrorCode::ContractVersion);
    assert_eq!(err.message, "unsupported bridge contract version: 2");
    assert_eq!(err.exit_code, None);
    assert_eq!(err.stderr, "");
    let err = match plan_local_bridge("2", plan_config(), Err("encode failed".to_string())) {
        Err(e) => e,
        Ok(_) => panic!("version is checked first"),
    };
    assert_eq!(err.code, BridgeErrorCode::ContractVersion);
}

#[test]
fn bridge_plan_carries_the_encoded_request() {
    let call = match plan_local_bridge("1", plan_config(), Ok(b"{\"version\":\"1\"}".to_vec())) {
        Ok(c) => c,
        Err(e) => panic!("version 1 must be planned: {}", e.message),
    };
    assert_eq!(call.python_bin, "/venv/python3");
    assert_eq!(call.entry_script, "bridge_entry.py");
    assert_eq!(call.stdin_json, b"{\"version\":\"1\"}".to_vec());
    assert_eq!(call.timeout_ms, 5_000);
    let err = match plan_local_bridge("1", plan_config(), Err("encode failed".to_string())) {
        Err(e) => e,
        Ok(_) => panic!("encoding failure must be refused"),
    };
    assert_eq!(err.code, BridgeErrorCode::Runtime);
    assert_eq!(err.message, "encode failed");
}
