use shorts_tauri_app::runtime_paths::{confine_to_root, resolve_parts, runtime_candidate, runtime_context_at, PathPart};

fn parts(path: &str) -> Vec<PathPart> {
    let mut v = Vec::new();
    if path.starts_with('/') {
        v.push(PathPart::RootDir);
    }
    for seg in path.split('/') {
        match seg {
            "" => {}
            "." => v.push(PathPart::CurDir),
            ".." => v.push(PathPart::ParentDir),
            s => v.push(PathPart::Normal(s.to_string())),
        }
    }
    v
}

fn text(v: &[PathPart]) -> String {
    let mut s = String::new();
    for p in v {
        match p {
            PathPart::RootDir => s.push('/'),
            PathPart::Normal(n) => {
                if !s.is_empty() && !s.ends_with('/') {
                    s.push('/');
                }
                s.push_str(n);
            }
            PathPart::Prefix(x) => s.push_str(x),
            PathPart::CurDir => s.push('.'),
            PathPart::ParentDir => s.push_str(".."),
        }
    }
    s
}

fn confine(request: &str) -> Result<String, String> {
    let root = parts("/home/u/.local/share/app");
    let candidate = runtime_candidate(&root, &parts(request), request.starts_with('/'));
    confine_to_root(&root, &candidate).map(|p| text(&p))
}

#[test]
fn relative_paths_stay_under_the_runtime_root() {
    assert_eq!(confine("logs/app.log").unwrap(), "/home/u/.local/share/app/logs/app.log");
    assert_eq!(confine("./config/../logs/./x.txt").unwrap(), "/home/u/.local/share/app/logs/x.txt");
    assert_eq!(confine("/home/u/.local/share/app/config/a.json").unwrap(), "/home/u/.local/share/app/config/a.json");
}

#[test]
fn escaping_paths_are_refused() {
    assert_eq!(confine("../../../etc/passwd").unwrap_err(), "path escapes runtime root");
    assert_eq!(confine("/etc/passwd").unwrap_err(), "path escapes runtime root");
    assert_eq!(confine("logs/../../app-other/x").unwrap_err(), "path escapes runtime root");
}

#[test]
fn parent_of_the_root_dir_stays_at_the_root() {
    assert_eq!(text(&resolve_parts(&parts("/../../a"))), "/a");
    assert_eq!(text(&resolve_parts(&parts("a/../../b"))), "b");
}

#[test]
fn windows_style_requests_join_like_pathbuf() {
    let root = vec![PathPart::Prefix("C:".to_string()), PathPart::RootDir, PathPart::Normal("app".to_string())];
    let rooted = vec![PathPart::RootDir, PathPart::Normal("x".to_string())];
    let c = runtime_candidate(&root, &rooted, false);
    assert_eq!(text(&c), "C:/x");
    assert!(confine_to_root(&root, &c).is_err());
}

#[test]
fn runtime_context_lays_out_files_under_the_root() {
    let c = runtime_context_at("0.1.0", "linux", "/home/u/.local/share/app", '/');
    assert_eq!(c.app_version, "0.1.0");
    assert_eq!(c.platform, "linux");
    assert_eq!(c.runtime_root, "/home/u/.local/share/app");
    assert_eq!(c.log_dir, "/home/u/.local/share/app/logs");
    assert_eq!(c.log_path, "/home/u/.local/share/app/logs/app.log");
    assert_eq!(c.crash_log_path, "/home/u/.local/share/app/logs/crash.log");
    assert_eq!(c.config_path, "/home/u/.local/share/app/config/config.json");
    assert_eq!(c.protected_base_path, "/home/u/.local/share/app/protected");
    assert_eq!(c.secure_fallback_base_path, "/home/u/.local/share/app/secure-fallback");
}

#[test]
fn runtime_context_does_not_double_a_trailing_separator() {
    let c = runtime_context_at("1", "windows", "C:\\Data\\", '\\');
    assert_eq!(c.log_dir, "C:\\Data\\logs");
    assert_eq!(c.config_path, "C:\\Data\\config\\config.json");
    let root_only = runtime_context_at("1", "linux", "/", '/');
    assert_eq!(root_only.protected_base_path, "/protected");
}
