//! The runtime directory: the layout of the files the app keeps under it,
//! and file commands kept inside it (a requested path is joined to the
//! runtime root, its `.` and `..` parts are resolved, and it is refused
//! when the result lies outside the root).
//!
//! Paths are handled as their components, as `std::path` splits them; the
//! caller splits and rebuilds them, and creates directories.

use vstd::prelude::*;
use crate::text::{chars_of, string_of};

verus! {

/// One component of a path.
#[derive(Debug, Clone)]
pub enum PathPart {
    /// A Windows prefix such as `C:`.
    Prefix(String),
    RootDir,
    CurDir,
    ParentDir,
    Normal(String),
}

pub open spec fn is_anchor(p: PathPart) -> bool {
    p is Prefix || p is RootDir
}

/// The path a relative request names under `root`, as `PathBuf::push`
/// joins them: a request with a prefix replaces the root; one with a root
/// dir keeps only the root's prefix; any other is appended.
pub open spec fn joined(root: Seq<PathPart>, request: Seq<PathPart>) -> Seq<PathPart> {
    if request.len() > 0 && request[0] is Prefix {
        request
    } else if request.len() > 0 && request[0] is RootDir {
        if root.len() > 0 && root[0] is Prefix {
            seq![root[0]] + request
        } else {
            request
        }
    } else {
        root + request
    }
}

/// The path to check: the request itself when absolute, else joined to
/// the root.
pub open spec fn candidate_path(root: Seq<PathPart>, request: Seq<PathPart>, absolute: bool) -> Seq<PathPart> {
    if absolute {
        request
    } else {
        joined(root, request)
    }
}

/// Resolving `.` and `..` component by component: `.` is dropped, `..`
/// removes the last component unless only the prefix and root are left,
/// anything else is appended.
pub open spec fn resolved(parts: Seq<PathPart>) -> Seq<PathPart>
    decreases parts.len(),
{
    if parts.len() == 0 {
        seq![]
    } else {
        let acc = resolved(parts.drop_last());
        match parts.last() {
            PathPart::CurDir => acc,
            PathPart::ParentDir => if acc.len() > 0 && !is_anchor(acc.last()) {
                acc.drop_last()
            } else {
                acc
            },
            p => acc.push(p),
        }
    }
}

/// Whether two components name the same thing.
pub open spec fn same_parts(a: PathPart, b: PathPart) -> bool {
    match (a, b) {
        (PathPart::Prefix(x), PathPart::Prefix(y)) => x@ == y@,
        (PathPart::RootDir, PathPart::RootDir) => true,
        (PathPart::CurDir, PathPart::CurDir) => true,
        (PathPart::ParentDir, PathPart::ParentDir) => true,
        (PathPart::Normal(x), PathPart::Normal(y)) => x@ == y@,
        _ => false,
    }
}

/// Whether `path` begins with the components of `root`, as
/// `Path::starts_with` compares them.
pub open spec fn starts_with_parts(path: Seq<PathPart>, root: Seq<PathPart>) -> bool {
    root.len() <= path.len() && forall|k: int| 0 <= k < root.len() ==> same_parts(#[trigger] path[k], root[k])
}

pub open spec fn plain(parts: Seq<PathPart>) -> bool {
    forall|i: int| 0 <= i < parts.len() ==> !(#[trigger] parts[i] is CurDir) && !(parts[i] is ParentDir)
}

fn copy_part(p: &PathPart) -> (r: PathPart)
    ensures
        r == *p,
{
    match p {
        PathPart::Prefix(s) => PathPart::Prefix(s.clone()),
        PathPart::RootDir => PathPart::RootDir,
        PathPart::CurDir => PathPart::CurDir,
        PathPart::ParentDir => PathPart::ParentDir,
        PathPart::Normal(s) => PathPart::Normal(s.clone()),
    }
}

fn same_part(a: &PathPart, b: &PathPart) -> (r: bool)
    ensures
        r == same_parts(*a, *b),
{
    match (a, b) {
        (PathPart::Prefix(x), PathPart::Prefix(y)) => *x == *y,
        (PathPart::RootDir, PathPart::RootDir) => true,
        (PathPart::CurDir, PathPart::CurDir) => true,
        (PathPart::ParentDir, PathPart::ParentDir) => true,
        (PathPart::Normal(x), PathPart::Normal(y)) => *x == *y,
        _ => false,
    }
}

fn copy_parts(v: &Vec<PathPart>) -> (r: Vec<PathPart>)
    ensures
        r@ == v@,
{
    let mut r: Vec<PathPart> = Vec::new();
    let mut i: usize = 0;
    while i < v.len()
        invariant
            i <= v@.len(),
            r@ == v@.take(i as int),
        decreases v@.len() - i,
    {
        r.push(copy_part(&v[i]));
        i += 1;
        assert(r@ =~= v@.take(i as int));
    }
    assert(v@.take(i as int) =~= v@);
    r
}

/// The path a file command asks for, before `.` and `..` are resolved.
pub fn runtime_candidate(root: &Vec<PathPart>, request: &Vec<PathPart>, absolute: bool) -> (r: Vec<PathPart>)
    ensures
        r@ == candidate_path(root@, request@, absolute),
{
    if absolute {
        return copy_parts(request);
    }
    if request.len() > 0 {
        if let PathPart::Prefix(_) = &request[0] {
            return copy_parts(request);
        }
        if let PathPart::RootDir = &request[0] {
            let mut r: Vec<PathPart> = Vec::new();
            if root.len() > 0 {
                if let PathPart::Prefix(_) = &root[0] {
                    r.push(copy_part(&root[0]));
                }
            }
            let ghost head = r@;
            let mut tail = copy_parts(request);
            r.append(&mut tail);
            assert(r@ == head + request@);
            proof {
                if root@.len() > 0 && root@[0] is Prefix {
                    assert(head =~= seq![root@[0]]);
                } else {
                    assert(head =~= Seq::<PathPart>::empty());
                    assert(r@ =~= request@);
                }
            }
            return r;
        }
    }
    let mut r = copy_parts(root);
    let mut tail = copy_parts(request);
    r.append(&mut tail);
    r
}

/// Resolves `.` and `..`; what comes out has neither.
pub fn resolve_parts(parts: &Vec<PathPart>) -> (r: Vec<PathPart>)
    ensures
        r@ == resolved(parts@),
        plain(r@),
{
    let mut acc: Vec<PathPart> = Vec::new();
    let mut i: usize = 0;
    while i < parts.len()
        invariant
            i <= parts@.len(),
            acc@ == resolved(parts@.take(i as int)),
            plain(acc@),
        decreases parts@.len() - i,
    {
        let ghost t = parts@.take(i + 1);
        assert(t.drop_last() =~= parts@.take(i as int));
        assert(t.last() == parts@[i as int]);
        match &parts[i] {
            PathPart::CurDir => {},
            PathPart::ParentDir => {
                let n = acc.len();
                if n > 0 {
                    let anchor = match &acc[n - 1] {
                        PathPart::Prefix(_) => true,
                        PathPart::RootDir => true,
                        _ => false,
                    };
                    if !anchor {
                        let ghost before = acc@;
                        acc.pop();
                        assert forall|k: int| 0 <= k < acc@.len() implies !(#[trigger] acc@[k] is CurDir)
                            && !(acc@[k] is ParentDir) by {
                            assert(acc@[k] == before[k]);
                        }
                    }
                }
            },
            p => {
                acc.push(copy_part(p));
            },
        }
        i += 1;
    }
    assert(parts@.take(i as int) =~= parts@);
    acc
}

/// Confines a file command to the runtime directory: the resolved
/// candidate, or an error when it does not lie under `root`.
pub fn confine_to_root(root: &Vec<PathPart>, candidate: &Vec<PathPart>) -> (r: Result<Vec<PathPart>, String>)
    ensures
        starts_with_parts(resolved(candidate@), root@) ==> (r matches Ok(p) && p@ == resolved(
            candidate@,
        )),
        !starts_with_parts(resolved(candidate@), root@) ==> (r matches Err(e) && e@
            == "path escapes runtime root"@),
        r matches Ok(p) ==> starts_with_parts(p@, root@) && plain(p@),
{
    let normalized = resolve_parts(candidate);
    if root.len() > normalized.len() {
        return Err("path escapes runtime root".to_string());
    }
    let mut i: usize = 0;
    while i < root.len()
        invariant
            i <= root@.len(),
            root@.len() <= normalized@.len(),
            normalized@ == resolved(candidate@),
            plain(normalized@),
            forall|k: int| 0 <= k < i ==> same_parts(#[trigger] normalized@[k], root@[k]),
        decreases root@.len() - i,
    {
        if !same_part(&normalized[i], &root[i]) {
            assert(!same_parts(normalized@[i as int], root@[i as int]));
            assert(!starts_with_parts(normalized@, root@));
            return Err("path escapes runtime root".to_string());
        }
        i += 1;
    }
    Ok(normalized)
}

// ---------------------------------------------------------------------------
// The runtime directory's layout
// ---------------------------------------------------------------------------

/// A plain name appended to a path, as `PathBuf::push` does on a platform
/// whose separator is `sep`: a separator goes between them unless the path
/// is empty or already ends with one.
pub open spec fn path_join(base: Seq<char>, name: Seq<char>, sep: char) -> Seq<char> {
    if base.len() == 0 || base.last() == sep {
        base + name
    } else {
        base + seq![sep] + name
    }
}

pub(crate) fn join_name(base: &str, name: &str, sep: char) -> (r: String)
    ensures
        r@ == path_join(base@, name@, sep),
{
    let mut v = chars_of(base);
    let n = v.len();
    if n > 0 && v[n - 1] != sep {
        v.push(sep);
    }
    let w = chars_of(name);
    let ghost head = v@;
    let mut i: usize = 0;
    while i < w.len()
        invariant
            i <= w@.len(),
            v@ == head + w@.take(i as int),
        decreases w@.len() - i,
    {
        v.push(w[i]);
        i += 1;
        assert(v@ =~= head + w@.take(i as int));
    }
    assert(w@.take(i as int) =~= w@);
    proof {
        if base@.len() == 0 || base@.last() == sep {
            assert(head =~= base@);
        } else {
            assert(head =~= base@ + seq![sep]);
        }
    }
    string_of(&v)
}

/// Where the app keeps its files, as the desktop shell reports them.
#[derive(Debug, Clone)]
pub struct RuntimeContext {
    pub app_version: String,
    pub platform: String,
    pub runtime_root: String,
    pub log_dir: String,
    pub log_path: String,
    pub crash_log_path: String,
    pub config_path: String,
    pub protected_base_path: String,
    pub secure_fallback_base_path: String,
}

/// The layout under a runtime root: `logs/` with `app.log` and
/// `crash.log`, `config/config.json`, `protected/` and `secure-fallback/`.
pub fn runtime_context_at(app_version: &str, platform: &str, runtime_root: &str, sep: char) -> (c: RuntimeContext)
    ensures
        c.app_version@ == app_version@,
        c.platform@ == platform@,
        c.runtime_root@ == runtime_root@,
        c.log_dir@ == path_join(runtime_root@, "logs"@, sep),
        c.log_path@ == path_join(path_join(runtime_root@, "logs"@, sep), "app.log"@, sep),
        c.crash_log_path@ == path_join(path_join(runtime_root@, "logs"@, sep), "crash.log"@, sep),
        c.config_path@ == path_join(path_join(runtime_root@, "config"@, sep), "config.json"@, sep),
        c.protected_base_path@ == path_join(runtime_root@, "protected"@, sep),
        c.secure_fallback_base_path@ == path_join(runtime_root@, "secure-fallback"@, sep),
{
    let log_dir = join_name(runtime_root, "logs", sep);
    let log_path = join_name(log_dir.as_str(), "app.log", sep);
    let crash_log_path = join_name(log_dir.as_str(), "crash.log", sep);
    let config_dir = join_name(runtime_root, "config", sep);
    let config_path = join_name(config_dir.as_str(), "config.json", sep);
    RuntimeContext {
        app_version: app_version.to_string(),
        platform: platform.to_string(),
        runtime_root: runtime_root.to_string(),
        log_dir,
        log_path,
        crash_log_path,
        config_path,
        protected_base_path: join_name(runtime_root, "protected", sep),
        secure_fallback_base_path: join_name(runtime_root, "secure-fallback", sep),
    }
}

} // verus!
