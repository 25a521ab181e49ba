//! The Python runtime of local mode: which interpreter and bridge script to
//! use, and the environment it runs with.
//!
//! Whether files exist and what the process environment holds is found out
//! by the caller.

use vstd::prelude::*;
use crate::process_supervisor::ProcessSpec;
use crate::text::{chars_of, concat2, trim, trim_str};

verus! {

// ---------------------------------------------------------------------------
// Ordered environments
// ---------------------------------------------------------------------------

/// Text order by code point, as `str`'s `Ord` has it.
pub open spec fn key_lt(a: Seq<char>, b: Seq<char>) -> bool
    decreases a.len(),
{
    if a.len() == 0 {
        b.len() > 0
    } else if b.len() == 0 {
        false
    } else if a[0] != b[0] {
        a[0] < b[0]
    } else {
        key_lt(a.drop_first(), b.drop_first())
    }
}

pub proof fn lemma_key_lt_irreflexive(a: Seq<char>)
    ensures
        !key_lt(a, a),
    decreases a.len(),
{
    if a.len() > 0 {
        lemma_key_lt_irreflexive(a.drop_first());
    }
}

pub proof fn lemma_key_lt_transitive(a: Seq<char>, b: Seq<char>, c: Seq<char>)
    requires
        key_lt(a, b),
        key_lt(b, c),
    ensures
        key_lt(a, c),
    decreases a.len(),
{
    if a.len() > 0 && b.len() > 0 && c.len() > 0 && a[0] == b[0] && b[0] == c[0] {
        lemma_key_lt_transitive(a.drop_first(), b.drop_first(), c.drop_first());
    }
}

pub proof fn lemma_key_lt_total(a: Seq<char>, b: Seq<char>)
    requires
        a != b,
    ensures
        key_lt(a, b) || key_lt(b, a),
    decreases a.len(),
{
    if a.len() > 0 && b.len() > 0 && a[0] == b[0] {
        if a.drop_first() == b.drop_first() {
            assert(a =~= seq![a[0]] + a.drop_first());
            assert(b =~= seq![b[0]] + b.drop_first());
        }
        lemma_key_lt_total(a.drop_first(), b.drop_first());
    } else if a.len() > 0 && b.len() > 0 {
    } else if a.len() == 0 && b.len() == 0 {
        assert(a =~= b);
    }
}

fn text_lt(a: &str, b: &str) -> (r: bool)
    ensures
        r == key_lt(a@, b@),
{
    let x = chars_of(a);
    let y = chars_of(b);
    let mut i: usize = 0;
    assert(x@.skip(0) =~= x@);
    assert(y@.skip(0) =~= y@);
    while i < x.len() && i < y.len() && x[i] == y[i]
        invariant
            i <= x@.len(),
            i <= y@.len(),
            key_lt(x@, y@) == key_lt(x@.skip(i as int), y@.skip(i as int)),
        decreases x@.len() - i,
    {
        assert(x@.skip(i as int).drop_first() =~= x@.skip(i + 1));
        assert(y@.skip(i as int).drop_first() =~= y@.skip(i + 1));
        i += 1;
    }
    if i == x.len() {
        i < y.len()
    } else if i == y.len() {
        false
    } else {
        x[i] < y[i]
    }
}

/// Environment entries in strictly increasing key order (so no key twice).
pub open spec fn env_sorted(v: Seq<(String, String)>) -> bool {
    forall|i: int, j: int| 0 <= i < j < v.len() ==> key_lt(#[trigger] v[i].0@, #[trigger] v[j].0@)
}

/// The value an environment gives a key: that of its last entry with the
/// key (in a sorted environment, the only one).
pub open spec fn env_lookup(v: Seq<(String, String)>, k: Seq<char>) -> Option<Seq<char>> {
    last_assignment(v, k)
}

/// The value a list of assignments leaves a key with: the last one wins.
pub open spec fn last_assignment(v: Seq<(String, String)>, k: Seq<char>) -> Option<Seq<char>>
    decreases v.len(),
{
    if v.len() == 0 {
        None
    } else if v.last().0@ == k {
        Some(v.last().1@)
    } else {
        last_assignment(v.drop_last(), k)
    }
}

pub proof fn lemma_sorted_unique(v: Seq<(String, String)>, i: int, j: int)
    requires
        env_sorted(v),
        0 <= i < v.len(),
        0 <= j < v.len(),
        v[i].0@ == v[j].0@,
    ensures
        i == j,
{
    if i < j {
        assert(key_lt(v[i].0@, v[j].0@));
        lemma_key_lt_irreflexive(v[i].0@);
    } else if j < i {
        assert(key_lt(v[j].0@, v[i].0@));
        lemma_key_lt_irreflexive(v[i].0@);
    }
}

pub proof fn lemma_lookup_at(v: Seq<(String, String)>, idx: int)
    requires
        env_sorted(v),
        0 <= idx < v.len(),
    ensures
        env_lookup(v, v[idx].0@) == Some(v[idx].1@),
    decreases v.len(),
{
    if idx < v.len() - 1 {
        if v.last().0@ == v[idx].0@ {
            lemma_sorted_unique(v, idx, v.len() - 1);
        }
        assert(env_sorted(v.drop_last()));
        lemma_lookup_at(v.drop_last(), idx);
    }
}

pub proof fn lemma_lookup_absent(v: Seq<(String, String)>, k: Seq<char>)
    requires
        forall|i: int| 0 <= i < v.len() ==> (#[trigger] v[i]).0@ != k,
    ensures
        env_lookup(v, k) is None,
    decreases v.len(),
{
    if v.len() > 0 {
        assert(v.last() == v[v.len() - 1]);
        assert forall|i: int| 0 <= i < v.drop_last().len() implies (#[trigger] v.drop_last()[i]).0@ != k by {
            assert(v.drop_last()[i] == v[i]);
        }
        lemma_lookup_absent(v.drop_last(), k);
    }
}

/// Sets a key in a sorted environment, keeping it sorted.
pub fn env_set(v: &mut Vec<(String, String)>, k: String, val: String)
    requires
        env_sorted(old(v)@),
    ensures
        env_sorted(final(v)@),
        forall|x: Seq<char>| #[trigger] env_lookup(final(v)@, x) == if x == k@ {
            Some(val@)
        } else {
            env_lookup(old(v)@, x)
        },
{
    let ghost old_v = v@;
    let mut i: usize = 0;
    while i < v.len() && text_lt(v[i].0.as_str(), k.as_str())
        invariant
            v@ == old_v,
            i <= v@.len(),
            forall|j: int| 0 <= j < i ==> key_lt((#[trigger] v@[j]).0@, k@),
        decreases v@.len() - i,
    {
        i += 1;
    }
    if i < v.len() && v[i].0 == k {
        let ghost kk = k@;
        let ghost vv = val@;
        v.set(i, (k, val));
        proof {
            assert(env_sorted(v@)) by {
                assert forall|a: int, b: int| 0 <= a < b < v@.len() implies key_lt(
                    #[trigger] v@[a].0@,
                    #[trigger] v@[b].0@,
                ) by {
                    assert(old_v[a].0@ == v@[a].0@ || a == i);
                    assert(old_v[b].0@ == v@[b].0@ || b == i);
                    assert(key_lt(old_v[a].0@, old_v[b].0@));
                }
            }
            assert forall|x: Seq<char>| #[trigger] env_lookup(v@, x) == if x == kk {
                Some(vv)
            } else {
                env_lookup(old_v, x)
            } by {
                if x == kk {
                    lemma_lookup_at(v@, i as int);
                } else {
                    if exists|j: int| 0 <= j < old_v.len() && (#[trigger] old_v[j]).0@ == x {
                        let j = choose|j: int| 0 <= j < old_v.len() && (#[trigger] old_v[j]).0@ == x;
                        assert(j != i);
                        assert(v@[j] == old_v[j]);
                        lemma_lookup_at(old_v, j);
                        lemma_lookup_at(v@, j);
                    } else {
                        assert forall|j: int| 0 <= j < v@.len() implies (#[trigger] v@[j]).0@ != x by {
                            if j != i {
                                assert(v@[j] == old_v[j]);
                            }
                        }
                        lemma_lookup_absent(v@, x);
                        lemma_lookup_absent(old_v, x);
                    }
                }
            }
        }
    } else {
        let ghost kk = k@;
        let ghost vv = val@;
        proof {
            if i < old_v.len() {
                assert(old_v[i as int].0@ != kk);
                lemma_key_lt_total(old_v[i as int].0@, kk);
            }
        }
        v.insert(i, (k, val));
        proof {
            assert forall|j: int| i < j < v@.len() implies key_lt(kk, (#[trigger] v@[j]).0@) by {
                assert(v@[j] == old_v[j - 1]);
                if j - 1 > i {
                    assert(key_lt(old_v[i as int].0@, old_v[j - 1].0@));
                    lemma_key_lt_transitive(kk, old_v[i as int].0@, old_v[j - 1].0@);
                }
            }
            assert(env_sorted(v@)) by {
                assert forall|a: int, b: int| 0 <= a < b < v@.len() implies key_lt(
                    #[trigger] v@[a].0@,
                    #[trigger] v@[b].0@,
                ) by {
                    if a < i && b < i {
                        assert(v@[a] == old_v[a] && v@[b] == old_v[b]);
                    } else if a < i && b == i {
                        assert(v@[a] == old_v[a]);
                    } else if a < i && b > i {
                        assert(v@[a] == old_v[a]);
                        assert(key_lt(kk, v@[b].0@));
                        lemma_key_lt_transitive(v@[a].0@, kk, v@[b].0@);
                    } else if a == i {
                    } else {
                        assert(v@[a] == old_v[a - 1] && v@[b] == old_v[b - 1]);
                    }
                }
            }
            assert forall|x: Seq<char>| #[trigger] env_lookup(v@, x) == if x == kk {
                Some(vv)
            } else {
                env_lookup(old_v, x)
            } by {
                if x == kk {
                    lemma_lookup_at(v@, i as int);
                } else {
                    if exists|j: int| 0 <= j < old_v.len() && (#[trigger] old_v[j]).0@ == x {
                        let j = choose|j: int| 0 <= j < old_v.len() && (#[trigger] old_v[j]).0@ == x;
                        lemma_lookup_at(old_v, j);
                        if j < i {
                            assert(v@[j] == old_v[j]);
                            lemma_lookup_at(v@, j);
                        } else {
                            assert(v@[j + 1] == old_v[j]);
                            lemma_lookup_at(v@, j + 1);
                        }
                    } else {
                        assert forall|j: int| 0 <= j < v@.len() implies (#[trigger] v@[j]).0@ != x by {
                            if j < i {
                                assert(v@[j] == old_v[j]);
                            } else if j > i {
                                assert(v@[j] == old_v[j - 1]);
                            }
                        }
                        lemma_lookup_absent(v@, x);
                        lemma_lookup_absent(old_v, x);
                    }
                }
            }
        }
    }
}

/// Removes a key from a sorted environment.
pub fn env_remove(v: &mut Vec<(String, String)>, k: &str)
    requires
        env_sorted(old(v)@),
    ensures
        env_sorted(final(v)@),
        forall|x: Seq<char>| #[trigger] env_lookup(final(v)@, x) == if x == k@ {
            None
        } else {
            env_lookup(old(v)@, x)
        },
{
    let ghost old_v = v@;
    let key = k.to_string();
    let mut i: usize = 0;
    while i < v.len()
        invariant
            v@ == old_v,
            old_v == old(v)@,
            env_sorted(old_v),
            key@ == k@,
            i <= v@.len(),
            forall|j: int| 0 <= j < i ==> (#[trigger] v@[j]).0@ != k@,
        decreases v@.len() - i,
    {
        if v[i].0 == key {
            let _ = v.remove(i);
            proof {
                assert forall|a: int, b: int| 0 <= a < b < v@.len() implies key_lt(
                    #[trigger] v@[a].0@,
                    #[trigger] v@[b].0@,
                ) by {
                    let a1 = if a < i { a } else { a + 1 };
                    let b1 = if b < i { b } else { b + 1 };
                    assert(v@[a] == old_v[a1] && v@[b] == old_v[b1]);
                    assert(key_lt(old_v[a1].0@, old_v[b1].0@));
                }
                assert forall|x: Seq<char>| #[trigger] env_lookup(v@, x) == if x == k@ {
                    None
                } else {
                    env_lookup(old_v, x)
                } by {
                    if x == k@ {
                        assert forall|j: int| 0 <= j < v@.len() implies (#[trigger] v@[j]).0@ != x by {
                            let j1 = if j < i { j } else { j + 1 };
                            assert(v@[j] == old_v[j1]);
                            if old_v[j1].0@ == x {
                                lemma_sorted_unique(old_v, j1, i as int);
                            }
                        }
                        lemma_lookup_absent(v@, x);
                    } else if exists|j: int| 0 <= j < old_v.len() && (#[trigger] old_v[j]).0@ == x {
                        let j = choose|j: int| 0 <= j < old_v.len() && (#[trigger] old_v[j]).0@ == x;
                        lemma_lookup_at(old_v, j);
                        if j < i {
                            assert(v@[j] == old_v[j]);
                            lemma_lookup_at(v@, j);
                        } else {
                            assert(j != i);
                            assert(v@[j - 1] == old_v[j]);
                            lemma_lookup_at(v@, j - 1);
                        }
                    } else {
                        assert forall|j: int| 0 <= j < v@.len() implies (#[trigger] v@[j]).0@ != x by {
                            let j1 = if j < i { j } else { j + 1 };
                            assert(v@[j] == old_v[j1]);
                        }
                        lemma_lookup_absent(v@, x);
                        lemma_lookup_absent(old_v, x);
                    }
                }
            }
            return;
        }
        i += 1;
    }
    proof {
        lemma_lookup_absent(old_v, k@);
    }
}

/// Collects assignments into a sorted environment; a later assignment to a
/// key wins.
pub fn env_from(assignments: &Vec<(String, String)>) -> (r: Vec<(String, String)>)
    ensures
        env_sorted(r@),
        forall|x: Seq<char>| #[trigger] env_lookup(r@, x) == last_assignment(assignments@, x),
{
    let mut r: Vec<(String, String)> = Vec::new();
    let mut i: usize = 0;
    while i < assignments.len()
        invariant
            i <= assignments@.len(),
            env_sorted(r@),
            forall|x: Seq<char>| #[trigger] env_lookup(r@, x) == last_assignment(
                assignments@.take(i as int),
                x,
            ),
        decreases assignments@.len() - i,
    {
        let ghost before = r@;
        let (k, val) = (assignments[i].0.clone(), assignments[i].1.clone());
        env_set(&mut r, k, val);
        proof {
            let t = assignments@.take(i + 1);
            assert(t.drop_last() =~= assignments@.take(i as int));
            assert(t.last() == assignments@[i as int]);
            assert forall|x: Seq<char>| #[trigger] env_lookup(r@, x) == last_assignment(t, x) by {
                assert(env_lookup(before, x) == last_assignment(assignments@.take(i as int), x));
            }
        }
        i += 1;
    }
    assert(assignments@.take(i as int) =~= assignments@);
    r
}

fn env_get(v: &Vec<(String, String)>, k: &str) -> (r: Option<String>)
    requires
        env_sorted(v@),
    ensures
        match r {
            Some(s) => env_lookup(v@, k@) == Some(s@),
            None => env_lookup(v@, k@) is None,
        },
{
    let key = k.to_string();
    let mut i: usize = 0;
    while i < v.len()
        invariant
            env_sorted(v@),
            i <= v@.len(),
            key@ == k@,
            forall|j: int| 0 <= j < i ==> (#[trigger] v@[j]).0@ != k@,
        decreases v@.len() - i,
    {
        if v[i].0 == key {
            proof {
                lemma_lookup_at(v@, i as int);
            }
            return Some(v[i].1.clone());
        }
        i += 1;
    }
    proof {
        lemma_lookup_absent(v@, k@);
    }
    None
}

// ---------------------------------------------------------------------------
// The interpreter and the bridge script
// ---------------------------------------------------------------------------

/// Which interpreter runs the bridge script, and the bundled runtime it
/// comes from, if any.
#[derive(Debug, Clone)]
pub struct PythonBridgePaths {
    pub python_bin: String,
    pub entry_script: String,
    pub bundled_runtime_dir: Option<String>,
}

/// A runtime directory that was found, with its interpreter and bridge
/// script and whether both exist.
#[derive(Debug, Clone)]
pub struct RuntimeDirProbe {
    pub dir: String,
    pub python: String,
    pub entry: String,
    pub complete: bool,
}

pub open spec fn complete_dir(p: Option<RuntimeDirProbe>) -> bool {
    p matches Some(d) && d.complete
}

/// Where the bridge comes from, in order: in a development build the
/// repository's virtual environment, when there is one; a complete
/// downloaded runtime pack; a complete bundled runtime; in a release build
/// nothing (markers that no interpreter is bundled); in a development build
/// the system `python3` and the repository's script.
pub fn resolve_python_bridge_paths(
    debug_build: bool,
    dev: Option<(String, String)>,
    runtime_pack: Option<RuntimeDirProbe>,
    bundled: Option<RuntimeDirProbe>,
) -> (r: PythonBridgePaths)
    ensures
        debug_build ==> (dev matches Some((p, e)) ==> r.python_bin == p && r.entry_script == e
            && r.bundled_runtime_dir is None),
        !(debug_build && dev is Some) ==> (runtime_pack matches Some(d) ==> (d.complete ==> r.python_bin
            == d.python && r.entry_script == d.entry && r.bundled_runtime_dir == Some(d.dir))),
        !(debug_build && dev is Some) && !complete_dir(runtime_pack) ==> (bundled matches Some(d) ==> (
        d.complete ==> r.python_bin == d.python && r.entry_script == d.entry && r.bundled_runtime_dir
            == Some(d.dir))),
        !(debug_build && dev is Some) && !complete_dir(runtime_pack) && !complete_dir(bundled)
            ==> r.bundled_runtime_dir is None && if debug_build {
            r.python_bin@ == "python3"@ && r.entry_script@ == "../../python_legacy/bridge_entry.py"@
        } else {
            r.python_bin@ == "__missing_bundled_python__"@ && r.entry_script@
                == "__missing_bundled_bridge_entry__"@
        },
{
    if debug_build {
        if let Some((python, entry)) = dev {
            return PythonBridgePaths { python_bin: python, entry_script: entry, bundled_runtime_dir: None };
        }
    }
    if let Some(p) = runtime_pack {
        if p.complete {
            return PythonBridgePaths { python_bin: p.python, entry_script: p.entry, bundled_runtime_dir: Some(p.dir) };
        }
    }
    if let Some(p) = bundled {
        if p.complete {
            return PythonBridgePaths { python_bin: p.python, entry_script: p.entry, bundled_runtime_dir: Some(p.dir) };
        }
    }
    if !debug_build {
        return PythonBridgePaths {
            python_bin: "__missing_bundled_python__".to_string(),
            entry_script: "__missing_bundled_bridge_entry__".to_string(),
            bundled_runtime_dir: None,
        };
    }
    PythonBridgePaths {
        python_bin: "python3".to_string(),
        entry_script: "../../python_legacy/bridge_entry.py".to_string(),
        bundled_runtime_dir: None,
    }
}

/// `{first}{separator}{rest}`, or just `first` when `rest` is blank.
pub open spec fn prepend_path(first: Seq<char>, rest: Seq<char>, windows: bool) -> Seq<char> {
    if trim(rest).len() == 0 {
        first
    } else {
        first + (if windows { ";"@ } else { ":"@ }) + rest
    }
}

fn prepend(first: &str, rest: &str, windows: bool) -> (r: String)
    ensures
        r@ == prepend_path(first@, rest@, windows),
{
    let t = trim_str(rest);
    if t.as_str().is_empty() {
        first.to_string()
    } else {
        let sep = if windows {
            ";"
        } else {
            ":"
        };
        let a = concat2(first, sep);
        concat2(a.as_str(), rest)
    }
}

/// The environment of the bundled runtime, where `site_packages` is its
/// `site-packages` directory when that exists, and `process_path` the
/// process's own `PATH`.
pub open spec fn runtime_env_value(
    base: Seq<(String, String)>,
    runtime_dir: Option<Seq<char>>,
    site_packages: Option<Seq<char>>,
    process_path: Option<Seq<char>>,
    windows: bool,
    k: Seq<char>,
) -> Option<Seq<char>> {
    match runtime_dir {
        None => last_assignment(base, k),
        Some(dir) => if k == "PATH"@ {
            let existing = match last_assignment(base, "PATH"@) {
                Some(p) => p,
                None => match process_path {
                    Some(p) => p,
                    None => Seq::empty(),
                },
            };
            Some(prepend_path(dir, existing, windows))
        } else if k == "PYTHONPATH"@ && site_packages is Some {
            let existing = match last_assignment(base, "PYTHONPATH"@) {
                Some(p) => p,
                None => Seq::empty(),
            };
            Some(prepend_path(site_packages->0, existing, windows))
        } else {
            last_assignment(base, k)
        },
    }
}

/// Merges the bridge's environment: the assignments in key order (a later
/// one wins); with a bundled runtime, its `site-packages` put first on
/// `PYTHONPATH` when it exists, and the runtime directory first on `PATH`.
pub fn with_python_runtime_env(
    base_env: &Vec<(String, String)>,
    runtime_dir: Option<&str>,
    site_packages: Option<&str>,
    process_path: Option<&str>,
    windows: bool,
) -> (r: Vec<(String, String)>)
    ensures
        env_sorted(r@),
        forall|x: Seq<char>| #[trigger] env_lookup(r@, x) == runtime_env_value(
            base_env@,
            match runtime_dir {
                Some(d) => Some(d@),
                None => None,
            },
            match site_packages {
                Some(s) => Some(s@),
                None => None,
            },
            match process_path {
                Some(p) => Some(p@),
                None => None,
            },
            windows,
            x,
        ),
{
    let mut merged = env_from(base_env);
    let ghost base = merged@;
    if let Some(dir) = runtime_dir {
        if let Some(sp) = site_packages {
            let existing = match env_get(&merged, "PYTHONPATH") {
                Some(e) => e,
                None => String::new(),
            };
            let value = prepend(sp, existing.as_str(), windows);
            env_set(&mut merged, "PYTHONPATH".to_string(), value);
        }
        let ghost after_pythonpath = merged@;
        let existing_path = match env_get(&merged, "PATH") {
            Some(p) => p,
            None => match process_path {
                Some(p) => p.to_string(),
                None => String::new(),
            },
        };
        proof {
            reveal_strlit("PATH");
            reveal_strlit("PYTHONPATH");
            assert("PATH"@.len() != "PYTHONPATH"@.len());
            assert(env_lookup(after_pythonpath, "PATH"@) == env_lookup(base, "PATH"@));
        }
        let value = prepend(dir, existing_path.as_str(), windows);
        env_set(&mut merged, "PATH".to_string(), value);
        proof {
            reveal_strlit("PATH");
            reveal_strlit("PYTHONPATH");
        }
    }
    merged
}

// ---------------------------------------------------------------------------
// Invoking the interpreter
// ---------------------------------------------------------------------------

/// A call of the interpreter: the bridge script run with the environment,
/// the JSON request on its standard input, under a time limit. The
/// environment holds secrets, so the type has no `Debug`; [`env_keys`]
/// gives what may be shown of it.
#[derive(Clone)]
pub struct PythonInvokeRequest {
    pub python_bin: String,
    pub entry_script: String,
    pub env: Vec<(String, String)>,
    pub stdin_json: Vec<u8>,
    pub timeout_ms: u64,
}

/// The names of an environment, in order, without their values.
pub fn env_keys(env: &Vec<(String, String)>) -> (r: Vec<String>)
    ensures
        r@.len() == env@.len(),
        forall|i: int| 0 <= i < env@.len() ==> (#[trigger] r@[i])@ == env@[i].0@,
{
    let mut r: Vec<String> = Vec::new();
    let mut i: usize = 0;
    while i < env.len()
        invariant
            i <= env@.len(),
            r@.len() == i,
            forall|k: int| 0 <= k < i ==> (#[trigger] r@[k])@ == env@[k].0@,
        decreases env@.len() - i,
    {
        r.push(env[i].0.clone());
        i += 1;
    }
    r
}

/// The process that runs a call: the interpreter with the script as its
/// one argument.
pub fn python_process_spec(req: PythonInvokeRequest) -> (r: ProcessSpec)
    ensures
        r.program == req.python_bin,
        r.args@ == seq![req.entry_script],
        r.env == req.env,
        r.stdin_bytes == req.stdin_json,
        r.timeout_ms == req.timeout_ms,
{
    let mut args: Vec<String> = Vec::new();
    args.push(req.entry_script);
    ProcessSpec {
        program: req.python_bin,
        args,
        env: req.env,
        stdin_bytes: req.stdin_json,
        timeout_ms: req.timeout_ms,
    }
}

} // verus!
