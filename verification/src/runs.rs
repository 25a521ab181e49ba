//! The generation runs under way, by id, each with whether it was asked to
//! stop: a run registers when it starts, is flagged when cancelled, and
//! leaves when it ends.

use vstd::prelude::*;
use crate::generate::{fallback_run_id, normalized_run_id, CancelGenerateArgs};
use crate::text::{dec, digit_char, is_ws, trim, trim_end, trim_start, trim_str};

verus! {

/// The registry as a map from run id to whether the run was cancelled,
/// later entries winning.
pub open spec fn runs_map(s: Seq<(String, bool)>) -> Map<Seq<char>, bool>
    decreases s.len(),
{
    if s.len() == 0 {
        Map::empty()
    } else {
        runs_map(s.drop_last()).insert(s.last().0@, s.last().1)
    }
}

/// No run id occurs twice.
pub open spec fn unique_ids(s: Seq<(String, bool)>) -> bool {
    forall|i: int, j: int| 0 <= i < j < s.len() ==> (#[trigger] s[i]).0@ != (#[trigger] s[j]).0@
}

proof fn lemma_runs_map_absent(s: Seq<(String, bool)>, k: Seq<char>)
    requires
        forall|i: int| 0 <= i < s.len() ==> (#[trigger] s[i]).0@ != k,
    ensures
        !runs_map(s).contains_key(k),
    decreases s.len(),
{
    if s.len() > 0 {
        lemma_runs_map_absent(s.drop_last(), k);
    }
}

proof fn lemma_runs_map_lookup(s: Seq<(String, bool)>, i: int)
    requires
        unique_ids(s),
        0 <= i < s.len(),
    ensures
        runs_map(s).contains_key(s[i].0@),
        runs_map(s)[s[i].0@] == s[i].1,
    decreases s.len(),
{
    if i < s.len() - 1 {
        let d = s.drop_last();
        assert(d[i] == s[i]);
        assert(s.last() == s[s.len() - 1]);
        lemma_runs_map_lookup(d, i);
    }
}

proof fn lemma_runs_map_update(s: Seq<(String, bool)>, i: int, e: (String, bool))
    requires
        unique_ids(s),
        0 <= i < s.len(),
        e.0@ == s[i].0@,
    ensures
        runs_map(s.update(i, e)) =~= runs_map(s).insert(e.0@, e.1),
    decreases s.len(),
{
    let u = s.update(i, e);
    let d = s.drop_last();
    if i == s.len() - 1 {
        assert(u.drop_last() =~= d);
    } else {
        assert(u.drop_last() =~= d.update(i, e));
        assert(s.last() == s[s.len() - 1]);
        assert(u.last() == s.last());
        assert(d[i] == s[i]);
        lemma_runs_map_update(d, i, e);
    }
}

proof fn lemma_runs_map_remove(s: Seq<(String, bool)>, i: int)
    requires
        unique_ids(s),
        0 <= i < s.len(),
    ensures
        runs_map(s.remove(i)) =~= runs_map(s).remove(s[i].0@),
    decreases s.len(),
{
    let r = s.remove(i);
    let d = s.drop_last();
    if i == s.len() - 1 {
        assert(r =~= d);
        assert forall|j: int| 0 <= j < d.len() implies (#[trigger] d[j]).0@ != s[i].0@ by {
            assert(d[j] == s[j]);
        }
        lemma_runs_map_absent(d, s[i].0@);
    } else {
        assert(r.drop_last() =~= d.remove(i));
        assert(s.last() == s[s.len() - 1]);
        assert(r.last() == s.last());
        assert(d[i] == s[i]);
        lemma_runs_map_remove(d, i);
    }
}

/// The runs under way.
pub struct RunRegistry {
    runs: Vec<(String, bool)>,
}

impl View for RunRegistry {
    type V = Map<Seq<char>, bool>;

    closed spec fn view(&self) -> Map<Seq<char>, bool> {
        runs_map(self.runs@)
    }
}

impl RunRegistry {
    #[verifier::type_invariant]
    closed spec fn ids_unique(self) -> bool {
        unique_ids(self.runs@)
    }

    /// No run under way.
    pub fn new() -> (r: Self)
        ensures
            r@ == Map::<Seq<char>, bool>::empty(),
    {
        RunRegistry { runs: Vec::new() }
    }

    /// Where a run id is kept, if it is.
    fn position(&self, run_id: &str) -> (r: Option<usize>)
        ensures
            match r {
                Some(i) => i < self.runs@.len() && self.runs@[i as int].0@ == run_id@,
                None => forall|i: int| 0 <= i < self.runs@.len() ==> (#[trigger] self.runs@[i]).0@ != run_id@,
            },
    {
        let target = run_id.to_string();
        let mut i: usize = 0;
        while i < self.runs.len()
            invariant
                target@ == run_id@,
                i <= self.runs@.len(),
                forall|k: int| 0 <= k < i ==> (#[trigger] self.runs@[k]).0@ != run_id@,
            decreases self.runs@.len() - i,
        {
            if self.runs[i].0 == target {
                return Some(i);
            }
            i += 1;
        }
        None
    }

    /// Whether a run is under way.
    pub fn is_registered(&self, run_id: &str) -> (b: bool)
        ensures
            b == self@.contains_key(run_id@),
    {
        proof {
            use_type_invariant(self);
        }
        match self.position(run_id) {
            Some(i) => {
                proof {
                    lemma_runs_map_lookup(self.runs@, i as int);
                }
                true
            },
            None => {
                proof {
                    lemma_runs_map_absent(self.runs@, run_id@);
                }
                false
            },
        }
    }

    /// Whether a run under way was asked to stop; false for an unknown id.
    pub fn is_cancelled(&self, run_id: &str) -> (b: bool)
        ensures
            b == (self@.contains_key(run_id@) && self@[run_id@]),
    {
        proof {
            use_type_invariant(self);
        }
        match self.position(run_id) {
            Some(i) => {
                proof {
                    lemma_runs_map_lookup(self.runs@, i as int);
                }
                self.runs[i].1
            },
            None => {
                proof {
                    lemma_runs_map_absent(self.runs@, run_id@);
                }
                false
            },
        }
    }

    /// Starts tracking a run, not cancelled; a run already kept under the
    /// same id starts over.
    pub fn register_run(&mut self, run_id: &str)
        ensures
            final(self)@ == old(self)@.insert(run_id@, false),
    {
        proof {
            use_type_invariant(&*self);
        }
        let entry = (run_id.to_string(), false);
        match self.position(run_id) {
            Some(i) => {
                let ghost before = self.runs@;
                proof {
                    lemma_runs_map_update(before, i as int, entry);
                    assert forall|a: int, b: int| 0 <= a < b < before.update(i as int, entry).len() implies
                        (#[trigger] before.update(i as int, entry)[a]).0@
                        != (#[trigger] before.update(i as int, entry)[b]).0@ by {
                        assert(before[a] == before.update(i as int, entry)[a] || a == i);
                        assert(before[b] == before.update(i as int, entry)[b] || b == i);
                    }
                }
                let mut runs = Vec::new();
                std::mem::swap(&mut runs, &mut self.runs);
                runs.set(i, entry);
                self.runs = runs;
            },
            None => {
                let ghost before = self.runs@;
                let mut runs = Vec::new();
                std::mem::swap(&mut runs, &mut self.runs);
                runs.push(entry);
                proof {
                    assert(runs@.drop_last() =~= before);
                    assert forall|a: int, b: int| 0 <= a < b < runs@.len() implies
                        (#[trigger] runs@[a]).0@ != (#[trigger] runs@[b]).0@ by {
                        if b < before.len() {
                            assert(runs@[a] == before[a]);
                            assert(runs@[b] == before[b]);
                        } else {
                            assert(runs@[a] == before[a]);
                        }
                    }
                }
                self.runs = runs;
            },
        }
    }

    /// Stops tracking a run; an unknown id changes nothing.
    pub fn unregister_run(&mut self, run_id: &str)
        ensures
            final(self)@ == old(self)@.remove(run_id@),
    {
        proof {
            use_type_invariant(&*self);
        }
        match self.position(run_id) {
            Some(i) => {
                let ghost before = self.runs@;
                proof {
                    lemma_runs_map_remove(before, i as int);
                    assert forall|a: int, b: int| 0 <= a < b < before.remove(i as int).len() implies
                        (#[trigger] before.remove(i as int)[a]).0@
                        != (#[trigger] before.remove(i as int)[b]).0@ by {
                        let r = before.remove(i as int);
                        let a0 = if a < i { a } else { a + 1 };
                        let b0 = if b < i { b } else { b + 1 };
                        assert(r[a] == before[a0]);
                        assert(r[b] == before[b0]);
                    }
                }
                let mut runs = Vec::new();
                std::mem::swap(&mut runs, &mut self.runs);
                runs.remove(i);
                self.runs = runs;
            },
            None => {
                proof {
                    lemma_runs_map_absent(self.runs@, run_id@);
                    assert(self@.remove(run_id@) =~= self@);
                }
            },
        }
    }

    /// Asks a run to stop: true when it is under way, and then it is
    /// flagged; an unknown id changes nothing.
    pub fn cancel_run(&mut self, run_id: &str) -> (found: bool)
        ensures
            found == old(self)@.contains_key(run_id@),
            found ==> final(self)@ == old(self)@.insert(run_id@, true),
            !found ==> final(self)@ == old(self)@,
    {
        proof {
            use_type_invariant(&*self);
        }
        match self.position(run_id) {
            Some(i) => {
                let ghost before = self.runs@;
                let entry = (self.runs[i].0.clone(), true);
                proof {
                    lemma_runs_map_lookup(before, i as int);
                    lemma_runs_map_update(before, i as int, entry);
                    assert forall|a: int, b: int| 0 <= a < b < before.update(i as int, entry).len() implies
                        (#[trigger] before.update(i as int, entry)[a]).0@
                        != (#[trigger] before.update(i as int, entry)[b]).0@ by {
                        assert(before[a] == before.update(i as int, entry)[a] || a == i);
                        assert(before[b] == before.update(i as int, entry)[b] || b == i);
                    }
                }
                let mut runs = Vec::new();
                std::mem::swap(&mut runs, &mut self.runs);
                runs.set(i, entry);
                self.runs = runs;
                true
            },
            None => {
                proof {
                    lemma_runs_map_absent(self.runs@, run_id@);
                }
                false
            },
        }
    }

    /// The cancel command: the id is trimmed, then the run asked to stop.
    pub fn cancel_generate_run(&mut self, args: &CancelGenerateArgs) -> (found: bool)
        ensures
            found == old(self)@.contains_key(trim(args.run_id@)),
            found ==> final(self)@ == old(self)@.insert(trim(args.run_id@), true),
            !found ==> final(self)@ == old(self)@,
    {
        let id = trim_str(args.run_id.as_str());
        self.cancel_run(id.as_str())
    }
}

/// A run that registered is found by a cancel, reads as cancelled until it
/// leaves, and leaving forgets it while every other run stays as it was.
pub proof fn law_registered_run_can_be_cancelled(runs: Map<Seq<char>, bool>, run_id: Seq<char>)
    ensures
        runs.insert(run_id, false).contains_key(run_id),
        runs.insert(run_id, false)[run_id] == false,
        runs.insert(run_id, false).insert(run_id, true)[run_id] == true,
        !runs.insert(run_id, false).insert(run_id, true).remove(run_id).contains_key(run_id),
        runs.insert(run_id, false).insert(run_id, true).remove(run_id) == runs.remove(run_id),
{
    assert(runs.insert(run_id, false).insert(run_id, true).remove(run_id) =~= runs.remove(run_id));
}

// ---------------------------------------------------------------------------
// Run ids survive the cancel command's trimming
// ---------------------------------------------------------------------------

proof fn lemma_trim_start_head(s: Seq<char>)
    ensures
        trim_start(s).len() > 0 ==> !is_ws(trim_start(s)[0]),
    decreases s.len(),
{
    if s.len() > 0 && is_ws(s[0]) {
        lemma_trim_start_head(s.drop_first());
    }
}

proof fn lemma_trim_end_prefix(s: Seq<char>)
    ensures
        trim_end(s).len() <= s.len(),
        trim_end(s) =~= s.take(trim_end(s).len() as int),
        trim_end(s).len() > 0 ==> !is_ws(trim_end(s).last()),
    decreases s.len(),
{
    if s.len() > 0 && is_ws(s.last()) {
        lemma_trim_end_prefix(s.drop_last());
        assert(s.drop_last().take(trim_end(s).len() as int) =~= s.take(trim_end(s).len() as int));
    }
}

/// Text with no whitespace at either end is its own trim.
proof fn lemma_trim_fixed(u: Seq<char>)
    requires
        u.len() > 0 ==> !is_ws(u[0]) && !is_ws(u.last()),
    ensures
        trim(u) == u,
{
}

/// Trimming twice is trimming once.
pub proof fn lemma_trim_idempotent(s: Seq<char>)
    ensures
        trim(trim(s)) == trim(s),
{
    let ts = trim_start(s);
    lemma_trim_start_head(s);
    lemma_trim_end_prefix(ts);
    let t = trim(s);
    if t.len() > 0 {
        assert(t[0] == ts[0]);
    }
    lemma_trim_fixed(t);
}

proof fn lemma_dec_last(n: nat)
    ensures
        dec(n).len() > 0,
        dec(n).last() == digit_char(n % 10),
    decreases n,
{
}

/// The id a run reports is found again by the cancel command, which trims
/// what it is given: a run id is its own trim.
pub proof fn law_reported_run_id_survives_trimming(value: Option<Seq<char>>, now_ms: u64, process_id: u32)
    ensures
        trim(normalized_run_id(value, now_ms, process_id)) == normalized_run_id(value, now_ms, process_id),
{
    match value {
        Some(v) => {
            if trim(v).len() > 0 {
                lemma_trim_idempotent(v);
                return;
            }
        },
        None => {},
    }
    let f = fallback_run_id(now_ms, process_id);
    lemma_dec_last(process_id as nat);
    reveal_strlit("run-");
    reveal_strlit("-");
    assert(f[0] == 'r');
    assert(f.last() == dec(process_id as nat).last());
    lemma_trim_fixed(f);
}

} // verus!
