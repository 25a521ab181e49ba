//! Saved API keys: several named keys per provider, one of them active.
//!
//! Only metadata is kept here; the keys themselves live in the secure
//! store, which the caller reads and writes as each function says.

use vstd::prelude::*;
use crate::hex::{hex_lower, sha256_digest, sha256_hex};
use crate::python_runtime::{env_lookup, env_remove, env_set, env_sorted};
use crate::text::{chars_of, is_ws, trim_end, trim_start, concat2, lower_chars, lower_seq, slice_chars, string_of, trim, trim_chars, trim_str, u64_to_string, dec};
use vstd::string::StringSliceAdditionalSpecFns;

verus! {

/// The providers whose keys can be saved.
pub open spec fn provider_of(raw: Seq<char>) -> Option<Seq<char>> {
    let p = lower_seq(trim(raw));
    if p == "muapi"@ {
        Some("muapi"@)
    } else if p == "openai"@ {
        Some("openai"@)
    } else {
        None
    }
}

/// The provider named by `provider` (trimmed, any letter case).
pub fn normalize_api_provider(provider: &str) -> (r: Result<&'static str, String>)
    ensures
        match provider_of(provider@) {
            Some(p) => r matches Ok(x) && x@ == p,
            None => r matches Err(e) && e@ == "unsupported API key provider"@,
        },
{
    let v = chars_of(provider);
    let t = trim_chars(&v);
    let l = lower_chars(&t);
    let s = string_of(l.as_slice());
    let muapi = "muapi".to_string();
    let openai = "openai".to_string();
    if s == muapi {
        Ok("muapi")
    } else if s == openai {
        Ok("openai")
    } else {
        Err("unsupported API key provider".to_string())
    }
}

/// The secure-store entry the application reads a provider's key from.
pub fn legacy_api_key_name(provider: &str) -> (r: Result<&'static str, String>)
    ensures
        match provider_of(provider@) {
            Some(p) => r matches Ok(x) && x@ == if p == "muapi"@ { "MUAPI_API_KEY"@ } else { "OPENAI_API_KEY"@ },
            None => r matches Err(e) && e@ == "unsupported API key provider"@,
        },
{
    match normalize_api_provider(provider) {
        Ok(p) => {
            let muapi = "muapi".to_string();
            if p.to_string() == muapi {
                Ok("MUAPI_API_KEY")
            } else {
                Ok("OPENAI_API_KEY")
            }
        },
        Err(e) => Err(e),
    }
}

/// The name given to a key taken over from before profiles existed.
pub fn default_api_profile_label(provider: &str) -> (r: Result<&'static str, String>)
    ensures
        match provider_of(provider@) {
            Some(p) => r matches Ok(x) && x@ == if p == "muapi"@ { "Current MuAPI key"@ } else { "Current OpenAI key"@ },
            None => r matches Err(e) && e@ == "unsupported API key provider"@,
        },
{
    match normalize_api_provider(provider) {
        Ok(p) => {
            let muapi = "muapi".to_string();
            if p.to_string() == muapi {
                Ok("Current MuAPI key")
            } else {
                Ok("Current OpenAI key")
            }
        },
        Err(e) => Err(e),
    }
}

/// `API_KEY_PROFILE_{PROVIDER}_{id}`: where a profile's key is stored.
pub open spec fn profile_secret_key(provider: Seq<char>, profile_id: Seq<char>) -> Seq<char> {
    "API_KEY_PROFILE_"@ + (if provider == "muapi"@ { "MUAPI"@ } else { "OPENAI"@ }) + "_"@ + profile_id
}

pub fn api_profile_secret_key(provider: &str, profile_id: &str) -> (r: Result<String, String>)
    ensures
        match provider_of(provider@) {
            Some(p) => r matches Ok(x) && x@ == profile_secret_key(p, profile_id@),
            None => r matches Err(e) && e@ == "unsupported API key provider"@,
        },
{
    match normalize_api_provider(provider) {
        Ok(p) => Ok(secret_key_for(p, profile_id)),
        Err(e) => Err(e),
    }
}

fn secret_key_for(provider: &str, profile_id: &str) -> (r: String)
    ensures
        r@ == profile_secret_key(provider@, profile_id@),
{
    let muapi = "muapi".to_string();
    let upper = if provider.to_string() == muapi {
        "MUAPI"
    } else {
        "OPENAI"
    };
    let a = concat2("API_KEY_PROFILE_", upper);
    let b = concat2(a.as_str(), "_");
    concat2(b.as_str(), profile_id)
}

/// The last four characters of a key (all of it when shorter).
pub open spec fn last_four(s: Seq<char>) -> Seq<char> {
    if s.len() <= 4 {
        s
    } else {
        s.skip(s.len() - 4)
    }
}

pub fn key_last_four(value: &str) -> (r: String)
    ensures
        r@ == last_four(value@),
{
    let v = chars_of(value);
    let from = if v.len() <= 4 {
        0
    } else {
        v.len() - 4
    };
    let t = slice_chars(&v, from, v.len());
    proof {
        if v@.len() <= 4 {
            assert(t@ =~= v@);
        } else {
            assert(t@ =~= v@.skip(v@.len() - 4));
        }
    }
    string_of(t.as_slice())
}

/// The id of a new profile: the first 16 hex digits of the SHA-256 of
/// `{provider}:{label}:{key}:{created}`.
pub open spec fn profile_id_of(provider: Seq<char>, label: Seq<char>, key: Seq<char>, created_at_ms: u64) -> Seq<char> {
    hex_lower(
        sha256_digest(
            vstd::utf8::encode_utf8(provider + ":"@ + label + ":"@ + key + ":"@ + dec(created_at_ms as nat)),
        ),
    ).take(16)
}

pub fn create_api_profile_id(provider: &str, label: &str, key: &str, created_at_ms: u64) -> (r: String)
    ensures
        r@ == profile_id_of(provider@, label@, key@, created_at_ms),
{
    let a = concat2(provider, ":");
    let b = concat2(a.as_str(), label);
    let c = concat2(b.as_str(), ":");
    let d = concat2(c.as_str(), key);
    let e = concat2(d.as_str(), ":");
    let seed = concat2(e.as_str(), u64_to_string(created_at_ms).as_str());
    let digest = sha256_hex(seed.as_str().as_bytes());
    let h = chars_of(digest.as_str());
    let t = slice_chars(&h, 0, 16);
    assert(t@ =~= h@.take(16));
    string_of(t.as_slice())
}

// ---------------------------------------------------------------------------
// The store
// ---------------------------------------------------------------------------

/// A saved key's metadata.
#[derive(Debug, Clone)]
pub struct ApiKeyProfileRecord {
    pub id: String,
    pub provider: String,
    pub label: String,
    pub last_four: String,
    pub created_at_ms: u64,
    pub updated_at_ms: u64,
}

impl ApiKeyProfileRecord {
    /// A field-for-field copy.
    pub fn duplicate(&self) -> (r: Self)
        ensures
            r == *self,
    {
        ApiKeyProfileRecord {
            id: self.id.clone(),
            provider: self.provider.clone(),
            label: self.label.clone(),
            last_four: self.last_four.clone(),
            created_at_ms: self.created_at_ms,
            updated_at_ms: self.updated_at_ms,
        }
    }
}

/// All saved keys, and the active key's id for each provider (in provider
/// order).
#[derive(Debug, Clone)]
pub struct ApiKeyProfileStore {
    pub profiles: Vec<ApiKeyProfileRecord>,
    pub active: Vec<(String, String)>,
}

pub open spec fn is_profile(r: ApiKeyProfileRecord, provider: Seq<char>, id: Seq<char>) -> bool {
    r.provider@ == provider && r.id@ == id
}

pub open spec fn has_profile(ps: Seq<ApiKeyProfileRecord>, provider: Seq<char>, id: Seq<char>) -> bool {
    exists|i: int| 0 <= i < ps.len() && is_profile(#[trigger] ps[i], provider, id)
}

/// A store is consistent when its active entries are in provider order and
/// each names a saved key of its provider.
pub open spec fn store_consistent(s: ApiKeyProfileStore) -> bool {
    &&& env_sorted(s.active@)
    &&& forall|p: Seq<char>|
        #[trigger] env_lookup(s.active@, p) matches Some(id) ==> has_profile(s.profiles@, p, id)
}

impl ApiKeyProfileStore {
    pub fn new() -> (r: Self)
        ensures
            r.profiles@.len() == 0,
            r.active@.len() == 0,
            store_consistent(r),
    {
        ApiKeyProfileStore { profiles: Vec::new(), active: Vec::new() }
    }
}

pub open spec fn provider_has_profiles(ps: Seq<ApiKeyProfileRecord>, provider: Seq<char>) -> bool {
    exists|i: int| 0 <= i < ps.len() && (#[trigger] ps[i]).provider@ == provider
}

pub fn api_provider_has_profiles(store: &ApiKeyProfileStore, provider: &str) -> (b: bool)
    ensures
        b == provider_has_profiles(store.profiles@, provider@),
{
    let p = provider.to_string();
    let mut i: usize = 0;
    while i < store.profiles.len()
        invariant
            i <= store.profiles@.len(),
            p@ == provider@,
            forall|k: int| 0 <= k < i ==> (#[trigger] store.profiles@[k]).provider@ != provider@,
        decreases store.profiles@.len() - i,
    {
        if store.profiles[i].provider == p {
            return true;
        }
        i += 1;
    }
    false
}

fn active_of(store: &ApiKeyProfileStore, provider: &str) -> (r: Option<String>)
    requires
        env_sorted(store.active@),
    ensures
        match r {
            Some(s) => env_lookup(store.active@, provider@) == Some(s@),
            None => env_lookup(store.active@, provider@) is None,
        },
{
    let p = provider.to_string();
    let mut i: usize = 0;
    while i < store.active.len()
        invariant
            i <= store.active@.len(),
            env_sorted(store.active@),
            p@ == provider@,
            forall|k: int| 0 <= k < i ==> (#[trigger] store.active@[k]).0@ != provider@,
        decreases store.active@.len() - i,
    {
        if store.active[i].0 == p {
            proof {
                crate::python_runtime::lemma_lookup_at(store.active@, i as int);
            }
            return Some(store.active[i].1.clone());
        }
        i += 1;
    }
    proof {
        crate::python_runtime::lemma_lookup_absent(store.active@, provider@);
    }
    None
}

/// What adding a key will save: the trimmed name and key, the new id and
/// where the key goes in the secure store.
#[derive(Debug, Clone)]
pub struct ProfileAddition {
    pub provider: String,
    pub label: String,
    pub key: String,
    pub id: String,
    pub secret_key: String,
    pub created_at_ms: u64,
}

/// Checks a new key: the provider must be known, and the name and the key
/// must not be blank once trimmed.
pub fn plan_profile_addition(provider: &str, label: &str, key: &str, now_ms: u64) -> (r: Result<ProfileAddition, String>)
    ensures
        provider_of(provider@) is None ==> (r matches Err(e) && e@ == "unsupported API key provider"@),
        provider_of(provider@) is Some && trim(label@).len() == 0 ==> (r matches Err(e) && e@
            == "profile name is required"@),
        provider_of(provider@) is Some && trim(label@).len() > 0 && trim(key@).len() == 0 ==> (
        r matches Err(e) && e@ == "API key is required"@),
        provider_of(provider@) matches Some(p) ==> (trim(label@).len() > 0 && trim(key@).len() > 0
            ==> (r matches Ok(a) && a.provider@ == p && a.label@ == trim(label@) && a.key@ == trim(key@)
            && a.id@ == profile_id_of(p, trim(label@), trim(key@), now_ms) && a.secret_key@
            == profile_secret_key(p, a.id@) && a.created_at_ms == now_ms)),
{
    let p = match normalize_api_provider(provider) {
        Ok(p) => p,
        Err(e) => return Err(e),
    };
    let l = trim_str(label);
    let k = trim_str(key);
    if l.as_str().is_empty() {
        return Err("profile name is required".to_string());
    }
    if k.as_str().is_empty() {
        return Err("API key is required".to_string());
    }
    let id = create_api_profile_id(p, l.as_str(), k.as_str(), now_ms);
    let secret_key = secret_key_for(p, id.as_str());
    Ok(ProfileAddition { provider: p.to_string(), label: l, key: k, id, secret_key, created_at_ms: now_ms })
}

/// Records a new key (whose secret the caller has saved): it becomes the
/// provider's active key when asked, or when the provider had none.
pub fn apply_profile_addition(store: &mut ApiKeyProfileStore, a: &ProfileAddition, activate: bool)
    requires
        env_sorted(old(store).active@),
    ensures
        env_sorted(final(store).active@),
        store_consistent(*old(store)) ==> store_consistent(*final(store)),
        final(store).profiles@ == old(store).profiles@.push(
            ApiKeyProfileRecord {
                id: a.id,
                provider: a.provider,
                label: a.label,
                last_four: final(store).profiles@.last().last_four,
                created_at_ms: a.created_at_ms,
                updated_at_ms: a.created_at_ms,
            },
        ),
        final(store).profiles@.last().last_four@ == last_four(a.key@),
        (activate || env_lookup(old(store).active@, a.provider@) is None) ==> env_lookup(
            final(store).active@,
            a.provider@,
        ) == Some(a.id@),
        forall|p: Seq<char>|
            p != a.provider@ || !(activate || env_lookup(old(store).active@, a.provider@) is None)
                ==> #[trigger] env_lookup(final(store).active@, p) == env_lookup(old(store).active@, p),
{
    let had_active = active_of(store, a.provider.as_str()).is_some();
    let ghost consistent = store_consistent(*store);
    let ghost before = store.profiles@;
    let record = ApiKeyProfileRecord {
        id: a.id.clone(),
        provider: a.provider.clone(),
        label: a.label.clone(),
        last_four: key_last_four(a.key.as_str()),
        created_at_ms: a.created_at_ms,
        updated_at_ms: a.created_at_ms,
    };
    store.profiles.push(record);
    let ghost n = store.profiles@.len() - 1;
    assert(is_profile(store.profiles@[n], a.provider@, a.id@));
    proof {
        if consistent {
            assert forall|p: Seq<char>|
                #[trigger] env_lookup(store.active@, p) is Some implies has_profile(store.profiles@, p, env_lookup(store.active@, p)->0) by {
                let id = env_lookup(store.active@, p)->0;
                assert(has_profile(before, p, id));
                let i = choose|i: int| 0 <= i < before.len() && is_profile(#[trigger] before[i], p, id);
                assert(store.profiles@[i] == before[i]);
            }
        }
    }
    if activate || !had_active {
        let ghost mid = *store;
        env_set(&mut store.active, a.provider.clone(), a.id.clone());
        proof {
            if consistent {
                assert(store_consistent(mid));
                assert forall|p: Seq<char>|
                    #[trigger] env_lookup(store.active@, p) is Some implies has_profile(store.profiles@, p, env_lookup(store.active@, p)->0) by {
                    if p == a.provider@ {
                        assert(is_profile(store.profiles@[n], p, a.id@));
                    } else {
                        assert(env_lookup(mid.active@, p) == env_lookup(store.active@, p));
                    }
                }
            }
        }
    }
}

/// Makes a saved key of the provider the active one.
pub fn activate_profile(store: &mut ApiKeyProfileStore, provider: &str, profile_id: &str) -> (r: Result<(), String>)
    requires
        env_sorted(old(store).active@),
    ensures
        env_sorted(final(store).active@),
        store_consistent(*old(store)) ==> store_consistent(*final(store)),
        final(store).profiles == old(store).profiles,
        has_profile(old(store).profiles@, provider@, trim(profile_id@)) ==> (r is Ok && env_lookup(
            final(store).active@,
            provider@,
        ) == Some(trim(profile_id@)) && forall|p: Seq<char>|
            p != provider@ ==> #[trigger] env_lookup(final(store).active@, p) == env_lookup(
                old(store).active@,
                p,
            )),
        !has_profile(old(store).profiles@, provider@, trim(profile_id@)) ==> (r matches Err(e) && e@
            == "API key profile not found"@ && final(store).active == old(store).active),
{
    let id = trim_str(profile_id);
    let p = provider.to_string();
    let mut i: usize = 0;
    let mut found = false;
    while i < store.profiles.len()
        invariant
            i <= store.profiles@.len(),
            p@ == provider@,
            found <==> exists|k: int| 0 <= k < i && is_profile(#[trigger] store.profiles@[k], provider@, id@),
        decreases store.profiles@.len() - i,
    {
        if store.profiles[i].provider == p && store.profiles[i].id == id {
            found = true;
        }
        i += 1;
    }
    if !found {
        return Err("API key profile not found".to_string());
    }
    let ghost before = *store;
    env_set(&mut store.active, p, id);
    proof {
        if store_consistent(before) {
            assert forall|q: Seq<char>|
                #[trigger] env_lookup(store.active@, q) is Some implies has_profile(store.profiles@, q, env_lookup(store.active@, q)->0) by {
                if q != provider@ {
                    assert(env_lookup(before.active@, q) == env_lookup(store.active@, q));
                }
            }
        }
    }
    Ok(())
}

/// The provider's newest key: the latest created (the last such when
/// several were created at the same time).
pub open spec fn is_newest(ps: Seq<ApiKeyProfileRecord>, provider: Seq<char>, j: int) -> bool {
    &&& 0 <= j < ps.len()
    &&& ps[j].provider@ == provider
    &&& forall|k: int|
        0 <= k < ps.len() && (#[trigger] ps[k]).provider@ == provider ==> ps[k].created_at_ms
            < ps[j].created_at_ms || (ps[k].created_at_ms == ps[j].created_at_ms && k <= j)
}

/// `ps` without the provider's profiles with the id.
pub open spec fn without_profile(ps: Seq<ApiKeyProfileRecord>, provider: Seq<char>, id: Seq<char>) -> Seq<ApiKeyProfileRecord>
    decreases ps.len(),
{
    if ps.len() == 0 {
        ps
    } else {
        let rest = without_profile(ps.drop_last(), provider, id);
        if is_profile(ps.last(), provider, id) {
            rest
        } else {
            rest.push(ps.last())
        }
    }
}

proof fn lemma_without_keeps(ps: Seq<ApiKeyProfileRecord>, provider: Seq<char>, id: Seq<char>, q: Seq<char>, x: Seq<char>)
    requires
        has_profile(ps, q, x),
        !(q == provider && x == id),
    ensures
        has_profile(without_profile(ps, provider, id), q, x),
    decreases ps.len(),
{
    let rest = without_profile(ps.drop_last(), provider, id);
    if is_profile(ps.last(), q, x) {
        let w = without_profile(ps, provider, id);
        assert(w == rest.push(ps.last()));
        assert(is_profile(w[w.len() - 1], q, x));
    } else {
        let i = choose|i: int| 0 <= i < ps.len() && is_profile(#[trigger] ps[i], q, x);
        assert(i < ps.len() - 1);
        assert(ps.drop_last()[i] == ps[i]);
        lemma_without_keeps(ps.drop_last(), provider, id, q, x);
        let j = choose|j: int| 0 <= j < rest.len() && is_profile(#[trigger] rest[j], q, x);
        let w = without_profile(ps, provider, id);
        if !is_profile(ps.last(), provider, id) {
            assert(w[j] == rest[j]);
        }
    }
}

/// Deletes one of the provider's keys. When it was the active one, the
/// provider's newest remaining key becomes active, or none. Gives where the
/// deleted key was stored, for the caller to remove it.
fn delete_provider_profile(store: &mut ApiKeyProfileStore, provider: &str, profile_id: &str) -> (r: Result<String, String>)
    requires
        env_sorted(old(store).active@),
        provider_of(provider@) == Some(provider@),
    ensures
        env_sorted(final(store).active@),
        store_consistent(*old(store)) ==> store_consistent(*final(store)),
        !has_profile(old(store).profiles@, provider@, trim(profile_id@)) ==> (r matches Err(e) && e@
            == "API key profile not found"@ && final(store).profiles@ == old(store).profiles@
            && final(store).active == old(store).active),
        has_profile(old(store).profiles@, provider@, trim(profile_id@)) ==> (r matches Ok(k) && k@
            == profile_secret_key(provider@, trim(profile_id@)) && final(store).profiles@ == without_profile(
            old(store).profiles@,
            provider@,
            trim(profile_id@),
        )),
        has_profile(old(store).profiles@, provider@, trim(profile_id@)) && env_lookup(
            old(store).active@,
            provider@,
        ) == Some(trim(profile_id@)) ==> match env_lookup(final(store).active@, provider@) {
            Some(next) => exists|j: int| is_newest(final(store).profiles@, provider@, j) && final(store).profiles@[j].id@ == next,
            None => !provider_has_profiles(final(store).profiles@, provider@),
        },
        forall|p: Seq<char>|
            p != provider@ || env_lookup(old(store).active@, provider@) != Some(trim(profile_id@))
                ==> #[trigger] env_lookup(final(store).active@, p) == env_lookup(old(store).active@, p),
{
    let id = trim_str(profile_id);
    let p = provider.to_string();
    let ghost old_store = *store;
    let mut kept: Vec<ApiKeyProfileRecord> = Vec::new();
    let mut removed = false;
    let mut i: usize = 0;
    while i < store.profiles.len()
        invariant
            i <= store.profiles@.len(),
            store.profiles@ == old_store.profiles@,
            p@ == provider@,
            kept@ == without_profile(store.profiles@.take(i as int), provider@, id@),
            removed <==> has_profile(store.profiles@.take(i as int), provider@, id@),
        decreases store.profiles@.len() - i,
    {
        let ghost t = store.profiles@.take(i + 1);
        assert(t.drop_last() =~= store.profiles@.take(i as int));
        if store.profiles[i].provider == p && store.profiles[i].id == id {
            removed = true;
            assert(is_profile(t[i as int], provider@, id@));
        } else {
            kept.push(store.profiles[i].duplicate());
        }
        proof {
            if !is_profile(t[i as int], provider@, id@) {
                if has_profile(t, provider@, id@) {
                    let k = choose|k: int| 0 <= k < t.len() && is_profile(#[trigger] t[k], provider@, id@);
                    assert(k < i);
                    assert(store.profiles@.take(i as int)[k] == t[k]);
                }
                if has_profile(store.profiles@.take(i as int), provider@, id@) {
                    let k = choose|k: int| 0 <= k < i && is_profile(#[trigger] store.profiles@.take(i as int)[k], provider@, id@);
                    assert(t[k] == store.profiles@.take(i as int)[k]);
                }
            }
        }
        i += 1;
    }
    assert(store.profiles@.take(i as int) =~= store.profiles@);
    if !removed {
        return Err("API key profile not found".to_string());
    }
    let ghost old_profiles = store.profiles@;
    store.profiles = kept;
    proof {
        assert forall|q: Seq<char>, x: Seq<char>|
            has_profile(old_profiles, q, x) && !(q == provider@ && x == id@) implies has_profile(
            store.profiles@,
            q,
            x,
        ) by {
            lemma_without_keeps(old_profiles, provider@, id@, q, x);
        }
    }
    let secret_key = secret_key_for(provider, id.as_str());
    let was_active = match active_of(store, provider) {
        Some(a) => a == id,
        None => false,
    };
    if was_active {
        let mut best: Option<usize> = None;
        let mut j: usize = 0;
        while j < store.profiles.len()
            invariant
                j <= store.profiles@.len(),
                p@ == provider@,
                match best {
                    Some(b) => b < j && store.profiles@[b as int].provider@ == provider@ && forall|k: int|
                        0 <= k < j && (#[trigger] store.profiles@[k]).provider@ == provider@ ==> store.profiles@[k].created_at_ms
                            < store.profiles@[b as int].created_at_ms || (store.profiles@[k].created_at_ms
                            == store.profiles@[b as int].created_at_ms && k <= b),
                    None => forall|k: int| 0 <= k < j ==> (#[trigger] store.profiles@[k]).provider@ != provider@,
                },
            decreases store.profiles@.len() - j,
        {
            if store.profiles[j].provider == p {
                let better = match best {
                    Some(b) => store.profiles[j].created_at_ms >= store.profiles[b].created_at_ms,
                    None => true,
                };
                if better {
                    best = Some(j);
                }
            }
            j += 1;
        }
        let ghost before = store.active@;
        match best {
            Some(b) => {
                let next = store.profiles[b].id.clone();
                env_set(&mut store.active, p, next);
                assert(is_newest(store.profiles@, provider@, b as int));
                assert(is_profile(store.profiles@[b as int], provider@, store.profiles@[b as int].id@));
            },
            None => {
                env_remove(&mut store.active, provider);
            },
        }
        proof {
            if store_consistent(old_store) {
                assert forall|q: Seq<char>|
                    #[trigger] env_lookup(store.active@, q) is Some implies has_profile(store.profiles@, q, env_lookup(store.active@, q)->0) by {
                    if q != provider@ {
                        assert(env_lookup(before, q) == env_lookup(store.active@, q));
                        assert(env_lookup(old_store.active@, q) == env_lookup(store.active@, q));
                    }
                }
            }
        }
    } else {
        proof {
            if store_consistent(old_store) {
                assert forall|q: Seq<char>|
                    #[trigger] env_lookup(store.active@, q) is Some implies has_profile(store.profiles@, q, env_lookup(store.active@, q)->0) by {
                    let x = env_lookup(store.active@, q)->0;
                    assert(has_profile(old_profiles, q, x));
                }
            }
        }
    }
    Ok(secret_key)
}

/// In newest-first order, `a` comes before `b`: created later, or at the
/// same time and listed earlier (the sort is stable).
pub open spec fn newer_before(scores: Seq<u64>, a: int, b: int) -> bool {
    scores[a] > scores[b] || (scores[a] == scores[b] && a < b)
}

/// `top` holds the first `n` positions in newest-first order (all of them
/// when there are fewer).
pub open spec fn is_newest_first(scores: Seq<u64>, n: int, top: Seq<usize>) -> bool {
    &&& top.len() == if n < scores.len() { n } else { scores.len() as int }
    &&& forall|i: int| 0 <= i < top.len() ==> #[trigger] top[i] < scores.len()
    &&& forall|i: int, j: int| 0 <= i < j < top.len() ==> newer_before(scores, top[i] as int, top[j] as int)
    &&& forall|i: int, k: int|
        #![trigger top[i], scores[k]]
        0 <= i < top.len() && 0 <= k < scores.len() && !top.contains(k as usize) ==> newer_before(
            scores,
            top[i] as int,
            k,
        )
}

/// The first `n` positions in newest-first order of the creation times;
/// among equal times the earlier position comes first.
pub fn newest_first(scores: &Vec<u64>, n: usize) -> (top: Vec<usize>)
    ensures
        is_newest_first(scores@, n as int, top@),
{
    let len = scores.len();
    let want: usize = if n < len {
        n
    } else {
        len
    };
    let mut taken: Vec<bool> = Vec::new();
    let mut i: usize = 0;
    while i < len
        invariant
            i <= len,
            len == scores@.len(),
            taken@.len() == i,
            forall|k: int| 0 <= k < i ==> !(#[trigger] taken@[k]),
        decreases len - i,
    {
        taken.push(false);
        i += 1;
    }
    let mut top: Vec<usize> = Vec::new();
    while top.len() < want
        invariant
            len == scores@.len(),
            want <= len,
            want as int == if n < scores@.len() { n as int } else { scores@.len() as int },
            taken@.len() == len,
            top@.len() <= want,
            forall|i: int| 0 <= i < top@.len() ==> #[trigger] top@[i] < len,
            forall|k: int| 0 <= k < len ==> (#[trigger] taken@[k] <==> top@.contains(k as usize)),
            forall|i: int, j: int|
                0 <= i < j < top@.len() ==> newer_before(scores@, top@[i] as int, top@[j] as int),
            forall|i: int, k: int|
                #![trigger top@[i], taken@[k]]
                0 <= i < top@.len() && 0 <= k < len && !taken@[k] ==> newer_before(
                    scores@,
                    top@[i] as int,
                    k,
                ),
        decreases want - top@.len(),
    {
        // Some position is still free: fewer are taken than there are.
        proof {
            crate::pipeline::lemma_free_position_exists(taken@, top@);
        }
        let mut best: usize = len;
        let mut k: usize = 0;
        while k < len
            invariant
                len == scores@.len(),
                taken@.len() == len,
                k <= len,
                best == len || (best < k && !taken@[best as int]),
                best == len ==> forall|m: int| 0 <= m < k ==> #[trigger] taken@[m],
                best < len ==> forall|m: int|
                    0 <= m < k && !(#[trigger] taken@[m]) && m != best ==> newer_before(
                        scores@,
                        best as int,
                        m,
                    ),
            decreases len - k,
        {
            if !taken[k] {
                if best == len || scores[k] > scores[best] {
                    best = k;
                }
            }
            k += 1;
        }
        assert(best < len) by {
            if best == len {
                assert(forall|m: int| 0 <= m < len ==> taken@[m]);
                crate::pipeline::lemma_all_taken_means_full(taken@, top@);
            }
        }
        let ghost old_top = top@;
        let ghost old_taken = taken@;
        top.push(best);
        taken.set(best, true);
        proof {
            assert forall|m: int| 0 <= m < len implies (#[trigger] taken@[m] <==> top@.contains(
                m as usize,
            )) by {
                if m == best as int {
                    assert(top@[top@.len() - 1] == best);
                } else {
                    assert(taken@[m] == old_taken[m]);
                    if old_top.contains(m as usize) {
                        let w = choose|w: int| 0 <= w < old_top.len() && old_top[w] == m as usize;
                        assert(top@[w] == m as usize);
                    }
                    if top@.contains(m as usize) {
                        let w = choose|w: int| 0 <= w < top@.len() && top@[w] == m as usize;
                        assert(w < old_top.len());
                        assert(old_top[w] == m as usize);
                    }
                }
            }
            assert forall|i: int, j: int| 0 <= i < j < top@.len() implies newer_before(
                scores@,
                top@[i] as int,
                top@[j] as int,
            ) by {
                if j == top@.len() - 1 {
                    assert(!old_taken[best as int]);
                    assert(top@[i] == old_top[i]);
                } else {
                    assert(top@[i] == old_top[i] && top@[j] == old_top[j]);
                }
            }
            assert forall|i: int, k: int|
                #![trigger top@[i], taken@[k]]
                0 <= i < top@.len() && 0 <= k < len && !taken@[k] implies newer_before(
                scores@,
                top@[i] as int,
                k,
            ) by {
                assert(k != best as int);
                assert(!old_taken[k]);
                if i == top@.len() - 1 {
                    assert(!old_taken[k]);
                } else {
                    assert(top@[i] == old_top[i]);
                }
            }
        }
    }
    proof {
        assert forall|i: int, k: int|
            #![trigger top@[i], scores@[k]]
            0 <= i < top@.len() && 0 <= k < scores@.len() && !top@.contains(
                k as usize,
            ) implies newer_before(scores@, top@[i] as int, k) by {
            assert(!taken@[k]);
        }
    }
    top
}


/// A saved key as the user interface lists it.
#[derive(Debug, Clone)]
pub struct ApiKeyProfileView {
    pub id: String,
    pub label: String,
    pub last_four: String,
    pub active: bool,
    pub created_at_ms: u64,
    pub updated_at_ms: u64,
}

/// A provider's saved keys, newest first, and whether an environment
/// variable overrides them.
#[derive(Debug, Clone)]
pub struct ApiKeyProfilesView {
    pub provider: String,
    pub env_override: bool,
    pub profiles: Vec<ApiKeyProfileView>,
}

/// The provider's profiles, in store order.
pub open spec fn profiles_of(ps: Seq<ApiKeyProfileRecord>, provider: Seq<char>) -> Seq<ApiKeyProfileRecord>
    decreases ps.len(),
{
    if ps.len() == 0 {
        ps
    } else {
        let rest = profiles_of(ps.drop_last(), provider);
        if ps.last().provider@ == provider {
            rest.push(ps.last())
        } else {
            rest
        }
    }
}

pub open spec fn is_view_of(v: ApiKeyProfileView, r: ApiKeyProfileRecord, active: Option<Seq<char>>) -> bool {
    &&& v.id == r.id
    &&& v.label == r.label
    &&& v.last_four == r.last_four
    &&& v.active == (active == Some(r.id@))
    &&& v.created_at_ms == r.created_at_ms
    &&& v.updated_at_ms == r.updated_at_ms
}

pub open spec fn created_times(ps: Seq<ApiKeyProfileRecord>) -> Seq<u64> {
    ps.map_values(|r: ApiKeyProfileRecord| r.created_at_ms)
}

/// Lists a provider's keys, newest first (keys created at the same time in
/// store order), marking the active one.
pub fn view_api_profiles(provider: &str, store: &ApiKeyProfileStore, env_override: bool) -> (r: ApiKeyProfilesView)
    requires
        env_sorted(store.active@),
    ensures
        r.provider@ == provider@,
        r.env_override == env_override,
        ({
            let mine = profiles_of(store.profiles@, provider@);
            exists|order: Seq<usize>|
                #[trigger] is_newest_first(created_times(mine), mine.len() as int, order) && r.profiles@.len()
                    == mine.len() && forall|i: int|
                    0 <= i < mine.len() ==> is_view_of(
                        #[trigger] r.profiles@[i],
                        mine[order[i] as int],
                        env_lookup(store.active@, provider@),
                    )
        }),
{
    let active = active_of(store, provider);
    let p = provider.to_string();
    let mut mine: Vec<ApiKeyProfileRecord> = Vec::new();
    let mut i: usize = 0;
    while i < store.profiles.len()
        invariant
            i <= store.profiles@.len(),
            p@ == provider@,
            mine@ == profiles_of(store.profiles@.take(i as int), provider@),
        decreases store.profiles@.len() - i,
    {
        let ghost t = store.profiles@.take(i + 1);
        assert(t.drop_last() =~= store.profiles@.take(i as int));
        if store.profiles[i].provider == p {
            mine.push(store.profiles[i].duplicate());
        }
        i += 1;
    }
    assert(store.profiles@.take(i as int) =~= store.profiles@);
    let mut times: Vec<u64> = Vec::new();
    let mut k: usize = 0;
    while k < mine.len()
        invariant
            k <= mine@.len(),
            times@ == created_times(mine@).take(k as int),
        decreases mine@.len() - k,
    {
        times.push(mine[k].created_at_ms);
        k += 1;
        assert(times@ =~= created_times(mine@).take(k as int));
    }
    assert(times@ =~= created_times(mine@));
    let order = newest_first(&times, mine.len());
    let mut views: Vec<ApiKeyProfileView> = Vec::new();
    let mut j: usize = 0;
    while j < order.len()
        invariant
            j <= order@.len(),
            order@.len() == mine@.len(),
            is_newest_first(created_times(mine@), mine@.len() as int, order@),
            views@.len() == j,
            forall|a: int| 0 <= a < j ==> is_view_of(
                #[trigger] views@[a],
                mine@[order@[a] as int],
                env_lookup(store.active@, provider@),
            ),
            match active {
                Some(s) => env_lookup(store.active@, provider@) == Some(s@),
                None => env_lookup(store.active@, provider@) is None,
            },
        decreases order@.len() - j,
    {
        let r = &mine[order[j]];
        let is_active = match &active {
            Some(a) => *a == r.id,
            None => false,
        };
        views.push(ApiKeyProfileView {
            id: r.id.clone(),
            label: r.label.clone(),
            last_four: r.last_four.clone(),
            active: is_active,
            created_at_ms: r.created_at_ms,
            updated_at_ms: r.updated_at_ms,
        });
        j += 1;
    }
    ApiKeyProfilesView { provider: p, env_override, profiles: views }
}

/// Where the application's current key for the provider comes from: the
/// legacy entry it reads, and the stored key of the active profile, if
/// any. The caller copies that key to the legacy entry, or clears the
/// entry when there is no active key or it cannot be found.
pub fn mirror_plan(provider: &str, store: &ApiKeyProfileStore) -> (r: Result<(String, Option<String>), String>)
    requires
        env_sorted(store.active@),
    ensures
        match provider_of(provider@) {
            Some(p) => r matches Ok((legacy, source)) && legacy@ == (if p == "muapi"@ {
                "MUAPI_API_KEY"@
            } else {
                "OPENAI_API_KEY"@
            }) && match env_lookup(store.active@, provider@) {
                Some(id) => source matches Some(s) && s@ == profile_secret_key(p, id),
                None => source is None,
            },
            None => r matches Err(e) && e@ == "unsupported API key provider"@,
        },
{
    let legacy = match legacy_api_key_name(provider) {
        Ok(l) => l,
        Err(e) => return Err(e),
    };
    let source = match active_of(store, provider) {
        Some(id) => match api_profile_secret_key(provider, id.as_str()) {
            Ok(s) => Some(s),
            Err(e) => return Err(e),
        },
        None => None,
    };
    Ok((legacy.to_string(), source))
}

/// Takes over a key saved before profiles existed: when the provider has
/// no profiles and the legacy entry holds a non-blank key, it becomes the
/// provider's active profile under the default name. Gives the addition
/// made, whose key the caller stores under its secret entry first.
fn migrate_provider_legacy_key(
    store: &mut ApiKeyProfileStore,
    provider: &str,
    legacy_value: Option<&str>,
    now_ms: u64,
) -> (r: Result<Option<ProfileAddition>, String>)
    requires
        env_sorted(old(store).active@),
        provider_of(provider@) == Some(provider@),
    ensures
        env_sorted(final(store).active@),
        store_consistent(*old(store)) ==> store_consistent(*final(store)),
        provider_has_profiles(old(store).profiles@, provider@) ==> (r matches Ok(None) && *final(store)
            == *old(store)),
        !provider_has_profiles(old(store).profiles@, provider@) && (legacy_value is None || trim(
            legacy_value->0@,
        ).len() == 0) ==> (r matches Ok(None) && *final(store) == *old(store)),
        !provider_has_profiles(old(store).profiles@, provider@) && legacy_value is Some && trim(
            legacy_value->0@,
        ).len() > 0 ==> (r matches Ok(Some(a)) && a.provider@ == provider@ && a.key@ == trim(
            legacy_value->0@,
        ) && a.label@ == (if provider@ == "muapi"@ {
            "Current MuAPI key"@
        } else {
            "Current OpenAI key"@
        }) && a.id@ == profile_id_of(provider@, a.label@, a.key@, now_ms) && a.secret_key@
            == profile_secret_key(provider@, a.id@) && final(store).profiles@.len() == old(
            store,
        ).profiles@.len() + 1 && env_lookup(final(store).active@, provider@) == Some(a.id@)),
{
    if api_provider_has_profiles(store, provider) {
        return Ok(None);
    }
    let value = match legacy_value {
        Some(v) => v,
        None => return Ok(None),
    };
    let trimmed = trim_str(value);
    if trimmed.as_str().is_empty() {
        return Ok(None);
    }
    let label = match default_api_profile_label(provider) {
        Ok(l) => l,
        Err(e) => return Err(e),
    };
    let id = create_api_profile_id(provider, label, trimmed.as_str(), now_ms);
    let secret_key = secret_key_for(provider, id.as_str());
    let a = ProfileAddition {
        provider: provider.to_string(),
        label: label.to_string(),
        key: trimmed,
        id,
        secret_key,
        created_at_ms: now_ms,
    };
    apply_profile_addition(store, &a, true);
    Ok(Some(a))
}

proof fn lemma_known_provider(p: Seq<char>)
    requires
        p == "muapi"@ || p == "openai"@,
    ensures
        provider_of(p) == Some(p),
{
    reveal_strlit("muapi");
    reveal_strlit("openai");
    assert(!is_ws(p[0]));
    assert(trim_start(p) == p);
    assert(!is_ws(p.last()));
    assert(trim_end(p) == p);
    assert(lower_seq(p) =~= p);
}

/// Deletes one of the provider's keys, the provider named in any letter
/// case and with surrounding blanks; as [`delete_provider_profile`] for the
/// provider it names, an error for an unsupported one.
pub fn delete_profile(store: &mut ApiKeyProfileStore, provider: &str, profile_id: &str) -> (r: Result<String, String>)
    requires
        env_sorted(old(store).active@),
    ensures
        env_sorted(final(store).active@),
        store_consistent(*old(store)) ==> store_consistent(*final(store)),
        provider_of(provider@) is None ==> (r matches Err(e) && e@ == "unsupported API key provider"@
            && *final(store) == *old(store)),
        provider_of(provider@) matches Some(p) ==> {
            &&& !has_profile(old(store).profiles@, p, trim(profile_id@)) ==> (r matches Err(e) && e@
                == "API key profile not found"@ && final(store).profiles@ == old(store).profiles@
                && final(store).active == old(store).active)
            &&& has_profile(old(store).profiles@, p, trim(profile_id@)) ==> (r matches Ok(k) && k@
                == profile_secret_key(p, trim(profile_id@)) && final(store).profiles@ == without_profile(
                old(store).profiles@,
                p,
                trim(profile_id@),
            ))
            &&& has_profile(old(store).profiles@, p, trim(profile_id@)) && env_lookup(old(store).active@, p)
                == Some(trim(profile_id@)) ==> match env_lookup(final(store).active@, p) {
                Some(next) => exists|j: int| is_newest(final(store).profiles@, p, j) && final(store).profiles@[j].id@ == next,
                None => !provider_has_profiles(final(store).profiles@, p),
            }
            &&& forall|q: Seq<char>|
                q != p || env_lookup(old(store).active@, p) != Some(trim(profile_id@))
                    ==> #[trigger] env_lookup(final(store).active@, q) == env_lookup(old(store).active@, q)
        },
{
    let p = match normalize_api_provider(provider) {
        Ok(p) => p,
        Err(e) => return Err(e),
    };
    proof {
        lemma_known_provider(p@);
    }
    delete_provider_profile(store, p, profile_id)
}

/// Takes over a key saved before profiles existed, the provider named in
/// any letter case and with surrounding blanks; as
/// [`migrate_provider_legacy_key`] for the provider it names, an error for
/// an unsupported one.
pub fn migrate_legacy_api_key(
    store: &mut ApiKeyProfileStore,
    provider: &str,
    legacy_value: Option<&str>,
    now_ms: u64,
) -> (r: Result<Option<ProfileAddition>, String>)
    requires
        env_sorted(old(store).active@),
    ensures
        env_sorted(final(store).active@),
        store_consistent(*old(store)) ==> store_consistent(*final(store)),
        provider_of(provider@) is None ==> (r matches Err(e) && e@ == "unsupported API key provider"@
            && *final(store) == *old(store)),
        provider_of(provider@) matches Some(p) ==> {
            &&& provider_has_profiles(old(store).profiles@, p) ==> (r matches Ok(None) && *final(store)
                == *old(store))
            &&& !provider_has_profiles(old(store).profiles@, p) && (legacy_value is None || trim(
                legacy_value->0@,
            ).len() == 0) ==> (r matches Ok(None) && *final(store) == *old(store))
            &&& !provider_has_profiles(old(store).profiles@, p) && legacy_value is Some && trim(
                legacy_value->0@,
            ).len() > 0 ==> (r matches Ok(Some(a)) && a.provider@ == p && a.key@ == trim(
                legacy_value->0@,
            ) && a.label@ == (if p == "muapi"@ {
                "Current MuAPI key"@
            } else {
                "Current OpenAI key"@
            }) && a.id@ == profile_id_of(p, a.label@, a.key@, now_ms) && a.secret_key@
                == profile_secret_key(p, a.id@) && final(store).profiles@.len() == old(
                store,
            ).profiles@.len() + 1 && env_lookup(final(store).active@, p) == Some(a.id@))
        },
{
    let p = match normalize_api_provider(provider) {
        Ok(p) => p,
        Err(e) => return Err(e),
    };
    proof {
        lemma_known_provider(p@);
    }
    migrate_provider_legacy_key(store, p, legacy_value, now_ms)
}

} // verus!
