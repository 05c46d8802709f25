//! The key cache of a local profile: which tenant root keys it holds, and how a
//! set of keys received from the account replaces it.
use vstd::prelude::*;
use crate::error::{SchemaFault, StorageError};
use crate::ids::Uuid;
use crate::text::bytes_eq;

verus! {

pub const KEY_LEN: usize = 32;

/// The keys a profile encrypts its records with.
pub struct LocalSyncKeys {
    pub tenant_id: Uuid,
    pub tenant_root_dek: Option<[u8; 32]>,
    pub tenant_generation: u64,
    pub historical_tenant_root_deks: Vec<(u64, [u8; 32])>,
}

/// Which account a profile belongs to.
#[derive(Clone, Copy, Debug, PartialEq, Eq, Structural)]
pub struct LocalCryptoIdentity {
    pub tenant_id: Uuid,
    pub user_id: Uuid,
    pub device_id: Uuid,
}

#[derive(Clone, Copy, Debug, PartialEq, Eq, Structural)]
pub enum LocalCryptoUnavailable {
    MissingMasterKey,
    CorruptKeyCache,
    MissingTenantRootKey,
}

/// The account a profile is bound to, as it is stored.
#[derive(Clone, Copy, Debug, PartialEq, Eq, Structural)]
pub struct LocalProfileBinding {
    pub tenant_id: Uuid,
    pub user_id: Uuid,
    pub device_id: Uuid,
    pub bound_at: i64,
    pub updated_at: i64,
}

/// A tenant root key, wrapped by the master key, as it is stored.
pub struct LocalTenantRootKeyBundle {
    pub tenant_id: Uuid,
    pub generation: u64,
    pub wrapped_tenant_root_dek: Vec<u8>,
    pub updated_at: i64,
}

/// A stored bundle beside what unwrapping it with the master key gave.
pub struct CachedTenantRoot {
    pub bundle: LocalTenantRootKeyBundle,
    pub key: Option<[u8; 32]>,
}

/// The device that local mutations are stamped with, and their keys.
pub struct LocalMutationContext {
    pub device_id: String,
    pub keys: LocalSyncKeys,
}

/// An unlocked profile.
pub struct LocalCryptoContext {
    pub tenant_id: Uuid,
    pub user_id: Uuid,
    pub device_id: Uuid,
    pub master_key: [u8; 32],
    pub sync_keys: LocalSyncKeys,
}

pub enum LocalCryptoAvailability {
    Anonymous,
    Ready(Box<LocalCryptoContext>),
    AccountBoundUnavailable(LocalCryptoUnavailable),
}

/// Keys by generation.
pub type KeyMap = Map<u64, Seq<u8>>;

/// The views of a list of keys.
pub open spec fn key_views(keys: Seq<(u64, [u8; 32])>) -> Seq<(u64, Seq<u8>)> {
    keys.map_values(|k: (u64, [u8; 32])| (k.0, k.1@))
}

/// The keys of a list whose generations differ.
pub open spec fn key_map(keys: Seq<(u64, [u8; 32])>) -> KeyMap {
    Map::new(
        |g: u64| exists|i: int| 0 <= i < keys.len() && (#[trigger] keys[i]).0 == g,
        |g: u64| keys[choose|i: int| 0 <= i < keys.len() && (#[trigger] keys[i]).0 == g].1@,
    )
}

/// Generations that go up strictly, as they are stored.
pub open spec fn ascending(keys: Seq<(u64, [u8; 32])>) -> bool {
    forall|i: int, j: int|
        0 <= i < j < keys.len() ==> (#[trigger] keys[i]).0 < (#[trigger] keys[j]).0
}

proof fn lemma_key_map_at(keys: Seq<(u64, [u8; 32])>, i: int)
    requires
        ascending(keys),
        0 <= i < keys.len(),
    ensures
        key_map(keys).contains_key(keys[i].0),
        key_map(keys)[keys[i].0] == keys[i].1@,
{
    let g = keys[i].0;
    assert(exists|k: int| 0 <= k < keys.len() && (#[trigger] keys[k]).0 == g);
    let j = choose|k: int| 0 <= k < keys.len() && (#[trigger] keys[k]).0 == g;
    if j < i {
        assert(keys[j].0 < keys[i].0);
    } else if i < j {
        assert(keys[i].0 < keys[j].0);
    }
}

proof fn lemma_key_map_insert(keys: Seq<(u64, [u8; 32])>, at: int, g: u64, key: [u8; 32])
    requires
        ascending(keys),
        0 <= at <= keys.len(),
        forall|i: int| 0 <= i < at ==> (#[trigger] keys[i]).0 < g,
        forall|i: int| at <= i < keys.len() ==> g < (#[trigger] keys[i]).0,
    ensures
        ascending(keys.insert(at, (g, key))),
        key_map(keys.insert(at, (g, key))) == key_map(keys).insert(g, key@),
        !key_map(keys).contains_key(g),
{
    let more = keys.insert(at, (g, key));
    assert forall|i: int, j: int| 0 <= i < j < more.len() implies (#[trigger] more[i]).0 < (
    #[trigger] more[j]).0 by {
        let a = if i < at { i } else { i - 1 };
        let b = if j < at { j } else { j - 1 };
        if i != at {
            assert(more[i] == keys[a]);
        }
        if j != at {
            assert(more[j] == keys[b]);
        }
    }
    let left = key_map(more);
    let right = key_map(keys).insert(g, key@);
    assert forall|h: u64| left.contains_key(h) == right.contains_key(h) by {
        if left.contains_key(h) {
            let i = choose|i: int| 0 <= i < more.len() && (#[trigger] more[i]).0 == h;
            if i != at {
                let a = if i < at { i } else { i - 1 };
                assert(keys[a].0 == h);
            }
        }
        if right.contains_key(h) && h != g {
            let a = choose|a: int| 0 <= a < keys.len() && (#[trigger] keys[a]).0 == h;
            let i = if a < at { a } else { a + 1 };
            assert(more[i].0 == h);
        }
        if h == g {
            assert(more[at].0 == g);
        }
    }
    assert forall|h: u64| left.contains_key(h) implies left[h] == right[h] by {
        let i = choose|i: int| 0 <= i < more.len() && (#[trigger] more[i]).0 == h;
        lemma_key_map_at(more, i);
        if i != at {
            let a = if i < at { i } else { i - 1 };
            assert(more[i] == keys[a]);
            lemma_key_map_at(keys, a);
        }
    }
    assert(left =~= right);
}

/// What forbids taking a key into a set.
pub open spec fn merge_fault(keys: KeyMap, generation: u64, key: Seq<u8>) -> Option<SchemaFault> {
    if generation == 0 {
        Some(SchemaFault::InvalidGeneration)
    } else if keys.contains_key(generation) && keys[generation] != key {
        Some(SchemaFault::RootChangedWithoutGeneration)
    } else {
        None
    }
}

/// Takes a key into a set, unless its generation is zero or stands there with
/// another key.
pub fn merge_semantic_tenant_key(
    keys: &mut Vec<(u64, [u8; 32])>,
    generation: u64,
    key: &[u8; 32],
) -> (r: Result<(), StorageError>)
    requires
        ascending(old(keys)@),
    ensures
        ascending(final(keys)@),
        match merge_fault(key_map(old(keys)@), generation, key@) {
            Some(fault) => {
                &&& r == Err::<(), _>(StorageError::IncompatibleSchema(fault))
                &&& final(keys)@ == old(keys)@
            },
            None => {
                &&& r == Ok::<_, StorageError>(())
                &&& key_map(final(keys)@) == key_map(old(keys)@).insert(generation, key@)
            },
        },
{
    if generation == 0 {
        return Err(StorageError::IncompatibleSchema(SchemaFault::InvalidGeneration));
    }
    let mut at: usize = 0;
    while at < keys.len() && keys[at].0 < generation
        invariant
            at <= keys@.len(),
            ascending(keys@),
            forall|i: int| 0 <= i < at ==> (#[trigger] keys@[i]).0 < generation,
        decreases keys@.len() - at,
    {
        at = at + 1;
    }
    if at < keys.len() && keys[at].0 == generation {
        proof {
            lemma_key_map_at(keys@, at as int);
        }
        if !bytes_eq(&keys[at].1, key) {
            return Err(
                StorageError::IncompatibleSchema(SchemaFault::RootChangedWithoutGeneration),
            );
        }
        proof {
            assert(key_map(keys@).insert(generation, key@) =~= key_map(keys@));
        }
        return Ok(());
    }
    proof {
        assert forall|i: int| at <= i < keys@.len() implies generation < (
        #[trigger] keys@[i]).0 by {
            if at < i {
                assert(keys@[at as int].0 < keys@[i].0);
            }
        }
        lemma_key_map_insert(keys@, at as int, generation, *key);
    }
    keys.insert(at, (generation, *key));
    Ok(())
}

/// The active key and its predecessors as one set, or the first fault among the
/// predecessors.
pub open spec fn merged(generation: u64, key: Seq<u8>, historical: Seq<(u64, Seq<u8>)>) -> Result<
    KeyMap,
    SchemaFault,
>
    decreases historical.len(),
{
    if historical.len() == 0 {
        Ok(Map::empty().insert(generation, key))
    } else {
        match merged(generation, key, historical.drop_last()) {
            Err(fault) => Err(fault),
            Ok(keys) => {
                let (older, older_key) = historical.last();
                if older >= generation {
                    Err(SchemaFault::HistoricalNotBeforeActive)
                } else {
                    match merge_fault(keys, older, older_key) {
                        Some(fault) => Err(fault),
                        None => Ok(keys.insert(older, older_key)),
                    }
                }
            },
        }
    }
}

/// Where the cache holds a generation: the last bundle of that generation.
pub open spec fn cached_at(roots: Seq<CachedTenantRoot>, generation: u64) -> Option<int>
    decreases roots.len(),
{
    if roots.len() == 0 {
        None
    } else if roots.last().bundle.generation == generation {
        Some(roots.len() - 1)
    } else {
        cached_at(roots.drop_last(), generation)
    }
}

proof fn lemma_cached_at(roots: Seq<CachedTenantRoot>, generation: u64)
    ensures
        match cached_at(roots, generation) {
            Some(i) => 0 <= i < roots.len() && roots[i].bundle.generation == generation,
            None => forall|i: int|
                0 <= i < roots.len() ==> (#[trigger] roots[i]).bundle.generation != generation,
        },
    decreases roots.len(),
{
    if roots.len() > 0 && roots.last().bundle.generation != generation {
        lemma_cached_at(roots.drop_last(), generation);
        assert forall|i: int|
            cached_at(roots, generation) is None && 0 <= i < roots.len() implies (
        #[trigger] roots[i]).bundle.generation != generation by {
            if i < roots.len() - 1 {
                assert(roots.drop_last()[i] == roots[i]);
            }
        }
    }
}

fn cached_index(roots: &Vec<CachedTenantRoot>, generation: u64) -> (r: Option<usize>)
    ensures
        match r {
            Some(i) => cached_at(roots@, generation) == Some(i as int) && i < roots@.len(),
            None => cached_at(roots@, generation) is None,
        },
{
    let mut n: usize = roots.len();
    proof {
        assert(roots@.take(n as int) =~= roots@);
    }
    while n > 0
        invariant
            n <= roots@.len(),
            cached_at(roots@, generation) == cached_at(roots@.take(n as int), generation),
        decreases n,
    {
        proof {
            assert(roots@.take(n as int).drop_last() =~= roots@.take(n - 1));
        }
        if roots[n - 1].bundle.generation == generation {
            return Some(n - 1);
        }
        n = n - 1;
    }
    None
}

/// A cached key that differs from the one received for its generation.
pub open spec fn conflicting(roots: Seq<CachedTenantRoot>, keys: KeyMap, generation: u64) -> bool {
    match cached_at(roots, generation) {
        Some(i) => roots[i].key.unwrap()@ != keys[generation],
        None => false,
    }
}

pub open spec fn same_bundle(a: LocalTenantRootKeyBundle, b: LocalTenantRootKeyBundle) -> bool {
    &&& a.tenant_id == b.tenant_id
    &&& a.generation == b.generation
    &&& a.wrapped_tenant_root_dek@ == b.wrapped_tenant_root_dek@
    &&& a.updated_at == b.updated_at
}

fn copy_bundle(bundle: &LocalTenantRootKeyBundle) -> (r: LocalTenantRootKeyBundle)
    ensures
        same_bundle(r, *bundle),
{
    let mut wrapped: Vec<u8> = Vec::new();
    wrapped.extend_from_slice(bundle.wrapped_tenant_root_dek.as_slice());
    proof {
        assert(wrapped@ =~= bundle.wrapped_tenant_root_dek@);
    }
    LocalTenantRootKeyBundle {
        tenant_id: bundle.tenant_id,
        generation: bundle.generation,
        wrapped_tenant_root_dek: wrapped,
        updated_at: bundle.updated_at,
    }
}

/// What an account hands over before anything is compared with the cache.
pub open spec fn keys_fault(sync_keys: LocalSyncKeys) -> Option<SchemaFault> {
    if sync_keys.tenant_root_dek is None {
        Some(SchemaFault::TenantRootMissing)
    } else if sync_keys.tenant_generation == 0 {
        Some(SchemaFault::InvalidActiveGeneration)
    } else {
        None
    }
}

/// A profile stays with the tenant and the user it was bound to.
pub open spec fn binding_fault(
    binding: Option<LocalProfileBinding>,
    identity: LocalCryptoIdentity,
) -> Option<StorageError> {
    match binding {
        None => None,
        Some(bound) => if bound.tenant_id != identity.tenant_id {
            Some(
                StorageError::LocalProfileTenantMismatch {
                    bound_tenant_id: bound.tenant_id,
                    requested_tenant_id: identity.tenant_id,
                },
            )
        } else if bound.user_id != identity.user_id {
            Some(
                StorageError::LocalProfileUserMismatch {
                    bound_user_id: bound.user_id,
                    requested_user_id: identity.user_id,
                },
            )
        } else {
            None
        },
    }
}

/// What is wrong with the cache in view of the binding and the new generation.
pub open spec fn cache_fault(
    bound: bool,
    roots: Seq<CachedTenantRoot>,
    generation: u64,
) -> Option<SchemaFault> {
    if !bound && roots.len() > 0 {
        Some(SchemaFault::CacheWithoutBinding)
    } else if roots.len() > 0 && roots.last().bundle.generation > generation {
        Some(SchemaFault::GenerationMovedBackwards)
    } else if exists|i: int| 0 <= i < roots.len() && (#[trigger] roots[i]).key is None {
        Some(SchemaFault::CachedRootUnauthenticated)
    } else {
        None
    }
}

/// The set of keys to store, or the first error that forbids storing any.
pub open spec fn accepted_keys(
    binding: Result<Option<LocalProfileBinding>, StorageError>,
    roots: Result<Vec<CachedTenantRoot>, StorageError>,
    identity: LocalCryptoIdentity,
    sync_keys: LocalSyncKeys,
) -> Result<KeyMap, StorageError> {
    match keys_fault(sync_keys) {
        Some(fault) => Err(StorageError::IncompatibleSchema(fault)),
        None => match binding {
            Err(error) => Err(error),
            Ok(bound) => match binding_fault(bound, identity) {
                Some(error) => Err(error),
                None => match roots {
                    Err(error) => Err(error),
                    Ok(cache) => match cache_fault(
                        bound is Some,
                        cache@,
                        sync_keys.tenant_generation,
                    ) {
                        Some(fault) => Err(StorageError::IncompatibleSchema(fault)),
                        None => match merged(
                            sync_keys.tenant_generation,
                            sync_keys.tenant_root_dek.unwrap()@,
                            key_views(sync_keys.historical_tenant_root_deks@),
                        ) {
                            Err(fault) => Err(StorageError::IncompatibleSchema(fault)),
                            Ok(keys) => Ok(keys),
                        },
                    },
                },
            },
        },
    }
}

/// What is to be stored, and the unlocked profile that results.
pub struct LocalCryptoUpdate {
    pub binding: LocalProfileBinding,
    pub tenant_roots: Vec<LocalTenantRootKeyBundle>,
    pub context: LocalCryptoContext,
}

/// Bundles in the order of their generations.
pub open spec fn in_generation_order(roots: Seq<LocalTenantRootKeyBundle>) -> bool {
    forall|i: int, j: int|
        0 <= i < j < roots.len() ==> (#[trigger] roots[i]).generation < (
        #[trigger] roots[j]).generation
}

/// A stored bundle: the cached one where there is one, else freshly wrapped.
pub open spec fn stored_root<W: Fn(Uuid, u64, [u8; 32]) -> Option<Vec<u8>>>(
    wrap: W,
    tenant_id: Uuid,
    now_ms: i64,
    cache: Seq<CachedTenantRoot>,
    keys: KeyMap,
    root: LocalTenantRootKeyBundle,
) -> bool {
    &&& keys.contains_key(root.generation)
    &&& match cached_at(cache, root.generation) {
        Some(i) => same_bundle(root, cache[i].bundle),
        None => {
            &&& root.tenant_id == tenant_id
            &&& root.updated_at == now_ms
            &&& exists|key: [u8; 32], wrapped: Option<Vec<u8>>|
                {
                    &&& key@ == keys[root.generation]
                    &&& wrapped == Some(root.wrapped_tenant_root_dek)
                    &&& #[trigger] wrap.ensures((tenant_id, root.generation, key), wrapped)
                }
        },
    }
}

/// A generation that storing gets past: its key agrees with the cache, or it is in none and
/// was wrapped.
pub open spec fn gets_past<W: Fn(Uuid, u64, [u8; 32]) -> Option<Vec<u8>>>(
    wrap: W,
    tenant_id: Uuid,
    cache: Seq<CachedTenantRoot>,
    keys: KeyMap,
    generation: u64,
) -> bool {
    &&& !conflicting(cache, keys, generation)
    &&& cached_at(cache, generation) is None ==> exists|key: [u8; 32], wrapped: Option<Vec<u8>>|
        {
            &&& key@ == keys[generation]
            &&& wrapped is Some
            &&& #[trigger] wrap.ensures((tenant_id, generation, key), wrapped)
        }
}

/// Storing got past every generation before the given one.
pub open spec fn got_to<W: Fn(Uuid, u64, [u8; 32]) -> Option<Vec<u8>>>(
    wrap: W,
    tenant_id: Uuid,
    cache: Seq<CachedTenantRoot>,
    keys: KeyMap,
    generation: u64,
) -> bool {
    forall|g: u64| #[trigger]
        keys.contains_key(g) && g < generation ==> gets_past(wrap, tenant_id, cache, keys, g)
}

/// The first generation that storing did not get past could not be wrapped.
pub open spec fn wrapping_failed<W: Fn(Uuid, u64, [u8; 32]) -> Option<Vec<u8>>>(
    wrap: W,
    tenant_id: Uuid,
    cache: Seq<CachedTenantRoot>,
    keys: KeyMap,
) -> bool {
    exists|g: u64, key: [u8; 32]|
        {
            &&& keys.contains_key(g)
            &&& got_to(wrap, tenant_id, cache, keys, g)
            &&& cached_at(cache, g) is None
            &&& key@ == keys[g]
            &&& #[trigger] wrap.ensures((tenant_id, g, key), None)
        }
}

/// The first generation that storing did not get past has a key that conflicts with the
/// cache.
pub open spec fn conflict_found<W: Fn(Uuid, u64, [u8; 32]) -> Option<Vec<u8>>>(
    wrap: W,
    tenant_id: Uuid,
    cache: Seq<CachedTenantRoot>,
    keys: KeyMap,
) -> bool {
    exists|g: u64| #[trigger]
        keys.contains_key(g) && conflicting(cache, keys, g) && got_to(
            wrap,
            tenant_id,
            cache,
            keys,
            g,
        )
}

/// The context that goes with a set of keys.
pub open spec fn context_holds(
    context: LocalCryptoContext,
    identity: LocalCryptoIdentity,
    master_key: Seq<u8>,
    generation: u64,
    active: Seq<u8>,
    keys: KeyMap,
) -> bool {
    &&& context.tenant_id == identity.tenant_id
    &&& context.user_id == identity.user_id
    &&& context.device_id == identity.device_id
    &&& context.master_key@ == master_key
    &&& context.sync_keys.tenant_id == identity.tenant_id
    &&& context.sync_keys.tenant_root_dek is Some
    &&& context.sync_keys.tenant_root_dek.unwrap()@ == active
    &&& context.sync_keys.tenant_generation == generation
    &&& ascending(context.sync_keys.historical_tenant_root_deks@)
    &&& key_map(context.sync_keys.historical_tenant_root_deks@) == keys.remove(generation)
}

/// What storing a set of keys amounts to.
pub open spec fn update_holds<W: Fn(Uuid, u64, [u8; 32]) -> Option<Vec<u8>>>(
    update: LocalCryptoUpdate,
    wrap: W,
    bound: Option<LocalProfileBinding>,
    cache: Seq<CachedTenantRoot>,
    identity: LocalCryptoIdentity,
    master_key: Seq<u8>,
    sync_keys: LocalSyncKeys,
    keys: KeyMap,
    now_ms: i64,
) -> bool {
    &&& forall|g: u64| #[trigger] keys.contains_key(g) ==> !conflicting(cache, keys, g)
    &&& in_generation_order(update.tenant_roots@)
    &&& forall|g: u64| #[trigger]
        keys.contains_key(g) ==> exists|i: int|
            0 <= i < update.tenant_roots@.len() && (#[trigger] update.tenant_roots@[i]).generation
                == g
    &&& forall|i: int|
        0 <= i < update.tenant_roots@.len() ==> stored_root(
            wrap,
            identity.tenant_id,
            now_ms,
            cache,
            keys,
            #[trigger] update.tenant_roots@[i],
        )
    &&& update.binding == (LocalProfileBinding {
        tenant_id: identity.tenant_id,
        user_id: identity.user_id,
        device_id: identity.device_id,
        bound_at: match bound {
            Some(binding) => binding.bound_at,
            None => now_ms,
        },
        updated_at: now_ms,
    })
    &&& context_holds(
        update.context,
        identity,
        master_key,
        sync_keys.tenant_generation,
        sync_keys.tenant_root_dek.unwrap()@,
        keys,
    )
}

/// The keys of a set other than the active one.
fn historical_keys(keys: &Vec<(u64, [u8; 32])>, generation: u64) -> (r: Vec<(u64, [u8; 32])>)
    requires
        ascending(keys@),
    ensures
        ascending(r@),
        key_map(r@) == key_map(keys@).remove(generation),
{
    let mut out: Vec<(u64, [u8; 32])> = Vec::new();
    let mut i: usize = 0;
    while i < keys.len()
        invariant
            i <= keys@.len(),
            ascending(keys@),
            ascending(out@),
            forall|j: int|
                0 <= j < out@.len() ==> {
                    &&& (#[trigger] out@[j]).0 != generation
                    &&& exists|k: int| 0 <= k < i && #[trigger] keys@[k] == out@[j]
                },
            forall|k: int|
                0 <= k < i && (#[trigger] keys@[k]).0 != generation ==> out@.contains(keys@[k]),
        decreases keys@.len() - i,
    {
        let entry = keys[i];
        if entry.0 != generation {
            let ghost before = out@;
            out.push(entry);
            proof {
                assert forall|a: int, b: int| 0 <= a < b < out@.len() implies (#[trigger] out@[a]).0
                    < (#[trigger] out@[b]).0 by {
                    assert(out@[a] == before[a]);
                    if b == before.len() {
                        let k = choose|k: int| 0 <= k < i && #[trigger] keys@[k] == before[a];
                        assert(keys@[k].0 < keys@[i as int].0);
                    } else {
                        assert(out@[b] == before[b]);
                    }
                }
                assert forall|j: int| 0 <= j < out@.len() implies {
                    &&& (#[trigger] out@[j]).0 != generation
                    &&& exists|k: int| 0 <= k < i + 1 && #[trigger] keys@[k] == out@[j]
                } by {
                    if j < before.len() {
                        assert(out@[j] == before[j]);
                    } else {
                        assert(keys@[i as int] == out@[j]);
                    }
                }
                assert forall|k: int|
                    0 <= k < i + 1 && (#[trigger] keys@[k]).0 != generation implies out@.contains(
                    keys@[k],
                ) by {
                    if k < i {
                        let j = before.index_of(keys@[k]);
                        assert(out@[j] == keys@[k]);
                    } else {
                        assert(out@[before.len() as int] == keys@[k]);
                    }
                }
            }
        }
        i = i + 1;
    }
    proof {
        let left = key_map(out@);
        let right = key_map(keys@).remove(generation);
        assert forall|g: u64| left.contains_key(g) == right.contains_key(g) by {
            if left.contains_key(g) {
                let j = choose|j: int| 0 <= j < out@.len() && (#[trigger] out@[j]).0 == g;
                let k = choose|k: int| 0 <= k < i && #[trigger] keys@[k] == out@[j];
                assert(keys@[k].0 == g);
            }
            if right.contains_key(g) {
                let k = choose|k: int| 0 <= k < keys@.len() && (#[trigger] keys@[k]).0 == g;
                let j = out@.index_of(keys@[k]);
                assert(out@[j].0 == g);
            }
        }
        assert forall|g: u64| left.contains_key(g) implies left[g] == right[g] by {
            let j = choose|j: int| 0 <= j < out@.len() && (#[trigger] out@[j]).0 == g;
            let k = choose|k: int| 0 <= k < i && #[trigger] keys@[k] == out@[j];
            lemma_key_map_at(out@, j);
            lemma_key_map_at(keys@, k);
        }
        assert(left =~= right);
    }
    out
}

/// The active key and its predecessors put together.
fn merge_all(
    generation: u64,
    active: &[u8; 32],
    historical: &Vec<(u64, [u8; 32])>,
) -> (r: Result<Vec<(u64, [u8; 32])>, StorageError>)
    requires
        generation != 0,
    ensures
        match merged(generation, active@, key_views(historical@)) {
            Err(fault) => r is Err && r->Err_0 == StorageError::IncompatibleSchema(fault),
            Ok(keys) => r is Ok && ascending(r->Ok_0@) && key_map(r->Ok_0@) == keys,
        },
{
    let mut keys: Vec<(u64, [u8; 32])> = Vec::new();
    proof {
        assert(key_map(keys@) =~= Map::<u64, Seq<u8>>::empty());
    }
    let first = merge_semantic_tenant_key(&mut keys, generation, active);
    let mut i: usize = 0;
    let ghost all = key_views(historical@);
    proof {
        assert(all.take(0) =~= Seq::<(u64, Seq<u8>)>::empty());
    }
    while i < historical.len()
        invariant
            i <= historical@.len(),
            all == key_views(historical@),
            ascending(keys@),
            merged(generation, active@, all.take(i as int)) == Ok::<KeyMap, SchemaFault>(
                key_map(keys@),
            ),
        decreases historical@.len() - i,
    {
        let older: u64 = historical[i].0;
        let ghost next = all.take(i + 1);
        proof {
            assert(next.drop_last() =~= all.take(i as int));
            assert(next.last() == (historical@[i as int].0, historical@[i as int].1@));
        }
        if older >= generation {
            proof {
                lemma_merged_stops(generation, active@, all, i + 1);
            }
            return Err(StorageError::IncompatibleSchema(SchemaFault::HistoricalNotBeforeActive));
        }
        match merge_semantic_tenant_key(&mut keys, older, &historical[i].1) {
            Err(error) => {
                proof {
                    lemma_merged_stops(generation, active@, all, i + 1);
                }
                return Err(error);
            },
            Ok(()) => {},
        }
        i = i + 1;
    }
    proof {
        assert(all.take(i as int) =~= all);
    }
    Ok(keys)
}

/// A fault among the first predecessors is the fault of the whole.
proof fn lemma_merged_stops(generation: u64, key: Seq<u8>, all: Seq<(u64, Seq<u8>)>, n: int)
    requires
        0 <= n <= all.len(),
        merged(generation, key, all.take(n)) is Err,
    ensures
        merged(generation, key, all) == merged(generation, key, all.take(n)),
    decreases all.len(),
{
    if n == all.len() {
        assert(all.take(n) =~= all);
    } else {
        assert(all.drop_last().take(n) =~= all.take(n));
        lemma_merged_stops(generation, key, all.drop_last(), n);
    }
}

/// Decides how a set of keys received from the account replaces the key cache.
///
/// `existing_binding` and `existing_roots` are what the database holds, the latter
/// beside what the master key makes of each bundle; `wrap` wraps a key with the
/// master key. A cached bundle is kept as it is where its key did not change, so
/// that the same keys do not give new ciphertexts.
pub fn persist_local_crypto_context_in_transaction<
    W: Fn(Uuid, u64, [u8; 32]) -> Option<Vec<u8>>,
>(
    existing_binding: Result<Option<LocalProfileBinding>, StorageError>,
    existing_roots: Result<Vec<CachedTenantRoot>, StorageError>,
    identity: LocalCryptoIdentity,
    master_key: &[u8; 32],
    sync_keys: &LocalSyncKeys,
    now_ms: i64,
    wrap: W,
) -> (r: Result<LocalCryptoUpdate, StorageError>)
    requires
        accepted_keys(existing_binding, existing_roots, identity, *sync_keys) matches Ok(keys)
            ==> forall|generation: u64, key: [u8; 32]|
            keys.contains_key(generation) && key@ == keys[generation] && cached_at(
                existing_roots->Ok_0@,
                generation,
            ) is None ==> #[trigger] wrap.requires((identity.tenant_id, generation, key)),
    ensures
        match accepted_keys(existing_binding, existing_roots, identity, *sync_keys) {
            Err(error) => r is Err && r->Err_0 == error,
            Ok(keys) => match r {
                Ok(update) => update_holds(
                    update,
                    wrap,
                    existing_binding->Ok_0,
                    existing_roots->Ok_0@,
                    identity,
                    master_key@,
                    *sync_keys,
                    keys,
                    now_ms,
                ),
                Err(error) => {
                    ||| {
                        &&& error == StorageError::IncompatibleSchema(
                            SchemaFault::RootChangedWithoutGeneration,
                        )
                        &&& conflict_found(
                            wrap,
                            identity.tenant_id,
                            existing_roots->Ok_0@,
                            keys,
                        )
                    }
                    ||| {
                        &&& error == StorageError::IncompatibleSchema(
                            SchemaFault::InvalidRootMaterial,
                        )
                        &&& wrapping_failed(
                            wrap,
                            identity.tenant_id,
                            existing_roots->Ok_0@,
                            keys,
                        )
                    }
                },
            },
        },
{
    let active: [u8; 32] = match sync_keys.tenant_root_dek {
        None => {
            return Err(StorageError::IncompatibleSchema(SchemaFault::TenantRootMissing));
        },
        Some(key) => key,
    };
    let generation: u64 = sync_keys.tenant_generation;
    if generation == 0 {
        return Err(StorageError::IncompatibleSchema(SchemaFault::InvalidActiveGeneration));
    }
    let bound: Option<LocalProfileBinding> = match existing_binding {
        Err(error) => {
            return Err(error);
        },
        Ok(bound) => bound,
    };
    if let Some(existing) = bound {
        if existing.tenant_id != identity.tenant_id {
            return Err(
                StorageError::LocalProfileTenantMismatch {
                    bound_tenant_id: existing.tenant_id,
                    requested_tenant_id: identity.tenant_id,
                },
            );
        }
        if existing.user_id != identity.user_id {
            return Err(
                StorageError::LocalProfileUserMismatch {
                    bound_user_id: existing.user_id,
                    requested_user_id: identity.user_id,
                },
            );
        }
    }
    let cache: Vec<CachedTenantRoot> = match existing_roots {
        Err(error) => {
            return Err(error);
        },
        Ok(cache) => cache,
    };
    if bound.is_none() && cache.len() > 0 {
        return Err(StorageError::IncompatibleSchema(SchemaFault::CacheWithoutBinding));
    }
    if cache.len() > 0 && cache[cache.len() - 1].bundle.generation > generation {
        return Err(StorageError::IncompatibleSchema(SchemaFault::GenerationMovedBackwards));
    }
    let mut n: usize = 0;
    while n < cache.len()
        invariant
            n <= cache@.len(),
            forall|i: int| 0 <= i < n ==> (#[trigger] cache@[i]).key is Some,
            keys_fault(*sync_keys) is None,
            generation == sync_keys.tenant_generation,
            existing_binding == Ok::<Option<LocalProfileBinding>, StorageError>(bound),
            binding_fault(bound, identity) is None,
            existing_roots == Ok::<Vec<CachedTenantRoot>, StorageError>(cache),
            cache_fault(bound is Some, cache@, generation) is None
                || cache_fault(bound is Some, cache@, generation) == Some(
                SchemaFault::CachedRootUnauthenticated,
            ),
        decreases cache@.len() - n,
    {
        if cache[n].key.is_none() {
            proof {
                assert(cache@[n as int].key is None);
            }
            return Err(StorageError::IncompatibleSchema(SchemaFault::CachedRootUnauthenticated));
        }
        n = n + 1;
    }
    let keys: Vec<(u64, [u8; 32])> = match merge_all(
        generation,
        &active,
        &sync_keys.historical_tenant_root_deks,
    ) {
        Err(error) => {
            return Err(error);
        },
        Ok(keys) => keys,
    };
    let ghost set = key_map(keys@);
    let mut roots: Vec<LocalTenantRootKeyBundle> = Vec::new();
    let mut k: usize = 0;
    while k < keys.len()
        invariant
            k <= keys@.len(),
            ascending(keys@),
            set == key_map(keys@),
            forall|i: int| 0 <= i < cache@.len() ==> (#[trigger] cache@[i]).key is Some,
            forall|g: u64, key: [u8; 32]|
                set.contains_key(g) && key@ == set[g] && cached_at(cache@, g) is None
                    ==> #[trigger] wrap.requires((identity.tenant_id, g, key)),
            roots@.len() == k,
            forall|i: int|
                0 <= i < k ==> {
                    &&& (#[trigger] roots@[i]).generation == keys@[i].0
                    &&& !conflicting(cache@, set, keys@[i].0)
                    &&& stored_root(wrap, identity.tenant_id, now_ms, cache@, set, roots@[i])
                },
            accepted_keys(existing_binding, existing_roots, identity, *sync_keys) == Ok::<
                KeyMap,
                StorageError,
            >(set),
            existing_roots == Ok::<Vec<CachedTenantRoot>, StorageError>(cache),
        decreases keys@.len() - k,
    {
        let g: u64 = keys[k].0;
        let key: [u8; 32] = keys[k].1;
        proof {
            lemma_key_map_at(keys@, k as int);
            assert(got_to(wrap, identity.tenant_id, cache@, set, g)) by {
                assert forall|h: u64| #[trigger] set.contains_key(h) && h < g implies gets_past(
                    wrap,
                    identity.tenant_id,
                    cache@,
                    set,
                    h,
                ) by {
                    let i = choose|i: int| 0 <= i < keys@.len() && (#[trigger] keys@[i]).0 == h;
                    if i > k {
                        assert(keys@[k as int].0 < keys@[i].0);
                    }
                    assert(roots@[i].generation == keys@[i].0);
                }
            }
            lemma_cached_at(cache@, g);
        }
        match cached_index(&cache, g) {
            Some(at) => {
                let held: [u8; 32] = cache[at].key.unwrap();
                if !bytes_eq(&held, &key) {
                    proof {
                        assert(set.contains_key(g) && conflicting(cache@, set, g));
                    }
                    return Err(
                        StorageError::IncompatibleSchema(
                            SchemaFault::RootChangedWithoutGeneration,
                        ),
                    );
                }
                roots.push(copy_bundle(&cache[at].bundle));
            },
            None => {
                let wrapped: Option<Vec<u8>> = wrap(identity.tenant_id, g, key);
                match wrapped {
                    None => {
                        proof {
                            assert(wrap.ensures((identity.tenant_id, g, key), None));
                        }
                        return Err(
                            StorageError::IncompatibleSchema(SchemaFault::InvalidRootMaterial),
                        );
                    },
                    Some(bytes) => {
                        let root = LocalTenantRootKeyBundle {
                            tenant_id: identity.tenant_id,
                            generation: g,
                            wrapped_tenant_root_dek: bytes,
                            updated_at: now_ms,
                        };
                        proof {
                            assert(wrap.ensures((identity.tenant_id, g, key), Some(bytes)));
                            assert(stored_root(
                                wrap,
                                identity.tenant_id,
                                now_ms,
                                cache@,
                                set,
                                root,
                            ));
                        }
                        roots.push(root);
                    },
                }
            },
        }
        k = k + 1;
    }
    let historical = historical_keys(&keys, generation);
    proof {
        assert forall|i: int, j: int| 0 <= i < j < roots@.len() implies (
        #[trigger] roots@[i]).generation < (#[trigger] roots@[j]).generation by {
            assert(keys@[i].0 < keys@[j].0);
        }
        assert forall|g: u64| #[trigger] set.contains_key(g) implies !conflicting(cache@, set, g)
            && exists|i: int| 0 <= i < roots@.len() && (#[trigger] roots@[i]).generation == g by {
            let i = choose|i: int| 0 <= i < keys@.len() && (#[trigger] keys@[i]).0 == g;
            assert(roots@[i].generation == g);
        }
    }
    Ok(
        LocalCryptoUpdate {
            binding: LocalProfileBinding {
                tenant_id: identity.tenant_id,
                user_id: identity.user_id,
                device_id: identity.device_id,
                bound_at: match bound {
                    Some(binding) => binding.bound_at,
                    None => now_ms,
                },
                updated_at: now_ms,
            },
            tenant_roots: roots,
            context: LocalCryptoContext {
                tenant_id: identity.tenant_id,
                user_id: identity.user_id,
                device_id: identity.device_id,
                master_key: *master_key,
                sync_keys: LocalSyncKeys {
                    tenant_id: identity.tenant_id,
                    tenant_root_dek: Some(active),
                    tenant_generation: generation,
                    historical_tenant_root_deks: historical,
                },
            },
        },
    )
}

/// The keys that a cache gives when its last bundle is the active one.
pub open spec fn unwrapped_keys(
    tenant_id: Uuid,
    active: CachedTenantRoot,
    historical: Seq<CachedTenantRoot>,
    r: Option<LocalSyncKeys>,
) -> bool {
    if active.key is None || exists|i: int|
        0 <= i < historical.len() && (#[trigger] historical[i]).key is None {
        r is None
    } else {
        &&& r is Some
        &&& r.unwrap().tenant_id == tenant_id
        &&& r.unwrap().tenant_root_dek == active.key
        &&& r.unwrap().tenant_generation == active.bundle.generation
        &&& r.unwrap().historical_tenant_root_deks@ == historical.map_values(
            |root: CachedTenantRoot| (root.bundle.generation, root.key.unwrap()),
        )
    }
}

/// Puts the cached keys together, unless one of them could not be unwrapped.
pub fn unwrap_local_cache_entries(
    tenant_id: Uuid,
    active: &CachedTenantRoot,
    historical: &Vec<CachedTenantRoot>,
) -> (r: Option<LocalSyncKeys>)
    ensures
        unwrapped_keys(tenant_id, *active, historical@, r),
{
    let tenant_root_dek: [u8; 32] = match active.key {
        None => {
            return None;
        },
        Some(key) => key,
    };
    let mut older: Vec<(u64, [u8; 32])> = Vec::new();
    let mut i: usize = 0;
    while i < historical.len()
        invariant
            i <= historical@.len(),
            forall|j: int| 0 <= j < i ==> (#[trigger] historical@[j]).key is Some,
            older@ == historical@.take(i as int).map_values(
                |root: CachedTenantRoot| (root.bundle.generation, root.key.unwrap()),
            ),
        decreases historical@.len() - i,
    {
        match historical[i].key {
            None => {
                proof {
                    assert(historical@[i as int].key is None);
                }
                return None;
            },
            Some(key) => {
                older.push((historical[i].bundle.generation, key));
            },
        }
        proof {
            assert(historical@.take(i + 1) =~= historical@.take(i as int).push(
                historical@[i as int],
            ));
            assert(older@ =~= historical@.take(i + 1).map_values(
                |root: CachedTenantRoot| (root.bundle.generation, root.key.unwrap()),
            ));
        }
        i = i + 1;
    }
    proof {
        assert(historical@.take(i as int) =~= historical@);
    }
    Some(
        LocalSyncKeys {
            tenant_id,
            tenant_root_dek: Some(tenant_root_dek),
            tenant_generation: active.bundle.generation,
            historical_tenant_root_deks: older,
        },
    )
}

/// What a profile can offer, given its binding and its key cache.
pub open spec fn availability(
    binding: Result<Option<LocalProfileBinding>, StorageError>,
    master_key: Option<[u8; 32]>,
    roots: Result<Vec<CachedTenantRoot>, StorageError>,
    r: Result<LocalCryptoAvailability, StorageError>,
) -> bool {
    match binding {
        Err(error) => r is Err && r->Err_0 == error,
        Ok(None) => r is Ok && r->Ok_0 is Anonymous,
        Ok(Some(bound)) => if master_key is None {
            r == Ok::<_, StorageError>(
                LocalCryptoAvailability::AccountBoundUnavailable(
                    LocalCryptoUnavailable::MissingMasterKey,
                ),
            )
        } else {
            match roots {
                Err(error) => r is Err && r->Err_0 == error,
                Ok(cache) => if cache@.len() == 0 {
                    r == Ok::<_, StorageError>(
                        LocalCryptoAvailability::AccountBoundUnavailable(
                            LocalCryptoUnavailable::MissingTenantRootKey,
                        ),
                    )
                } else if exists|i: int|
                    0 <= i < cache@.len() && (#[trigger] cache@[i]).key is None {
                    r == Ok::<_, StorageError>(
                        LocalCryptoAvailability::AccountBoundUnavailable(
                            LocalCryptoUnavailable::CorruptKeyCache,
                        ),
                    )
                } else {
                    &&& r is Ok
                    &&& r->Ok_0 is Ready
                    &&& ready_context(*r->Ok_0->Ready_0, bound, master_key.unwrap(), cache@)
                }
            }
        },
    }
}

/// The context of a bound profile whose cache could be unwrapped.
pub open spec fn ready_context(
    context: LocalCryptoContext,
    bound: LocalProfileBinding,
    master_key: [u8; 32],
    cache: Seq<CachedTenantRoot>,
) -> bool {
    &&& context.tenant_id == bound.tenant_id
    &&& context.user_id == bound.user_id
    &&& context.device_id == bound.device_id
    &&& context.master_key == master_key
    &&& unwrapped_keys(
        bound.tenant_id,
        cache.last(),
        cache.drop_last(),
        Some(context.sync_keys),
    )
}

/// Decides what a profile can offer.
///
/// `binding` and `roots` are what the database holds; `roots` stands beside what
/// the master key makes of each bundle and is not looked at without one.
pub fn load_local_crypto_context(
    binding: Result<Option<LocalProfileBinding>, StorageError>,
    master_key: Option<[u8; 32]>,
    roots: Result<Vec<CachedTenantRoot>, StorageError>,
) -> (r: Result<LocalCryptoAvailability, StorageError>)
    ensures
        availability(binding, master_key, roots, r),
{
    let bound: LocalProfileBinding = match binding {
        Err(error) => {
            return Err(error);
        },
        Ok(None) => {
            return Ok(LocalCryptoAvailability::Anonymous);
        },
        Ok(Some(bound)) => bound,
    };
    let master_key: [u8; 32] = match master_key {
        None => {
            return Ok(
                LocalCryptoAvailability::AccountBoundUnavailable(
                    LocalCryptoUnavailable::MissingMasterKey,
                ),
            );
        },
        Some(key) => key,
    };
    let mut cache: Vec<CachedTenantRoot> = match roots {
        Err(error) => {
            return Err(error);
        },
        Ok(cache) => cache,
    };
    let ghost all = cache@;
    let active: CachedTenantRoot = match cache.pop() {
        None => {
            return Ok(
                LocalCryptoAvailability::AccountBoundUnavailable(
                    LocalCryptoUnavailable::MissingTenantRootKey,
                ),
            );
        },
        Some(active) => active,
    };
    proof {
        assert(cache@ =~= all.drop_last());
        assert(active == all.last());
    }
    match unwrap_local_cache_entries(bound.tenant_id, &active, &cache) {
        None => {
            proof {
                if active.key is None {
                    assert(all[all.len() - 1].key is None);
                } else {
                    let i = choose|i: int|
                        0 <= i < cache@.len() && (#[trigger] cache@[i]).key is None;
                    assert(all[i].key is None);
                }
            }
            Ok(
                LocalCryptoAvailability::AccountBoundUnavailable(
                    LocalCryptoUnavailable::CorruptKeyCache,
                ),
            )
        },
        Some(sync_keys) => {
            proof {
                assert forall|i: int| 0 <= i < all.len() implies (
                #[trigger] all[i]).key is Some by {
                    if i < all.len() - 1 {
                        assert(cache@[i] == all[i]);
                    }
                }
            }
            Ok(
                LocalCryptoAvailability::Ready(
                    Box::new(
                        LocalCryptoContext {
                            tenant_id: bound.tenant_id,
                            user_id: bound.user_id,
                            device_id: bound.device_id,
                            master_key,
                            sync_keys,
                        },
                    ),
                ),
            )
        },
    }
}

impl LocalSyncKeys {
    /// The same keys in a value of their own.
    pub fn duplicate(&self) -> (r: LocalSyncKeys)
        ensures
            r.tenant_id == self.tenant_id,
            r.tenant_root_dek == self.tenant_root_dek,
            r.tenant_generation == self.tenant_generation,
            r.historical_tenant_root_deks@ == self.historical_tenant_root_deks@,
    {
        let mut older: Vec<(u64, [u8; 32])> = Vec::new();
        let mut i: usize = 0;
        while i < self.historical_tenant_root_deks.len()
            invariant
                i <= self.historical_tenant_root_deks@.len(),
                older@ == self.historical_tenant_root_deks@.take(i as int),
            decreases self.historical_tenant_root_deks@.len() - i,
        {
            older.push(self.historical_tenant_root_deks[i]);
            proof {
                assert(older@ =~= self.historical_tenant_root_deks@.take(i + 1));
            }
            i = i + 1;
        }
        proof {
            assert(older@ =~= self.historical_tenant_root_deks@);
        }
        LocalSyncKeys {
            tenant_id: self.tenant_id,
            tenant_root_dek: self.tenant_root_dek,
            tenant_generation: self.tenant_generation,
            historical_tenant_root_deks: older,
        }
    }
}

impl LocalCryptoContext {
    pub fn tenant_id(&self) -> (r: Uuid)
        ensures
            r == self.tenant_id,
    {
        self.tenant_id
    }

    pub fn user_id(&self) -> (r: Uuid)
        ensures
            r == self.user_id,
    {
        self.user_id
    }

    pub fn device_id(&self) -> (r: Uuid)
        ensures
            r == self.device_id,
    {
        self.device_id
    }

    pub fn master_key(&self) -> (r: &[u8; 32])
        ensures
            *r == self.master_key,
    {
        &self.master_key
    }

    pub fn sync_keys(&self) -> (r: &LocalSyncKeys)
        ensures
            *r == self.sync_keys,
    {
        &self.sync_keys
    }

    /// What local mutations are stamped and encrypted with.
    pub fn mutation_context(&self) -> (r: LocalMutationContext)
        ensures
            r.device_id@ == self.device_id.text_spec(),
            r.keys.tenant_id == self.sync_keys.tenant_id,
            r.keys.tenant_root_dek == self.sync_keys.tenant_root_dek,
            r.keys.tenant_generation == self.sync_keys.tenant_generation,
            r.keys.historical_tenant_root_deks@ == self.sync_keys.historical_tenant_root_deks@,
    {
        LocalMutationContext { device_id: self.device_id.text(), keys: self.sync_keys.duplicate() }
    }
}

proof fn lemma_merged_bounds(generation: u64, key: Seq<u8>, historical: Seq<(u64, Seq<u8>)>)
    requires
        merged(generation, key, historical) is Ok,
    ensures
        merged(generation, key, historical)->Ok_0.contains_key(generation),
        merged(generation, key, historical)->Ok_0[generation] == key,
        forall|g: u64| #[trigger]
            merged(generation, key, historical)->Ok_0.contains_key(g) ==> g <= generation,
    decreases historical.len(),
{
    if historical.len() > 0 {
        lemma_merged_bounds(generation, key, historical.drop_last());
    }
}

/// The active key is what its generation stands for, and no generation of the set
/// is newer than it.
pub proof fn law_merged_active_is_newest(
    generation: u64,
    key: Seq<u8>,
    historical: Seq<(u64, Seq<u8>)>,
)
    requires
        merged(generation, key, historical) is Ok,
    ensures
        merged(generation, key, historical)->Ok_0[generation] == key,
        forall|g: u64| #[trigger]
            merged(generation, key, historical)->Ok_0.contains_key(g) ==> g <= generation,
{
    lemma_merged_bounds(generation, key, historical);
}

/// The generation of a profile never moves backwards: where keys are accepted, the
/// newest cached generation is at most the new one.
pub proof fn law_generation_never_moves_backwards(
    binding: Result<Option<LocalProfileBinding>, StorageError>,
    cache: Vec<CachedTenantRoot>,
    identity: LocalCryptoIdentity,
    sync_keys: LocalSyncKeys,
)
    requires
        accepted_keys(binding, Ok(cache), identity, sync_keys) is Ok,
    ensures
        cache@.len() > 0 ==> cache@.last().bundle.generation <= sync_keys.tenant_generation,
        binding->Ok_0 matches Some(bound) ==> bound.tenant_id == identity.tenant_id
            && bound.user_id == identity.user_id,
{
}

/// The same keys give the same ciphertexts: a stored bundle of a cached generation
/// is the cached bundle.
pub proof fn law_cached_bundles_are_kept<W: Fn(Uuid, u64, [u8; 32]) -> Option<Vec<u8>>>(
    update: LocalCryptoUpdate,
    wrap: W,
    bound: Option<LocalProfileBinding>,
    cache: Seq<CachedTenantRoot>,
    identity: LocalCryptoIdentity,
    master_key: Seq<u8>,
    sync_keys: LocalSyncKeys,
    keys: KeyMap,
    now_ms: i64,
    i: int,
)
    requires
        update_holds(
            update,
            wrap,
            bound,
            cache,
            identity,
            master_key,
            sync_keys,
            keys,
            now_ms,
        ),
        0 <= i < update.tenant_roots@.len(),
        cached_at(cache, update.tenant_roots@[i].generation) is Some,
    ensures
        same_bundle(
            update.tenant_roots@[i],
            cache[cached_at(cache, update.tenant_roots@[i].generation).unwrap()].bundle,
        ),
        cache[cached_at(cache, update.tenant_roots@[i].generation).unwrap()].key.unwrap()@
            == keys[update.tenant_roots@[i].generation],
{
    assert(stored_root(wrap, identity.tenant_id, now_ms, cache, keys, update.tenant_roots@[i]));
}

/// Reading back: when every stored bundle unwraps to the key it was made for, a
/// profile opened from what was stored has the keys that were handed over.
pub proof fn law_stored_keys_load_back<W: Fn(Uuid, u64, [u8; 32]) -> Option<Vec<u8>>>(
    update: LocalCryptoUpdate,
    wrap: W,
    bound: Option<LocalProfileBinding>,
    cache: Seq<CachedTenantRoot>,
    identity: LocalCryptoIdentity,
    master_key: [u8; 32],
    sync_keys: LocalSyncKeys,
    keys: KeyMap,
    now_ms: i64,
    reloaded: Vec<CachedTenantRoot>,
    r: Result<LocalCryptoAvailability, StorageError>,
)
    requires
        sync_keys.tenant_root_dek is Some,
        merged(
            sync_keys.tenant_generation,
            sync_keys.tenant_root_dek.unwrap()@,
            key_views(sync_keys.historical_tenant_root_deks@),
        ) == Ok::<KeyMap, SchemaFault>(keys),
        update_holds(
            update,
            wrap,
            bound,
            cache,
            identity,
            master_key@,
            sync_keys,
            keys,
            now_ms,
        ),
        reloaded@.len() == update.tenant_roots@.len(),
        forall|i: int|
            0 <= i < reloaded@.len() ==> {
                &&& same_bundle((#[trigger] reloaded@[i]).bundle, update.tenant_roots@[i])
                &&& reloaded@[i].key is Some
                &&& reloaded@[i].key.unwrap()@ == keys[reloaded@[i].bundle.generation]
            },
        availability(Ok(Some(update.binding)), Some(master_key), Ok(reloaded), r),
    ensures
        r is Ok,
        r->Ok_0 is Ready,
        context_holds(
            *r->Ok_0->Ready_0,
            identity,
            master_key@,
            sync_keys.tenant_generation,
            sync_keys.tenant_root_dek.unwrap()@,
            keys,
        ),
{
    let generation = sync_keys.tenant_generation;
    let roots = update.tenant_roots@;
    lemma_merged_bounds(
        generation,
        sync_keys.tenant_root_dek.unwrap()@,
        key_views(sync_keys.historical_tenant_root_deks@),
    );
    assert(keys.contains_key(generation));
    let at = choose|i: int| 0 <= i < roots.len() && (#[trigger] roots[i]).generation == generation;
    let last = roots.len() - 1;
    assert(stored_root(wrap, identity.tenant_id, now_ms, cache, keys, roots[last]));
    if at < last {
        assert(roots[at].generation < roots[last].generation);
    }
    assert(roots[last].generation == generation);
    assert(same_bundle(reloaded@[last].bundle, roots[last]));
    let context = *r->Ok_0->Ready_0;
    let older = context.sync_keys.historical_tenant_root_deks@;
    let front = reloaded@.drop_last();
    assert forall|i: int| 0 <= i < older.len() implies {
        &&& (#[trigger] older[i]).0 == roots[i].generation
        &&& older[i].1@ == keys[roots[i].generation]
        &&& keys.contains_key(roots[i].generation)
        &&& roots[i].generation < generation
    } by {
        assert(front[i] == reloaded@[i]);
        assert(same_bundle(reloaded@[i].bundle, roots[i]));
        assert(stored_root(wrap, identity.tenant_id, now_ms, cache, keys, roots[i]));
        assert(roots[i].generation < roots[last].generation);
    }
    assert(ascending(older)) by {
        assert forall|i: int, j: int| 0 <= i < j < older.len() implies (#[trigger] older[i]).0 < (
        #[trigger] older[j]).0 by {
            assert(roots[i].generation < roots[j].generation);
        }
    }
    let left = key_map(older);
    let right = keys.remove(generation);
    assert forall|g: u64| left.contains_key(g) == right.contains_key(g) by {
        if left.contains_key(g) {
            let i = choose|i: int| 0 <= i < older.len() && (#[trigger] older[i]).0 == g;
            assert(older[i].0 == roots[i].generation);
        }
        if right.contains_key(g) {
            assert(keys.contains_key(g));
            let i = choose|i: int| 0 <= i < roots.len() && (#[trigger] roots[i]).generation == g;
            assert(i < last);
            assert(older[i].0 == g);
        }
    }
    assert forall|g: u64| left.contains_key(g) implies left[g] == right[g] by {
        let i = choose|i: int| 0 <= i < older.len() && (#[trigger] older[i]).0 == g;
        lemma_key_map_at(older, i);
    }
    assert(left =~= right);
}

} // verus!
