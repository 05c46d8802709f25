//! The keys of a profile: what is accepted, what is stored of it, and what a profile
//! offers that is opened from what was stored.
use vstd::prelude::*;
use crate::error::{SchemaFault, StorageError};
use crate::ids::Uuid;
use crate::local_crypto;
use crate::local_crypto::{
    CachedTenantRoot, KeyMap, LocalCryptoAvailability, LocalCryptoContext, LocalCryptoIdentity,
    LocalCryptoUnavailable, LocalCryptoUpdate, LocalProfileBinding, LocalSyncKeys,
    LocalTenantRootKeyBundle,
};

verus! {

/// A key set that is accepted holds exactly the active generation, with the active key,
/// and every older generation that was handed over, with the key that it was handed over
/// with. Every older generation lies between zero and the active one.
pub proof fn law_accepted_set_holds_every_key(
    generation: u64,
    key: Seq<u8>,
    historical: Seq<(u64, Seq<u8>)>,
)
    requires
        local_crypto::merged(generation, key, historical) is Ok,
    ensures
        local_crypto::merged(generation, key, historical)->Ok_0.contains_key(generation),
        local_crypto::merged(generation, key, historical)->Ok_0[generation] == key,
        forall|i: int|
            0 <= i < historical.len() ==> local_crypto::merged(
                generation,
                key,
                historical,
            )->Ok_0.contains_key((#[trigger] historical[i]).0),
        forall|i: int|
            0 <= i < historical.len() ==> local_crypto::merged(
                generation,
                key,
                historical,
            )->Ok_0[(#[trigger] historical[i]).0] == historical[i].1,
        forall|i: int|
            0 <= i < historical.len() ==> 0 < (#[trigger] historical[i]).0 < generation,
        forall|g: u64| #[trigger]
            local_crypto::merged(generation, key, historical)->Ok_0.contains_key(g) ==> g
                == generation || exists|i: int|
                0 <= i < historical.len() && (#[trigger] historical[i]).0 == g,
    decreases historical.len(),
{
    if historical.len() > 0 {
        let before = historical.drop_last();
        let last = historical.len() - 1;
        law_accepted_set_holds_every_key(generation, key, before);
        let keys = local_crypto::merged(generation, key, before)->Ok_0;
        let all = local_crypto::merged(generation, key, historical)->Ok_0;
        assert(all == keys.insert(historical[last].0, historical[last].1));
        assert forall|i: int| 0 <= i < historical.len() implies all.contains_key(
            (#[trigger] historical[i]).0,
        ) && all[historical[i].0] == historical[i].1 && 0 < historical[i].0 < generation by {
            if i < last {
                assert(before[i] == historical[i]);
            }
        }
        assert forall|g: u64| #[trigger] all.contains_key(g) && g != generation implies exists|
            i: int,
        |
            0 <= i < historical.len() && (#[trigger] historical[i]).0 == g by {
            if g == historical[last].0 {
                assert(historical[last].0 == g);
            } else {
                assert(keys.contains_key(g));
                let i = choose|i: int| 0 <= i < before.len() && (#[trigger] before[i]).0 == g;
                assert(historical[i].0 == g);
            }
        }
    }
}

/// Keys are accepted where every older generation lies between zero and the active one
/// and no generation comes with two keys.
pub proof fn law_sound_keys_are_accepted(
    generation: u64,
    key: Seq<u8>,
    historical: Seq<(u64, Seq<u8>)>,
)
    requires
        forall|i: int|
            0 <= i < historical.len() ==> 0 < (#[trigger] historical[i]).0 < generation,
        forall|i: int, j: int|
            0 <= i < historical.len() && 0 <= j < historical.len() && (#[trigger] historical[i]).0
                == (#[trigger] historical[j]).0 ==> historical[i].1 == historical[j].1,
    ensures
        local_crypto::merged(generation, key, historical) is Ok,
    decreases historical.len(),
{
    if historical.len() > 0 {
        let before = historical.drop_last();
        let last = historical.len() - 1;
        assert forall|i: int| 0 <= i < before.len() implies 0 < (
        #[trigger] before[i]).0 < generation by {
            assert(before[i] == historical[i]);
        }
        assert forall|i: int, j: int|
            0 <= i < before.len() && 0 <= j < before.len() && (#[trigger] before[i]).0 == (
            #[trigger] before[j]).0 implies before[i].1 == before[j].1 by {
            assert(historical[i].0 == historical[j].0);
        }
        law_sound_keys_are_accepted(generation, key, before);
        law_accepted_set_holds_every_key(generation, key, before);
        let keys = local_crypto::merged(generation, key, before)->Ok_0;
        let older = historical[last].0;
        assert(0 < historical[last].0 < generation);
        if keys.contains_key(older) {
            let i = choose|i: int| 0 <= i < before.len() && (#[trigger] before[i]).0 == older;
            assert(historical[i].0 == historical[last].0);
            assert(before[i] == historical[i]);
        }
    }
}

/// The first older key that does not fit decides, whatever comes after it: one that is
/// not before the active generation, one of generation zero, or one that comes with
/// another key than before.
pub proof fn law_first_unsound_key_decides(
    generation: u64,
    key: Seq<u8>,
    before: Seq<(u64, Seq<u8>)>,
    older: u64,
    older_key: Seq<u8>,
    after: Seq<(u64, Seq<u8>)>,
)
    requires
        local_crypto::merged(generation, key, before) is Ok,
    ensures
        older >= generation ==> local_crypto::merged(
            generation,
            key,
            before.push((older, older_key)) + after,
        ) == Err::<KeyMap, SchemaFault>(SchemaFault::HistoricalNotBeforeActive),
        older == 0 && generation > 0 ==> local_crypto::merged(
            generation,
            key,
            before.push((older, older_key)) + after,
        ) == Err::<KeyMap, SchemaFault>(SchemaFault::InvalidGeneration),
        0 < older < generation && (exists|i: int|
            0 <= i < before.len() && (#[trigger] before[i]).0 == older && before[i].1
                != older_key) ==> local_crypto::merged(
            generation,
            key,
            before.push((older, older_key)) + after,
        ) == Err::<KeyMap, SchemaFault>(SchemaFault::RootChangedWithoutGeneration),
    decreases after.len(),
{
    let all = before.push((older, older_key)) + after;
    if after.len() == 0 {
        law_accepted_set_holds_every_key(generation, key, before);
        assert(all =~= before.push((older, older_key)));
        assert(all.drop_last() =~= before);
    } else {
        law_first_unsound_key_decides(
            generation,
            key,
            before,
            older,
            older_key,
            after.drop_last(),
        );
        assert(all.drop_last() =~= before.push((older, older_key)) + after.drop_last());
    }
}

/// A key is refused where its generation is zero or stands in the set with another key,
/// and nowhere else.
pub proof fn law_merging_one_key(keys: KeyMap, generation: u64, key: Seq<u8>)
    ensures
        local_crypto::merge_fault(keys, generation, key) is None <==> generation > 0 && (
        keys.contains_key(generation) ==> keys[generation] == key),
        generation == 0 ==> local_crypto::merge_fault(keys, generation, key) == Some(
            SchemaFault::InvalidGeneration,
        ),
        generation > 0 && keys.contains_key(generation) && keys[generation] != key
            ==> local_crypto::merge_fault(keys, generation, key) == Some(
            SchemaFault::RootChangedWithoutGeneration,
        ),
{
}

/// A list of keys in ascending order stands for the set of its generations, each with
/// the key beside it.
pub proof fn law_key_list_stands_for_its_pairs(keys: Seq<(u64, [u8; 32])>, i: int)
    requires
        local_crypto::ascending(keys),
        0 <= i < keys.len(),
    ensures
        local_crypto::key_map(keys).contains_key(keys[i].0),
        local_crypto::key_map(keys)[keys[i].0] == keys[i].1@,
        forall|j: int| 0 <= j < i ==> (#[trigger] keys[j]).0 < keys[i].0,
        forall|j: int| i < j < keys.len() ==> keys[i].0 < (#[trigger] keys[j]).0,
        forall|g: u64| #[trigger]
            local_crypto::key_map(keys).contains_key(g) ==> exists|j: int|
                0 <= j < keys.len() && (#[trigger] keys[j]).0 == g,
{
    assert(keys[i].0 == keys[i].0);
    let k = choose|k: int| 0 <= k < keys.len() && (#[trigger] keys[k]).0 == keys[i].0;
    assert(k == i);
}

/// The keys that were handed over are seen as they are, pair for pair.
pub proof fn law_key_views_keep_the_pairs(keys: Seq<(u64, [u8; 32])>)
    ensures
        local_crypto::key_views(keys).len() == keys.len(),
        forall|i: int|
            0 <= i < keys.len() ==> (#[trigger] local_crypto::key_views(keys)[i]).0 == keys[i].0
                && local_crypto::key_views(keys)[i].1 == keys[i].1@,
{
}

/// Keys are accepted only with an active key of a generation above zero, only for the
/// tenant and the user that the profile is bound to, only where no cached generation is
/// newer and every cached key could be read; a cache without a binding is refused. The
/// first of these that fails, in this order, is the answer, and a failed read is passed
/// on where it is made.
pub proof fn law_keys_are_refused_in_order(
    binding: Result<Option<LocalProfileBinding>, StorageError>,
    roots: Result<Vec<CachedTenantRoot>, StorageError>,
    identity: LocalCryptoIdentity,
    sync_keys: LocalSyncKeys,
)
    ensures
        sync_keys.tenant_root_dek is None ==> local_crypto::accepted_keys(
            binding,
            roots,
            identity,
            sync_keys,
        ) == Err::<KeyMap, StorageError>(
            StorageError::IncompatibleSchema(SchemaFault::TenantRootMissing),
        ),
        sync_keys.tenant_root_dek is Some && sync_keys.tenant_generation == 0
            ==> local_crypto::accepted_keys(binding, roots, identity, sync_keys) == Err::<
            KeyMap,
            StorageError,
        >(StorageError::IncompatibleSchema(SchemaFault::InvalidActiveGeneration)),
        sync_keys.tenant_root_dek is Some && sync_keys.tenant_generation > 0 && binding is Err
            ==> local_crypto::accepted_keys(binding, roots, identity, sync_keys) == Err::<
            KeyMap,
            StorageError,
        >(binding->Err_0),
        sync_keys.tenant_root_dek is Some && sync_keys.tenant_generation > 0 && binding is Ok && (
        binding->Ok_0 matches Some(bound) && bound.tenant_id != identity.tenant_id)
            ==> local_crypto::accepted_keys(binding, roots, identity, sync_keys) == Err::<
            KeyMap,
            StorageError,
        >(
            StorageError::LocalProfileTenantMismatch {
                bound_tenant_id: binding->Ok_0->Some_0.tenant_id,
                requested_tenant_id: identity.tenant_id,
            },
        ),
        sync_keys.tenant_root_dek is Some && sync_keys.tenant_generation > 0 && binding is Ok && (
        binding->Ok_0 matches Some(bound) && bound.tenant_id == identity.tenant_id && bound.user_id
            != identity.user_id) ==> local_crypto::accepted_keys(
            binding,
            roots,
            identity,
            sync_keys,
        ) == Err::<KeyMap, StorageError>(
            StorageError::LocalProfileUserMismatch {
                bound_user_id: binding->Ok_0->Some_0.user_id,
                requested_user_id: identity.user_id,
            },
        ),
        sync_keys.tenant_root_dek is Some && sync_keys.tenant_generation > 0 && binding is Ok && (
        binding->Ok_0 matches Some(bound) ==> bound.tenant_id == identity.tenant_id
            && bound.user_id == identity.user_id) && roots is Err ==> local_crypto::accepted_keys(
            binding,
            roots,
            identity,
            sync_keys,
        ) == Err::<KeyMap, StorageError>(roots->Err_0),
{
}

/// Once the binding and the cache were read and the binding fits, the cache decides: keys
/// without a binding are refused, then a newest generation above the active one, then a
/// key that could not be read; a cache that passes leaves the answer to the keys.
pub proof fn law_cache_decides_in_order(
    binding: Option<LocalProfileBinding>,
    cache: Vec<CachedTenantRoot>,
    identity: LocalCryptoIdentity,
    sync_keys: LocalSyncKeys,
)
    requires
        sync_keys.tenant_root_dek is Some,
        sync_keys.tenant_generation > 0,
        binding matches Some(bound) ==> bound.tenant_id == identity.tenant_id && bound.user_id
            == identity.user_id,
    ensures
        binding is None && cache@.len() > 0 ==> local_crypto::accepted_keys(
            Ok(binding),
            Ok(cache),
            identity,
            sync_keys,
        ) == Err::<KeyMap, StorageError>(
            StorageError::IncompatibleSchema(SchemaFault::CacheWithoutBinding),
        ),
        binding is Some && cache@.len() > 0 && cache@[cache@.len() - 1].bundle.generation
            > sync_keys.tenant_generation ==> local_crypto::accepted_keys(
            Ok(binding),
            Ok(cache),
            identity,
            sync_keys,
        ) == Err::<KeyMap, StorageError>(
            StorageError::IncompatibleSchema(SchemaFault::GenerationMovedBackwards),
        ),
        binding is Some && cache@.len() > 0 && cache@[cache@.len() - 1].bundle.generation
            <= sync_keys.tenant_generation && (exists|i: int|
            0 <= i < cache@.len() && (#[trigger] cache@[i]).key is None)
            ==> local_crypto::accepted_keys(Ok(binding), Ok(cache), identity, sync_keys) == Err::<
            KeyMap,
            StorageError,
        >(StorageError::IncompatibleSchema(SchemaFault::CachedRootUnauthenticated)),
        (cache@.len() == 0 || (binding is Some && cache@[cache@.len() - 1].bundle.generation
            <= sync_keys.tenant_generation && (forall|i: int|
            0 <= i < cache@.len() ==> (#[trigger] cache@[i]).key is Some))) ==> (
        local_crypto::accepted_keys(Ok(binding), Ok(cache), identity, sync_keys) is Ok
            <==> local_crypto::merged(
            sync_keys.tenant_generation,
            sync_keys.tenant_root_dek.unwrap()@,
            local_crypto::key_views(sync_keys.historical_tenant_root_deks@),
        ) is Ok),
{
}

/// What is accepted is the active key and every older key that was handed over, each
/// under its generation, and nothing else.
pub proof fn law_accepted_keys_are_those_handed_over(
    binding: Result<Option<LocalProfileBinding>, StorageError>,
    roots: Result<Vec<CachedTenantRoot>, StorageError>,
    identity: LocalCryptoIdentity,
    sync_keys: LocalSyncKeys,
)
    requires
        local_crypto::accepted_keys(binding, roots, identity, sync_keys) is Ok,
    ensures
        sync_keys.tenant_root_dek is Some,
        sync_keys.tenant_generation > 0,
        local_crypto::accepted_keys(binding, roots, identity, sync_keys)->Ok_0.contains_key(
            sync_keys.tenant_generation,
        ),
        local_crypto::accepted_keys(
            binding,
            roots,
            identity,
            sync_keys,
        )->Ok_0[sync_keys.tenant_generation] == sync_keys.tenant_root_dek->Some_0@,
        forall|i: int|
            0 <= i < sync_keys.historical_tenant_root_deks@.len() ==> local_crypto::accepted_keys(
                binding,
                roots,
                identity,
                sync_keys,
            )->Ok_0.contains_key((#[trigger] sync_keys.historical_tenant_root_deks@[i]).0)
                && local_crypto::accepted_keys(
                binding,
                roots,
                identity,
                sync_keys,
            )->Ok_0[sync_keys.historical_tenant_root_deks@[i].0]
                == sync_keys.historical_tenant_root_deks@[i].1@,
        forall|g: u64| #[trigger]
            local_crypto::accepted_keys(binding, roots, identity, sync_keys)->Ok_0.contains_key(g)
                ==> g == sync_keys.tenant_generation || exists|i: int|
                0 <= i < sync_keys.historical_tenant_root_deks@.len() && (
                #[trigger] sync_keys.historical_tenant_root_deks@[i]).0 == g,
        forall|i: int|
            0 <= i < sync_keys.historical_tenant_root_deks@.len() ==> 0 < (
            #[trigger] sync_keys.historical_tenant_root_deks@[i]).0 < sync_keys.tenant_generation,
{
    let handed = sync_keys.historical_tenant_root_deks@;
    let views = local_crypto::key_views(handed);
    let generation = sync_keys.tenant_generation;
    let active = sync_keys.tenant_root_dek.unwrap()@;
    law_key_views_keep_the_pairs(handed);
    law_accepted_set_holds_every_key(generation, active, views);
    let keys = local_crypto::accepted_keys(binding, roots, identity, sync_keys)->Ok_0;
    assert forall|i: int| 0 <= i < handed.len() implies keys.contains_key((#[trigger] handed[i]).0)
        && keys[handed[i].0] == handed[i].1@ && 0 < handed[i].0 < generation by {
        assert(views[i].0 == handed[i].0);
    }
    assert forall|g: u64| #[trigger] keys.contains_key(g) && g != generation implies exists|i: int|
        0 <= i < handed.len() && (#[trigger] handed[i]).0 == g by {
        let i = choose|i: int| 0 <= i < views.len() && (#[trigger] views[i]).0 == g;
        assert(handed[i].0 == g);
    }
}

/// Storing keys stores a bundle for the active generation and for every older generation
/// that was handed over, for no other, and each once.
pub proof fn law_every_generation_is_stored<W: Fn(Uuid, u64, [u8; 32]) -> Option<Vec<u8>>>(
    binding: Result<Option<LocalProfileBinding>, StorageError>,
    roots: Result<Vec<CachedTenantRoot>, StorageError>,
    identity: LocalCryptoIdentity,
    master_key: [u8; 32],
    sync_keys: LocalSyncKeys,
    now_ms: i64,
    wrap: W,
    r: Result<LocalCryptoUpdate, StorageError>,
)
    requires
        call_ensures(
            local_crypto::persist_local_crypto_context_in_transaction::<W>,
            (binding, roots, identity, &master_key, &sync_keys, now_ms, wrap),
            r,
        ),
        r is Ok,
    ensures
        exists|j: int|
            0 <= j < r->Ok_0.tenant_roots@.len() && (
            #[trigger] r->Ok_0.tenant_roots@[j]).generation == sync_keys.tenant_generation,
        forall|i: int|
            0 <= i < sync_keys.historical_tenant_root_deks@.len() ==> exists|j: int|
                0 <= j < r->Ok_0.tenant_roots@.len() && (
                #[trigger] r->Ok_0.tenant_roots@[j]).generation == (
                #[trigger] sync_keys.historical_tenant_root_deks@[i]).0,
        forall|j: int|
            0 <= j < r->Ok_0.tenant_roots@.len() ==> (
            #[trigger] r->Ok_0.tenant_roots@[j]).generation == sync_keys.tenant_generation
                || exists|i: int|
                0 <= i < sync_keys.historical_tenant_root_deks@.len() && (
                #[trigger] sync_keys.historical_tenant_root_deks@[i]).0
                    == r->Ok_0.tenant_roots@[j].generation,
        forall|i: int, j: int|
            0 <= i < j < r->Ok_0.tenant_roots@.len() ==> (
            #[trigger] r->Ok_0.tenant_roots@[i]).generation < (
            #[trigger] r->Ok_0.tenant_roots@[j]).generation,
{
    law_accepted_keys_are_those_handed_over(binding, roots, identity, sync_keys);
    let keys = local_crypto::accepted_keys(binding, roots, identity, sync_keys)->Ok_0;
    let update = r->Ok_0;
    assert(keys.contains_key(sync_keys.tenant_generation));
    assert forall|i: int| 0 <= i < sync_keys.historical_tenant_root_deks@.len() implies exists|
        j: int,
    |
        0 <= j < update.tenant_roots@.len() && (#[trigger] update.tenant_roots@[j]).generation == (
        #[trigger] sync_keys.historical_tenant_root_deks@[i]).0 by {
        assert(keys.contains_key(sync_keys.historical_tenant_root_deks@[i].0));
    }
    assert forall|j: int| 0 <= j < update.tenant_roots@.len() implies keys.contains_key(
        (#[trigger] update.tenant_roots@[j]).generation,
    ) by {
        assert(local_crypto::stored_root(
            wrap,
            identity.tenant_id,
            now_ms,
            roots->Ok_0@,
            keys,
            update.tenant_roots@[j],
        ));
    }
}

/// The profile that is opened with stored keys is of the tenant, the user and the device
/// that the keys were handed over for, under the same master key; it has the active key,
/// and as older keys exactly those that were handed over, oldest first.
pub proof fn law_context_has_every_key<W: Fn(Uuid, u64, [u8; 32]) -> Option<Vec<u8>>>(
    binding: Result<Option<LocalProfileBinding>, StorageError>,
    roots: Result<Vec<CachedTenantRoot>, StorageError>,
    identity: LocalCryptoIdentity,
    master_key: [u8; 32],
    sync_keys: LocalSyncKeys,
    now_ms: i64,
    wrap: W,
    r: Result<LocalCryptoUpdate, StorageError>,
)
    requires
        call_ensures(
            local_crypto::persist_local_crypto_context_in_transaction::<W>,
            (binding, roots, identity, &master_key, &sync_keys, now_ms, wrap),
            r,
        ),
        r is Ok,
    ensures
        r->Ok_0.context.tenant_id == identity.tenant_id,
        r->Ok_0.context.user_id == identity.user_id,
        r->Ok_0.context.device_id == identity.device_id,
        r->Ok_0.context.master_key@ == master_key@,
        r->Ok_0.context.sync_keys.tenant_id == identity.tenant_id,
        r->Ok_0.context.sync_keys.tenant_generation == sync_keys.tenant_generation,
        r->Ok_0.context.sync_keys.tenant_root_dek is Some,
        r->Ok_0.context.sync_keys.tenant_root_dek->Some_0@ == sync_keys.tenant_root_dek->Some_0@,
        forall|i: int|
            0 <= i < sync_keys.historical_tenant_root_deks@.len() ==> exists|j: int|
                0 <= j < r->Ok_0.context.sync_keys.historical_tenant_root_deks@.len() && (
                #[trigger] r->Ok_0.context.sync_keys.historical_tenant_root_deks@[j]).0 == (
                #[trigger] sync_keys.historical_tenant_root_deks@[i]).0
                    && r->Ok_0.context.sync_keys.historical_tenant_root_deks@[j].1@
                    == sync_keys.historical_tenant_root_deks@[i].1@,
        forall|i: int, j: int|
            0 <= i < j < r->Ok_0.context.sync_keys.historical_tenant_root_deks@.len() ==> (
            #[trigger] r->Ok_0.context.sync_keys.historical_tenant_root_deks@[i]).0 < (
            #[trigger] r->Ok_0.context.sync_keys.historical_tenant_root_deks@[j]).0,
{
    law_accepted_keys_are_those_handed_over(binding, roots, identity, sync_keys);
    let keys = local_crypto::accepted_keys(binding, roots, identity, sync_keys)->Ok_0;
    let held = r->Ok_0.context.sync_keys.historical_tenant_root_deks@;
    let handed = sync_keys.historical_tenant_root_deks@;
    let map = local_crypto::key_map(held);
    assert(map == keys.remove(sync_keys.tenant_generation));
    assert forall|i: int| 0 <= i < handed.len() implies exists|j: int|
        0 <= j < held.len() && (#[trigger] held[j]).0 == (#[trigger] handed[i]).0 && held[j].1@
            == handed[i].1@ by {
        assert(map.contains_key(handed[i].0));
        let j = choose|j: int| 0 <= j < held.len() && (#[trigger] held[j]).0 == handed[i].0;
        law_key_list_stands_for_its_pairs(held, j);
    }
}

/// Every older key of the profile that is opened with stored keys was handed over, under
/// the same generation.
pub proof fn law_context_has_no_other_key<W: Fn(Uuid, u64, [u8; 32]) -> Option<Vec<u8>>>(
    binding: Result<Option<LocalProfileBinding>, StorageError>,
    roots: Result<Vec<CachedTenantRoot>, StorageError>,
    identity: LocalCryptoIdentity,
    master_key: [u8; 32],
    sync_keys: LocalSyncKeys,
    now_ms: i64,
    wrap: W,
    r: Result<LocalCryptoUpdate, StorageError>,
    j: int,
)
    requires
        call_ensures(
            local_crypto::persist_local_crypto_context_in_transaction::<W>,
            (binding, roots, identity, &master_key, &sync_keys, now_ms, wrap),
            r,
        ),
        r is Ok,
        0 <= j < r->Ok_0.context.sync_keys.historical_tenant_root_deks@.len(),
    ensures
        exists|i: int|
            0 <= i < sync_keys.historical_tenant_root_deks@.len() && (
            #[trigger] sync_keys.historical_tenant_root_deks@[i]).0
                == r->Ok_0.context.sync_keys.historical_tenant_root_deks@[j].0
                && sync_keys.historical_tenant_root_deks@[i].1@
                == r->Ok_0.context.sync_keys.historical_tenant_root_deks@[j].1@,
{
    law_accepted_keys_are_those_handed_over(binding, roots, identity, sync_keys);
    let keys = local_crypto::accepted_keys(binding, roots, identity, sync_keys)->Ok_0;
    let held = r->Ok_0.context.sync_keys.historical_tenant_root_deks@;
    let handed = sync_keys.historical_tenant_root_deks@;
    assert(local_crypto::key_map(held) == keys.remove(sync_keys.tenant_generation));
    law_key_list_stands_for_its_pairs(held, j);
    assert(keys.contains_key(held[j].0));
    let i = choose|i: int| 0 <= i < handed.len() && (#[trigger] handed[i]).0 == held[j].0;
    assert(keys[handed[i].0] == handed[i].1@);
    assert(handed[i].1@ == held[j].1@);
}

/// Storing keys binds the profile to the tenant, the user and the device; the time of the
/// first binding stays, and the time of the update is now.
pub proof fn law_binding_keeps_its_first_time<W: Fn(Uuid, u64, [u8; 32]) -> Option<Vec<u8>>>(
    binding: Result<Option<LocalProfileBinding>, StorageError>,
    roots: Result<Vec<CachedTenantRoot>, StorageError>,
    identity: LocalCryptoIdentity,
    master_key: [u8; 32],
    sync_keys: LocalSyncKeys,
    now_ms: i64,
    wrap: W,
    r: Result<LocalCryptoUpdate, StorageError>,
)
    requires
        call_ensures(
            local_crypto::persist_local_crypto_context_in_transaction::<W>,
            (binding, roots, identity, &master_key, &sync_keys, now_ms, wrap),
            r,
        ),
        r is Ok,
    ensures
        r->Ok_0.binding.tenant_id == identity.tenant_id,
        r->Ok_0.binding.user_id == identity.user_id,
        r->Ok_0.binding.device_id == identity.device_id,
        r->Ok_0.binding.updated_at == now_ms,
        binding is Ok,
        binding->Ok_0 is None ==> r->Ok_0.binding.bound_at == now_ms,
        binding->Ok_0 matches Some(bound) ==> r->Ok_0.binding.bound_at == bound.bound_at,
{
}

/// The bundle of a generation that is cached is the cached one, with its time; the bundle
/// of another is the accepted key, wrapped for the tenant and the generation now.
pub proof fn law_stored_bundle_is_cached_or_wrapped<
    W: Fn(Uuid, u64, [u8; 32]) -> Option<Vec<u8>>,
>(
    wrap: W,
    tenant_id: Uuid,
    now_ms: i64,
    cache: Seq<CachedTenantRoot>,
    keys: KeyMap,
    root: LocalTenantRootKeyBundle,
)
    requires
        local_crypto::stored_root(wrap, tenant_id, now_ms, cache, keys, root),
    ensures
        keys.contains_key(root.generation),
        (exists|i: int|
            0 <= i < cache.len() && (#[trigger] cache[i]).bundle.generation == root.generation)
            ==> exists|i: int|
            0 <= i < cache.len() && (#[trigger] cache[i]).bundle.generation == root.generation
                && cache[i].bundle.tenant_id == root.tenant_id
                && cache[i].bundle.wrapped_tenant_root_dek@ == root.wrapped_tenant_root_dek@
                && cache[i].bundle.updated_at == root.updated_at,
        (forall|i: int|
            0 <= i < cache.len() ==> (#[trigger] cache[i]).bundle.generation != root.generation)
            ==> root.tenant_id == tenant_id && root.updated_at == now_ms && exists|
            key: [u8; 32],
            wrapped: Option<Vec<u8>>,
        |
            key@ == keys[root.generation] && wrapped == Some(root.wrapped_tenant_root_dek)
                && #[trigger] wrap.ensures((tenant_id, root.generation, key), wrapped),
{
    law_cached_generation_is_found(cache, root.generation);
    if let Some(i) = local_crypto::cached_at(cache, root.generation) {
        assert(cache[i].bundle.generation == root.generation);
    }
}

/// A generation is found in the cache if and only if a cached bundle is of it, and what
/// is found is the newest such bundle.
pub proof fn law_cached_generation_is_found(cache: Seq<CachedTenantRoot>, generation: u64)
    ensures
        local_crypto::cached_at(cache, generation) is None <==> forall|i: int|
            0 <= i < cache.len() ==> (#[trigger] cache[i]).bundle.generation != generation,
        local_crypto::cached_at(cache, generation) matches Some(at) ==> 0 <= at < cache.len()
            && cache[at].bundle.generation == generation && forall|i: int|
            at < i < cache.len() ==> (#[trigger] cache[i]).bundle.generation != generation,
    decreases cache.len(),
{
    if cache.len() > 0 {
        let before = cache.drop_last();
        law_cached_generation_is_found(before, generation);
        if cache[cache.len() - 1].bundle.generation != generation {
            assert forall|i: int| 0 <= i < before.len() implies before[i] == cache[i] by {}
            if local_crypto::cached_at(before, generation) is None {
                assert forall|i: int| 0 <= i < cache.len() implies (
                #[trigger] cache[i]).bundle.generation != generation by {
                    if i < before.len() {
                        assert(before[i].bundle.generation != generation);
                    }
                }
            } else {
                let at = local_crypto::cached_at(before, generation)->Some_0;
                assert forall|i: int| at < i < cache.len() implies (
                #[trigger] cache[i]).bundle.generation != generation by {
                    if i < before.len() {
                        assert(before[i].bundle.generation != generation);
                    }
                }
                assert(cache[at].bundle.generation == generation);
            }
        }
    }
}

/// A generation conflicts if and only if it is cached with another key than the one that
/// was accepted.
pub proof fn law_conflict_is_another_key(
    cache: Seq<CachedTenantRoot>,
    keys: KeyMap,
    generation: u64,
    i: int,
)
    requires
        0 <= i < cache.len(),
        cache[i].bundle.generation == generation,
        forall|j: int|
            i < j < cache.len() ==> (#[trigger] cache[j]).bundle.generation != generation,
    ensures
        local_crypto::conflicting(cache, keys, generation) <==> cache[i].key.unwrap()@
            != keys[generation],
{
    law_cached_generation_is_found(cache, generation);
    let at = local_crypto::cached_at(cache, generation)->Some_0;
    assert(cache[i].bundle.generation == generation);
    assert(cache[at].bundle.generation == generation);
    assert(at == i);
}

/// A generation that is not cached conflicts with nothing.
pub proof fn law_uncached_generation_does_not_conflict(
    cache: Seq<CachedTenantRoot>,
    keys: KeyMap,
    generation: u64,
)
    requires
        forall|i: int|
            0 <= i < cache.len() ==> (#[trigger] cache[i]).bundle.generation != generation,
    ensures
        !local_crypto::conflicting(cache, keys, generation),
{
    law_cached_generation_is_found(cache, generation);
}

/// Two bundles are the same if and only if they agree in the tenant, the generation, the
/// wrapped key and the time.
pub proof fn law_same_bundle(a: LocalTenantRootKeyBundle, b: LocalTenantRootKeyBundle)
    ensures
        local_crypto::same_bundle(a, b) <==> a.tenant_id == b.tenant_id && a.generation
            == b.generation && a.wrapped_tenant_root_dek@ == b.wrapped_tenant_root_dek@
            && a.updated_at == b.updated_at,
{
}

/// Nothing is stored where a cached generation comes with another key.
pub proof fn law_conflicting_keys_are_not_stored<W: Fn(Uuid, u64, [u8; 32]) -> Option<Vec<u8>>>(
    binding: Result<Option<LocalProfileBinding>, StorageError>,
    cache: Vec<CachedTenantRoot>,
    identity: LocalCryptoIdentity,
    master_key: [u8; 32],
    sync_keys: LocalSyncKeys,
    now_ms: i64,
    wrap: W,
    r: Result<LocalCryptoUpdate, StorageError>,
    i: int,
    j: int,
)
    requires
        call_ensures(
            local_crypto::persist_local_crypto_context_in_transaction::<W>,
            (binding, Ok(cache), identity, &master_key, &sync_keys, now_ms, wrap),
            r,
        ),
        r is Ok,
        0 <= i < cache@.len(),
        forall|k: int|
            i < k < cache@.len() ==> (#[trigger] cache@[k]).bundle.generation
                != cache@[i].bundle.generation,
        0 <= j < sync_keys.historical_tenant_root_deks@.len(),
        sync_keys.historical_tenant_root_deks@[j].0 == cache@[i].bundle.generation,
    ensures
        cache@[i].key.unwrap()@ == sync_keys.historical_tenant_root_deks@[j].1@,
{
    law_accepted_keys_are_those_handed_over(binding, Ok(cache), identity, sync_keys);
    let keys = local_crypto::accepted_keys(binding, Ok(cache), identity, sync_keys)->Ok_0;
    let generation = cache@[i].bundle.generation;
    law_conflict_is_another_key(cache@, keys, generation, i);
    assert(keys.contains_key(sync_keys.historical_tenant_root_deks@[j].0));
}

/// Accepted keys are not stored for two reasons only: a cached generation comes with
/// another key, or an accepted key of a generation that is not cached could not be
/// wrapped.
pub proof fn law_storing_fails_for_a_reason<W: Fn(Uuid, u64, [u8; 32]) -> Option<Vec<u8>>>(
    binding: Result<Option<LocalProfileBinding>, StorageError>,
    cache: Vec<CachedTenantRoot>,
    identity: LocalCryptoIdentity,
    master_key: [u8; 32],
    sync_keys: LocalSyncKeys,
    now_ms: i64,
    wrap: W,
    r: Result<LocalCryptoUpdate, StorageError>,
)
    requires
        call_ensures(
            local_crypto::persist_local_crypto_context_in_transaction::<W>,
            (binding, Ok(cache), identity, &master_key, &sync_keys, now_ms, wrap),
            r,
        ),
        local_crypto::accepted_keys(binding, Ok(cache), identity, sync_keys) is Ok,
        r is Err,
    ensures
        r->Err_0 == StorageError::IncompatibleSchema(SchemaFault::RootChangedWithoutGeneration)
            || r->Err_0 == StorageError::IncompatibleSchema(SchemaFault::InvalidRootMaterial),
        r->Err_0 == StorageError::IncompatibleSchema(SchemaFault::RootChangedWithoutGeneration)
            ==> exists|i: int|
            0 <= i < cache@.len() && local_crypto::accepted_keys(
                binding,
                Ok(cache),
                identity,
                sync_keys,
            )->Ok_0.contains_key((#[trigger] cache@[i]).bundle.generation)
                && cache@[i].key.unwrap()@ != local_crypto::accepted_keys(
                binding,
                Ok(cache),
                identity,
                sync_keys,
            )->Ok_0[cache@[i].bundle.generation],
        r->Err_0 == StorageError::IncompatibleSchema(SchemaFault::InvalidRootMaterial)
            ==> exists|g: u64, key: [u8; 32]| #[trigger]
            wrap.ensures((identity.tenant_id, g, key), None) && local_crypto::accepted_keys(
                binding,
                Ok(cache),
                identity,
                sync_keys,
            )->Ok_0.contains_key(g) && key@ == local_crypto::accepted_keys(
                binding,
                Ok(cache),
                identity,
                sync_keys,
            )->Ok_0[g] && forall|i: int|
                0 <= i < cache@.len() ==> (#[trigger] cache@[i]).bundle.generation != g,
{
    let keys = local_crypto::accepted_keys(binding, Ok(cache), identity, sync_keys)->Ok_0;
    if r->Err_0 == StorageError::IncompatibleSchema(SchemaFault::RootChangedWithoutGeneration) {
        let g = choose|g: u64| #[trigger]
            keys.contains_key(g) && local_crypto::conflicting(cache@, keys, g)
                && local_crypto::got_to(wrap, identity.tenant_id, cache@, keys, g);
        law_cached_generation_is_found(cache@, g);
        let at = local_crypto::cached_at(cache@, g)->Some_0;
        assert(cache@[at].bundle.generation == g);
    } else {
        let (g, key) = choose|g: u64, key: [u8; 32]|
            {
                &&& keys.contains_key(g)
                &&& local_crypto::got_to(wrap, identity.tenant_id, cache@, keys, g)
                &&& local_crypto::cached_at(cache@, g) is None
                &&& key@ == keys[g]
                &&& #[trigger] wrap.ensures((identity.tenant_id, g, key), None)
            };
        law_cached_generation_is_found(cache@, g);
        assert(wrap.ensures((identity.tenant_id, g, key), None));
    }
}

/// What a profile offers: nothing bound is anonymous; without a master key, without a
/// cached key or with one that cannot be read the account is there and its keys are not;
/// otherwise the profile is of the bound tenant, user and device, under the master key,
/// with the newest cached key as the active one and the others, in order, as the older
/// ones. A failed read is passed on where it is made.
pub proof fn law_opened_profile(
    binding: Result<Option<LocalProfileBinding>, StorageError>,
    master_key: Option<[u8; 32]>,
    roots: Result<Vec<CachedTenantRoot>, StorageError>,
    r: Result<LocalCryptoAvailability, StorageError>,
)
    requires
        local_crypto::availability(binding, master_key, roots, r),
    ensures
        binding is Err ==> r is Err && r->Err_0 == binding->Err_0,
        binding is Ok && binding->Ok_0 is None ==> r is Ok && r->Ok_0 is Anonymous,
        binding is Ok && binding->Ok_0 is Some && master_key is None ==> r == Ok::<
            LocalCryptoAvailability,
            StorageError,
        >(
            LocalCryptoAvailability::AccountBoundUnavailable(
                LocalCryptoUnavailable::MissingMasterKey,
            ),
        ),
        binding is Ok && binding->Ok_0 is Some && master_key is Some && roots is Err ==> r is Err
            && r->Err_0 == roots->Err_0,
        binding is Ok && binding->Ok_0 is Some && master_key is Some && roots is Ok
            && roots->Ok_0@.len() == 0 ==> r == Ok::<LocalCryptoAvailability, StorageError>(
            LocalCryptoAvailability::AccountBoundUnavailable(
                LocalCryptoUnavailable::MissingTenantRootKey,
            ),
        ),
        binding is Ok && binding->Ok_0 is Some && master_key is Some && roots is Ok && (exists|
            i: int,
        |
            0 <= i < roots->Ok_0@.len() && (#[trigger] roots->Ok_0@[i]).key is None) ==> r == Ok::<
            LocalCryptoAvailability,
            StorageError,
        >(
            LocalCryptoAvailability::AccountBoundUnavailable(
                LocalCryptoUnavailable::CorruptKeyCache,
            ),
        ),
        binding is Ok && binding->Ok_0 is Some && master_key is Some && roots is Ok
            && roots->Ok_0@.len() > 0 && (forall|i: int|
            0 <= i < roots->Ok_0@.len() ==> (#[trigger] roots->Ok_0@[i]).key is Some) ==> r is Ok
            && r->Ok_0 is Ready,
{
}

/// A profile that is ready is of the bound tenant, user and device, under the master key,
/// and has the newest cached key as the active one.
pub proof fn law_ready_profile(
    context: LocalCryptoContext,
    bound: LocalProfileBinding,
    master_key: [u8; 32],
    cache: Seq<CachedTenantRoot>,
)
    requires
        cache.len() > 0,
        local_crypto::ready_context(context, bound, master_key, cache),
        forall|i: int| 0 <= i < cache.len() ==> (#[trigger] cache[i]).key is Some,
    ensures
        context.tenant_id == bound.tenant_id,
        context.user_id == bound.user_id,
        context.device_id == bound.device_id,
        context.master_key == master_key,
        context.sync_keys.tenant_id == bound.tenant_id,
        context.sync_keys.tenant_root_dek == cache[cache.len() - 1].key,
        context.sync_keys.tenant_generation == cache[cache.len() - 1].bundle.generation,
        context.sync_keys.historical_tenant_root_deks@.len() == cache.len() - 1,
        forall|i: int|
            0 <= i < cache.len() - 1 ==> (
            #[trigger] context.sync_keys.historical_tenant_root_deks@[i]).0
                == cache[i].bundle.generation
                && context.sync_keys.historical_tenant_root_deks@[i].1 == cache[i].key->Some_0,
{
    let older = cache.drop_last();
    assert forall|i: int| 0 <= i < older.len() implies (#[trigger] older[i]).key is Some by {
        assert(older[i] == cache[i]);
    }
}

/// A profile is ready only for a binding, a master key and cached keys, and it is then of
/// the bound tenant, user and device, under that master key, with the newest cached key as
/// the active one and every other cached key among the older ones.
pub proof fn law_ready_profile_is_the_bound_one(
    binding: Result<Option<LocalProfileBinding>, StorageError>,
    master_key: Option<[u8; 32]>,
    roots: Result<Vec<CachedTenantRoot>, StorageError>,
    r: Result<LocalCryptoAvailability, StorageError>,
)
    requires
        local_crypto::availability(binding, master_key, roots, r),
        r is Ok,
        r->Ok_0 is Ready,
    ensures
        binding is Ok && binding->Ok_0 is Some && master_key is Some && roots is Ok
            && roots->Ok_0@.len() > 0,
        r->Ok_0->Ready_0.tenant_id == binding->Ok_0->Some_0.tenant_id,
        r->Ok_0->Ready_0.user_id == binding->Ok_0->Some_0.user_id,
        r->Ok_0->Ready_0.device_id == binding->Ok_0->Some_0.device_id,
        r->Ok_0->Ready_0.master_key == master_key->Some_0,
        r->Ok_0->Ready_0.sync_keys.tenant_id == binding->Ok_0->Some_0.tenant_id,
        r->Ok_0->Ready_0.sync_keys.tenant_root_dek == roots->Ok_0@[roots->Ok_0@.len() - 1].key,
        r->Ok_0->Ready_0.sync_keys.tenant_generation == roots->Ok_0@[roots->Ok_0@.len()
            - 1].bundle.generation,
        r->Ok_0->Ready_0.sync_keys.historical_tenant_root_deks@.len() == roots->Ok_0@.len() - 1,
        forall|i: int|
            0 <= i < roots->Ok_0@.len() - 1 ==> (
            #[trigger] r->Ok_0->Ready_0.sync_keys.historical_tenant_root_deks@[i]).0
                == roots->Ok_0@[i].bundle.generation
                && r->Ok_0->Ready_0.sync_keys.historical_tenant_root_deks@[i].1
                == roots->Ok_0@[i].key->Some_0,
{
    law_ready_profile(
        *r->Ok_0->Ready_0,
        binding->Ok_0->Some_0,
        master_key->Some_0,
        roots->Ok_0@,
    );
}

/// Storing stops at the first generation that it does not get past: the keys of the cached
/// generations before one that could not be wrapped are those that are accepted.
pub proof fn law_generations_before_a_failed_one_agree<
    W: Fn(Uuid, u64, [u8; 32]) -> Option<Vec<u8>>,
>(
    wrap: W,
    tenant_id: Uuid,
    cache: Seq<CachedTenantRoot>,
    keys: local_crypto::KeyMap,
    g: u64,
    i: int,
)
    requires
        local_crypto::got_to(wrap, tenant_id, cache, keys, g),
        0 <= i < cache.len(),
        cache[i].bundle.generation < g,
        keys.contains_key(cache[i].bundle.generation),
        forall|j: int|
            0 <= j < cache.len() && j != i ==> (#[trigger] cache[j]).bundle.generation
                != cache[i].bundle.generation,
    ensures
        cache[i].key.unwrap()@ == keys[cache[i].bundle.generation],
{
    law_cached_generation_is_found(cache, cache[i].bundle.generation);
}

/// Storing stops at the first generation that it does not get past: the accepted keys of
/// the generations before it that are not cached could be wrapped.
pub proof fn law_generations_before_a_failed_one_are_wrapped<
    W: Fn(Uuid, u64, [u8; 32]) -> Option<Vec<u8>>,
>(
    wrap: W,
    tenant_id: Uuid,
    cache: Seq<CachedTenantRoot>,
    keys: local_crypto::KeyMap,
    g: u64,
    earlier: u64,
)
    requires
        local_crypto::got_to(wrap, tenant_id, cache, keys, g),
        earlier < g,
        keys.contains_key(earlier),
        forall|j: int| 0 <= j < cache.len() ==> (#[trigger] cache[j]).bundle.generation != earlier,
    ensures
        exists|key: [u8; 32], wrapped: Option<Vec<u8>>| #[trigger]
            wrap.ensures((tenant_id, earlier, key), wrapped) && wrapped is Some && key@
                == keys[earlier],
{
    law_cached_generation_is_found(cache, earlier);
}

/// Cached keys are put together if and only if each of them could be read: the active one
/// under its generation, and the older ones in order, each under its own.
pub proof fn law_cached_keys_put_together(
    tenant_id: Uuid,
    active: CachedTenantRoot,
    historical: Seq<CachedTenantRoot>,
    r: Option<LocalSyncKeys>,
)
    requires
        local_crypto::unwrapped_keys(tenant_id, active, historical, r),
    ensures
        r is Some <==> active.key is Some && forall|i: int|
            0 <= i < historical.len() ==> (#[trigger] historical[i]).key is Some,
        r matches Some(keys) ==> keys.tenant_id == tenant_id && keys.tenant_root_dek == active.key
            && keys.tenant_generation == active.bundle.generation
            && keys.historical_tenant_root_deks@.len() == historical.len(),
        r matches Some(keys) ==> forall|i: int|
            0 <= i < historical.len() ==> (#[trigger] keys.historical_tenant_root_deks@[i]).0
                == historical[i].bundle.generation && keys.historical_tenant_root_deks@[i].1
                == historical[i].key->Some_0,
{
}

} // verus!
