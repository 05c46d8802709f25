use taskveil::error::{SchemaFault, StorageError};
use taskveil::ids::Uuid;
use taskveil::local_crypto::{
    load_local_crypto_context, merge_semantic_tenant_key,
    persist_local_crypto_context_in_transaction, CachedTenantRoot, LocalCryptoAvailability,
    LocalCryptoIdentity, LocalCryptoUnavailable, LocalCryptoUpdate, LocalProfileBinding,
    LocalSyncKeys, LocalTenantRootKeyBundle, KEY_LEN,
};

const MASTER_KEY: [u8; KEY_LEN] = [0x41; KEY_LEN];
const NOW: i64 = 10;

/// What the database of one profile keeps of its keys, with a wrapping that gives other
/// bytes every time it is done.
struct Profile {
    binding: Option<LocalProfileBinding>,
    roots: Vec<(LocalTenantRootKeyBundle, [u8; KEY_LEN])>,
    runtime_epoch: i64,
    wrappings: u8,
}

fn copy_bundle(bundle: &LocalTenantRootKeyBundle) -> LocalTenantRootKeyBundle {
    LocalTenantRootKeyBundle {
        tenant_id: bundle.tenant_id,
        generation: bundle.generation,
        wrapped_tenant_root_dek: bundle.wrapped_tenant_root_dek.clone(),
        updated_at: bundle.updated_at,
    }
}

impl Profile {
    fn new() -> Self {
        Profile {
            binding: None,
            roots: Vec::new(),
            runtime_epoch: 1,
            wrappings: 0,
        }
    }

    fn cache(&self) -> Vec<CachedTenantRoot> {
        self.roots
            .iter()
            .map(|(bundle, key)| CachedTenantRoot {
                bundle: copy_bundle(bundle),
                key: Some(*key),
            })
            .collect()
    }

    fn persist(
        &mut self,
        identity: LocalCryptoIdentity,
        keys: &LocalSyncKeys,
        now: i64,
    ) -> Result<(), StorageError> {
        self.wrappings += 1;
        let salt = self.wrappings;
        let update: LocalCryptoUpdate = persist_local_crypto_context_in_transaction(
            Ok(self.binding),
            Ok(self.cache()),
            identity,
            &MASTER_KEY,
            keys,
            now,
            |_tenant: Uuid, _generation: u64, key: [u8; KEY_LEN]| Some(vec![salt, key[0]]),
        )?;
        let before: Vec<Vec<u8>> = self.wrapped();
        let bound = self.binding.is_some();
        self.roots = update
            .tenant_roots
            .iter()
            .map(|bundle| {
                let byte = bundle.wrapped_tenant_root_dek[1];
                (copy_bundle(bundle), [byte; KEY_LEN])
            })
            .collect();
        self.binding = Some(update.binding);
        if !bound || before != self.wrapped() {
            self.runtime_epoch += 1;
        }
        Ok(())
    }

    fn wrapped(&self) -> Vec<Vec<u8>> {
        self.roots
            .iter()
            .map(|(bundle, _)| bundle.wrapped_tenant_root_dek.clone())
            .collect()
    }

    fn load(&self, master_key: Option<[u8; KEY_LEN]>) -> LocalCryptoAvailability {
        load_local_crypto_context(Ok(self.binding), master_key, Ok(self.cache()))
            .ok()
            .unwrap()
    }
}

fn identity() -> LocalCryptoIdentity {
    LocalCryptoIdentity {
        tenant_id: Uuid { value: 1 },
        user_id: Uuid { value: 2 },
        device_id: Uuid { value: 3 },
    }
}

fn sync_keys(
    generation: u64,
    key: [u8; KEY_LEN],
    historical: Vec<(u64, [u8; KEY_LEN])>,
) -> LocalSyncKeys {
    LocalSyncKeys {
        tenant_id: identity().tenant_id,
        tenant_root_dek: Some(key),
        tenant_generation: generation,
        historical_tenant_root_deks: historical,
    }
}

#[test]
fn semantic_key_identity_avoids_rewrap_cutover_and_persists_history() {
    let mut profile = Profile::new();
    let first_key = [0x21; KEY_LEN];

    profile
        .persist(identity(), &sync_keys(1, first_key, Vec::new()), NOW)
        .unwrap();
    assert_eq!(profile.runtime_epoch, 2);
    let first_wrapped = profile.wrapped();

    profile
        .persist(identity(), &sync_keys(1, first_key, Vec::new()), NOW + 1)
        .unwrap();
    assert_eq!(profile.runtime_epoch, 2);
    assert_eq!(profile.wrapped(), first_wrapped);

    let rejected = profile.persist(
        identity(),
        &sync_keys(1, [0x22; KEY_LEN], Vec::new()),
        NOW + 2,
    );
    assert!(matches!(rejected, Err(StorageError::IncompatibleSchema(_))));
    assert_eq!(profile.runtime_epoch, 2);

    profile
        .persist(
            identity(),
            &sync_keys(2, [0x23; KEY_LEN], vec![(1, first_key)]),
            NOW + 3,
        )
        .unwrap();
    assert_eq!(profile.runtime_epoch, 3);
    let reloaded = match profile.load(Some(MASTER_KEY)) {
        LocalCryptoAvailability::Ready(context) => context,
        _ => panic!("expected persisted key history"),
    };
    assert_eq!(reloaded.sync_keys().tenant_generation, 2);
    assert_eq!(
        reloaded.sync_keys().historical_tenant_root_deks,
        vec![(1, first_key)]
    );

    profile
        .persist(
            identity(),
            &sync_keys(2, [0x23; KEY_LEN], Vec::new()),
            NOW + 4,
        )
        .unwrap();
    assert_eq!(profile.runtime_epoch, 4);
    let reloaded = match profile.load(Some(MASTER_KEY)) {
        LocalCryptoAvailability::Ready(context) => context,
        _ => panic!("expected active key after retired generation pruning"),
    };
    assert!(reloaded.sync_keys().historical_tenant_root_deks.is_empty());
    assert_eq!(profile.roots.len(), 1);

    profile
        .persist(
            identity(),
            &sync_keys(2, [0x23; KEY_LEN], Vec::new()),
            NOW + 5,
        )
        .unwrap();
    assert_eq!(profile.runtime_epoch, 4);
}

#[test]
fn persisted_context_reopens_without_remote_session() {
    let mut profile = Profile::new();
    profile
        .persist(identity(), &sync_keys(1, [0x22; KEY_LEN], Vec::new()), NOW)
        .unwrap();
    let context = match profile.load(Some(MASTER_KEY)) {
        LocalCryptoAvailability::Ready(context) => context,
        _ => panic!("expected ready local crypto context"),
    };
    assert_eq!(context.tenant_id(), identity().tenant_id);
    assert_eq!(context.user_id(), identity().user_id);
    assert_eq!(context.device_id(), identity().device_id);
    assert_eq!(context.master_key(), &MASTER_KEY);
    assert!(context.sync_keys().tenant_root_dek.is_some());
    let mutation = context.mutation_context();
    assert_eq!(mutation.device_id, "00000000-0000-0000-0000-000000000003");
    assert_eq!(mutation.keys.tenant_root_dek, Some([0x22; KEY_LEN]));
}

#[test]
fn bound_profile_without_master_key_is_not_anonymous() {
    let mut profile = Profile::new();
    profile
        .persist(identity(), &sync_keys(1, [0x22; KEY_LEN], Vec::new()), NOW)
        .unwrap();

    assert!(matches!(
        profile.load(None),
        LocalCryptoAvailability::AccountBoundUnavailable(LocalCryptoUnavailable::MissingMasterKey)
    ));
    assert!(matches!(
        Profile::new().load(None),
        LocalCryptoAvailability::Anonymous
    ));
}

#[test]
fn corrupt_cached_bundle_is_typed_unavailable() {
    let mut profile = Profile::new();
    profile
        .persist(identity(), &sync_keys(1, [0x22; KEY_LEN], Vec::new()), NOW)
        .unwrap();
    let corrupt = profile
        .cache()
        .into_iter()
        .map(|root| CachedTenantRoot {
            bundle: root.bundle,
            key: None,
        })
        .collect();

    assert!(matches!(
        load_local_crypto_context(Ok(profile.binding), Some(MASTER_KEY), Ok(corrupt)),
        Ok(LocalCryptoAvailability::AccountBoundUnavailable(
            LocalCryptoUnavailable::CorruptKeyCache
        ))
    ));
    assert!(matches!(
        load_local_crypto_context(Ok(profile.binding), Some(MASTER_KEY), Ok(Vec::new())),
        Ok(LocalCryptoAvailability::AccountBoundUnavailable(
            LocalCryptoUnavailable::MissingTenantRootKey
        ))
    ));
}

#[test]
fn a_profile_belongs_to_one_tenant_and_one_user() {
    let mut profile = Profile::new();
    profile
        .persist(identity(), &sync_keys(1, [0x22; KEY_LEN], Vec::new()), NOW)
        .unwrap();
    let other_user = LocalCryptoIdentity {
        user_id: Uuid { value: 9 },
        ..identity()
    };
    assert!(matches!(
        profile.persist(
            other_user,
            &sync_keys(1, [0x22; KEY_LEN], Vec::new()),
            NOW + 1
        ),
        Err(StorageError::LocalProfileUserMismatch { .. })
    ));
    let other_tenant = LocalCryptoIdentity {
        tenant_id: Uuid { value: 9 },
        ..identity()
    };
    assert!(matches!(
        profile.persist(
            other_tenant,
            &sync_keys(1, [0x22; KEY_LEN], Vec::new()),
            NOW + 1
        ),
        Err(StorageError::LocalProfileTenantMismatch { .. })
    ));
}

#[test]
fn generations_do_not_move_backwards() {
    let mut profile = Profile::new();
    profile
        .persist(identity(), &sync_keys(5, [0x22; KEY_LEN], Vec::new()), NOW)
        .unwrap();
    assert_eq!(
        profile.persist(
            identity(),
            &sync_keys(4, [0x23; KEY_LEN], Vec::new()),
            NOW + 1
        ),
        Err(StorageError::IncompatibleSchema(
            SchemaFault::GenerationMovedBackwards
        ))
    );
    assert_eq!(
        profile.persist(
            identity(),
            &sync_keys(0, [0x23; KEY_LEN], Vec::new()),
            NOW + 1
        ),
        Err(StorageError::IncompatibleSchema(
            SchemaFault::InvalidActiveGeneration
        ))
    );
    assert_eq!(
        profile.persist(
            identity(),
            &sync_keys(6, [0x23; KEY_LEN], vec![(7, [1; KEY_LEN])]),
            NOW + 1
        ),
        Err(StorageError::IncompatibleSchema(
            SchemaFault::HistoricalNotBeforeActive
        ))
    );
    assert_eq!(
        SchemaFault::GenerationMovedBackwards.message(),
        "active Tenant Root DEK generation cannot move backwards"
    );
}

#[test]
fn the_first_fault_in_generation_order_is_reported() {
    let mut profile = Profile::new();
    profile
        .persist(identity(), &sync_keys(2, [2; KEY_LEN], Vec::new()), NOW)
        .unwrap();
    let persist = |keys: LocalSyncKeys| {
        persist_local_crypto_context_in_transaction(
            Ok(profile.binding),
            Ok(profile.cache()),
            identity(),
            &MASTER_KEY,
            &keys,
            NOW,
            |_tenant: Uuid, _generation: u64, _key: [u8; KEY_LEN]| None,
        )
        .err()
    };
    // The first generation cannot be wrapped, the second one conflicts with the cache.
    assert_eq!(
        persist(sync_keys(2, [9; KEY_LEN], vec![(1, [1; KEY_LEN])])),
        Some(StorageError::IncompatibleSchema(
            SchemaFault::InvalidRootMaterial
        ))
    );
    // The second generation conflicts with the cache, the third one cannot be wrapped.
    assert_eq!(
        persist(sync_keys(3, [3; KEY_LEN], vec![(2, [9; KEY_LEN])])),
        Some(StorageError::IncompatibleSchema(
            SchemaFault::RootChangedWithoutGeneration
        ))
    );
    // What is cached is not wrapped at all.
    assert_eq!(persist(sync_keys(2, [2; KEY_LEN], Vec::new())), None);
}

#[test]
fn merged_keys_stay_in_generation_order() {
    let mut keys = Vec::new();
    merge_semantic_tenant_key(&mut keys, 3, &[3; KEY_LEN]).unwrap();
    merge_semantic_tenant_key(&mut keys, 1, &[1; KEY_LEN]).unwrap();
    merge_semantic_tenant_key(&mut keys, 3, &[3; KEY_LEN]).unwrap();
    assert_eq!(keys, vec![(1, [1; KEY_LEN]), (3, [3; KEY_LEN])]);
    assert_eq!(
        merge_semantic_tenant_key(&mut keys, 3, &[4; KEY_LEN]),
        Err(StorageError::IncompatibleSchema(
            SchemaFault::RootChangedWithoutGeneration
        ))
    );
    assert_eq!(
        merge_semantic_tenant_key(&mut keys, 0, &[4; KEY_LEN]),
        Err(StorageError::IncompatibleSchema(
            SchemaFault::InvalidGeneration
        ))
    );
}
