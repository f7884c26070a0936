use mpl_core_examples::address::Address;
use mpl_core_examples::asset::{Asset, Collection, Revocation};
use mpl_core_examples::authority::authorize;
use mpl_core_examples::edition::{EditionCounter, EditionSequencer};
use mpl_core_examples::error::{AuthError, CoreError, HookError, PluginError, SequencerError};
use mpl_core_examples::hooks::OracleResponse;
use mpl_core_examples::lifecycle::{burn, transfer, update};
use mpl_core_examples::operations::{
    add_collection_plugin, add_plugin, remove_collection_plugin, remove_plugin,
    update_collection_plugin, update_plugin,
};
use mpl_core_examples::plugin::{
    AuthorityModel, Creator, Edition, ExternalOracle, FreezeDelegate, LifecycleCheck,
    LifecycleEvent, MasterEdition, PermanentFreezeDelegate, Plugin, PluginAuthorityPair,
    PluginKind, ResultsOffset, Royalties, RuleSet,
};
use mpl_core_examples::registry::{AuditEvent, PluginRecord};

fn key(n: u8) -> Address {
    Address::new([n; 32])
}

const OWNER: u8 = 1;
const UPDATER: u8 = 2;
const DELEGATE: u8 = 3;
const STRANGER: u8 = 4;
const BUYER: u8 = 6;
const ASSET: u8 = 60;
const COLLECTION: u8 = 50;

fn bound(plugin: Plugin, authority: AuthorityModel) -> PluginAuthorityPair {
    PluginAuthorityPair { plugin, authority: Some(authority) }
}

fn unbound(plugin: Plugin) -> PluginAuthorityPair {
    PluginAuthorityPair { plugin, authority: None }
}

fn royalties(basis_points: u16) -> Plugin {
    Plugin::Royalties(Royalties {
        basis_points,
        creators: vec![Creator { address: key(7), percentage: 100 }],
        rule_set: RuleSet::Unrestricted,
    })
}

fn frozen(frozen: bool) -> Plugin {
    Plugin::FreezeDelegate(FreezeDelegate { frozen })
}

fn transfer_oracle(base: u8) -> Plugin {
    Plugin::ExternalOracle(ExternalOracle {
        base_address: key(base),
        lifecycle_checks: vec![LifecycleCheck { event: LifecycleEvent::Transfer, flags: 0x04 }],
        results_offset: ResultsOffset::NoOffset,
    })
}

fn new_collection(plugins: Vec<PluginAuthorityPair>) -> Collection {
    let mut log = Vec::new();
    Collection::create(
        key(COLLECTION),
        key(UPDATER),
        "collection".to_string(),
        "https://example.com/c".to_string(),
        plugins,
        &mut log,
    )
    .unwrap()
}

fn new_asset(collection: Option<&Collection>, plugins: Vec<PluginAuthorityPair>) -> Asset {
    let mut log = Vec::new();
    let mut sequencer = EditionSequencer::new();
    Asset::create(
        key(ASSET),
        key(OWNER),
        if collection.is_some() { None } else { Some(key(UPDATER)) },
        collection,
        "asset".to_string(),
        "https://example.com/a".to_string(),
        plugins,
        &mut sequencer,
        &mut log,
    )
    .unwrap()
}

#[test]
fn collection_is_created_with_its_plugins_in_order() {
    let mut log = Vec::new();
    let collection = Collection::create(
        key(COLLECTION),
        key(UPDATER),
        "name".to_string(),
        "uri".to_string(),
        vec![
            unbound(royalties(500)),
            bound(Plugin::PermanentTransferDelegate, AuthorityModel::UpdateAuthority),
            bound(frozen(false), AuthorityModel::Delegate(key(DELEGATE))),
        ],
        &mut log,
    )
    .unwrap();
    assert_eq!(collection.id, key(COLLECTION));
    assert_eq!(collection.update_authority, key(UPDATER));
    assert_eq!(collection.name, "name");
    assert_eq!(collection.uri, "uri");
    assert_eq!(
        collection.plugins.records(),
        &vec![
            PluginRecord { plugin: royalties(500), authority: AuthorityModel::UpdateAuthority },
            PluginRecord {
                plugin: Plugin::PermanentTransferDelegate,
                authority: AuthorityModel::UpdateAuthority,
            },
            PluginRecord {
                plugin: frozen(false),
                authority: AuthorityModel::Delegate(key(DELEGATE)),
            },
        ]
    );
    assert_eq!(
        log,
        vec![
            AuditEvent {
                target: key(COLLECTION),
                plugin_kind: PluginKind::Royalties,
                action: LifecycleEvent::Add,
                authority_used: AuthorityModel::UpdateAuthority,
            },
            AuditEvent {
                target: key(COLLECTION),
                plugin_kind: PluginKind::PermanentTransferDelegate,
                action: LifecycleEvent::Add,
                authority_used: AuthorityModel::UpdateAuthority,
            },
            AuditEvent {
                target: key(COLLECTION),
                plugin_kind: PluginKind::FreezeDelegate,
                action: LifecycleEvent::Add,
                authority_used: AuthorityModel::Delegate(key(DELEGATE)),
            },
        ]
    );
}

#[test]
fn creation_with_a_variant_twice_is_a_duplicate() {
    let mut log = Vec::new();
    let result = Collection::create(
        key(COLLECTION),
        key(UPDATER),
        "name".to_string(),
        "uri".to_string(),
        vec![unbound(royalties(500)), unbound(frozen(true)), unbound(royalties(100))],
        &mut log,
    );
    assert_eq!(result, Err(CoreError::Plugin(PluginError::DuplicatePlugin)));
    assert!(log.is_empty());
}

#[test]
fn creation_with_a_permanent_plugin_bound_to_the_owner_is_incompatible() {
    let mut log = Vec::new();
    let mut sequencer = EditionSequencer::new();
    let result = Asset::create(
        key(ASSET),
        key(OWNER),
        None,
        None,
        "name".to_string(),
        "uri".to_string(),
        vec![
            unbound(royalties(500)),
            bound(
                Plugin::PermanentFreezeDelegate(PermanentFreezeDelegate { frozen: true }),
                AuthorityModel::Owner,
            ),
            unbound(royalties(100)),
        ],
        &mut sequencer,
        &mut log,
    );
    assert_eq!(result, Err(CoreError::Auth(AuthError::IncompatibleAuthority)));
    assert!(log.is_empty());
}

#[test]
fn asset_is_created_as_asked() {
    let collection = new_collection(vec![]);
    let mut log = Vec::new();
    let mut sequencer = EditionSequencer::new();
    let asset = Asset::create(
        key(ASSET),
        key(OWNER),
        None,
        Some(&collection),
        "name".to_string(),
        "uri".to_string(),
        vec![unbound(Plugin::Edition(Edition { number: 77 }))],
        &mut sequencer,
        &mut log,
    )
    .unwrap();
    assert_eq!(asset.id, key(ASSET));
    assert_eq!(asset.owner, key(OWNER));
    assert_eq!(asset.collection, Some(key(COLLECTION)));
    assert_eq!(asset.update_authority, None);
    assert_eq!(asset.name, "name");
    assert_eq!(asset.uri, "uri");
    assert!(asset.revoked.is_empty());
    // The collection is no master edition: the number stays as it was given.
    assert_eq!(
        asset.plugins.get(PluginKind::Edition),
        Some(&Plugin::Edition(Edition { number: 77 }))
    );
    assert_eq!(sequencer, EditionSequencer::new());
    assert_eq!(log.len(), 1);
}

#[test]
fn editions_of_a_master_edition_are_numbered_by_the_sequencer() {
    let c1 = new_collection(vec![bound(
        Plugin::MasterEdition(MasterEdition { max_supply: Some(2), name: None, uri: None }),
        AuthorityModel::UpdateAuthority,
    )]);
    let mut sequencer = EditionSequencer::new();
    let mut log = Vec::new();
    let mut mint = |id: u8, sequencer: &mut EditionSequencer, log: &mut Vec<AuditEvent>| {
        Asset::create(
            key(id),
            key(OWNER),
            None,
            Some(&c1),
            "edition".to_string(),
            "uri".to_string(),
            vec![
                unbound(frozen(false)),
                bound(Plugin::Edition(Edition { number: 0 }), AuthorityModel::UpdateAuthority),
            ],
            sequencer,
            log,
        )
    };
    let a1 = mint(61, &mut sequencer, &mut log).unwrap();
    assert_eq!(a1.plugins.get(PluginKind::Edition), Some(&Plugin::Edition(Edition { number: 1 })));
    assert_eq!(a1.plugins.authority_of(PluginKind::Edition), Some(AuthorityModel::UpdateAuthority));
    assert_eq!(a1.plugins.records().len(), 2);
    assert_eq!(a1.plugins.records()[1].plugin.kind(), PluginKind::Edition);
    let a2 = mint(62, &mut sequencer, &mut log).unwrap();
    assert_eq!(a2.plugins.get(PluginKind::Edition), Some(&Plugin::Edition(Edition { number: 2 })));
    assert_eq!(log.len(), 4);
    let a3 = mint(63, &mut sequencer, &mut log);
    assert_eq!(a3, Err(CoreError::Sequencer(SequencerError::EditionCapExceeded)));
    assert_eq!(log.len(), 4);
    assert_eq!(
        sequencer.counter(&key(COLLECTION)),
        EditionCounter { collection: key(COLLECTION), count: 2, locked: false }
    );
}

#[test]
fn asset_without_an_edition_plugin_takes_no_number() {
    let c1 = new_collection(vec![bound(
        Plugin::MasterEdition(MasterEdition { max_supply: None, name: None, uri: None }),
        AuthorityModel::UpdateAuthority,
    )]);
    let mut sequencer = EditionSequencer::new();
    let mut log = Vec::new();
    Asset::create(
        key(ASSET),
        key(OWNER),
        None,
        Some(&c1),
        "plain".to_string(),
        "uri".to_string(),
        vec![],
        &mut sequencer,
        &mut log,
    )
    .unwrap();
    assert_eq!(sequencer.counter(&key(COLLECTION)).count, 0);
}

#[test]
fn add_plugin_needs_the_variants_authority() {
    let mut asset = new_asset(None, vec![]);
    let mut log = Vec::new();
    assert_eq!(
        add_plugin(&mut asset, None, &key(UPDATER), frozen(true), None, &mut log),
        Err(CoreError::Auth(AuthError::Unauthorized))
    );
    assert_eq!(
        add_plugin(&mut asset, None, &key(OWNER), royalties(500), None, &mut log),
        Err(CoreError::Auth(AuthError::Unauthorized))
    );
    assert!(asset.plugins.records().is_empty());
    assert!(log.is_empty());
    assert_eq!(add_plugin(&mut asset, None, &key(OWNER), frozen(true), None, &mut log), Ok(()));
    assert_eq!(
        add_plugin(
            &mut asset,
            None,
            &key(UPDATER),
            royalties(500),
            Some(AuthorityModel::Delegate(key(DELEGATE))),
            &mut log
        ),
        Ok(())
    );
    assert_eq!(
        asset.plugins.records(),
        &vec![
            PluginRecord { plugin: frozen(true), authority: AuthorityModel::Owner },
            PluginRecord {
                plugin: royalties(500),
                authority: AuthorityModel::Delegate(key(DELEGATE)),
            },
        ]
    );
    assert_eq!(log.len(), 2);
    assert_eq!(log[1].action, LifecycleEvent::Add);
    assert_eq!(log[1].target, key(ASSET));
}

#[test]
fn add_plugin_refuses_a_second_of_its_variant() {
    let mut asset = new_asset(None, vec![unbound(frozen(true))]);
    let mut log = Vec::new();
    // Whoever asks: the duplicate is found first.
    for caller in [OWNER, STRANGER] {
        assert_eq!(
            add_plugin(&mut asset, None, &key(caller), frozen(false), None, &mut log),
            Err(CoreError::Plugin(PluginError::DuplicatePlugin))
        );
    }
    assert_eq!(asset.plugins.get(PluginKind::FreezeDelegate), Some(&frozen(true)));
    assert!(log.is_empty());
}

#[test]
fn add_plugin_refuses_a_permanent_plugin_bound_to_a_delegate() {
    let mut asset = new_asset(None, vec![]);
    let mut log = Vec::new();
    assert_eq!(
        add_plugin(
            &mut asset,
            None,
            &key(UPDATER),
            Plugin::PermanentBurnDelegate,
            Some(AuthorityModel::Delegate(key(DELEGATE))),
            &mut log
        ),
        Err(CoreError::Auth(AuthError::IncompatibleAuthority))
    );
    assert_eq!(
        add_plugin(
            &mut asset,
            None,
            &key(UPDATER),
            Plugin::PermanentBurnDelegate,
            Some(AuthorityModel::UpdateAuthority),
            &mut log
        ),
        Ok(())
    );
}

#[test]
fn update_plugin_replaces_the_whole_payload() {
    let mut asset = new_asset(None, vec![unbound(royalties(500))]);
    let mut log = Vec::new();
    assert_eq!(
        update_plugin(&mut asset, None, &key(UPDATER), royalties(250), None, &vec![], &mut log),
        Ok(())
    );
    assert_eq!(asset.plugins.get(PluginKind::Royalties), Some(&royalties(250)));
    assert_eq!(
        asset.plugins.authority_of(PluginKind::Royalties),
        Some(AuthorityModel::UpdateAuthority)
    );
    assert_eq!(
        log,
        vec![AuditEvent {
            target: key(ASSET),
            plugin_kind: PluginKind::Royalties,
            action: LifecycleEvent::Update,
            authority_used: AuthorityModel::UpdateAuthority,
        }]
    );
}

#[test]
fn update_plugin_lets_the_bound_authority_rebind() {
    let mut asset = new_asset(None, vec![unbound(frozen(false))]);
    let mut log = Vec::new();
    assert_eq!(
        update_plugin(
            &mut asset,
            None,
            &key(OWNER),
            frozen(false),
            Some(AuthorityModel::Delegate(key(DELEGATE))),
            &vec![],
            &mut log
        ),
        Ok(())
    );
    assert_eq!(
        asset.plugins.authority_of(PluginKind::FreezeDelegate),
        Some(AuthorityModel::Delegate(key(DELEGATE)))
    );
    // The owner is no longer the plugin's authority.
    assert_eq!(
        update_plugin(&mut asset, None, &key(OWNER), frozen(true), None, &vec![], &mut log),
        Err(CoreError::Auth(AuthError::Unauthorized))
    );
    assert_eq!(
        update_plugin(&mut asset, None, &key(DELEGATE), frozen(true), None, &vec![], &mut log),
        Ok(())
    );
    assert_eq!(asset.plugins.get(PluginKind::FreezeDelegate), Some(&frozen(true)));
}

#[test]
fn update_plugin_needs_an_attached_plugin_and_its_authority() {
    let mut asset = new_asset(None, vec![unbound(royalties(500))]);
    let mut log = Vec::new();
    assert_eq!(
        update_plugin(&mut asset, None, &key(OWNER), frozen(true), None, &vec![], &mut log),
        Err(CoreError::Plugin(PluginError::PluginNotFound))
    );
    assert_eq!(
        update_plugin(&mut asset, None, &key(OWNER), royalties(1), None, &vec![], &mut log),
        Err(CoreError::Auth(AuthError::Unauthorized))
    );
    assert_eq!(asset.plugins.get(PluginKind::Royalties), Some(&royalties(500)));
    assert!(log.is_empty());
}

#[test]
fn frozen_asset_rejects_updates_until_it_is_thawed() {
    let mut asset = new_asset(None, vec![unbound(frozen(true)), unbound(royalties(500))]);
    let mut log = Vec::new();
    assert_eq!(
        update_plugin(&mut asset, None, &key(UPDATER), royalties(250), None, &vec![], &mut log),
        Err(CoreError::Hook(HookError::AssetFrozen))
    );
    assert_eq!(
        update(&mut asset, None, &key(UPDATER), "n".to_string(), "u".to_string(), &vec![]),
        Err(CoreError::Hook(HookError::AssetFrozen))
    );
    assert_eq!(
        transfer(&mut asset, None, &key(OWNER), key(BUYER), &vec![], &mut log),
        Err(CoreError::Hook(HookError::AssetFrozen))
    );
    assert_eq!(asset.owner, key(OWNER));
    assert_eq!(asset.name, "asset");
    assert_eq!(asset.plugins.get(PluginKind::Royalties), Some(&royalties(500)));
    assert!(log.is_empty());
    // The freeze has no say on its own replacement.
    assert_eq!(
        update_plugin(&mut asset, None, &key(OWNER), frozen(false), None, &vec![], &mut log),
        Ok(())
    );
    assert_eq!(
        update_plugin(&mut asset, None, &key(UPDATER), royalties(250), None, &vec![], &mut log),
        Ok(())
    );
    assert_eq!(
        update(&mut asset, None, &key(UPDATER), "n".to_string(), "u".to_string(), &vec![]),
        Ok(())
    );
    assert_eq!(transfer(&mut asset, None, &key(OWNER), key(BUYER), &vec![], &mut log), Ok(()));
    assert_eq!(asset.owner, key(BUYER));
}

#[test]
fn remove_plugin_needs_its_authority() {
    let mut asset = new_asset(
        None,
        vec![unbound(royalties(500)), unbound(Plugin::PermanentTransferDelegate)],
    );
    let mut log = Vec::new();
    assert_eq!(
        remove_plugin(&mut asset, None, &key(OWNER), PluginKind::Royalties, &mut log),
        Err(CoreError::Auth(AuthError::Unauthorized))
    );
    assert_eq!(
        remove_plugin(&mut asset, None, &key(UPDATER), PluginKind::FreezeDelegate, &mut log),
        Err(CoreError::Plugin(PluginError::PluginNotFound))
    );
    assert_eq!(
        remove_plugin(
            &mut asset,
            None,
            &key(UPDATER),
            PluginKind::PermanentTransferDelegate,
            &mut log
        ),
        Err(CoreError::Plugin(PluginError::PermanentPluginNotRemovable))
    );
    assert!(log.is_empty());
    assert_eq!(
        remove_plugin(&mut asset, None, &key(UPDATER), PluginKind::Royalties, &mut log),
        Ok(royalties(500))
    );
    assert_eq!(asset.plugins.records().len(), 1);
    assert_eq!(
        log,
        vec![AuditEvent {
            target: key(ASSET),
            plugin_kind: PluginKind::Royalties,
            action: LifecycleEvent::Remove,
            authority_used: AuthorityModel::UpdateAuthority,
        }]
    );
}

#[test]
fn collection_plugins_are_managed_by_its_update_authority() {
    let mut collection = new_collection(vec![]);
    let mut log = Vec::new();
    assert_eq!(
        add_collection_plugin(&mut collection, &key(OWNER), royalties(500), None, &mut log),
        Err(CoreError::Auth(AuthError::Unauthorized))
    );
    assert_eq!(
        add_collection_plugin(&mut collection, &key(UPDATER), royalties(500), None, &mut log),
        Ok(())
    );
    assert_eq!(
        add_collection_plugin(&mut collection, &key(UPDATER), royalties(1), None, &mut log),
        Err(CoreError::Plugin(PluginError::DuplicatePlugin))
    );
    assert_eq!(
        update_collection_plugin(
            &mut collection,
            &key(UPDATER),
            royalties(250),
            None,
            &vec![],
            &mut log
        ),
        Ok(())
    );
    assert_eq!(collection.plugins.get(PluginKind::Royalties), Some(&royalties(250)));
    assert_eq!(
        update_collection_plugin(
            &mut collection,
            &key(UPDATER),
            Plugin::BubblegumCompressionMarker,
            None,
            &vec![],
            &mut log
        ),
        Err(CoreError::Plugin(PluginError::PluginNotFound))
    );
    assert_eq!(
        remove_collection_plugin(&mut collection, &key(STRANGER), PluginKind::Royalties, &mut log),
        Err(CoreError::Auth(AuthError::Unauthorized))
    );
    assert_eq!(
        remove_collection_plugin(&mut collection, &key(UPDATER), PluginKind::Royalties, &mut log),
        Ok(royalties(250))
    );
    assert!(collection.plugins.records().is_empty());
    assert_eq!(collection.id, key(COLLECTION));
    assert_eq!(log.len(), 3);
}

#[test]
fn transfer_clears_every_delegate_bound_plugin_that_is_not_permanent() {
    let mut asset = new_asset(
        None,
        vec![
            bound(Plugin::TransferDelegate, AuthorityModel::Delegate(key(DELEGATE))),
            unbound(royalties(500)),
            bound(frozen(false), AuthorityModel::Delegate(key(STRANGER))),
            unbound(Plugin::BurnDelegate),
            unbound(Plugin::PermanentBurnDelegate),
        ],
    );
    let mut log = Vec::new();
    assert_eq!(transfer(&mut asset, None, &key(DELEGATE), key(BUYER), &vec![], &mut log), Ok(()));
    assert_eq!(asset.owner, key(BUYER));
    assert_eq!(asset.id, key(ASSET));
    assert_eq!(
        asset.plugins.records(),
        &vec![
            PluginRecord { plugin: royalties(500), authority: AuthorityModel::UpdateAuthority },
            PluginRecord { plugin: Plugin::BurnDelegate, authority: AuthorityModel::Owner },
            PluginRecord {
                plugin: Plugin::PermanentBurnDelegate,
                authority: AuthorityModel::UpdateAuthority,
            },
        ]
    );
    for record in asset.plugins.records() {
        let delegated = matches!(record.authority, AuthorityModel::Delegate(_));
        assert!(!delegated || record.plugin.kind().is_permanent());
    }
    assert_eq!(
        asset.revoked,
        vec![
            Revocation { plugin_kind: PluginKind::TransferDelegate, delegate: key(DELEGATE) },
            Revocation { plugin_kind: PluginKind::FreezeDelegate, delegate: key(STRANGER) },
        ]
    );
    assert_eq!(
        log,
        vec![
            AuditEvent {
                target: key(ASSET),
                plugin_kind: PluginKind::TransferDelegate,
                action: LifecycleEvent::Remove,
                authority_used: AuthorityModel::Delegate(key(DELEGATE)),
            },
            AuditEvent {
                target: key(ASSET),
                plugin_kind: PluginKind::FreezeDelegate,
                action: LifecycleEvent::Remove,
                authority_used: AuthorityModel::Delegate(key(STRANGER)),
            },
        ]
    );
}

#[test]
fn former_delegate_is_revoked_after_the_transfer() {
    let mut asset = new_asset(
        None,
        vec![bound(Plugin::TransferDelegate, AuthorityModel::Delegate(key(DELEGATE)))],
    );
    let mut log = Vec::new();
    transfer(&mut asset, None, &key(DELEGATE), key(BUYER), &vec![], &mut log).unwrap();
    assert_eq!(
        authorize(
            &key(DELEGATE),
            &asset,
            None,
            PluginKind::TransferDelegate,
            LifecycleEvent::Transfer
        ),
        Err(AuthError::AuthorityRevoked)
    );
    assert_eq!(
        transfer(&mut asset, None, &key(DELEGATE), key(STRANGER), &vec![], &mut log),
        Err(CoreError::Auth(AuthError::AuthorityRevoked))
    );
    assert_eq!(
        transfer(&mut asset, None, &key(OWNER), key(STRANGER), &vec![], &mut log),
        Err(CoreError::Auth(AuthError::Unauthorized))
    );
    assert_eq!(asset.owner, key(BUYER));
    assert_eq!(transfer(&mut asset, None, &key(BUYER), key(STRANGER), &vec![], &mut log), Ok(()));
    assert_eq!(asset.owner, key(STRANGER));
    assert_eq!(asset.revoked.len(), 1);
}

#[test]
fn transfer_asks_the_oracle() {
    let collection = new_collection(vec![unbound(transfer_oracle(9))]);
    let mut asset = new_asset(Some(&collection), vec![]);
    let mut log = Vec::new();
    let reject = vec![OracleResponse { oracle: key(9), data: Some(vec![0x04]) }];
    let allow = vec![OracleResponse { oracle: key(9), data: Some(vec![0x00]) }];
    assert_eq!(
        transfer(&mut asset, Some(&collection), &key(OWNER), key(BUYER), &reject, &mut log),
        Err(CoreError::Hook(HookError::ExternalCheckRejected {
            plugin: key(9),
            event: LifecycleEvent::Transfer
        }))
    );
    assert_eq!(
        transfer(&mut asset, Some(&collection), &key(OWNER), key(BUYER), &vec![], &mut log),
        Err(CoreError::Hook(HookError::ExternalCheckMalformed))
    );
    assert_eq!(asset.owner, key(OWNER));
    assert_eq!(
        transfer(&mut asset, Some(&collection), &key(OWNER), key(BUYER), &allow, &mut log),
        Ok(())
    );
    assert_eq!(asset.owner, key(BUYER));
}

#[test]
fn permanent_transfer_delegate_of_the_collection_may_transfer_members() {
    let collection = new_collection(vec![unbound(Plugin::PermanentTransferDelegate)]);
    let mut asset = new_asset(Some(&collection), vec![]);
    let mut log = Vec::new();
    assert_eq!(
        transfer(&mut asset, Some(&collection), &key(STRANGER), key(BUYER), &vec![], &mut log),
        Err(CoreError::Auth(AuthError::Unauthorized))
    );
    assert_eq!(
        transfer(&mut asset, Some(&collection), &key(UPDATER), key(BUYER), &vec![], &mut log),
        Ok(())
    );
    assert_eq!(asset.owner, key(BUYER));
}

#[test]
fn burn_needs_the_owner_or_a_burn_delegate() {
    let asset = new_asset(
        None,
        vec![bound(Plugin::BurnDelegate, AuthorityModel::Delegate(key(DELEGATE)))],
    );
    let (error, asset) = burn(asset, None, &key(STRANGER), &vec![]).unwrap_err();
    assert_eq!(error, CoreError::Auth(AuthError::Unauthorized));
    assert_eq!(asset.owner, key(OWNER));
    assert_eq!(asset.plugins.records().len(), 1);
    assert_eq!(burn(asset, None, &key(DELEGATE), &vec![]), Ok(()));
    let asset = new_asset(None, vec![unbound(frozen(true))]);
    // A freeze does not hold back a burn.
    assert_eq!(burn(asset, None, &key(OWNER), &vec![]), Ok(()));
}

#[test]
fn transfer_delegate_may_not_burn() {
    let asset = new_asset(
        None,
        vec![bound(Plugin::TransferDelegate, AuthorityModel::Delegate(key(DELEGATE)))],
    );
    let (error, _) = burn(asset, None, &key(DELEGATE), &vec![]).unwrap_err();
    assert_eq!(error, CoreError::Auth(AuthError::Unauthorized));
}

#[test]
fn burn_asks_the_plugins_consulted_on_a_burn() {
    let oracle = Plugin::ExternalOracle(ExternalOracle {
        base_address: key(9),
        lifecycle_checks: vec![LifecycleCheck { event: LifecycleEvent::Burn, flags: 0x04 }],
        results_offset: ResultsOffset::Anchor,
    });
    let asset = new_asset(None, vec![unbound(oracle)]);
    let mut data = vec![0u8; 8];
    data.push(0x04);
    let responses = vec![OracleResponse { oracle: key(9), data: Some(data) }];
    let (error, asset) = burn(asset, None, &key(OWNER), &responses).unwrap_err();
    assert_eq!(
        error,
        CoreError::Hook(HookError::ExternalCheckRejected {
            plugin: key(9),
            event: LifecycleEvent::Burn
        })
    );
    let responses = vec![OracleResponse { oracle: key(9), data: Some(vec![0u8; 9]) }];
    assert_eq!(burn(asset, None, &key(OWNER), &responses), Ok(()));
}

#[test]
fn update_needs_the_update_authority() {
    let mut asset = new_asset(None, vec![]);
    assert_eq!(
        update(&mut asset, None, &key(OWNER), "n".to_string(), "u".to_string(), &vec![]),
        Err(CoreError::Auth(AuthError::Unauthorized))
    );
    assert_eq!(asset.name, "asset");
    assert_eq!(
        update(&mut asset, None, &key(UPDATER), "n".to_string(), "u".to_string(), &vec![]),
        Ok(())
    );
    assert_eq!(asset.name, "n");
    assert_eq!(asset.uri, "u");
    assert_eq!(asset.owner, key(OWNER));
    assert_eq!(asset.id, key(ASSET));
}

#[test]
fn creation_finds_the_duplicate_before_the_binding() {
    let mut log = Vec::new();
    let result = Collection::create(
        key(COLLECTION),
        key(UPDATER),
        "name".to_string(),
        "uri".to_string(),
        vec![
            unbound(Plugin::PermanentBurnDelegate),
            bound(Plugin::PermanentBurnDelegate, AuthorityModel::Owner),
        ],
        &mut log,
    );
    assert_eq!(result, Err(CoreError::Plugin(PluginError::DuplicatePlugin)));
    let result = Collection::create(
        key(COLLECTION),
        key(UPDATER),
        "name".to_string(),
        "uri".to_string(),
        vec![
            bound(Plugin::PermanentBurnDelegate, AuthorityModel::Owner),
            unbound(Plugin::PermanentBurnDelegate),
        ],
        &mut log,
    );
    assert_eq!(result, Err(CoreError::Auth(AuthError::IncompatibleAuthority)));
    assert!(log.is_empty());
}
