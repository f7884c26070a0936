use mpl_core_examples::address::Address;
use mpl_core_examples::constants::{
    MPL_CORE_ID, ONCHAIN_METAPLEX_ORACLE_PLUGIN, SEED, SPL_NOOP_PROGRAM,
};
use mpl_core_examples::edition::{EditionCounter, EditionPolicy};
use mpl_core_examples::error::SequencerError;
use mpl_core_examples::instructions::add_plugins_to_collections::AddPluginsToCollections;
use mpl_core_examples::instructions::add_plugins_to_nft::{
    royalties_plugin, AddPluginsToNft, AddRoyaltiesPluginArgs, CreatorArgs,
};
use mpl_core_examples::instructions::burn_nft::BurnNFT;
use mpl_core_examples::instructions::create_collection::{
    CreateCollection, CreateCollectionArgs, CreateMasterEditionArgs,
};
use mpl_core_examples::instructions::create_edition::{CreateEdition, CreateEditionArgs};
use mpl_core_examples::instructions::create_nft::{CreateNFT, CreateNFTArgs};
use mpl_core_examples::instructions::request::{
    authority_managed, metaplex_oracle, AddCollectionPluginRequest, AddPluginRequest,
    BurnRequest, CreateAssetRequest, CreateCollectionRequest, TransferRequest, UpdatePluginRequest,
    UpdateRequest,
};
use mpl_core_examples::instructions::transfer_nft::TransferNFT;
use mpl_core_examples::instructions::update_nft_metadata::{UpdateNFTMetadata, UpdateNFTMetadataArgs};
use mpl_core_examples::instructions::update_nft_plugin::{
    UpdateAutographPluginArgs, UpdateNFTPlugin, UpdateRoyaltiesPluginArgs,
};
use mpl_core_examples::plugin::{
    Autograph, AutographSignature, AuthorityModel, Creator, Edition, ExternalOracle,
    FreezeDelegate, LifecycleCheck, LifecycleEvent, MasterEdition, PermanentFreezeDelegate, Plugin,
    PluginAuthorityPair, ResultsOffset, Royalties, RuleSet,
};

fn a(n: u8) -> Address {
    Address::new([n; 32])
}

fn by_update_authority(plugin: Plugin) -> Vec<PluginAuthorityPair> {
    vec![PluginAuthorityPair { plugin, authority: Some(AuthorityModel::UpdateAuthority) }]
}

fn the_oracle() -> Plugin {
    Plugin::ExternalOracle(ExternalOracle {
        base_address: Address::new(ONCHAIN_METAPLEX_ORACLE_PLUGIN),
        lifecycle_checks: vec![LifecycleCheck { event: LifecycleEvent::Transfer, flags: 4 }],
        results_offset: ResultsOffset::Anchor,
    })
}

fn some_royalties() -> Plugin {
    Plugin::Royalties(Royalties {
        basis_points: 500,
        creators: vec![
            Creator { address: a(7), percentage: 60 },
            Creator { address: a(8), percentage: 40 },
        ],
        rule_set: RuleSet::Unrestricted,
    })
}

fn some_creators() -> Vec<CreatorArgs> {
    vec![
        CreatorArgs { address: a(7), percentage: 60 },
        CreatorArgs { address: a(8), percentage: 40 },
    ]
}

fn collection_accounts() -> CreateCollection {
    CreateCollection { payer: a(1), collection: a(2), update_authority: Some(a(3)) }
}

fn collection_args() -> CreateCollectionArgs {
    CreateCollectionArgs { name: "Birds".to_string(), uri: "https://example.com/birds".to_string() }
}

fn collection_request(plugins: Vec<PluginAuthorityPair>) -> CreateCollectionRequest {
    CreateCollectionRequest {
        collection: a(2),
        update_authority: Some(a(3)),
        payer: a(1),
        name: "Birds".to_string(),
        uri: "https://example.com/birds".to_string(),
        plugins,
    }
}

fn nft_accounts() -> CreateNFT {
    CreateNFT {
        payer: a(1),
        asset: a(4),
        collection: Some(a(2)),
        update_authority: None,
        authority: Some(a(3)),
        owner: Some(a(5)),
    }
}

fn nft_args() -> CreateNFTArgs {
    CreateNFTArgs { name: "Wren".to_string(), uri: "https://example.com/wren".to_string() }
}

fn nft_request(plugins: Vec<PluginAuthorityPair>) -> CreateAssetRequest {
    CreateAssetRequest {
        asset: a(4),
        collection: Some(a(2)),
        authority: Some(a(3)),
        owner: Some(a(5)),
        update_authority: None,
        payer: a(1),
        name: "Wren".to_string(),
        uri: "https://example.com/wren".to_string(),
        plugins,
    }
}

#[test]
fn program_addresses_are_those_of_their_names() {
    assert_eq!(SEED, "anchor");
    assert_eq!(
        MPL_CORE_ID,
        anchor_lang::prelude::Pubkey::from_str_const("CoREENxT6tW1HoK8ypY1SxRMZTcVPm7R94rH4PZNhX7d")
            .to_bytes()
    );
    assert_eq!(MPL_CORE_ID, mpl_core::ID.to_bytes());
    assert_eq!(
        ONCHAIN_METAPLEX_ORACLE_PLUGIN,
        anchor_lang::prelude::Pubkey::from_str_const("AwPRxL5f6GDVajyE1bBcfSWdQT58nWMoS36A1uFtpCZY")
            .to_bytes()
    );
    assert_eq!(
        SPL_NOOP_PROGRAM,
        anchor_lang::prelude::Pubkey::from_str_const("noopb9bkMVfRPU8AsbpTUg8AQkHtKwMYZiFUjNRtMmV")
            .to_bytes()
    );
}

#[test]
fn oracle_is_bound_for_transfers_with_the_rejection_flag() {
    assert_eq!(metaplex_oracle(), the_oracle());
    assert_eq!(authority_managed(Plugin::BurnDelegate), by_update_authority(Plugin::BurnDelegate));
}

#[test]
fn plain_collection_has_no_plugins() {
    assert_eq!(
        collection_accounts().create_collection(collection_args()),
        collection_request(vec![])
    );
}

#[test]
fn master_edition_collection_carries_its_supply() {
    let request = collection_accounts().create_master_edition(CreateMasterEditionArgs {
        name_of_master_edition_collection: "Birds".to_string(),
        uri_of_master_edition_collection: "https://example.com/birds".to_string(),
        master_edition_name: Some("Master".to_string()),
        master_edition_uri: None,
        max_supply: 2,
    });
    assert_eq!(
        request,
        collection_request(by_update_authority(Plugin::MasterEdition(MasterEdition {
            max_supply: Some(2),
            name: Some("Master".to_string()),
            uri: None,
        })))
    );
}

#[test]
fn collections_with_permanent_plugins() {
    assert_eq!(
        collection_accounts().create_collection_with_permanent_transfer_delegate(collection_args()),
        collection_request(by_update_authority(Plugin::PermanentTransferDelegate))
    );
    assert_eq!(
        collection_accounts().create_collection_with_permanent_freeze_delegate(collection_args()),
        collection_request(by_update_authority(Plugin::PermanentFreezeDelegate(
            PermanentFreezeDelegate { frozen: true }
        )))
    );
    assert_eq!(
        collection_accounts().create_collection_with_permanent_burn_delegate(collection_args()),
        collection_request(by_update_authority(Plugin::PermanentBurnDelegate))
    );
}

#[test]
fn collection_with_the_oracle() {
    assert_eq!(
        collection_accounts().create_collection_with_oracle_plugin(collection_args()),
        collection_request(vec![PluginAuthorityPair { plugin: the_oracle(), authority: None }])
    );
}

#[test]
fn plain_asset_has_no_plugins() {
    assert_eq!(nft_accounts().create_nft(nft_args()), nft_request(vec![]));
    let standalone = CreateNFT {
        payer: a(1),
        asset: a(4),
        collection: None,
        update_authority: Some(a(3)),
        authority: None,
        owner: None,
    };
    assert_eq!(
        standalone.create_nft(nft_args()),
        CreateAssetRequest {
            asset: a(4),
            collection: None,
            authority: None,
            owner: None,
            update_authority: Some(a(3)),
            payer: a(1),
            name: "Wren".to_string(),
            uri: "https://example.com/wren".to_string(),
            plugins: vec![],
        }
    );
}

#[test]
fn assets_with_permanent_plugins() {
    assert_eq!(
        nft_accounts().create_nft_with_permanent_freeze_delegate(nft_args()),
        nft_request(by_update_authority(Plugin::PermanentFreezeDelegate(
            PermanentFreezeDelegate { frozen: true }
        )))
    );
    assert_eq!(
        nft_accounts().create_nft_with_permanent_transfer_delegate(nft_args()),
        nft_request(by_update_authority(Plugin::PermanentTransferDelegate))
    );
    assert_eq!(
        nft_accounts().create_nft_with_permanent_burn_delegate(nft_args()),
        nft_request(by_update_authority(Plugin::PermanentBurnDelegate))
    );
}

fn edition_accounts(count: u64, locked: bool) -> CreateEdition {
    CreateEdition {
        payer: a(1),
        edition_asset: a(4),
        master_edition_collection: a(2),
        authority: Some(a(3)),
        owner: Some(a(5)),
        edition_count: EditionCounter { collection: a(2), count, locked },
    }
}

fn edition_args() -> CreateEditionArgs {
    CreateEditionArgs {
        name_of_edition_asset: "Wren 1".to_string(),
        uri_of_edition_asset: "https://example.com/wren/1".to_string(),
    }
}

#[test]
fn edition_carries_the_next_number() {
    let mut accounts = edition_accounts(0, false);
    let request = accounts.create_edition(EditionPolicy::Capped(2), edition_args());
    assert_eq!(
        request,
        Ok(CreateAssetRequest {
            asset: a(4),
            collection: Some(a(2)),
            authority: None,
            owner: Some(a(5)),
            update_authority: None,
            payer: a(1),
            name: "Wren 1".to_string(),
            uri: "https://example.com/wren/1".to_string(),
            plugins: by_update_authority(Plugin::Edition(Edition { number: 1 })),
        })
    );
    assert_eq!(accounts, edition_accounts(1, false));
    let second = accounts.create_edition(EditionPolicy::Capped(2), edition_args()).unwrap();
    assert_eq!(second.plugins, by_update_authority(Plugin::Edition(Edition { number: 2 })));
    assert_eq!(
        accounts.create_edition(EditionPolicy::Capped(2), edition_args()),
        Err(SequencerError::EditionCapExceeded)
    );
    assert_eq!(accounts, edition_accounts(2, false));
}

#[test]
fn edition_is_refused_without_a_master_edition_or_a_free_counter() {
    let mut accounts = edition_accounts(5, false);
    assert_eq!(
        accounts.create_edition(EditionPolicy::NotMaster, edition_args()),
        Err(SequencerError::CollectionNotMasterEdition)
    );
    assert_eq!(accounts, edition_accounts(5, false));
    let mut held = edition_accounts(5, true);
    assert_eq!(
        held.create_edition(EditionPolicy::Unlimited, edition_args()),
        Err(SequencerError::Conflict)
    );
    assert_eq!(held, edition_accounts(5, true));
}

fn add_accounts(authority: Option<Address>) -> AddPluginsToNft {
    AddPluginsToNft { asset: a(4), collection: Some(a(2)), payer: a(1), authority, log_wrapper: Some(a(9)) }
}

fn add_request(authority: Option<Address>, plugin: Plugin) -> AddPluginRequest {
    AddPluginRequest { asset: a(4), collection: Some(a(2)), payer: a(1), authority, plugin }
}

#[test]
fn creators_are_taken_over_one_for_one() {
    assert_eq!(royalties_plugin(500, some_creators()), some_royalties());
    assert_eq!(
        royalties_plugin(0, vec![]),
        Plugin::Royalties(Royalties {
            basis_points: 0,
            creators: vec![],
            rule_set: RuleSet::Unrestricted
        })
    );
}

#[test]
fn plugins_added_to_an_asset() {
    let accounts = add_accounts(Some(a(5)));
    assert_eq!(
        accounts.add_royalties_plugin(AddRoyaltiesPluginArgs {
            basis_points: 500,
            creators: some_creators()
        }),
        add_request(Some(a(5)), some_royalties())
    );
    assert_eq!(
        accounts.add_transfer_delegate_plugin_to_asset(),
        add_request(Some(a(5)), Plugin::TransferDelegate)
    );
    assert_eq!(
        accounts.add_freeze_delegate_plugin_to_asset(),
        add_request(Some(a(5)), Plugin::FreezeDelegate(FreezeDelegate { frozen: true }))
    );
    assert_eq!(
        accounts.add_burn_delegate_plugin_to_asset(),
        add_request(Some(a(5)), Plugin::BurnDelegate)
    );
    assert_eq!(accounts.add_metaplex_oracle_to_nft(), add_request(Some(a(5)), the_oracle()));
}

#[test]
fn first_autograph_is_signed_by_the_authority() {
    assert_eq!(
        add_accounts(Some(a(5))).add_autograph_plugin_to_asset(),
        add_request(
            Some(a(5)),
            Plugin::Autograph(Autograph {
                signatures: vec![AutographSignature {
                    address: a(5),
                    message: "Example messages".to_string()
                }]
            })
        )
    );
    assert_eq!(
        add_accounts(None).add_autograph_plugin_to_asset(),
        add_request(
            None,
            Plugin::Autograph(Autograph {
                signatures: vec![AutographSignature {
                    address: Address::new([0u8; 32]),
                    message: "Example messages".to_string()
                }]
            })
        )
    );
}

#[test]
fn plugins_added_to_a_collection() {
    let accounts = AddPluginsToCollections {
        payer: a(1),
        collection: a(2),
        update_authority: Some(a(3)),
        log_wrapper: Some(a(9)),
    };
    assert_eq!(
        accounts.add_bubblegum_plugin_to_collection(),
        AddCollectionPluginRequest {
            collection: a(2),
            payer: a(1),
            authority: Some(a(3)),
            log_wrapper: Some(a(9)),
            plugin: Plugin::BubblegumCompressionMarker,
        }
    );
    assert_eq!(
        accounts.add_royalties_plugin_to_collection(AddRoyaltiesPluginArgs {
            basis_points: 500,
            creators: some_creators()
        }),
        AddCollectionPluginRequest {
            collection: a(2),
            payer: a(1),
            authority: Some(a(3)),
            log_wrapper: Some(a(9)),
            plugin: some_royalties(),
        }
    );
    assert_eq!(
        accounts.add_metaplex_oracle_to_collection(),
        AddCollectionPluginRequest {
            collection: a(2),
            payer: a(1),
            authority: None,
            log_wrapper: None,
            plugin: the_oracle(),
        }
    );
}

fn update_accounts() -> UpdateNFTPlugin {
    UpdateNFTPlugin {
        asset: a(4),
        collection: None,
        payer: a(1),
        authority: Some(a(5)),
        log_wrapper: Some(a(9)),
    }
}

fn update_request(plugin: Plugin) -> UpdatePluginRequest {
    UpdatePluginRequest {
        asset: a(4),
        collection: None,
        payer: a(1),
        authority: Some(a(5)),
        log_wrapper: Some(a(9)),
        plugin,
    }
}

#[test]
fn royalties_are_updated_whole() {
    assert_eq!(
        update_accounts().update_royalties_plugin(UpdateRoyaltiesPluginArgs {
            basis_points: 500,
            creators: some_creators()
        }),
        update_request(some_royalties())
    );
}

#[test]
fn freeze_delegate_is_toggled() {
    assert_eq!(
        update_accounts().update_freeze_delegate(FreezeDelegate { frozen: true }),
        update_request(Plugin::FreezeDelegate(FreezeDelegate { frozen: false }))
    );
    assert_eq!(
        update_accounts().update_freeze_delegate(FreezeDelegate { frozen: false }),
        update_request(Plugin::FreezeDelegate(FreezeDelegate { frozen: true }))
    );
}

#[test]
fn new_autograph_follows_the_existing_ones() {
    let existing = Autograph {
        signatures: vec![
            AutographSignature { address: a(5), message: "one".to_string() },
            AutographSignature { address: a(6), message: "two".to_string() },
        ],
    };
    assert_eq!(
        update_accounts().add_new_autograph_to_asset_with_existing_autograph_plugin(
            existing,
            UpdateAutographPluginArgs { message: "three".to_string() }
        ),
        update_request(Plugin::Autograph(Autograph {
            signatures: vec![
                AutographSignature { address: a(5), message: "one".to_string() },
                AutographSignature { address: a(6), message: "two".to_string() },
                AutographSignature { address: a(1), message: "three".to_string() },
            ],
        }))
    );
    assert_eq!(
        update_accounts().add_new_autograph_to_asset_with_existing_autograph_plugin(
            Autograph { signatures: vec![] },
            UpdateAutographPluginArgs { message: "".to_string() }
        ),
        update_request(Plugin::Autograph(Autograph {
            signatures: vec![AutographSignature { address: a(1), message: "".to_string() }],
        }))
    );
}

#[test]
fn metadata_update_names_the_update_authority() {
    let accounts = UpdateNFTMetadata {
        payer: a(1),
        asset: a(4),
        collection: Some(a(2)),
        update_authority: Some(a(3)),
    };
    assert_eq!(
        accounts.handler(UpdateNFTMetadataArgs { name: "Robin".to_string(), uri: "r".to_string() }),
        UpdateRequest {
            asset: a(4),
            collection: Some(a(2)),
            payer: a(1),
            authority: Some(a(3)),
            new_name: "Robin".to_string(),
            new_uri: "r".to_string(),
        }
    );
}

#[test]
fn transfer_and_burn_requests() {
    let accounts = TransferNFT {
        payer: a(1),
        asset: a(4),
        collection: Some(a(2)),
        authority: Some(a(5)),
        new_owner: a(6),
        log_wrapper: None,
    };
    assert_eq!(
        accounts.handler(),
        TransferRequest {
            asset: a(4),
            collection: Some(a(2)),
            payer: a(1),
            new_owner: a(6),
            authority: Some(a(5)),
            log_wrapper: None,
        }
    );
    let accounts = BurnNFT { payer: a(1), asset: a(4), collection: None, authority: None };
    assert_eq!(
        accounts.burn_nft(),
        BurnRequest { asset: a(4), collection: None, payer: a(1), authority: None }
    );
}
