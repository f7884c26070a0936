//! The requests that the instructions make of the asset registry.

use vstd::prelude::*;
use crate::address::Address;
use crate::constants::ONCHAIN_METAPLEX_ORACLE_PLUGIN;
use crate::plugin::{
    AuthorityModel, ExternalOracle, LifecycleCheck, LifecycleEvent, Plugin, PluginAuthorityPair,
    ResultsOffset,
};

verus! {

/// Make a collection.
#[derive(Clone, Debug, PartialEq, Eq)]
pub struct CreateCollectionRequest {
    pub collection: Address,
    pub update_authority: Option<Address>,
    pub payer: Address,
    pub name: String,
    pub uri: String,
    pub plugins: Vec<PluginAuthorityPair>,
}

/// Make an asset.
#[derive(Clone, Debug, PartialEq, Eq)]
pub struct CreateAssetRequest {
    pub asset: Address,
    pub collection: Option<Address>,
    pub authority: Option<Address>,
    pub owner: Option<Address>,
    pub update_authority: Option<Address>,
    pub payer: Address,
    pub name: String,
    pub uri: String,
    pub plugins: Vec<PluginAuthorityPair>,
}

/// Add a plugin to an asset.
#[derive(Clone, Debug, PartialEq, Eq)]
pub struct AddPluginRequest {
    pub asset: Address,
    pub collection: Option<Address>,
    pub payer: Address,
    pub authority: Option<Address>,
    pub plugin: Plugin,
}

/// Add a plugin to a collection.
#[derive(Clone, Debug, PartialEq, Eq)]
pub struct AddCollectionPluginRequest {
    pub collection: Address,
    pub payer: Address,
    pub authority: Option<Address>,
    pub log_wrapper: Option<Address>,
    pub plugin: Plugin,
}

/// Put a full payload in the place of an asset's plugin.
#[derive(Clone, Debug, PartialEq, Eq)]
pub struct UpdatePluginRequest {
    pub asset: Address,
    pub collection: Option<Address>,
    pub payer: Address,
    pub authority: Option<Address>,
    pub log_wrapper: Option<Address>,
    pub plugin: Plugin,
}

/// Hand an asset to a new owner.
#[derive(Clone, Copy, Debug, PartialEq, Eq)]
pub struct TransferRequest {
    pub asset: Address,
    pub collection: Option<Address>,
    pub payer: Address,
    pub new_owner: Address,
    pub authority: Option<Address>,
    pub log_wrapper: Option<Address>,
}

/// Destroy an asset.
#[derive(Clone, Copy, Debug, PartialEq, Eq)]
pub struct BurnRequest {
    pub asset: Address,
    pub collection: Option<Address>,
    pub payer: Address,
    pub authority: Option<Address>,
}

/// Give an asset a new name and address.
#[derive(Clone, Debug, PartialEq, Eq)]
pub struct UpdateRequest {
    pub asset: Address,
    pub collection: Option<Address>,
    pub payer: Address,
    pub authority: Option<Address>,
    pub new_name: String,
    pub new_uri: String,
}

/// The one check that the on-chain oracle is bound with: on a transfer, a
/// result with the rejection flag set rejects.
pub open spec fn transfer_check() -> LifecycleCheck {
    LifecycleCheck { event: LifecycleEvent::Transfer, flags: 4 }
}

/// Whether the plugin is the on-chain oracle as the instructions bind it:
/// consulted on transfers for the rejection flag, its result behind an 8-byte
/// discriminator.
pub open spec fn is_metaplex_oracle(plugin: Plugin) -> bool {
    &&& plugin matches Plugin::ExternalOracle(oracle)
    &&& oracle.base_address.bytes == ONCHAIN_METAPLEX_ORACLE_PLUGIN
    &&& oracle.lifecycle_checks@ == seq![transfer_check()]
    &&& oracle.results_offset == ResultsOffset::Anchor
}

/// The on-chain oracle as the instructions bind it.
pub fn metaplex_oracle() -> (plugin: Plugin)
    ensures
        is_metaplex_oracle(plugin),
{
    let lifecycle_checks = vec![LifecycleCheck { event: LifecycleEvent::Transfer, flags: 4 }];
    assert(lifecycle_checks@ =~= seq![transfer_check()]);
    Plugin::ExternalOracle(
        ExternalOracle {
            base_address: Address::new(ONCHAIN_METAPLEX_ORACLE_PLUGIN),
            lifecycle_checks,
            results_offset: ResultsOffset::Anchor,
        },
    )
}

/// A list of one plugin, bound to the update authority.
pub fn authority_managed(plugin: Plugin) -> (plugins: Vec<PluginAuthorityPair>)
    ensures
        plugins@ == seq![
            (PluginAuthorityPair { plugin, authority: Some(AuthorityModel::UpdateAuthority) }),
        ],
{
    vec![PluginAuthorityPair { plugin, authority: Some(AuthorityModel::UpdateAuthority) }]
}

} // verus!
