//! Adding plugins to a collection, where they hold for every member.

use vstd::prelude::*;
use crate::address::Address;
use crate::instructions::add_plugins_to_nft::{is_royalties, royalties_plugin, AddRoyaltiesPluginArgs};
use crate::instructions::request::{is_metaplex_oracle, metaplex_oracle, AddCollectionPluginRequest};
use crate::plugin::Plugin;

verus! {

/// The accounts of an instruction that adds a plugin to a collection.
#[derive(Clone, Copy, Debug, PartialEq, Eq)]
pub struct AddPluginsToCollections {
    pub payer: Address,
    pub collection: Address,
    /// The collection's update authority.
    pub update_authority: Option<Address>,
    /// The program that receives log data.
    pub log_wrapper: Option<Address>,
}

impl AddPluginsToCollections {
    /// Whether the request is for this instruction's collection, made by its
    /// update authority and logged.
    pub open spec fn requests(&self, request: AddCollectionPluginRequest) -> bool {
        &&& request.collection == self.collection
        &&& request.payer == self.payer
        &&& request.authority == self.update_authority
        &&& request.log_wrapper == self.log_wrapper
    }

    fn with_plugin(&self, plugin: Plugin) -> (request: AddCollectionPluginRequest)
        ensures
            self.requests(request),
            request.plugin == plugin,
    {
        AddCollectionPluginRequest {
            collection: self.collection,
            payer: self.payer,
            authority: self.update_authority,
            log_wrapper: self.log_wrapper,
            plugin,
        }
    }

    /// The marker that lets compressed assets be made of the collection.
    pub fn add_bubblegum_plugin_to_collection(&self) -> (request: AddCollectionPluginRequest)
        ensures
            self.requests(request),
            request.plugin == Plugin::BubblegumCompressionMarker,
    {
        self.with_plugin(Plugin::BubblegumCompressionMarker)
    }

    /// Royalties for every member of the collection.
    pub fn add_royalties_plugin_to_collection(&self, args: AddRoyaltiesPluginArgs) -> (request:
        AddCollectionPluginRequest)
        ensures
            self.requests(request),
            is_royalties(request.plugin, args.basis_points, args.creators@),
    {
        self.with_plugin(royalties_plugin(args.basis_points, args.creators))
    }

    /// The on-chain oracle, consulted on the transfers of every member. The
    /// request names the payer alone: no authority and no log program.
    pub fn add_metaplex_oracle_to_collection(&self) -> (request: AddCollectionPluginRequest)
        ensures
            request.collection == self.collection,
            request.payer == self.payer,
            request.authority is None,
            request.log_wrapper is None,
            is_metaplex_oracle(request.plugin),
    {
        AddCollectionPluginRequest {
            collection: self.collection,
            payer: self.payer,
            authority: None,
            log_wrapper: None,
            plugin: metaplex_oracle(),
        }
    }
}

} // verus!
