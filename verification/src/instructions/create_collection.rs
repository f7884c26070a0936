//! Making collections, plain or with a first plugin.

use vstd::prelude::*;
use crate::address::Address;
use crate::instructions::request::{
    authority_managed, is_metaplex_oracle, metaplex_oracle, CreateCollectionRequest,
};
use crate::plugin::{
    AuthorityModel, MasterEdition, PermanentFreezeDelegate, Plugin, PluginAuthorityPair,
};

verus! {

/// The accounts of an instruction that makes a collection.
#[derive(Clone, Copy, Debug, PartialEq, Eq)]
pub struct CreateCollection {
    /// Pays for the new account.
    pub payer: Address,
    /// The collection to be made.
    pub collection: Address,
    /// The collection's update authority; the payer where none is given.
    pub update_authority: Option<Address>,
}

/// The name and address of a new collection.
#[derive(Clone, Debug, PartialEq, Eq)]
pub struct CreateCollectionArgs {
    pub name: String,
    pub uri: String,
}

/// What a new master edition collection is made with.
#[derive(Clone, Debug, PartialEq, Eq)]
pub struct CreateMasterEditionArgs {
    pub name_of_master_edition_collection: String,
    pub uri_of_master_edition_collection: String,
    pub master_edition_name: Option<String>,
    pub master_edition_uri: Option<String>,
    /// The most editions that may be numbered.
    pub max_supply: u32,
}

impl CreateCollection {
    /// Whether the request is for this instruction's collection, under the
    /// given name and address.
    pub open spec fn requests(&self, request: CreateCollectionRequest, name: String, uri: String) -> bool {
        &&& request.collection == self.collection
        &&& request.update_authority == self.update_authority
        &&& request.payer == self.payer
        &&& request.name == name
        &&& request.uri == uri
    }

    fn with_plugins(&self, name: String, uri: String, plugins: Vec<PluginAuthorityPair>) -> (request:
        CreateCollectionRequest)
        ensures
            self.requests(request, name, uri),
            request.plugins == plugins,
    {
        CreateCollectionRequest {
            collection: self.collection,
            update_authority: self.update_authority,
            payer: self.payer,
            name,
            uri,
            plugins,
        }
    }

    /// A collection without plugins.
    pub fn create_collection(&self, args: CreateCollectionArgs) -> (request: CreateCollectionRequest)
        ensures
            self.requests(request, args.name, args.uri),
            request.plugins@ == Seq::<PluginAuthorityPair>::empty(),
    {
        self.with_plugins(args.name, args.uri, Vec::new())
    }

    /// A collection that is the master of numbered editions, at most
    /// `max_supply` of them.
    pub fn create_master_edition(&self, args: CreateMasterEditionArgs) -> (request:
        CreateCollectionRequest)
        ensures
            self.requests(
                request,
                args.name_of_master_edition_collection,
                args.uri_of_master_edition_collection,
            ),
            request.plugins@ == seq![
                (PluginAuthorityPair {
                    plugin: Plugin::MasterEdition(
                        MasterEdition {
                            max_supply: Some(args.max_supply),
                            name: args.master_edition_name,
                            uri: args.master_edition_uri,
                        },
                    ),
                    authority: Some(AuthorityModel::UpdateAuthority),
                }),
            ],
    {
        let plugins = authority_managed(
            Plugin::MasterEdition(
                MasterEdition {
                    max_supply: Some(args.max_supply),
                    name: args.master_edition_name,
                    uri: args.master_edition_uri,
                },
            ),
        );
        self.with_plugins(
            args.name_of_master_edition_collection,
            args.uri_of_master_edition_collection,
            plugins,
        )
    }

    /// A collection whose update authority may transfer every member.
    pub fn create_collection_with_permanent_transfer_delegate(
        &self,
        args: CreateCollectionArgs,
    ) -> (request: CreateCollectionRequest)
        ensures
            self.requests(request, args.name, args.uri),
            request.plugins@ == seq![
                (PluginAuthorityPair {
                    plugin: Plugin::PermanentTransferDelegate,
                    authority: Some(AuthorityModel::UpdateAuthority),
                }),
            ],
    {
        self.with_plugins(args.name, args.uri, authority_managed(Plugin::PermanentTransferDelegate))
    }

    /// A collection whose update authority may freeze every member; it
    /// starts frozen.
    pub fn create_collection_with_permanent_freeze_delegate(
        &self,
        args: CreateCollectionArgs,
    ) -> (request: CreateCollectionRequest)
        ensures
            self.requests(request, args.name, args.uri),
            request.plugins@ == seq![
                (PluginAuthorityPair {
                    plugin: Plugin::PermanentFreezeDelegate(
                        PermanentFreezeDelegate { frozen: true },
                    ),
                    authority: Some(AuthorityModel::UpdateAuthority),
                }),
            ],
    {
        self.with_plugins(
            args.name,
            args.uri,
            authority_managed(
                Plugin::PermanentFreezeDelegate(PermanentFreezeDelegate { frozen: true }),
            ),
        )
    }

    /// A collection whose update authority may burn every member.
    pub fn create_collection_with_permanent_burn_delegate(
        &self,
        args: CreateCollectionArgs,
    ) -> (request: CreateCollectionRequest)
        ensures
            self.requests(request, args.name, args.uri),
            request.plugins@ == seq![
                (PluginAuthorityPair {
                    plugin: Plugin::PermanentBurnDelegate,
                    authority: Some(AuthorityModel::UpdateAuthority),
                }),
            ],
    {
        self.with_plugins(args.name, args.uri, authority_managed(Plugin::PermanentBurnDelegate))
    }

    /// A collection whose transfers the on-chain oracle is consulted on. The
    /// oracle is bound without an authority of its own.
    pub fn create_collection_with_oracle_plugin(&self, args: CreateCollectionArgs) -> (request:
        CreateCollectionRequest)
        ensures
            self.requests(request, args.name, args.uri),
            request.plugins@.len() == 1,
            is_metaplex_oracle(request.plugins@[0].plugin),
            request.plugins@[0].authority is None,
    {
        let plugins = vec![PluginAuthorityPair { plugin: metaplex_oracle(), authority: None }];
        self.with_plugins(args.name, args.uri, plugins)
    }
}

} // verus!
