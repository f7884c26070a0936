//! Making a numbered edition of a master edition collection.

use vstd::prelude::*;
use crate::address::Address;
use crate::edition::{count_after, issue_outcome, EditionCounter, EditionPolicy};
use crate::error::SequencerError;
use crate::instructions::request::{authority_managed, CreateAssetRequest};
use crate::plugin::{AuthorityModel, Edition, Plugin, PluginAuthorityPair};

verus! {

/// The accounts of an instruction that makes an edition.
#[derive(Clone, Copy, Debug, PartialEq, Eq)]
pub struct CreateEdition {
    pub payer: Address,
    /// The asset to be made.
    pub edition_asset: Address,
    /// The collection that the asset will be part of.
    pub master_edition_collection: Address,
    /// Who authorises the creation.
    pub authority: Option<Address>,
    /// The owner of the new asset; the authority where none is given.
    pub owner: Option<Address>,
    /// The collection's counter, made with its first edition.
    pub edition_count: EditionCounter,
}

/// The name and address of a new edition.
#[derive(Clone, Debug, PartialEq, Eq)]
pub struct CreateEditionArgs {
    pub name_of_edition_asset: String,
    pub uri_of_edition_asset: String,
}

impl CreateEdition {
    /// Takes the next edition number from the collection's counter and asks
    /// for an asset of the collection that carries it, bound to the update
    /// authority. `policy` is what the collection's master edition allows.
    /// Where no number is issued, the counter stays and nothing is asked.
    pub fn create_edition(&mut self, policy: EditionPolicy, create_edition_args: CreateEditionArgs) -> (result:
        Result<CreateAssetRequest, SequencerError>)
        ensures
            final(self).payer == old(self).payer,
            final(self).edition_asset == old(self).edition_asset,
            final(self).master_edition_collection == old(self).master_edition_collection,
            final(self).authority == old(self).authority,
            final(self).owner == old(self).owner,
            final(self).edition_count.collection == old(self).edition_count.collection,
            final(self).edition_count.locked == old(self).edition_count.locked,
            final(self).edition_count.count == count_after(
                old(self).edition_count.count,
                old(self).edition_count.locked,
                policy,
            ),
            match issue_outcome(
                old(self).edition_count.count,
                old(self).edition_count.locked,
                policy,
            ) {
                Err(e) => result matches Err(error) && error == e,
                Ok(number) => {
                    &&& result matches Ok(request)
                    &&& request.asset == old(self).edition_asset
                    &&& request.collection == Some(old(self).master_edition_collection)
                    &&& request.authority is None
                    &&& request.owner == old(self).owner
                    &&& request.update_authority is None
                    &&& request.payer == old(self).payer
                    &&& request.name == create_edition_args.name_of_edition_asset
                    &&& request.uri == create_edition_args.uri_of_edition_asset
                    &&& request.plugins@ == seq![
                        (PluginAuthorityPair {
                            plugin: Plugin::Edition(Edition { number }),
                            authority: Some(AuthorityModel::UpdateAuthority),
                        }),
                    ]
                },
            },
    {
        let edition_number = match self.edition_count.next(policy) {
            Ok(number) => number,
            Err(e) => {
                return Err(e);
            },
        };
        Ok(
            CreateAssetRequest {
                asset: self.edition_asset,
                collection: Some(self.master_edition_collection),
                authority: None,
                owner: self.owner,
                update_authority: None,
                payer: self.payer,
                name: create_edition_args.name_of_edition_asset,
                uri: create_edition_args.uri_of_edition_asset,
                plugins: authority_managed(Plugin::Edition(Edition { number: edition_number })),
            },
        )
    }
}

} // verus!
