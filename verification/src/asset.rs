//! Assets and collections: what the plugin rules are decided on.

use vstd::prelude::*;
use crate::address::Address;
use crate::plugin::PluginKind;
use crate::registry::PluginSet;

verus! {

/// A delegate binding that a transfer cleared.
#[derive(Clone, Copy, Debug, PartialEq, Eq)]
pub struct Revocation {
    pub plugin_kind: PluginKind,
    pub delegate: Address,
}

/// A group of assets under one update authority. Its plugins apply to every
/// member, beside the member's own.
#[derive(Debug, PartialEq, Eq)]
pub struct Collection {
    pub id: Address,
    pub update_authority: Address,
    pub name: String,
    pub uri: String,
    pub plugins: PluginSet,
}

/// A uniquely owned item.
#[derive(Debug, PartialEq, Eq)]
pub struct Asset {
    pub id: Address,
    pub owner: Address,
    /// The collection that the asset belongs to, if any.
    pub collection: Option<Address>,
    /// The asset's own update authority; without one it has its collection's.
    pub update_authority: Option<Address>,
    pub name: String,
    pub uri: String,
    pub plugins: PluginSet,
    /// The delegate bindings that transfers have cleared, oldest first.
    pub revoked: Vec<Revocation>,
}

impl Collection {
    /// Whether the two differ in nothing but their plugins.
    pub open spec fn same_but_plugins(&self, other: &Collection) -> bool {
        &&& self.id == other.id
        &&& self.update_authority == other.update_authority
        &&& self.name == other.name
        &&& self.uri == other.uri
    }
}

impl Asset {
    /// Whether the two differ in nothing but their plugins.
    pub open spec fn same_but_plugins(&self, other: &Asset) -> bool {
        &&& self.id == other.id
        &&& self.owner == other.owner
        &&& self.collection == other.collection
        &&& self.update_authority == other.update_authority
        &&& self.name == other.name
        &&& self.uri == other.uri
        &&& self.revoked == other.revoked
    }

    /// Whether `collection` is what the asset belongs to: its collection, or
    /// none where it has none.
    pub open spec fn member_of(&self, collection: Option<&Collection>) -> bool {
        match self.collection {
            Some(id) => collection matches Some(c) && c.id == id,
            None => collection is None,
        }
    }

    #[verifier::when_used_as_spec(member_of)]
    pub fn is_member_of(&self, collection: Option<&Collection>) -> (member: bool)
        ensures
            member == self.member_of(collection),
    {
        match self.collection {
            Some(id) => match collection {
                Some(c) => c.id == id,
                None => false,
            },
            None => collection.is_none(),
        }
    }

    /// Who may update the asset: its own update authority, else that of the
    /// collection, else nobody.
    pub open spec fn update_authority_in(&self, collection: Option<&Collection>) -> Option<
        Address,
    > {
        match self.update_authority {
            Some(authority) => Some(authority),
            None => match collection {
                Some(c) => Some(c.update_authority),
                None => None,
            },
        }
    }

    #[verifier::when_used_as_spec(update_authority_in)]
    pub fn effective_update_authority(&self, collection: Option<&Collection>) -> (authority:
        Option<Address>)
        ensures
            authority == self.update_authority_in(collection),
    {
        match self.update_authority {
            Some(authority) => Some(authority),
            None => match collection {
                Some(c) => Some(c.update_authority),
                None => None,
            },
        }
    }
}

} // verus!
