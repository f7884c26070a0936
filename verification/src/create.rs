//! Creating collections and assets with their first plugins.

use vstd::prelude::*;
use crate::address::Address;
use crate::asset::{Asset, Collection, Revocation};
use crate::edition::{
    count_of, edition_policy, is_held, issue_outcome, policy_of, EditionCounter, EditionPolicy,
    EditionSequencer,
};
use crate::error::{AuthError, CoreError, PluginError};
use crate::plugin::{Edition, LifecycleEvent, Plugin, PluginAuthorityPair, PluginKind};
use crate::registry::{
    attached, binding_allowed, registered, AuditEvent, PluginRecord, PluginSet,
};

verus! {

/// The records that a list of first plugins gives, each registered in its
/// turn, or the error of the first that cannot be: one whose variant came
/// before, or one whose binding its variant does not allow.
pub open spec fn initial_records(pairs: Seq<PluginAuthorityPair>) -> Result<
    Seq<PluginRecord>,
    CoreError,
>
    decreases pairs.len(),
{
    if pairs.len() == 0 {
        Ok(Seq::empty())
    } else {
        match initial_records(pairs.drop_last()) {
            Err(e) => Err(e),
            Ok(records) => {
                let pair = pairs.last();
                if attached(records, pair.plugin.kind()) {
                    Err(CoreError::Plugin(PluginError::DuplicatePlugin))
                } else if !binding_allowed(pair.plugin.kind(), pair.authority) {
                    Err(CoreError::Auth(AuthError::IncompatibleAuthority))
                } else {
                    Ok(registered(records, pair.plugin, pair.authority, false))
                }
            },
        }
    }
}

/// What the registration of a record as a new plugin reports.
pub open spec fn addition_event(target: Address, record: PluginRecord) -> AuditEvent {
    AuditEvent {
        target,
        plugin_kind: record.plugin.kind(),
        action: LifecycleEvent::Add,
        authority_used: record.authority,
    }
}

/// What the registration of these records reports, in their order.
pub open spec fn addition_events(target: Address, records: Seq<PluginRecord>) -> Seq<AuditEvent> {
    records.map_values(|record: PluginRecord| addition_event(target, record))
}

/// Registers the first plugins of a new target. The events are those of the
/// registrations, and are empty on an error.
fn attach_all(target: Address, pairs: Vec<PluginAuthorityPair>) -> (result: Result<
    (PluginSet, Vec<AuditEvent>),
    CoreError,
>)
    ensures
        match initial_records(pairs@) {
            Ok(records) => result matches Ok((set, events)) && set@ == records && events@
                == addition_events(target, records),
            Err(e) => result matches Err(error) && error == e,
        },
{
    let mut set = PluginSet::new();
    let mut events: Vec<AuditEvent> = Vec::new();
    let ghost all = pairs@;
    for pair in it: pairs
        invariant
            it.seq() == all,
            initial_records(all.take(it.index() as int)) == Ok::<Seq<PluginRecord>, CoreError>(
                set@,
            ),
            events@ == addition_events(target, set@),
    {
        proof {
            let i = it.index() as int;
            assert(all.take(i + 1).drop_last() =~= all.take(i));
            if initial_records(all.take(i + 1)) is Err {
                lemma_initial_error(all, i + 1);
            }
        }
        if set.contains(pair.plugin.kind()) {
            return Err(CoreError::Plugin(PluginError::DuplicatePlugin));
        }
        match set.register_or_replace(target, pair.plugin, pair.authority, false, &mut events) {
            Ok(_) => {},
            Err(e) => {
                return Err(CoreError::Auth(e));
            },
        }
    }
    proof {
        assert(all.take(all.len() as int) =~= all);
    }
    Ok((set, events))
}

/// An error on a part of the list is the error on the whole.
proof fn lemma_initial_error(pairs: Seq<PluginAuthorityPair>, n: int)
    requires
        0 <= n <= pairs.len(),
        initial_records(pairs.take(n)) is Err,
    ensures
        initial_records(pairs) == initial_records(pairs.take(n)),
    decreases pairs.len() - n,
{
    if n < pairs.len() {
        assert(pairs.take(n + 1).drop_last() =~= pairs.take(n));
        lemma_initial_error(pairs, n + 1);
    } else {
        assert(pairs.take(n) =~= pairs);
    }
}

/// Whether a new asset gets its edition number from the sequencer: it is
/// made in a collection that has a master edition, and carries an edition
/// plugin.
pub open spec fn numbered_edition(records: Seq<PluginRecord>, collection: Option<&Collection>) -> bool {
    &&& collection matches Some(c)
    &&& !(policy_of(c.plugins@) is NotMaster)
    &&& attached(records, PluginKind::Edition)
}

/// The records with the edition plugin's number set to `number`.
pub open spec fn stamped(records: Seq<PluginRecord>, number: u64) -> Seq<PluginRecord> {
    registered(records, Plugin::Edition(Edition { number }), None, false)
}

impl Collection {
    /// Makes a collection with its first plugins, and reports each as added.
    /// On an error nothing is made and nothing reported.
    pub fn create(
        id: Address,
        update_authority: Address,
        name: String,
        uri: String,
        plugins: Vec<PluginAuthorityPair>,
        log: &mut Vec<AuditEvent>,
    ) -> (result: Result<Collection, CoreError>)
        ensures
            match initial_records(plugins@) {
                Ok(records) => {
                    &&& result matches Ok(collection)
                    &&& collection.id == id
                    &&& collection.update_authority == update_authority
                    &&& collection.name == name
                    &&& collection.uri == uri
                    &&& collection.plugins@ == records
                    &&& final(log)@ == old(log)@ + addition_events(id, records)
                },
                Err(e) => {
                    &&& result matches Err(error)
                    &&& error == e
                    &&& final(log)@ == old(log)@
                },
            },
    {
        match attach_all(id, plugins) {
            Ok((set, events)) => {
                let mut events = events;
                log.append(&mut events);
                Ok(Collection { id, update_authority, name, uri, plugins: set })
            },
            Err(e) => Err(e),
        }
    }
}

impl Asset {
    /// Makes an asset with its first plugins, and reports each as added. An
    /// asset that carries an edition plugin and is made in a collection with
    /// a master edition gets the next edition number of that collection as
    /// its edition's number. On an error nothing is made, counted or
    /// reported.
    pub fn create(
        id: Address,
        owner: Address,
        update_authority: Option<Address>,
        collection: Option<&Collection>,
        name: String,
        uri: String,
        plugins: Vec<PluginAuthorityPair>,
        sequencer: &mut EditionSequencer,
        log: &mut Vec<AuditEvent>,
    ) -> (result: Result<Asset, CoreError>)
        ensures
            result matches Ok(asset) ==> {
                &&& asset.id == id
                &&& asset.owner == owner
                &&& asset.update_authority == update_authority
                &&& asset.collection == match collection {
                    Some(c) => Some(c.id),
                    None => None,
                }
                &&& asset.member_of(collection)
                &&& asset.name == name
                &&& asset.uri == uri
                &&& asset.revoked@ == Seq::<Revocation>::empty()
            },
            result is Err ==> final(sequencer)@ == old(sequencer)@ && final(log)@ == old(log)@,
            match initial_records(plugins@) {
                Err(e) => result matches Err(error) && error == e,
                Ok(records) => if numbered_edition(records, collection) {
                    match issue_outcome(
                        count_of(old(sequencer)@, collection->0.id),
                        is_held(old(sequencer)@, collection->0.id),
                        policy_of(collection->0.plugins@),
                    ) {
                        Err(e) => result matches Err(error) && error == CoreError::Sequencer(e),
                        Ok(number) => {
                            &&& result matches Ok(asset)
                            &&& asset.plugins@ == stamped(records, number)
                            &&& final(sequencer)@ == old(sequencer)@.insert(
                                collection->0.id,
                                EditionCounter {
                                    collection: collection->0.id,
                                    count: number,
                                    locked: false,
                                },
                            )
                            &&& final(log)@ == old(log)@ + addition_events(id, records)
                        },
                    }
                } else {
                    &&& result matches Ok(asset)
                    &&& asset.plugins@ == records
                    &&& final(sequencer)@ == old(sequencer)@
                    &&& final(log)@ == old(log)@ + addition_events(id, records)
                },
            },
    {
        let (mut set, mut events) = match attach_all(id, plugins) {
            Ok(made) => made,
            Err(e) => {
                return Err(e);
            },
        };
        let home = match collection {
            Some(c) => {
                if set.contains(PluginKind::Edition) {
                    match edition_policy(c) {
                        EditionPolicy::NotMaster => {},
                        _ => {
                            match sequencer.next_edition_number(c) {
                                Ok(number) => {
                                    // No binding is asked for, so none can be
                                    // refused; and the number is no news to
                                    // whoever keeps the trail.
                                    let mut unreported: Vec<AuditEvent> = Vec::new();
                                    let stamp = set.register_or_replace(
                                        id,
                                        Plugin::Edition(Edition { number }),
                                        None,
                                        false,
                                        &mut unreported,
                                    );
                                    assert(stamp is Ok);
                                },
                                Err(e) => {
                                    return Err(CoreError::Sequencer(e));
                                },
                            }
                        },
                    }
                }
                Some(c.id)
            },
            None => None,
        };
        log.append(&mut events);
        Ok(
            Asset {
                id,
                owner,
                collection: home,
                update_authority,
                name,
                uri,
                plugins: set,
                revoked: Vec::new(),
            },
        )
    }
}

} // verus!
