//! The edition sequencer: one counter for each collection, from which the
//! numbers of its editions are issued.

use vstd::prelude::*;
use crate::address::Address;
use crate::asset::Collection;
use crate::error::SequencerError;
use crate::plugin::{MasterEdition, Plugin, PluginKind};
use crate::registry::{find, PluginRecord};

verus! {

/// What a collection allows the sequencer.
#[derive(Clone, Copy, Debug, PartialEq, Eq, Structural)]
pub enum EditionPolicy {
    /// The collection has no master edition: it has no numbered editions.
    NotMaster,
    /// A master edition without a maximal supply.
    Unlimited,
    /// A master edition with this maximal supply.
    Capped(u32),
}

/// The policy that a master edition states, or the lack of one.
pub open spec fn policy_under(master: Option<MasterEdition>) -> EditionPolicy {
    match master {
        Some(master) => match master.max_supply {
            Some(supply) => EditionPolicy::Capped(supply),
            None => EditionPolicy::Unlimited,
        },
        None => EditionPolicy::NotMaster,
    }
}

/// The policy that a collection's plugins state.
pub open spec fn policy_of(records: Seq<PluginRecord>) -> EditionPolicy {
    match find(records, PluginKind::MasterEdition) {
        Some(record) => match record.plugin {
            Plugin::MasterEdition(master) => policy_under(Some(master)),
            _ => EditionPolicy::NotMaster,
        },
        None => EditionPolicy::NotMaster,
    }
}

/// The policy under a collection's master edition plugin, where it has one.
pub fn policy_for(master: Option<&MasterEdition>) -> (policy: EditionPolicy)
    ensures
        policy == policy_under(
            match master {
                Some(m) => Some(*m),
                None => None,
            },
        ),
{
    match master {
        Some(m) => match m.max_supply {
            Some(supply) => EditionPolicy::Capped(supply),
            None => EditionPolicy::Unlimited,
        },
        None => EditionPolicy::NotMaster,
    }
}

/// The policy of a collection.
pub fn edition_policy(collection: &Collection) -> (policy: EditionPolicy)
    ensures
        policy == policy_of(collection.plugins@),
{
    match collection.plugins.get(PluginKind::MasterEdition) {
        Some(Plugin::MasterEdition(master)) => policy_for(Some(master)),
        _ => EditionPolicy::NotMaster,
    }
}

/// Whether no further edition can be numbered: the maximal supply is
/// reached, or the count is the largest that the counter can hold.
pub open spec fn cap_reached(count: u64, policy: EditionPolicy) -> bool {
    count == u64::MAX || (policy matches EditionPolicy::Capped(supply) && count >= supply)
}

/// What a request for the next number gets, by the counter's state and the
/// collection's policy: the count raised by one, or the reason why not.
pub open spec fn issue_outcome(count: u64, locked: bool, policy: EditionPolicy) -> Result<
    u64,
    SequencerError,
> {
    if policy is NotMaster {
        Err(SequencerError::CollectionNotMasterEdition)
    } else if locked {
        Err(SequencerError::Conflict)
    } else if cap_reached(count, policy) {
        Err(SequencerError::EditionCapExceeded)
    } else {
        Ok((count + 1) as u64)
    }
}

/// The count after the request: the number issued, or the count as it was.
pub open spec fn count_after(count: u64, locked: bool, policy: EditionPolicy) -> u64 {
    match issue_outcome(count, locked, policy) {
        Ok(number) => number,
        Err(_) => count,
    }
}

/// The counter of one collection: how many editions were numbered so far.
#[derive(Clone, Copy, Debug, PartialEq, Eq)]
pub struct EditionCounter {
    pub collection: Address,
    pub count: u64,
    /// Set while another operation holds the record.
    pub locked: bool,
}

impl EditionCounter {
    /// The counter of a collection that has no edition yet.
    pub fn new(collection: Address) -> (counter: EditionCounter)
        ensures
            counter == (EditionCounter { collection, count: 0, locked: false }),
    {
        EditionCounter { collection, count: 0, locked: false }
    }

    /// Issues the next edition number and counts it. On an error the counter
    /// stays as it was.
    pub fn next(&mut self, policy: EditionPolicy) -> (result: Result<u64, SequencerError>)
        ensures
            result == issue_outcome(old(self).count, old(self).locked, policy),
            final(self).count == count_after(old(self).count, old(self).locked, policy),
            final(self).collection == old(self).collection,
            final(self).locked == old(self).locked,
    {
        let cap = match policy {
            EditionPolicy::NotMaster => {
                return Err(SequencerError::CollectionNotMasterEdition);
            },
            EditionPolicy::Unlimited => u64::MAX,
            EditionPolicy::Capped(supply) => supply as u64,
        };
        if self.locked {
            return Err(SequencerError::Conflict);
        }
        if self.count >= cap {
            return Err(SequencerError::EditionCapExceeded);
        }
        self.count = self.count + 1;
        Ok(self.count)
    }
}

/// Whether a counter for this collection is among the records.
spec fn has_counter(counters: Seq<EditionCounter>, collection: Address) -> bool {
    exists|i: int| 0 <= i < counters.len() && (#[trigger] counters[i]).collection == collection
}

/// The place of the collection's counter, where it has one.
spec fn counter_slot(counters: Seq<EditionCounter>, collection: Address) -> int {
    choose|i: int| 0 <= i < counters.len() && (#[trigger] counters[i]).collection == collection
}

/// No collection has two counters.
spec fn one_counter_each(counters: Seq<EditionCounter>) -> bool {
    forall|i: int, j: int|
        0 <= i < j < counters.len() ==> (#[trigger] counters[i]).collection != (
        #[trigger] counters[j]).collection
}

/// The count of a collection: that of its counter, or zero while it has none.
pub open spec fn count_of(counters: Map<Address, EditionCounter>, collection: Address) -> u64 {
    if counters.dom().contains(collection) {
        counters[collection].count
    } else {
        0
    }
}

/// Whether the collection's counter is held by an operation in flight.
pub open spec fn is_held(counters: Map<Address, EditionCounter>, collection: Address) -> bool {
    counters.dom().contains(collection) && counters[collection].locked
}

/// One call on the sequencer.
pub enum SequencerCall {
    /// A request for the next edition number of a collection with this policy.
    Issue { collection: Address, policy: EditionPolicy },
    /// An operation takes hold of the collection's counter.
    Acquire { collection: Address },
    /// An operation lets go of the collection's counter.
    Release { collection: Address },
}

/// The number that a call issues, if it issues one.
pub open spec fn number_issued(counters: Map<Address, EditionCounter>, call: SequencerCall) -> Option<
    u64,
> {
    match call {
        SequencerCall::Issue { collection, policy } => match issue_outcome(
            count_of(counters, collection),
            is_held(counters, collection),
            policy,
        ) {
            Ok(number) => Some(number),
            Err(_) => None,
        },
        _ => None,
    }
}

/// The counters after a call, as the sequencer's contracts give them.
pub open spec fn after_call(counters: Map<Address, EditionCounter>, call: SequencerCall) -> Map<
    Address,
    EditionCounter,
> {
    match call {
        SequencerCall::Issue { collection, policy } => match number_issued(counters, call) {
            Some(number) => counters.insert(
                collection,
                EditionCounter { collection, count: number, locked: false },
            ),
            None => counters,
        },
        SequencerCall::Acquire { collection } => if is_held(counters, collection) {
            counters
        } else {
            counters.insert(
                collection,
                EditionCounter { collection, count: count_of(counters, collection), locked: true },
            )
        },
        SequencerCall::Release { collection } => counters.insert(
            collection,
            EditionCounter { collection, count: count_of(counters, collection), locked: false },
        ),
    }
}

/// The counters of all collections. A counter comes into being when it is
/// first written and is never deleted.
#[derive(Debug, PartialEq, Eq)]
pub struct EditionSequencer {
    counters: Vec<EditionCounter>,
}

impl View for EditionSequencer {
    type V = Map<Address, EditionCounter>;

    /// The counters by their collection.
    closed spec fn view(&self) -> Map<Address, EditionCounter> {
        Map::new(
            |collection: Address| has_counter(self.counters@, collection),
            |collection: Address| self.counters@[counter_slot(self.counters@, collection)],
        )
    }
}

impl EditionSequencer {
    #[verifier::type_invariant]
    closed spec fn wf(&self) -> bool {
        one_counter_each(self.counters@)
    }

    /// A sequencer without counters.
    pub fn new() -> (sequencer: EditionSequencer)
        ensures
            sequencer@ == Map::<Address, EditionCounter>::empty(),
    {
        EditionSequencer { counters: Vec::new() }
    }

    /// The place of the collection's counter.
    fn position(&self, collection: &Address) -> (place: Option<usize>)
        ensures
            one_counter_each(self.counters@),
            place is Some <==> has_counter(self.counters@, *collection),
            place matches Some(i) ==> i == counter_slot(self.counters@, *collection) && i
                < self.counters@.len(),
    {
        proof {
            use_type_invariant(self);
        }
        let mut i: usize = 0;
        while i < self.counters.len()
            invariant
                one_counter_each(self.counters@),
                i <= self.counters@.len(),
                forall|j: int| 0 <= j < i ==> (#[trigger] self.counters@[j]).collection != *collection,
            decreases self.counters@.len() - i,
        {
            if self.counters[i].collection == *collection {
                return Some(i);
            }
            i += 1;
        }
        None
    }

    /// Puts a counter in the place of the one of its collection, or adds it
    /// where the collection has none.
    fn store(&mut self, counter: EditionCounter)
        ensures
            final(self)@ == old(self)@.insert(counter.collection, counter),
    {
        let place = self.position(&counter.collection);
        let ghost before = self.counters@;
        let mut counters: Vec<EditionCounter> = Vec::new();
        core::mem::swap(&mut self.counters, &mut counters);
        match place {
            Some(i) => {
                counters.set(i, counter);
            },
            None => {
                counters.push(counter);
            },
        }
        let ghost after = counters@;
        core::mem::swap(&mut self.counters, &mut counters);
        proof {
            let at = if place is Some {
                place->0 as int
            } else {
                before.len() as int
            };
            assert(after[at] == counter);
            assert(forall|i: int| 0 <= i < before.len() && i != at ==> after[i] == before[i]);
            assert forall|collection: Address|
                has_counter(after, collection) == (collection == counter.collection || has_counter(
                    before,
                    collection,
                )) && (has_counter(after, collection) ==> after[counter_slot(after, collection)]
                    == if collection == counter.collection {
                    counter
                } else {
                    before[counter_slot(before, collection)]
                }) by {
                if collection == counter.collection {
                    assert(has_counter(after, collection));
                } else if has_counter(before, collection) {
                    let i = counter_slot(before, collection);
                    assert(after[i].collection == collection);
                    assert(counter_slot(after, collection) == i);
                } else if has_counter(after, collection) {
                    let i = counter_slot(after, collection);
                    assert(before[i].collection == collection);
                }
            }
            assert(final(self)@ =~= old(self)@.insert(counter.collection, counter));
        }
    }

    /// The collection's counter as it stands: a new one where it has none.
    pub fn counter(&self, collection: &Address) -> (counter: EditionCounter)
        ensures
            counter == (EditionCounter {
                collection: *collection,
                count: count_of(self@, *collection),
                locked: is_held(self@, *collection),
            }),
    {
        match self.position(collection) {
            Some(i) => self.counters[i],
            None => EditionCounter::new(*collection),
        }
    }

    /// Issues the next edition number of a collection and counts it: the
    /// collection's counter is written, and so made where there was none.
    /// On an error nothing changes.
    pub fn next_edition_number(&mut self, collection: &Collection) -> (result: Result<
        u64,
        SequencerError,
    >)
        ensures
            result == issue_outcome(
                count_of(old(self)@, collection.id),
                is_held(old(self)@, collection.id),
                policy_of(collection.plugins@),
            ),
            match result {
                Ok(number) => final(self)@ == old(self)@.insert(
                    collection.id,
                    EditionCounter { collection: collection.id, count: number, locked: false },
                ),
                Err(_) => final(self)@ == old(self)@,
            },
            final(self)@ == after_call(
                old(self)@,
                SequencerCall::Issue {
                    collection: collection.id,
                    policy: policy_of(collection.plugins@),
                },
            ),
    {
        let policy = edition_policy(collection);
        let mut counter = self.counter(&collection.id);
        let result = counter.next(policy);
        if result.is_ok() {
            self.store(counter);
        }
        result
    }

    /// Takes hold of a collection's counter for an operation in flight. While
    /// it is held, no number is issued from it. A counter that is held
    /// already is not taken again.
    pub fn acquire(&mut self, collection: Address) -> (result: Result<(), SequencerError>)
        ensures
            is_held(old(self)@, collection) ==> result == Err::<(), SequencerError>(
                SequencerError::Conflict,
            ) && final(self)@ == old(self)@,
            !is_held(old(self)@, collection) ==> result is Ok && final(self)@ == old(self)@.insert(
                collection,
                EditionCounter {
                    collection,
                    count: count_of(old(self)@, collection),
                    locked: true,
                },
            ),
            final(self)@ == after_call(old(self)@, SequencerCall::Acquire { collection }),
    {
        let mut counter = self.counter(&collection);
        if counter.locked {
            return Err(SequencerError::Conflict);
        }
        counter.locked = true;
        self.store(counter);
        Ok(())
    }

    /// Lets go of a collection's counter.
    pub fn release(&mut self, collection: Address)
        ensures
            final(self)@ == old(self)@.insert(
                collection,
                EditionCounter {
                    collection,
                    count: count_of(old(self)@, collection),
                    locked: false,
                },
            ),
            final(self)@ == after_call(old(self)@, SequencerCall::Release { collection }),
    {
        let mut counter = self.counter(&collection);
        counter.locked = false;
        self.store(counter);
    }
}

} // verus!
