//! The plugin registry: the plugins attached to one asset or collection, in
//! the order in which they were registered.

use vstd::prelude::*;
use crate::address::Address;
use crate::error::{AuthError, PluginError};
use crate::plugin::{AuthorityModel, LifecycleEvent, Plugin, PluginKind};

verus! {

/// An attached plugin and the authority it is bound to.
#[derive(Clone, Debug, PartialEq, Eq)]
pub struct PluginRecord {
    pub plugin: Plugin,
    pub authority: AuthorityModel,
}

/// What a successful registration or removal reports, for whoever keeps a
/// trail; the registry itself keeps none.
#[derive(Clone, Copy, Debug, PartialEq, Eq)]
pub struct AuditEvent {
    pub target: Address,
    pub plugin_kind: PluginKind,
    pub action: LifecycleEvent,
    pub authority_used: AuthorityModel,
}

/// Whether a plugin of this variant is among the records.
pub open spec fn attached(records: Seq<PluginRecord>, kind: PluginKind) -> bool {
    exists|i: int| 0 <= i < records.len() && (#[trigger] records[i]).plugin.kind() == kind
}

/// The place of the plugin of this variant, where one is attached.
pub open spec fn slot(records: Seq<PluginRecord>, kind: PluginKind) -> int {
    choose|i: int| 0 <= i < records.len() && (#[trigger] records[i]).plugin.kind() == kind
}

/// The record of the plugin of this variant, if one is attached.
pub open spec fn find(records: Seq<PluginRecord>, kind: PluginKind) -> Option<PluginRecord> {
    if attached(records, kind) {
        Some(records[slot(records, kind)])
    } else {
        None
    }
}

/// No variant occurs twice, and every permanent plugin is bound to the
/// update authority.
pub open spec fn well_formed(records: Seq<PluginRecord>) -> bool {
    &&& forall|i: int, j: int|
        0 <= i < j < records.len() ==> (#[trigger] records[i]).plugin.kind() != (
        #[trigger] records[j]).plugin.kind()
    &&& forall|i: int|
        0 <= i < records.len() && (#[trigger] records[i]).plugin.kind().permanent()
            ==> records[i].authority == AuthorityModel::UpdateAuthority
}

/// Whether a plugin of this variant may be bound as asked: a permanent one
/// only to the update authority, which is also what it gets when nothing is
/// asked.
pub open spec fn binding_allowed(kind: PluginKind, binding: Option<AuthorityModel>) -> bool {
    kind.permanent() ==> (binding is None || binding == Some(AuthorityModel::UpdateAuthority))
}

/// Whether a plugin of this variant may be bound as asked.
pub fn may_bind(kind: PluginKind, binding: Option<AuthorityModel>) -> (allowed: bool)
    ensures
        allowed == binding_allowed(kind, binding),
{
    if kind.is_permanent() {
        match binding {
            Some(AuthorityModel::UpdateAuthority) => true,
            None => true,
            _ => false,
        }
    } else {
        true
    }
}

/// Whether a registration succeeds: it fails only on a binding that the
/// plugin's variant does not allow.
pub open spec fn registration_outcome(kind: PluginKind, binding: Option<AuthorityModel>) -> Result<
    (),
    AuthError,
> {
    if binding_allowed(kind, binding) {
        Ok(())
    } else {
        Err(AuthError::IncompatibleAuthority)
    }
}

/// The authority that a plugin is bound to after it was registered. A new
/// plugin gets the binding asked for, or its variant's default. A replaced
/// one keeps its binding, unless a new one is asked for by the authority
/// that it is bound to.
pub open spec fn bound_after(
    records: Seq<PluginRecord>,
    kind: PluginKind,
    binding: Option<AuthorityModel>,
    caller_is_bound_authority: bool,
) -> AuthorityModel {
    if attached(records, kind) {
        if binding is Some && caller_is_bound_authority {
            binding->0
        } else {
            records[slot(records, kind)].authority
        }
    } else {
        match binding {
            Some(authority) => authority,
            None => kind.default_binding(),
        }
    }
}

/// The records after a plugin was registered: it takes the place of the
/// plugin of its variant, or comes last where none was attached.
pub open spec fn registered(
    records: Seq<PluginRecord>,
    plugin: Plugin,
    binding: Option<AuthorityModel>,
    caller_is_bound_authority: bool,
) -> Seq<PluginRecord> {
    let record = PluginRecord {
        plugin,
        authority: bound_after(records, plugin.kind(), binding, caller_is_bound_authority),
    };
    if attached(records, plugin.kind()) {
        records.update(slot(records, plugin.kind()), record)
    } else {
        records.push(record)
    }
}

/// What a registration reports.
pub open spec fn registration_event(
    records: Seq<PluginRecord>,
    target: Address,
    kind: PluginKind,
    binding: Option<AuthorityModel>,
    caller_is_bound_authority: bool,
) -> AuditEvent {
    AuditEvent {
        target,
        plugin_kind: kind,
        action: if attached(records, kind) {
            LifecycleEvent::Update
        } else {
            LifecycleEvent::Add
        },
        authority_used: bound_after(records, kind, binding, caller_is_bound_authority),
    }
}

/// Whether a transfer clears this record: it is bound to a delegate and its
/// variant is not permanent.
pub open spec fn clears_on_transfer(record: PluginRecord) -> bool {
    record.authority is Delegate && !record.plugin.kind().permanent()
}

/// The records that a transfer leaves attached, in their order.
pub open spec fn retained(records: Seq<PluginRecord>) -> Seq<PluginRecord> {
    records.filter(|record: PluginRecord| !clears_on_transfer(record))
}

/// The records that a transfer clears, in their order.
pub open spec fn cleared(records: Seq<PluginRecord>) -> Seq<PluginRecord> {
    records.filter(|record: PluginRecord| clears_on_transfer(record))
}

/// What one more record adds to those retained and to those cleared.
proof fn lemma_transfer_step(records: Seq<PluginRecord>, i: int)
    requires
        0 <= i < records.len(),
    ensures
        clears_on_transfer(records[i]) ==> {
            &&& retained(records.take(i + 1)) == retained(records.take(i))
            &&& cleared(records.take(i + 1)) == cleared(records.take(i)).push(records[i])
        },
        !clears_on_transfer(records[i]) ==> {
            &&& retained(records.take(i + 1)) == retained(records.take(i)).push(records[i])
            &&& cleared(records.take(i + 1)) == cleared(records.take(i))
        },
{
    let longer = records.take(i + 1);
    assert(longer.drop_last() =~= records.take(i));
    reveal_with_fuel(Seq::filter, 2);
}

/// Each record that a transfer clears is bound to a delegate and is not
/// permanent; each that it retains is not such a record.
pub(crate) proof fn lemma_cleared_are_delegated(records: Seq<PluginRecord>, i: int)
    ensures
        0 <= i < cleared(records).len() ==> clears_on_transfer(cleared(records)[i]),
        0 <= i < retained(records).len() ==> !clears_on_transfer(retained(records)[i]),
{
    if 0 <= i < cleared(records).len() {
        records.lemma_filter_pred(|record: PluginRecord| clears_on_transfer(record), i);
    }
    if 0 <= i < retained(records).len() {
        records.lemma_filter_pred(|record: PluginRecord| !clears_on_transfer(record), i);
    }
}

/// Every record is one of `records`, and they stand in the same order.
spec fn drawn_from(part: Seq<PluginRecord>, records: Seq<PluginRecord>) -> bool {
    exists|places: Seq<int>|
        {
            &&& places.len() == part.len()
            &&& forall|k: int|
                0 <= k < places.len() ==> 0 <= #[trigger] places[k] < records.len() && part[k]
                    == records[places[k]]
            &&& forall|k: int, l: int|
                0 <= k < l < places.len() ==> #[trigger] places[k] < #[trigger] places[l]
        }
}

/// Records drawn in order from well-formed records are well-formed.
proof fn lemma_drawn_well_formed(part: Seq<PluginRecord>, records: Seq<PluginRecord>)
    requires
        well_formed(records),
        drawn_from(part, records),
    ensures
        well_formed(part),
{
    let places = choose|places: Seq<int>|
        {
            &&& places.len() == part.len()
            &&& forall|k: int|
                0 <= k < places.len() ==> 0 <= #[trigger] places[k] < records.len() && part[k]
                    == records[places[k]]
            &&& forall|k: int, l: int|
                0 <= k < l < places.len() ==> #[trigger] places[k] < #[trigger] places[l]
        };
    assert forall|i: int, j: int| 0 <= i < j < part.len() implies (#[trigger] part[i]).plugin.kind()
        != (#[trigger] part[j]).plugin.kind() by {
        assert(part[i] == records[places[i]]);
        assert(part[j] == records[places[j]]);
    }
    assert forall|i: int|
        0 <= i < part.len() && (#[trigger] part[i]).plugin.kind().permanent() implies part[i].authority
        == AuthorityModel::UpdateAuthority by {
        assert(part[i] == records[places[i]]);
    }
}

/// The plugins of one asset or collection.
#[derive(Debug, PartialEq, Eq)]
pub struct PluginSet {
    records: Vec<PluginRecord>,
}

impl View for PluginSet {
    type V = Seq<PluginRecord>;

    /// The records in registration order.
    closed spec fn view(&self) -> Seq<PluginRecord> {
        self.records@
    }
}

impl PluginSet {
    #[verifier::type_invariant]
    pub open spec fn wf(&self) -> bool {
        well_formed(self@)
    }

    /// A set with no plugin.
    pub fn new() -> (set: PluginSet)
        ensures
            set@ == Seq::<PluginRecord>::empty(),
    {
        PluginSet { records: Vec::new() }
    }

    /// Hands out the records and leaves the set empty.
    fn take_records(&mut self) -> (records: Vec<PluginRecord>)
        ensures
            records@ == old(self)@,
            well_formed(records@),
            final(self)@ == Seq::<PluginRecord>::empty(),
    {
        proof {
            use_type_invariant(&*self);
        }
        let mut records: Vec<PluginRecord> = Vec::new();
        core::mem::swap(&mut self.records, &mut records);
        records
    }

    /// Takes these records as the set's own.
    fn put_records(&mut self, records: Vec<PluginRecord>)
        requires
            well_formed(records@),
        ensures
            final(self)@ == records@,
    {
        let mut records = records;
        core::mem::swap(&mut self.records, &mut records);
    }

    /// The records in registration order.
    pub fn records(&self) -> (records: &Vec<PluginRecord>)
        ensures
            records@ == self@,
            well_formed(self@),
    {
        proof {
            use_type_invariant(self);
        }
        &self.records
    }

    /// The place of the plugin of this variant.
    fn position(&self, kind: PluginKind) -> (place: Option<usize>)
        ensures
            well_formed(self@),
            place is Some <==> attached(self@, kind),
            place matches Some(i) ==> i == slot(self@, kind) && i < self@.len(),
    {
        proof {
            use_type_invariant(self);
        }
        let mut i: usize = 0;
        while i < self.records.len()
            invariant
                well_formed(self@),
                i <= self.records@.len(),
                forall|j: int| 0 <= j < i ==> self.records@[j].plugin.kind() != kind,
            decreases self.records@.len() - i,
        {
            if self.records[i].plugin.kind() == kind {
                return Some(i);
            }
            i += 1;
        }
        None
    }

    /// The plugin of this variant, if one is attached.
    pub fn get(&self, kind: PluginKind) -> (plugin: Option<&Plugin>)
        ensures
            plugin is Some <==> attached(self@, kind),
            plugin matches Some(p) ==> *p == self@[slot(self@, kind)].plugin,
    {
        match self.position(kind) {
            Some(i) => Some(&self.records[i].plugin),
            None => None,
        }
    }

    /// The authority that the plugin of this variant is bound to, if one is
    /// attached.
    pub fn authority_of(&self, kind: PluginKind) -> (authority: Option<AuthorityModel>)
        ensures
            authority == match find(self@, kind) {
                Some(record) => Some(record.authority),
                None => None,
            },
    {
        match self.position(kind) {
            Some(i) => Some(self.records[i].authority),
            None => None,
        }
    }

    /// Whether a plugin of this variant is attached.
    pub fn contains(&self, kind: PluginKind) -> (found: bool)
        ensures
            found == attached(self@, kind),
    {
        self.position(kind).is_some()
    }

    /// Attaches a plugin, in place of the one of its variant if there is one.
    pub fn register_or_replace(
        &mut self,
        target: Address,
        plugin: Plugin,
        binding: Option<AuthorityModel>,
        caller_is_bound_authority: bool,
        log: &mut Vec<AuditEvent>,
    ) -> (result: Result<(), AuthError>)
        ensures
            result == registration_outcome(plugin.kind(), binding),
            result is Ok ==> {
                &&& final(self)@ == registered(
                    old(self)@,
                    plugin,
                    binding,
                    caller_is_bound_authority,
                )
                &&& final(log)@ == old(log)@.push(
                    registration_event(
                        old(self)@,
                        target,
                        plugin.kind(),
                        binding,
                        caller_is_bound_authority,
                    ),
                )
            },
            result is Err ==> {
                &&& final(self)@ == old(self)@
                &&& final(log)@ == old(log)@
            },
    {
        let kind = plugin.kind();
        if !may_bind(kind, binding) {
            return Err(AuthError::IncompatibleAuthority);
        }
        match self.position(kind) {
            Some(i) => {
                let authority = match binding {
                    Some(asked) => if caller_is_bound_authority {
                        asked
                    } else {
                        self.records[i].authority
                    },
                    None => self.records[i].authority,
                };
                let mut records = self.take_records();
                records.set(i, PluginRecord { plugin, authority });
                self.put_records(records);
                log.push(
                    AuditEvent {
                        target,
                        plugin_kind: kind,
                        action: LifecycleEvent::Update,
                        authority_used: authority,
                    },
                );
            },
            None => {
                let authority = match binding {
                    Some(asked) => asked,
                    None => kind.default_authority(),
                };
                let mut records = self.take_records();
                records.push(PluginRecord { plugin, authority });
                self.put_records(records);
                log.push(
                    AuditEvent {
                        target,
                        plugin_kind: kind,
                        action: LifecycleEvent::Add,
                        authority_used: authority,
                    },
                );
            },
        }
        Ok(())
    }

    /// Detaches the plugin of this variant and hands it back.
    pub fn remove(&mut self, target: Address, kind: PluginKind, log: &mut Vec<AuditEvent>) -> (result:
        Result<Plugin, PluginError>)
        ensures
            kind.permanent() ==> {
                &&& result == Err::<Plugin, PluginError>(PluginError::PermanentPluginNotRemovable)
                &&& final(self)@ == old(self)@
                &&& final(log)@ == old(log)@
            },
            !kind.permanent() && !attached(old(self)@, kind) ==> {
                &&& result == Err::<Plugin, PluginError>(PluginError::PluginNotFound)
                &&& final(self)@ == old(self)@
                &&& final(log)@ == old(log)@
            },
            !kind.permanent() && attached(old(self)@, kind) ==> {
                &&& result == Ok::<Plugin, PluginError>(old(self)@[slot(old(self)@, kind)].plugin)
                &&& final(self)@ == old(self)@.remove(slot(old(self)@, kind))
                &&& final(log)@ == old(log)@.push(
                    AuditEvent {
                        target,
                        plugin_kind: kind,
                        action: LifecycleEvent::Remove,
                        authority_used: old(self)@[slot(old(self)@, kind)].authority,
                    },
                )
            },
    {
        if kind.is_permanent() {
            return Err(PluginError::PermanentPluginNotRemovable);
        }
        match self.position(kind) {
            Some(i) => {
                let mut records = self.take_records();
                let record = records.remove(i);
                self.put_records(records);
                log.push(
                    AuditEvent {
                        target,
                        plugin_kind: kind,
                        action: LifecycleEvent::Remove,
                        authority_used: record.authority,
                    },
                );
                Ok(record.plugin)
            },
            None => Err(PluginError::PluginNotFound),
        }
    }

    /// Detaches every plugin that is bound to a delegate and is not
    /// permanent, and hands those back in their order.
    pub fn clear_delegates(&mut self) -> (gone: Vec<PluginRecord>)
        ensures
            final(self)@ == retained(old(self)@),
            gone@ == cleared(old(self)@),
    {
        let records = self.take_records();
        let ghost all = records@;
        let mut kept: Vec<PluginRecord> = Vec::new();
        let mut gone: Vec<PluginRecord> = Vec::new();
        let ghost mut places: Seq<int> = Seq::empty();
        for record in it: records
            invariant
                it.seq() == all,
                kept@ == retained(all.take(it.index() as int)),
                gone@ == cleared(all.take(it.index() as int)),
                places.len() == kept@.len(),
                forall|k: int|
                    0 <= k < places.len() ==> 0 <= #[trigger] places[k] < it.index() && kept@[k]
                        == all[places[k]],
                forall|k: int, l: int|
                    0 <= k < l < places.len() ==> #[trigger] places[k] < #[trigger] places[l],
        {
            proof {
                lemma_transfer_step(all, it.index() as int);
            }
            let delegated = match record.authority {
                AuthorityModel::Delegate(_) => true,
                _ => false,
            };
            if delegated && !record.plugin.kind().is_permanent() {
                gone.push(record);
            } else {
                proof {
                    places = places.push(it.index() as int);
                }
                kept.push(record);
            }
        }
        proof {
            assert(all.take(all.len() as int) =~= all);
            assert(drawn_from(kept@, all));
            lemma_drawn_well_formed(kept@, all);
        }
        self.put_records(kept);
        gone
    }
}

} // verus!
