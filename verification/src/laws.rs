//! What holds of the registry, the dispatcher and the sequencer on every
//! input, stated over the functions that their contracts use.

use vstd::prelude::*;
use crate::address::Address;
use crate::edition::{after_call, count_of, number_issued, EditionCounter, SequencerCall};
use crate::error::{AuthError, HookError};
use crate::hooks::{
    first_rejection_at, hook_outcome, hooks_outcome, record_verdict, OracleResponse,
};
use crate::plugin::{AuthorityModel, FreezeDelegate, LifecycleEvent, Plugin, PluginKind};
use crate::registry::{
    attached, binding_allowed, bound_after, find, lemma_cleared_are_delegated,
    registered, registration_outcome, retained, slot, well_formed, PluginRecord,
};

verus! {

/// The counters after a run of calls, one after the other.
pub open spec fn after_calls(counters: Map<Address, EditionCounter>, calls: Seq<SequencerCall>) -> Map<
    Address,
    EditionCounter,
>
    decreases calls.len(),
{
    if calls.len() == 0 {
        counters
    } else {
        after_call(after_calls(counters, calls.drop_last()), calls.last())
    }
}

/// The numbers that a run of calls issues to one collection, in their order.
pub open spec fn numbers_issued(
    counters: Map<Address, EditionCounter>,
    calls: Seq<SequencerCall>,
    collection: Address,
) -> Seq<u64>
    decreases calls.len(),
{
    if calls.len() == 0 {
        Seq::empty()
    } else {
        let earlier = numbers_issued(counters, calls.drop_last(), collection);
        match calls.last() {
            SequencerCall::Issue { collection: asked, policy } => if asked == collection {
                match number_issued(after_calls(counters, calls.drop_last()), calls.last()) {
                    Some(number) => earlier.push(number),
                    None => earlier,
                }
            } else {
                earlier
            },
            _ => earlier,
        }
    }
}

/// Whatever calls are made on the sequencer, for whatever collections and
/// in whatever order, the numbers issued to one collection follow its count
/// one by one, without a gap and without a repeat, and its count ends as
/// many higher as numbers were issued to it.
pub proof fn law_editions_follow_one_by_one(
    counters: Map<Address, EditionCounter>,
    calls: Seq<SequencerCall>,
    collection: Address,
)
    ensures
        forall|k: int|
            0 <= k < numbers_issued(counters, calls, collection).len() ==> #[trigger] numbers_issued(
                counters,
                calls,
                collection,
            )[k] == count_of(counters, collection) + 1 + k,
        count_of(after_calls(counters, calls), collection) == count_of(counters, collection)
            + numbers_issued(counters, calls, collection).len(),
    decreases calls.len(),
{
    if calls.len() > 0 {
        law_editions_follow_one_by_one(counters, calls.drop_last(), collection);
    }
}

/// A plugin that was registered is found again as it was given, bound as
/// the registration rules say: as asked or by its variant's default when it
/// is new; as before when it replaces one, unless its authority asks for
/// another binding.
pub proof fn law_registered_plugin_is_found(
    records: Seq<PluginRecord>,
    plugin: Plugin,
    binding: Option<AuthorityModel>,
    caller_is_bound_authority: bool,
)
    requires
        well_formed(records),
        binding_allowed(plugin.kind(), binding),
    ensures
        well_formed(registered(records, plugin, binding, caller_is_bound_authority)),
        find(registered(records, plugin, binding, caller_is_bound_authority), plugin.kind()) == Some(
            PluginRecord {
                plugin,
                authority: bound_after(records, plugin.kind(), binding, caller_is_bound_authority),
            },
        ),
{
    let after = registered(records, plugin, binding, caller_is_bound_authority);
    let at = if attached(records, plugin.kind()) {
        slot(records, plugin.kind())
    } else {
        records.len() as int
    };
    assert(after[at].plugin.kind() == plugin.kind());
    assert(well_formed(after));
    assert(slot(after, plugin.kind()) == at);
}

/// A permanent plugin that is to be bound to the owner or to a delegate is
/// refused, whatever is attached; one that is to be bound to the update
/// authority is registered.
pub proof fn law_permanent_binding(kind: PluginKind, binding: AuthorityModel)
    requires
        kind.permanent(),
    ensures
        binding is Owner || binding is Delegate ==> registration_outcome(kind, Some(binding)) == Err::<
            (),
            AuthError,
        >(AuthError::IncompatibleAuthority),
        binding is UpdateAuthority ==> registration_outcome(kind, Some(binding)) is Ok,
{
}

/// Among the plugins that a transfer leaves on an asset, none is bound to
/// a delegate unless it is permanent.
pub proof fn law_transfer_leaves_no_delegate(records: Seq<PluginRecord>)
    ensures
        forall|i: int|
            0 <= i < retained(records).len() ==> !((#[trigger] retained(records)[i]).authority
                is Delegate && !retained(records)[i].plugin.kind().permanent()),
{
    assert forall|i: int| 0 <= i < retained(records).len() implies !((#[trigger] retained(
        records,
    )[i]).authority is Delegate && !retained(records)[i].plugin.kind().permanent()) by {
        lemma_cleared_are_delegated(records, i);
    }
}

/// Where some record rejects, there is a first that does.
proof fn lemma_first_rejection(
    records: Seq<PluginRecord>,
    skip: Option<PluginKind>,
    event: LifecycleEvent,
    responses: Seq<OracleResponse>,
    at: int,
) -> (first: int)
    requires
        0 <= at < records.len(),
        record_verdict(records[at], skip, event, responses) is Err,
    ensures
        0 <= first <= at,
        first_rejection_at(records, skip, event, responses, first),
        hook_outcome(records, skip, event, responses) == record_verdict(
            records[first],
            skip,
            event,
            responses,
        ),
    decreases at,
{
    if forall|j: int| 0 <= j < at ==> record_verdict(#[trigger] records[j], skip, event, responses) is Ok {
        assert(first_rejection_at(records, skip, event, responses, at));
        let chosen = choose|i: int| first_rejection_at(records, skip, event, responses, i);
        assert(chosen == at) by {
            if chosen < at {
                assert(record_verdict(records[chosen], skip, event, responses) is Ok);
            } else if chosen > at {
                assert(record_verdict(records[at], skip, event, responses) is Ok);
            }
        }
        at
    } else {
        let j = choose|j: int|
            0 <= j < at && !(record_verdict(#[trigger] records[j], skip, event, responses) is Ok);
        lemma_first_rejection(records, skip, event, responses, j)
    }
}

/// While an asset's freeze delegate is frozen, every transfer and every
/// update of the asset is rejected, whatever the other plugins and the
/// external responses are; only the replacement of the freeze delegate
/// itself passes it over. The error is that the asset is frozen, unless an
/// external plugin registered before the freeze delegate fails first.
pub proof fn law_frozen_asset_rejects(
    own: Seq<PluginRecord>,
    inherited: Seq<PluginRecord>,
    skip: Option<PluginKind>,
    event: LifecycleEvent,
    responses: Seq<OracleResponse>,
)
    requires
        well_formed(own),
        find(own, PluginKind::FreezeDelegate) matches Some(record) && record.plugin
            == Plugin::FreezeDelegate(FreezeDelegate { frozen: true }),
        skip != Some(PluginKind::FreezeDelegate),
        event is Transfer || event is Update,
    ensures
        hooks_outcome(own, inherited, skip, event, responses) is Err,
        (forall|j: int|
            0 <= j < slot(own, PluginKind::FreezeDelegate) ==> !((#[trigger] own[j]).plugin
                is ExternalOracle)) ==> hooks_outcome(own, inherited, skip, event, responses)
            == Err::<(), HookError>(HookError::AssetFrozen),
{
    let at = slot(own, PluginKind::FreezeDelegate);
    assert(record_verdict(own[at], skip, event, responses) == Err::<(), HookError>(
        HookError::AssetFrozen,
    ));
    let first = lemma_first_rejection(own, skip, event, responses, at);
    if forall|j: int| 0 <= j < at ==> !((#[trigger] own[j]).plugin is ExternalOracle) {
        if first < at {
            assert(!(own[first].plugin is ExternalOracle));
        }
    }
}

/// Two lists of records whose verdicts agree place by place have the same
/// outcome.
proof fn lemma_same_verdicts(
    left: Seq<PluginRecord>,
    left_skip: Option<PluginKind>,
    right: Seq<PluginRecord>,
    right_skip: Option<PluginKind>,
    event: LifecycleEvent,
    responses: Seq<OracleResponse>,
)
    requires
        left.len() == right.len(),
        forall|j: int|
            0 <= j < left.len() ==> record_verdict(#[trigger] left[j], left_skip, event, responses)
                == record_verdict(right[j], right_skip, event, responses),
    ensures
        hook_outcome(left, left_skip, event, responses) == hook_outcome(
            right,
            right_skip,
            event,
            responses,
        ),
{
    if exists|i: int| first_rejection_at(left, left_skip, event, responses, i) {
        let i = choose|i: int| first_rejection_at(left, left_skip, event, responses, i);
        assert(record_verdict(right[i], right_skip, event, responses) is Err) by {
            assert(record_verdict(left[i], left_skip, event, responses) is Err);
        }
        let first = lemma_first_rejection(right, right_skip, event, responses, i);
        if first < i {
            assert(record_verdict(left[first], left_skip, event, responses) is Ok);
        }
    } else if exists|i: int| first_rejection_at(right, right_skip, event, responses, i) {
        let i = choose|i: int| first_rejection_at(right, right_skip, event, responses, i);
        assert(record_verdict(left[i], left_skip, event, responses) is Err) by {
            assert(record_verdict(right[i], right_skip, event, responses) is Err);
        }
        let first = lemma_first_rejection(left, left_skip, event, responses, i);
    }
}

/// Once an asset's freeze delegate is set to not frozen, the asset is judged
/// on every event as if the freeze delegate had no say: what the freeze
/// alone held back is allowed again at once.
pub proof fn law_thawed_asset_is_free(
    own: Seq<PluginRecord>,
    inherited: Seq<PluginRecord>,
    binding: Option<AuthorityModel>,
    caller_is_bound_authority: bool,
    event: LifecycleEvent,
    responses: Seq<OracleResponse>,
)
    requires
        well_formed(own),
        attached(own, PluginKind::FreezeDelegate),
    ensures
        hooks_outcome(
            registered(
                own,
                Plugin::FreezeDelegate(FreezeDelegate { frozen: false }),
                binding,
                caller_is_bound_authority,
            ),
            inherited,
            None,
            event,
            responses,
        ) == hooks_outcome(own, inherited, Some(PluginKind::FreezeDelegate), event, responses),
{
    let thawed = Plugin::FreezeDelegate(FreezeDelegate { frozen: false });
    let after = registered(own, thawed, binding, caller_is_bound_authority);
    let at = slot(own, PluginKind::FreezeDelegate);
    assert forall|j: int| 0 <= j < after.len() implies record_verdict(
        #[trigger] after[j],
        None,
        event,
        responses,
    ) == record_verdict(own[j], Some(PluginKind::FreezeDelegate), event, responses) by {
        if j != at {
            assert(own[j].plugin.kind() != own[at].plugin.kind());
        }
    }
    lemma_same_verdicts(after, None, own, Some(PluginKind::FreezeDelegate), event, responses);
}

} // verus!
