//! The lifecycle hook dispatcher: which plugins are consulted on an event, in
//! what order, and how their verdicts combine.

use vstd::prelude::*;
use crate::address::Address;
use crate::asset::{Asset, Collection};
use crate::error::HookError;
use crate::plugin::{ExternalOracle, LifecycleCheck, LifecycleEvent, Plugin, PluginKind};
use crate::registry::PluginRecord;

verus! {

/// What came back from the external plugin at `oracle`: its result buffer,
/// or nothing where the call failed.
#[derive(Clone, Debug, PartialEq, Eq)]
pub struct OracleResponse {
    pub oracle: Address,
    pub data: Option<Vec<u8>>,
}

/// Whether the checks name the event.
pub open spec fn declares(checks: Seq<LifecycleCheck>, event: LifecycleEvent) -> bool {
    exists|i: int| 0 <= i < checks.len() && (#[trigger] checks[i]).event == event
}

/// Whether a result byte is a rejection: under a check for the event, one of
/// the flagged bits is set.
pub open spec fn rejects(checks: Seq<LifecycleCheck>, event: LifecycleEvent, byte: u8) -> bool {
    exists|i: int|
        0 <= i < checks.len() && (#[trigger] checks[i]).event == event && (byte as u32)
            & checks[i].flags != 0
}

/// Whether the plugin is consulted on the event: a freeze plugin on transfer
/// and update, an external plugin on the events that its checks name.
pub open spec fn consulted(plugin: Plugin, event: LifecycleEvent) -> bool {
    match plugin {
        Plugin::FreezeDelegate(_) => event is Transfer || event is Update,
        Plugin::PermanentFreezeDelegate(_) => event is Transfer || event is Update,
        Plugin::ExternalOracle(oracle) => declares(oracle.lifecycle_checks@, event),
        _ => false,
    }
}

/// What the external plugin's result buffer means for the event.
pub open spec fn interpretation(oracle: ExternalOracle, event: LifecycleEvent, data: Seq<u8>) -> Result<
    (),
    HookError,
> {
    let at = oracle.results_offset.position() as int;
    if at >= data.len() {
        Err(HookError::ExternalCheckMalformed)
    } else if rejects(oracle.lifecycle_checks@, event, data[at]) {
        Err(HookError::ExternalCheckRejected { plugin: oracle.base_address, event })
    } else {
        Ok(())
    }
}

/// Whether the response at `i` is the first from this external plugin.
pub open spec fn answers(responses: Seq<OracleResponse>, oracle: Address, i: int) -> bool {
    &&& 0 <= i < responses.len()
    &&& responses[i].oracle == oracle
    &&& forall|j: int| 0 <= j < i ==> (#[trigger] responses[j]).oracle != oracle
}

/// The first response from this external plugin, if there is one.
pub open spec fn response_of(responses: Seq<OracleResponse>, oracle: Address) -> Option<
    OracleResponse,
> {
    if exists|i: int| answers(responses, oracle, i) {
        Some(responses[choose|i: int| answers(responses, oracle, i)])
    } else {
        None
    }
}

/// The verdict of one plugin on the event. One that is not consulted passes.
/// A freeze plugin rejects while it is frozen. An external plugin is judged
/// by its response; without a response it fails.
pub open spec fn verdict(plugin: Plugin, event: LifecycleEvent, responses: Seq<OracleResponse>) -> Result<
    (),
    HookError,
> {
    if !consulted(plugin, event) {
        Ok(())
    } else {
        match plugin {
            Plugin::FreezeDelegate(freeze) => if freeze.frozen {
                Err(HookError::AssetFrozen)
            } else {
                Ok(())
            },
            Plugin::PermanentFreezeDelegate(freeze) => if freeze.frozen {
                Err(HookError::AssetFrozen)
            } else {
                Ok(())
            },
            Plugin::ExternalOracle(oracle) => match response_of(responses, oracle.base_address) {
                Some(response) => match response.data {
                    Some(data) => interpretation(oracle, event, data@),
                    None => Err(HookError::ExternalCheckMalformed),
                },
                None => Err(HookError::ExternalCheckMalformed),
            },
            _ => Ok(()),
        }
    }
}

/// The verdict of an attached plugin, where the plugin of variant `skip`, if
/// one is named, is passed over.
pub open spec fn record_verdict(
    record: PluginRecord,
    skip: Option<PluginKind>,
    event: LifecycleEvent,
    responses: Seq<OracleResponse>,
) -> Result<(), HookError> {
    if skip == Some(record.plugin.kind()) {
        Ok(())
    } else {
        verdict(record.plugin, event, responses)
    }
}

/// Whether the record at `i` rejects and every record before it passes.
pub open spec fn first_rejection_at(
    records: Seq<PluginRecord>,
    skip: Option<PluginKind>,
    event: LifecycleEvent,
    responses: Seq<OracleResponse>,
    i: int,
) -> bool {
    &&& 0 <= i < records.len()
    &&& record_verdict(records[i], skip, event, responses) is Err
    &&& forall|j: int|
        0 <= j < i ==> record_verdict(#[trigger] records[j], skip, event, responses) is Ok
}

/// The verdict of the records in their order: the first rejection, or
/// approval where none rejects.
pub open spec fn hook_outcome(
    records: Seq<PluginRecord>,
    skip: Option<PluginKind>,
    event: LifecycleEvent,
    responses: Seq<OracleResponse>,
) -> Result<(), HookError> {
    if exists|i: int| first_rejection_at(records, skip, event, responses, i) {
        record_verdict(
            records[choose|i: int| first_rejection_at(records, skip, event, responses, i)],
            skip,
            event,
            responses,
        )
    } else {
        Ok(())
    }
}

/// The verdict on a target: its own plugins first, then those it inherits
/// from its collection. `skip` names a variant among its own.
pub open spec fn hooks_outcome(
    own: Seq<PluginRecord>,
    inherited: Seq<PluginRecord>,
    skip: Option<PluginKind>,
    event: LifecycleEvent,
    responses: Seq<OracleResponse>,
) -> Result<(), HookError> {
    match hook_outcome(own, skip, event, responses) {
        Err(e) => Err(e),
        Ok(_) => hook_outcome(inherited, None, event, responses),
    }
}

/// The plugins that an asset inherits.
pub open spec fn inherited_records(collection: Option<&Collection>) -> Seq<PluginRecord> {
    match collection {
        Some(c) => c.plugins@,
        None => Seq::empty(),
    }
}

/// The base addresses of the external plugins among the records that are
/// consulted on the event, in the order of the records.
pub open spec fn oracles_among(records: Seq<PluginRecord>, event: LifecycleEvent) -> Seq<Address>
    decreases records.len(),
{
    if records.len() == 0 {
        Seq::empty()
    } else {
        let earlier = oracles_among(records.drop_last(), event);
        match records.last().plugin {
            Plugin::ExternalOracle(oracle) => if declares(oracle.lifecycle_checks@, event) {
                earlier.push(oracle.base_address)
            } else {
                earlier
            },
            _ => earlier,
        }
    }
}

/// Reads an external plugin's result buffer: the byte at the declared offset,
/// masked by the flags of each check for the event.
pub fn interpret(oracle: &ExternalOracle, event: LifecycleEvent, data: &Vec<u8>) -> (result: Result<
    (),
    HookError,
>)
    ensures
        result == interpretation(*oracle, event, data@),
{
    let offset = oracle.results_offset.byte_offset();
    if offset >= data.len() as u64 {
        return Err(HookError::ExternalCheckMalformed);
    }
    let byte = data[offset as usize];
    let mut i: usize = 0;
    while i < oracle.lifecycle_checks.len()
        invariant
            i <= oracle.lifecycle_checks@.len(),
            offset == oracle.results_offset.position(),
            offset < data@.len(),
            byte == data@[offset as int],
            forall|j: int|
                0 <= j < i ==> !((#[trigger] oracle.lifecycle_checks@[j]).event == event && (
                byte as u32) & oracle.lifecycle_checks@[j].flags != 0),
        decreases oracle.lifecycle_checks@.len() - i,
    {
        let check = oracle.lifecycle_checks[i];
        if check.event == event && (byte as u32) & check.flags != 0 {
            return Err(HookError::ExternalCheckRejected { plugin: oracle.base_address, event });
        }
        i += 1;
    }
    Ok(())
}

/// Whether the external plugin is consulted on the event.
fn is_declared(oracle: &ExternalOracle, event: LifecycleEvent) -> (declared: bool)
    ensures
        declared == declares(oracle.lifecycle_checks@, event),
{
    let mut i: usize = 0;
    while i < oracle.lifecycle_checks.len()
        invariant
            i <= oracle.lifecycle_checks@.len(),
            forall|j: int| 0 <= j < i ==> (#[trigger] oracle.lifecycle_checks@[j]).event != event,
        decreases oracle.lifecycle_checks@.len() - i,
    {
        if oracle.lifecycle_checks[i].event == event {
            return true;
        }
        i += 1;
    }
    false
}

/// The first response from this external plugin.
fn find_response<'a>(responses: &'a Vec<OracleResponse>, oracle: &Address) -> (response: Option<
    &'a OracleResponse,
>)
    ensures
        match response {
            Some(r) => response_of(responses@, *oracle) == Some(*r),
            None => response_of(responses@, *oracle) is None,
        },
{
    let mut i: usize = 0;
    while i < responses.len()
        invariant
            i <= responses@.len(),
            forall|j: int| 0 <= j < i ==> (#[trigger] responses@[j]).oracle != *oracle,
        decreases responses@.len() - i,
    {
        if responses[i].oracle == *oracle {
            assert(answers(responses@, *oracle, i as int));
            return Some(&responses[i]);
        }
        i += 1;
    }
    None
}

/// The verdict of one plugin on the event.
pub fn evaluate(plugin: &Plugin, event: LifecycleEvent, responses: &Vec<OracleResponse>) -> (result:
    Result<(), HookError>)
    ensures
        result == verdict(*plugin, event, responses@),
{
    match plugin {
        Plugin::FreezeDelegate(freeze) => {
            let consulted = match event {
                LifecycleEvent::Transfer => true,
                LifecycleEvent::Update => true,
                _ => false,
            };
            if consulted && freeze.frozen {
                Err(HookError::AssetFrozen)
            } else {
                Ok(())
            }
        },
        Plugin::PermanentFreezeDelegate(freeze) => {
            let consulted = match event {
                LifecycleEvent::Transfer => true,
                LifecycleEvent::Update => true,
                _ => false,
            };
            if consulted && freeze.frozen {
                Err(HookError::AssetFrozen)
            } else {
                Ok(())
            }
        },
        Plugin::ExternalOracle(oracle) => {
            if !is_declared(oracle, event) {
                return Ok(());
            }
            match find_response(responses, &oracle.base_address) {
                Some(response) => match &response.data {
                    Some(data) => interpret(oracle, event, data),
                    None => Err(HookError::ExternalCheckMalformed),
                },
                None => Err(HookError::ExternalCheckMalformed),
            }
        },
        _ => Ok(()),
    }
}

/// Consults the records in their order and stops at the first rejection.
pub fn run_on(
    records: &Vec<PluginRecord>,
    skip: Option<PluginKind>,
    event: LifecycleEvent,
    responses: &Vec<OracleResponse>,
) -> (result: Result<(), HookError>)
    ensures
        result == hook_outcome(records@, skip, event, responses@),
{
    let mut i: usize = 0;
    while i < records.len()
        invariant
            i <= records@.len(),
            forall|j: int|
                0 <= j < i ==> record_verdict(#[trigger] records@[j], skip, event, responses@) is Ok,
        decreases records@.len() - i,
    {
        let passed_over = match skip {
            Some(kind) => records[i].plugin.kind() == kind,
            None => false,
        };
        if !passed_over {
            let result = evaluate(&records[i].plugin, event, responses);
            if result.is_err() {
                assert(first_rejection_at(records@, skip, event, responses@, i as int));
                return result;
            }
        }
        i += 1;
    }
    Ok(())
}

/// Consults the plugins of an asset on an event: its own first, then those of
/// its collection. The first rejection is the result.
pub fn run_hooks(
    asset: &Asset,
    collection: Option<&Collection>,
    event: LifecycleEvent,
    responses: &Vec<OracleResponse>,
) -> (result: Result<(), HookError>)
    requires
        asset.member_of(collection),
    ensures
        result == hooks_outcome(
            asset.plugins@,
            inherited_records(collection),
            None,
            event,
            responses@,
        ),
{
    run_hooks_except(asset, collection, None, event, responses)
}

/// As `run_hooks`, but the asset's own plugin of variant `skip` is passed
/// over: a plugin has no say on its own replacement.
pub fn run_hooks_except(
    asset: &Asset,
    collection: Option<&Collection>,
    skip: Option<PluginKind>,
    event: LifecycleEvent,
    responses: &Vec<OracleResponse>,
) -> (result: Result<(), HookError>)
    requires
        asset.member_of(collection),
    ensures
        result == hooks_outcome(
            asset.plugins@,
            inherited_records(collection),
            skip,
            event,
            responses@,
        ),
{
    match run_on(asset.plugins.records(), skip, event, responses) {
        Err(e) => Err(e),
        Ok(_) => match collection {
            Some(c) => run_on(c.plugins.records(), None, event, responses),
            None => {
                let none: Vec<PluginRecord> = Vec::new();
                run_on(&none, None, event, responses)
            },
        },
    }
}

/// Consults the plugins of a collection on an event.
pub fn run_collection_hooks(
    collection: &Collection,
    skip: Option<PluginKind>,
    event: LifecycleEvent,
    responses: &Vec<OracleResponse>,
) -> (result: Result<(), HookError>)
    ensures
        result == hook_outcome(collection.plugins@, skip, event, responses@),
{
    run_on(collection.plugins.records(), skip, event, responses)
}

/// Adds to `asked` the external plugins among the records that are consulted
/// on the event.
fn collect_oracles(records: &Vec<PluginRecord>, event: LifecycleEvent, asked: &mut Vec<Address>)
    ensures
        final(asked)@ == old(asked)@ + oracles_among(records@, event),
{
    let ghost before = asked@;
    let mut i: usize = 0;
    while i < records.len()
        invariant
            i <= records@.len(),
            asked@ == before + oracles_among(records@.take(i as int), event),
        decreases records@.len() - i,
    {
        proof {
            assert(records@.take(i + 1).drop_last() =~= records@.take(i as int));
        }
        match &records[i].plugin {
            Plugin::ExternalOracle(oracle) => {
                if is_declared(oracle, event) {
                    asked.push(oracle.base_address);
                }
            },
            _ => {},
        }
        i += 1;
    }
    proof {
        assert(records@.take(records@.len() as int) =~= records@);
    }
}

/// The external plugins whose responses an event on an asset needs: those
/// consulted on it, the asset's own first, then those of its collection.
pub fn oracles_to_ask(asset: &Asset, collection: Option<&Collection>, event: LifecycleEvent) -> (asked:
    Vec<Address>)
    requires
        asset.member_of(collection),
    ensures
        asked@ == oracles_among(asset.plugins@, event) + oracles_among(
            inherited_records(collection),
            event,
        ),
{
    let mut asked: Vec<Address> = Vec::new();
    collect_oracles(asset.plugins.records(), event, &mut asked);
    match collection {
        Some(c) => {
            collect_oracles(c.plugins.records(), event, &mut asked);
        },
        None => {},
    }
    asked
}

} // verus!
