//! What holds of the identifiers and of the sinks of every accessory.

use vstd::prelude::*;
use crate::accessory::AccessoryView;
use crate::pointer::EventEmitter;
use crate::service::laws::lemma_event_emitter_idempotent;

verus! {

/// The identifiers that the services `i` and `j` of `accessory` keep, each
/// its own and as many of the following as `spans` gives it, do not overlap.
pub open spec fn blocks_apart(accessory: AccessoryView, spans: Seq<nat>, i: int, j: int) -> bool {
    accessory.services[i].id + spans[i] < accessory.services[j].id || accessory.services[j].id
        + spans[j] < accessory.services[i].id
}

/// Where every service of an accessory keeps a block of identifiers, its own
/// and some that follow it, the blocks of different services do not overlap,
/// and every characteristic has an identifier of the block of its service:
/// no two services have the same identifier, no characteristic has the
/// identifier of a characteristic of another service, and none has the
/// identifier of a service.
pub proof fn lemma_namespaced_ids_apart(accessory: AccessoryView, spans: Seq<nat>)
    requires
        spans.len() == accessory.services.len(),
        forall|i: int|
            0 <= i < accessory.services.len() ==> (#[trigger] accessory.services[i]).ids_within(
                spans[i],
            ),
        forall|i: int, j: int|
            0 <= i < accessory.services.len() && 0 <= j < accessory.services.len() && i != j
                ==> #[trigger] blocks_apart(accessory, spans, i, j),
    ensures
        accessory.service_ids_unique(),
        accessory.characteristic_ids_apart(),
        forall|i: int, j: int, a: int|
            0 <= i < accessory.services.len() && 0 <= j < accessory.services.len() && 0 <= a
                < accessory.services[i].characteristics().len() ==> (
            #[trigger] accessory.services[i].characteristics()[a]).id != (
            #[trigger] accessory.services[j]).id,
{
    assert forall|i: int, j: int| 0 <= i < j < accessory.services.len() implies (
    #[trigger] accessory.services[i]).id != (#[trigger] accessory.services[j]).id by {
        assert(blocks_apart(accessory, spans, i, j));
    }
    assert forall|i: int, j: int, a: int, b: int|
        0 <= i < accessory.services.len() && 0 <= j < accessory.services.len() && i != j && 0 <= a
            < accessory.services[i].characteristics().len() && 0 <= b
            < accessory.services[j].characteristics().len() implies (
    #[trigger] accessory.services[i].characteristics()[a]).id != (
    #[trigger] accessory.services[j].characteristics()[b]).id by {
        assert(blocks_apart(accessory, spans, i, j));
    }
    assert forall|i: int, j: int, a: int|
        0 <= i < accessory.services.len() && 0 <= j < accessory.services.len() && 0 <= a
            < accessory.services[i].characteristics().len() implies (
    #[trigger] accessory.services[i].characteristics()[a]).id != (
    #[trigger] accessory.services[j]).id by {
        if i != j {
            assert(blocks_apart(accessory, spans, i, j));
        }
    }
}

/// Installing the same sink on an accessory a second time changes nothing.
pub proof fn lemma_propagation_idempotent(accessory: AccessoryView, event_emitter: Option<EventEmitter>)
    ensures
        accessory.with_event_emitter(event_emitter).with_event_emitter(event_emitter)
            == accessory.with_event_emitter(event_emitter),
{
    let once = accessory.with_event_emitter(event_emitter);
    let twice = once.with_event_emitter(event_emitter);
    assert forall|i: int| 0 <= i < once.services.len() implies twice.services[i]
        == once.services[i] by {
        lemma_event_emitter_idempotent(accessory.services[i], event_emitter);
    }
    assert(twice.services =~= once.services);
}

} // verus!
