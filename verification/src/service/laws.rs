//! What holds of the characteristics of every service.

use vstd::prelude::*;
use crate::characteristic::CharacteristicView;
use crate::hap_type::HapType;
use crate::pointer::EventEmitter;
use crate::service::{count_present, has_no_match, lemma_present_len, present, ServiceView};

verus! {

/// A service enumerates as many characteristics as it has required ones and
/// optional ones that are present.
pub proof fn lemma_characteristics_count(service: ServiceView)
    ensures
        service.characteristics().len() == service.required.len() + count_present(
            service.optional,
        ),
{
    lemma_present_len(service.optional);
}

/// Slots that are all empty hold no characteristic.
pub proof fn lemma_present_of_empty_slots<T>(slots: Seq<Option<T>>)
    requires
        forall|k: int| 0 <= k < slots.len() ==> (#[trigger] slots[k]) is None,
    ensures
        present(slots) == Seq::<T>::empty(),
    decreases slots.len(),
{
    if slots.len() > 0 {
        lemma_present_of_empty_slots(slots.drop_last());
    }
}

/// Every characteristic that is present among `slots` is held by one of them.
pub proof fn lemma_present_is_held<T>(slots: Seq<Option<T>>, i: int)
    requires
        0 <= i < present(slots).len(),
    ensures
        exists|k: int| 0 <= k < slots.len() && #[trigger] slots[k] == Some(present(slots)[i]),
    decreases slots.len(),
{
    let front = slots.drop_last();
    if i < present(front).len() {
        lemma_present_is_held(front, i);
    }
}

/// A type tag that no required characteristic has, and no optional one that
/// is present, is not found in the service. So it is with the type tag of an
/// optional characteristic that is absent.
pub proof fn lemma_absent_type_has_no_match(service: ServiceView, hap_type: HapType)
    requires
        forall|i: int|
            0 <= i < service.required.len() ==> (#[trigger] service.required[i]).hap_type
                != hap_type,
        forall|k: int|
            0 <= k < service.optional.len() ==> ((#[trigger] service.optional[k]) matches Some(c)
                ==> c.hap_type != hap_type),
    ensures
        has_no_match(service.characteristics(), hap_type),
{
    let n = service.required.len() as int;
    assert forall|j: int| 0 <= j < service.characteristics().len() implies (
    #[trigger] service.characteristics()[j]).hap_type != hap_type by {
        if j >= n {
            lemma_present_is_held(service.optional, j - n);
        }
    }
}

/// In a well-typed service whose declaration gives the type tag of an
/// optional characteristic to no other place, that type tag is not found
/// while the characteristic is absent.
pub proof fn lemma_absent_slot_has_no_match(
    service: ServiceView,
    required: Seq<HapType>,
    optional: Seq<HapType>,
    k: int,
)
    requires
        service.well_typed(required, optional),
        0 <= k < optional.len(),
        service.optional[k] is None,
        forall|i: int| 0 <= i < required.len() ==> #[trigger] required[i] != optional[k],
        forall|j: int| 0 <= j < optional.len() && j != k ==> #[trigger] optional[j] != optional[k],
    ensures
        has_no_match(service.characteristics(), optional[k]),
{
    lemma_absent_type_has_no_match(service, optional[k]);
}

/// Slots keep their kinds while they stay filled alike and the
/// characteristics in them keep their type tags and formats.
pub proof fn lemma_slots_keep_kinds(
    before: Seq<Option<CharacteristicView>>,
    after: Seq<Option<CharacteristicView>>,
    kinds: Seq<HapType>,
)
    requires
        before.len() == after.len() == kinds.len(),
        forall|k: int|
            0 <= k < before.len() ==> ((#[trigger] before[k]) is Some <==> after[k] is Some),
        present(before).len() == present(after).len(),
        forall|i: int|
            0 <= i < present(before).len() ==> (#[trigger] present(after)[i]).hap_type == present(
                before,
            )[i].hap_type && present(after)[i].format == present(before)[i].format,
        forall|k: int|
            0 <= k < before.len() ==> ((#[trigger] before[k]) matches Some(c) ==> c.is_kind(
                kinds[k],
            )),
    ensures
        forall|k: int|
            0 <= k < after.len() ==> ((#[trigger] after[k]) matches Some(c) ==> c.is_kind(kinds[k])),
    decreases before.len(),
{
    if before.len() > 0 {
        let last = before.len() - 1;
        let b0 = before.drop_last();
        let a0 = after.drop_last();
        assert forall|i: int| 0 <= i < present(b0).len() implies (#[trigger] present(
            a0,
        )[i]).hap_type == present(b0)[i].hap_type && present(a0)[i].format == present(
            b0,
        )[i].format by {
            assert(present(a0)[i] == present(after)[i]);
        }
        lemma_slots_keep_kinds(b0, a0, kinds.drop_last());
        assert forall|k: int| 0 <= k < after.len() implies ((#[trigger] after[k]) matches Some(c)
            ==> c.is_kind(kinds[k])) by {
            if k < last {
                assert(a0[k] == after[k]);
            } else if after[k] is Some {
                let i = present(before).len() - 1;
                assert(present(after)[i] == after[last]->0);
            }
        }
    }
}

/// A service stays well typed while it keeps its shape and each of its
/// characteristics keeps its type tag and its format, whatever is written
/// to the values and the sinks.
pub proof fn lemma_writes_keep_types(
    before: ServiceView,
    after: ServiceView,
    required: Seq<HapType>,
    optional: Seq<HapType>,
)
    requires
        before.well_typed(required, optional),
        after.same_shape(before),
        after.characteristics().len() == before.characteristics().len(),
        forall|i: int|
            0 <= i < before.characteristics().len() ==> (#[trigger] after.characteristics()[i]).hap_type
                == before.characteristics()[i].hap_type && after.characteristics()[i].format
                == before.characteristics()[i].format,
    ensures
        after.well_typed(required, optional),
{
    let n = before.required.len() as int;
    assert forall|i: int| 0 <= i < after.required.len() implies (
    #[trigger] after.required[i]).is_kind(required[i]) by {
        assert(after.characteristics()[i] == after.required[i]);
    }
    assert forall|i: int| 0 <= i < present(before.optional).len() implies (#[trigger] present(
        after.optional,
    )[i]).hap_type == present(before.optional)[i].hap_type && present(after.optional)[i].format
        == present(before.optional)[i].format by {
        assert(after.characteristics()[n + i] == present(after.optional)[i]);
    }
    lemma_slots_keep_kinds(before.optional, after.optional, optional);
}

/// A service stays well typed when its sinks are installed.
pub proof fn lemma_event_emitter_keeps_types(
    service: ServiceView,
    required: Seq<HapType>,
    optional: Seq<HapType>,
    event_emitter: Option<EventEmitter>,
)
    requires
        service.well_typed(required, optional),
    ensures
        service.with_event_emitter(event_emitter).well_typed(required, optional),
{
}

/// In a service whose required characteristics have the identifiers that
/// follow the identifier of the service, no two characteristics have the
/// same identifier exactly when the identifiers of the optional
/// characteristics that are present differ from one another and from those
/// of the required ones.
pub proof fn lemma_ids_unique(service: ServiceView)
    requires
        service.required_ids_assigned(),
    ensures
        service.ids_unique() <==> service.optional_ids_apart(),
{
    let n = service.required.len() as int;
    let all = service.characteristics();
    let extra = present(service.optional);
    if service.ids_unique() {
        assert forall|i: int, j: int| 0 <= i < j < extra.len() implies (#[trigger] extra[i]).id != (
        #[trigger] extra[j]).id by {
            assert(all[n + i] == extra[i]);
            assert(all[n + j] == extra[j]);
        }
        assert forall|i: int| 0 <= i < extra.len() implies !(service.id < (#[trigger] extra[i]).id
            <= service.id + n) by {
            if service.id < extra[i].id <= service.id + n {
                let k = extra[i].id - service.id - 1;
                assert(all[k] == service.required[k]);
                assert(all[n + i] == extra[i]);
            }
        }
    }
}

/// Installing the same sink a second time changes nothing.
pub proof fn lemma_event_emitter_idempotent(
    service: ServiceView,
    event_emitter: Option<EventEmitter>,
)
    ensures
        service.with_event_emitter(event_emitter).with_event_emitter(event_emitter)
            == service.with_event_emitter(event_emitter),
{
    let once = service.with_event_emitter(event_emitter);
    let twice = once.with_event_emitter(event_emitter);
    assert(twice.required =~= once.required);
    assert(twice.optional =~= once.optional);
}

} // verus!
