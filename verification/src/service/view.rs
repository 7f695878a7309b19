//! The mathematical content of a service.

use vstd::prelude::*;
use crate::characteristic::{Characteristic, CharacteristicView};
use crate::hap_type::HapType;
use crate::json::decimal;
use crate::pointer::EventEmitter;
use crate::service::wire::service_frame;

verus! {

/// The content of an optional characteristic.
pub open spec fn slot(characteristic: Option<Characteristic>) -> Option<CharacteristicView> {
    match characteristic {
        Some(c) => Some(c@),
        None => None,
    }
}

/// The characteristics that are present among `slots`, in the order of the slots.
pub open spec fn present<T>(slots: Seq<Option<T>>) -> Seq<T>
    decreases slots.len(),
{
    if slots.len() == 0 {
        Seq::empty()
    } else {
        let front = present(slots.drop_last());
        match slots.last() {
            Some(c) => front.push(c),
            None => front,
        }
    }
}

/// The number of `slots` that are filled.
pub open spec fn count_present<T>(slots: Seq<Option<T>>) -> nat
    decreases slots.len(),
{
    if slots.len() == 0 {
        0
    } else {
        count_present(slots.drop_last()) + if slots.last() is Some {
            1nat
        } else {
            0nat
        }
    }
}

/// `i` is the place of the first of `characteristics` whose type tag is `hap_type`.
pub open spec fn is_first_match(
    characteristics: Seq<CharacteristicView>,
    hap_type: HapType,
    i: int,
) -> bool {
    &&& 0 <= i < characteristics.len()
    &&& characteristics[i].hap_type == hap_type
    &&& forall|j: int| 0 <= j < i ==> (#[trigger] characteristics[j]).hap_type != hap_type
}

/// None of `characteristics` has the type tag `hap_type`.
pub open spec fn has_no_match(characteristics: Seq<CharacteristicView>, hap_type: HapType) -> bool {
    forall|j: int|
        0 <= j < characteristics.len() ==> (#[trigger] characteristics[j]).hap_type != hap_type
}

/// Mathematical content of a service: its identity, its two flags, the
/// characteristics it always has, and one slot for each characteristic it
/// may have.
pub struct ServiceView {
    pub id: u64,
    pub hap_type: HapType,
    pub hidden: bool,
    pub primary: bool,
    pub required: Seq<CharacteristicView>,
    pub optional: Seq<Option<CharacteristicView>>,
}

impl ServiceView {
    /// The characteristics of the service in the order of enumeration: the
    /// required ones as declared, then the optional ones that are present, as
    /// declared.
    pub open spec fn characteristics(self) -> Seq<CharacteristicView> {
        self.required + present(self.optional)
    }

    /// Every required characteristic has the identifier that follows from the
    /// identifier of the service and the characteristic's place among the
    /// required ones.
    pub open spec fn required_ids_assigned(self) -> bool {
        forall|i: int|
            0 <= i < self.required.len() ==> (#[trigger] self.required[i]).id == self.id + 1 + i
    }

    /// No two characteristics of the service have the same identifier.
    pub open spec fn ids_unique(self) -> bool {
        forall|i: int, j: int|
            0 <= i < j < self.characteristics().len() ==> (#[trigger] self.characteristics()[i]).id
                != (#[trigger] self.characteristics()[j]).id
    }

    /// The identifiers of the optional characteristics that are present differ
    /// from one another and from those that the required ones are given.
    pub open spec fn optional_ids_apart(self) -> bool {
        &&& forall|i: int, j: int|
            0 <= i < j < present(self.optional).len() ==> (#[trigger] present(self.optional)[i]).id
                != (#[trigger] present(self.optional)[j]).id
        &&& forall|i: int|
            0 <= i < present(self.optional).len() ==> !(self.id < (#[trigger] present(
                self.optional,
            )[i]).id <= self.id + self.required.len())
    }

    /// Every characteristic of the service has one of the `span` identifiers
    /// that follow the identifier of the service.
    pub open spec fn ids_within(self, span: nat) -> bool {
        forall|i: int|
            0 <= i < self.characteristics().len() ==> self.id < (
            #[trigger] self.characteristics()[i]).id <= self.id + span
    }

    /// Every required characteristic, and every optional one that is
    /// present, has the type tag that is declared for its place, and the
    /// format that belongs to the tag.
    pub open spec fn well_typed(self, required: Seq<HapType>, optional: Seq<HapType>) -> bool {
        &&& self.required.len() == required.len()
        &&& self.optional.len() == optional.len()
        &&& forall|i: int|
            0 <= i < self.required.len() ==> (#[trigger] self.required[i]).is_kind(required[i])
        &&& forall|k: int|
            0 <= k < self.optional.len() ==> ((#[trigger] self.optional[k]) matches Some(c)
                ==> c.is_kind(optional[k]))
    }

    /// `other` has the same identity and flags, as many required
    /// characteristics, and the same optional slots filled.
    pub open spec fn same_shape(self, other: ServiceView) -> bool {
        &&& self.id == other.id
        &&& self.hap_type == other.hap_type
        &&& self.hidden == other.hidden
        &&& self.primary == other.primary
        &&& self.required.len() == other.required.len()
        &&& self.optional.len() == other.optional.len()
        &&& forall|k: int|
            0 <= k < self.optional.len() ==> ((#[trigger] self.optional[k]) is Some
                <==> other.optional[k] is Some)
    }

    /// The wire form of the service: the fields `iid`, `type`, `hidden`,
    /// `primary` and `characteristics`, in this order, the last one holding
    /// the wire forms of the characteristics in the order of enumeration.
    pub open spec fn json(self) -> Seq<char> {
        service_frame(
            decimal(self.id as int),
            self.hap_type,
            self.hidden,
            self.primary,
            Seq::new(self.characteristics().len(), |i: int| self.characteristics()[i].json()),
        )
    }

    /// The same service, each of its characteristics reporting to `event_emitter`.
    pub open spec fn with_event_emitter(self, event_emitter: Option<EventEmitter>) -> ServiceView {
        ServiceView {
            required: Seq::new(
                self.required.len(),
                |i: int| self.required[i].with_event_emitter(event_emitter),
            ),
            optional: Seq::new(
                self.optional.len(),
                |k: int|
                    match self.optional[k] {
                        Some(c) => Some(c.with_event_emitter(event_emitter)),
                        None => None,
                    },
            ),
            ..self
        }
    }
}

/// A slot that is added at the end adds its characteristic at the end, if it holds one.
pub proof fn lemma_present_push<T>(slots: Seq<Option<T>>, last: Option<T>)
    ensures
        present(slots.push(last)) == match last {
            Some(c) => present(slots).push(c),
            None => present(slots),
        },
{
    assert(slots.push(last).drop_last() =~= slots);
}

/// As many characteristics are present as slots are filled.
pub proof fn lemma_present_len<T>(slots: Seq<Option<T>>)
    ensures
        present(slots).len() == count_present(slots),
    decreases slots.len(),
{
    if slots.len() > 0 {
        lemma_present_len(slots.drop_last());
    }
}

/// Slots that are filled alike and hold the same characteristics are the same slots.
pub proof fn lemma_present_determines_slots<T>(a: Seq<Option<T>>, b: Seq<Option<T>>)
    requires
        a.len() == b.len(),
        forall|k: int| 0 <= k < a.len() ==> ((#[trigger] a[k]) is Some <==> b[k] is Some),
        present(a) == present(b),
    ensures
        a == b,
    decreases a.len(),
{
    if a.len() > 0 {
        let a0 = a.drop_last();
        let b0 = b.drop_last();
        if a.last() is Some {
            assert(present(a).drop_last() =~= present(a0));
            assert(present(b).drop_last() =~= present(b0));
            assert(present(a).last() == a.last()->0);
        }
        lemma_present_determines_slots(a0, b0);
        assert(a =~= a0.push(a.last()));
    }
}

/// Two services of the same shape that enumerate the same characteristics
/// have the same content.
pub proof fn lemma_shape_and_characteristics_determine_service(a: ServiceView, b: ServiceView)
    requires
        a.same_shape(b),
        a.characteristics() == b.characteristics(),
    ensures
        a == b,
{
    let n = a.required.len() as int;
    assert(a.required =~= a.characteristics().subrange(0, n));
    assert(b.required =~= b.characteristics().subrange(0, n));
    assert(present(a.optional) =~= a.characteristics().subrange(
        n,
        a.characteristics().len() as int,
    ));
    assert(present(b.optional) =~= b.characteristics().subrange(
        n,
        b.characteristics().len() as int,
    ));
    lemma_present_determines_slots(a.optional, b.optional);
}

/// Of slots whose characteristics all report to `event_emitter`, those
/// present are the ones that were present, each reporting to `event_emitter`.
pub proof fn lemma_present_with_event_emitter(
    slots: Seq<Option<CharacteristicView>>,
    event_emitter: Option<EventEmitter>,
)
    ensures
        present(
            Seq::new(
                slots.len(),
                |k: int|
                    match slots[k] {
                        Some(c) => Some(c.with_event_emitter(event_emitter)),
                        None => None,
                    },
            ),
        ) == Seq::new(
            present(slots).len(),
            |i: int| present(slots)[i].with_event_emitter(event_emitter),
        ),
    decreases slots.len(),
{
    let wired = Seq::new(
        slots.len(),
        |k: int|
            match slots[k] {
                Some(c) => Some(c.with_event_emitter(event_emitter)),
                None => None,
            },
    );
    if slots.len() > 0 {
        let front = slots.drop_last();
        lemma_present_with_event_emitter(front, event_emitter);
        assert(wired.drop_last() =~= Seq::new(
            front.len(),
            |k: int|
                match front[k] {
                    Some(c) => Some(c.with_event_emitter(event_emitter)),
                    None => None,
                },
        ));
    }
}

/// The characteristics of a service whose characteristics all report to
/// `event_emitter` are the characteristics of the service, each of them
/// reporting to `event_emitter`.
pub proof fn lemma_with_event_emitter_characteristics(
    service: ServiceView,
    event_emitter: Option<EventEmitter>,
)
    ensures
        service.with_event_emitter(event_emitter).same_shape(service),
        service.with_event_emitter(event_emitter).characteristics() == Seq::new(
            service.characteristics().len(),
            |i: int| service.characteristics()[i].with_event_emitter(event_emitter),
        ),
{
    lemma_present_with_event_emitter(service.optional, event_emitter);
}

/// A service that kept its shape while each of its characteristics was set
/// to report to `event_emitter` is the service with all its characteristics
/// reporting to `event_emitter`.
pub proof fn lemma_event_emitter_installed(
    before: ServiceView,
    after: ServiceView,
    event_emitter: Option<EventEmitter>,
)
    requires
        after.same_shape(before),
        after.characteristics().len() == before.characteristics().len(),
        forall|i: int|
            0 <= i < before.characteristics().len() ==> #[trigger] after.characteristics()[i]
                == before.characteristics()[i].with_event_emitter(event_emitter),
    ensures
        after == before.with_event_emitter(event_emitter),
{
    lemma_with_event_emitter_characteristics(before, event_emitter);
    assert(after.characteristics() =~= before.with_event_emitter(event_emitter).characteristics());
    lemma_shape_and_characteristics_determine_service(
        after,
        before.with_event_emitter(event_emitter),
    );
}

} // verus!
