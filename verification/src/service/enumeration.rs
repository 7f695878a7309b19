//! Enumeration and lookup of characteristics over references: the
//! composition of a service from its required characteristics and its
//! optional slots, written once for all services.

use vstd::prelude::*;
use crate::characteristic::{Characteristic, CharacteristicView};
use crate::hap_type::HapType;
use crate::pointer::EventEmitter;
use crate::service::view::{has_no_match, is_first_match, lemma_present_push, present, slot};

verus! {

/// The contents of the characteristics that `refs` point to.
pub open spec fn views(refs: Seq<&Characteristic>) -> Seq<CharacteristicView> {
    Seq::new(refs.len(), |i: int| refs[i]@)
}

/// The contents, as they are now, of the characteristics that `refs` point to.
pub open spec fn views_mut(refs: Seq<&mut Characteristic>) -> Seq<CharacteristicView> {
    Seq::new(refs.len(), |i: int| refs[i]@)
}

/// The contents of the optional characteristics that `refs` point to.
pub open spec fn slots(refs: Seq<&Option<Characteristic>>) -> Seq<Option<CharacteristicView>> {
    Seq::new(refs.len(), |k: int| slot(*refs[k]))
}

/// The contents, as they are now, of the optional characteristics that `refs` point to.
pub open spec fn slots_mut(refs: Seq<&mut Option<Characteristic>>) -> Seq<
    Option<CharacteristicView>,
> {
    Seq::new(refs.len(), |k: int| slot(*refs[k]))
}

/// Enumerates the characteristics of a service from its declaration: the
/// `required` ones in their order, then those of the `optional` ones that
/// are present, in their order.
pub fn enumerate<'a>(
    required: Vec<&'a Characteristic>,
    optional: Vec<&'a Option<Characteristic>>,
) -> (characteristics: Vec<&'a Characteristic>)
    ensures
        views(characteristics@) == views(required@) + present(slots(optional@)),
{
    let mut characteristics = required;
    let mut k: usize = 0;
    while k < optional.len()
        invariant
            k <= optional.len(),
            views(characteristics@) == views(required@) + present(slots(optional@).take(k as int)),
        decreases optional.len() - k,
    {
        let ghost before = characteristics@;
        let slot_ref: &'a Option<Characteristic> = optional[k];
        if let Some(c) = slot_ref {
            characteristics.push(c);
            assert(views(characteristics@) =~= views(before).push(c@));
        }
        proof {
            let done = slots(optional@).take(k as int);
            lemma_present_push(done, slot(*slot_ref));
            assert(slots(optional@).take(k + 1) =~= done.push(slot(*slot_ref)));
        }
        k = k + 1;
    }
    assert(slots(optional@).take(k as int) =~= slots(optional@));
    characteristics
}

/// Enumerates the characteristics of a service for writing, in the order of
/// [`enumerate`]. What is written through a reference becomes the content of
/// the characteristic that it was taken from; an optional characteristic
/// that is present stays present, one that is absent stays absent.
pub fn enumerate_mut<'a>(
    required: Vec<&'a mut Characteristic>,
    optional: Vec<&'a mut Option<Characteristic>>,
) -> (characteristics: Vec<&'a mut Characteristic>)
    ensures
        views_mut(characteristics@) == views_mut(required@) + present(slots_mut(optional@)),
        forall|k: int|
            0 <= k < optional@.len() ==> (*final(#[trigger] optional@[k]) is Some
                <==> *optional@[k] is Some),
        Seq::new(characteristics@.len(), |i: int| final(characteristics@[i])@) == Seq::new(
            required@.len(),
            |i: int| final(required@[i])@,
        ) + present(Seq::new(optional@.len(), |k: int| slot(*final(optional@[k])))),
{
    let ghost all = optional@;
    let ghost written = Seq::new(required@.len(), |i: int| final(required@[i])@);
    let mut characteristics = required;
    let mut rest = optional;
    while rest.len() > 0
        invariant
            all == optional@,
            written == Seq::new(required@.len(), |i: int| final(required@[i])@),
            rest@.len() <= all.len(),
            rest@ == all.skip(all.len() - rest@.len()),
            views_mut(characteristics@) == views_mut(required@) + present(
                slots_mut(all).take(all.len() - rest@.len()),
            ),
            forall|k: int|
                0 <= k < all.len() - rest@.len() ==> (*final(#[trigger] all[k]) is Some
                    <==> *all[k] is Some),
            Seq::new(characteristics@.len(), |i: int| final(characteristics@[i])@) == written
                + present(
                Seq::new((all.len() - rest@.len()) as nat, |k: int| slot(*final(all[k]))),
            ),
        decreases rest.len(),
    {
        let ghost k = all.len() - rest@.len();
        let ghost before = characteristics@;
        let slot_ref = rest.remove(0);
        if let Some(c) = slot_ref {
            let ghost now = c@;
            let ghost then = final(c)@;
            characteristics.push(c);
            assert(views_mut(characteristics@) =~= views_mut(before).push(now));
            assert(Seq::new(characteristics@.len(), |i: int| final(characteristics@[i])@)
                =~= Seq::new(before.len(), |i: int| final(before[i])@).push(then));
        }
        proof {
            let done = slots_mut(all).take(k);
            lemma_present_push(done, slot(*all[k]));
            assert(slots_mut(all).take(k + 1) =~= done.push(slot(*all[k])));
            let filled = Seq::new(k as nat, |j: int| slot(*final(all[j])));
            lemma_present_push(filled, slot(*final(all[k])));
            assert(Seq::new((k + 1) as nat, |j: int| slot(*final(all[j]))) =~= filled.push(
                slot(*final(all[k])),
            ));
        }
    }
    assert(slots_mut(all).take(all.len() as int) =~= slots_mut(all));
    characteristics
}

/// Returns the first of `characteristics` whose type tag is `hap_type`.
pub fn find_characteristic<'a>(
    characteristics: Vec<&'a Characteristic>,
    hap_type: HapType,
) -> (found: Option<&'a Characteristic>)
    ensures
        match found {
            Some(c) => exists|i: int|
                #[trigger] is_first_match(views(characteristics@), hap_type, i)
                    && c == characteristics@[i],
            None => has_no_match(views(characteristics@), hap_type),
        },
{
    let mut i: usize = 0;
    while i < characteristics.len()
        invariant
            i <= characteristics.len(),
            forall|j: int| 0 <= j < i ==> (#[trigger] views(characteristics@)[j]).hap_type != hap_type,
        decreases characteristics.len() - i,
    {
        let c: &'a Characteristic = characteristics[i];
        if c.get_type() == hap_type {
            assert(is_first_match(views(characteristics@), hap_type, i as int));
            return Some(c);
        }
        i = i + 1;
    }
    None
}

/// Returns the first of `characteristics` whose type tag is `hap_type`, for
/// writing. The characteristics behind the other references stay as they are.
pub fn find_mut_characteristic<'a>(
    characteristics: Vec<&'a mut Characteristic>,
    hap_type: HapType,
) -> (found: Option<&'a mut Characteristic>)
    ensures
        match found {
            Some(c) => exists|i: int|
                #[trigger] is_first_match(views_mut(characteristics@), hap_type, i)
                    && *c == *characteristics@[i] && *final(c) == *final(characteristics@[i])
                    && forall|j: int|
                    0 <= j < characteristics@.len() && j != i ==> *final(#[trigger] characteristics@[j])
                        == *characteristics@[j],
            None => has_no_match(views_mut(characteristics@), hap_type) && forall|j: int|
                0 <= j < characteristics@.len() ==> *final(#[trigger] characteristics@[j])
                    == *characteristics@[j],
        },
{
    let ghost all = characteristics@;
    let mut rest = characteristics;
    while rest.len() > 0
        invariant
            all == characteristics@,
            rest@.len() <= all.len(),
            rest@ == all.skip(all.len() - rest@.len()),
            forall|j: int|
                0 <= j < all.len() - rest@.len() ==> (#[trigger] views_mut(all)[j]).hap_type
                    != hap_type,
            forall|j: int|
                0 <= j < all.len() - rest@.len() ==> *final(#[trigger] all[j]) == *all[j],
        decreases rest.len(),
    {
        let ghost k = all.len() - rest@.len();
        let c = rest.remove(0);
        if c.get_type() == hap_type {
            assert(is_first_match(views_mut(all), hap_type, k));
            assert forall|j: int| 0 <= j < all.len() && j != k implies *final(#[trigger] all[j])
                == *all[j] by {
                if j > k {
                    assert(rest@[j - k - 1] == all[j]);
                }
            }
            return Some(c);
        }
    }
    None
}

/// Installs `event_emitter` on each of `characteristics`, or clears their
/// sink if it is `None`.
pub fn set_event_emitter_on_each<'a>(
    characteristics: Vec<&'a mut Characteristic>,
    event_emitter: Option<EventEmitter>,
)
    ensures
        forall|i: int|
            0 <= i < characteristics@.len() ==> final(#[trigger] characteristics@[i])@
                == characteristics@[i]@.with_event_emitter(event_emitter),
{
    let ghost all = characteristics@;
    let mut rest = characteristics;
    while rest.len() > 0
        invariant
            all == characteristics@,
            rest@.len() <= all.len(),
            rest@ == all.skip(all.len() - rest@.len()),
            forall|i: int|
                0 <= i < all.len() - rest@.len() ==> final(#[trigger] all[i])@
                    == all[i]@.with_event_emitter(event_emitter),
        decreases rest.len(),
    {
        let characteristic = rest.remove(0);
        characteristic.set_event_emitter(event_emitter);
    }
}

} // verus!
