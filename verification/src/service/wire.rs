//! The wire form of a service.

use vstd::prelude::*;
use crate::characteristic::Characteristic;
use crate::hap_type::HapType;
use crate::json::{
    array, boolean, boolean_text, frame_array, frame_member, frame_object, frame_plain, member,
    object, plain, texts,
};

verus! {

/// The names of the fields of the wire form of a service, in their order.
pub open spec fn service_fields() -> Seq<Seq<char>> {
    seq!["iid"@, "type"@, "hidden"@, "primary"@, "characteristics"@]
}

/// Returns the names of the fields of the wire form of a service, in their
/// order.
pub fn service_field_names() -> (names: Vec<&'static str>)
    ensures
        names@.len() == 5,
        forall|i: int| 0 <= i < 5 ==> (#[trigger] names@[i])@ == service_fields()[i],
{
    vec!["iid", "type", "hidden", "primary", "characteristics"]
}

/// The wire form of a service whose identifier and characteristics are
/// already written as JSON text: an object whose members have the names of
/// [`service_fields`], in their order. They hold the identifier, the type tag
/// between double quotes, the two flags, and the array of the
/// characteristics.
pub open spec fn service_frame(
    iid: Seq<char>,
    hap_type: HapType,
    hidden: bool,
    primary: bool,
    characteristics: Seq<Seq<char>>,
) -> Seq<char> {
    object(
        seq![
            member(service_fields()[0], iid),
            member(service_fields()[1], plain(hap_type.code())),
            member(service_fields()[2], boolean(hidden)),
            member(service_fields()[3], boolean(primary)),
            member(service_fields()[4], array(characteristics)),
        ],
    )
}

/// Writes the wire form of a service from its identifier and its
/// characteristics, all already written as JSON text.
pub fn frame_service(
    iid: &str,
    hap_type: HapType,
    hidden: bool,
    primary: bool,
    characteristics: &Vec<String>,
) -> (text: String)
    ensures
        text@ == service_frame(iid@, hap_type, hidden, primary, texts(characteristics@)),
{
    let names = service_field_names();
    let tag = frame_plain(hap_type.as_str());
    let list = frame_array(characteristics);
    let members = vec![
        frame_member(names[0], iid),
        frame_member(names[1], tag.as_str()),
        frame_member(names[2], boolean_text(hidden)),
        frame_member(names[3], boolean_text(primary)),
        frame_member(names[4], list.as_str()),
    ];
    assert(texts(members@) =~= seq![
        member(service_fields()[0], iid@),
        member(service_fields()[1], plain(hap_type.code())),
        member(service_fields()[2], boolean(hidden)),
        member(service_fields()[3], boolean(primary)),
        member(service_fields()[4], array(texts(characteristics@))),
    ]);
    frame_object(&members)
}

/// Writes the wire form of each of `characteristics`, in their order.
pub fn serialize_each(characteristics: &Vec<&Characteristic>) -> (list: Vec<String>)
    ensures
        texts(list@) == Seq::new(characteristics@.len(), |i: int| characteristics@[i]@.json()),
{
    let mut list: Vec<String> = Vec::new();
    let mut i: usize = 0;
    while i < characteristics.len()
        invariant
            i <= characteristics.len(),
            list@.len() == i,
            forall|j: int| 0 <= j < i ==> (#[trigger] list@[j])@ == characteristics@[j]@.json(),
        decreases characteristics.len() - i,
    {
        list.push(characteristics[i].serialize());
        i = i + 1;
    }
    list
}

} // verus!
