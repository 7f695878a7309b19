//! The wire form of an accessory.

use vstd::prelude::*;
use crate::json::{array, frame_array, frame_member, frame_object, member, object, texts};

verus! {

/// The names of the fields of the wire form of an accessory, in their order.
pub open spec fn accessory_fields() -> Seq<Seq<char>> {
    seq!["aid"@, "services"@]
}

/// Returns the names of the fields of the wire form of an accessory, in
/// their order.
pub fn accessory_field_names() -> (names: Vec<&'static str>)
    ensures
        names@.len() == 2,
        forall|i: int| 0 <= i < 2 ==> (#[trigger] names@[i])@ == accessory_fields()[i],
{
    vec!["aid", "services"]
}

/// The wire form of an accessory whose identifier and services are already
/// written as JSON text: an object whose members have the names of
/// [`accessory_fields`], in their order. They hold the identifier and the
/// array of the services.
pub open spec fn accessory_frame(aid: Seq<char>, services: Seq<Seq<char>>) -> Seq<char> {
    object(seq![member(accessory_fields()[0], aid), member(accessory_fields()[1], array(services))])
}

/// Writes the wire form of an accessory from its identifier and its
/// services, all already written as JSON text.
pub fn frame_accessory(aid: &str, services: &Vec<String>) -> (text: String)
    ensures
        text@ == accessory_frame(aid@, texts(services@)),
{
    let names = accessory_field_names();
    let list = frame_array(services);
    let members = vec![frame_member(names[0], aid), frame_member(names[1], list.as_str())];
    assert(texts(members@) =~= seq![
        member(accessory_fields()[0], aid@),
        member(accessory_fields()[1], array(texts(services@))),
    ]);
    frame_object(&members)
}

} // verus!
