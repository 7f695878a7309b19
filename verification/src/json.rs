//! JSON text of the scalars that the wire form of the object model is made of.

use vstd::prelude::*;

verus! {

/// The error type of `serde_json`.
#[verifier::external_type_specification]
#[verifier::external_body]
pub struct ExJsonError(serde_json::Error);

/// The character of a decimal digit.
pub open spec fn digit(d: int) -> char {
    if d == 0 {
        '0'
    } else if d == 1 {
        '1'
    } else if d == 2 {
        '2'
    } else if d == 3 {
        '3'
    } else if d == 4 {
        '4'
    } else if d == 5 {
        '5'
    } else if d == 6 {
        '6'
    } else if d == 7 {
        '7'
    } else if d == 8 {
        '8'
    } else {
        '9'
    }
}

/// The decimal digits of a natural number, without leading zeros.
pub open spec fn digits(n: nat) -> Seq<char>
    decreases n,
{
    if n < 10 {
        seq![digit(n as int)]
    } else {
        digits(n / 10).push(digit((n % 10) as int))
    }
}

/// An integer in decimal notation, with a minus sign before a negative one.
pub open spec fn decimal(n: int) -> Seq<char> {
    if n < 0 {
        seq!['-'] + digits((-n) as nat)
    } else {
        digits(n as nat)
    }
}

/// The JSON text of a boolean.
pub open spec fn boolean(b: bool) -> Seq<char> {
    if b {
        "true"@
    } else {
        "false"@
    }
}

/// The JSON text of a string as `serde_json` writes it: the string between
/// double quotes, with the characters escaped that JSON does not take as
/// they are.
pub uninterp spec fn quoted(s: Seq<char>) -> Seq<char>;

/// `serde_json::to_string` on an integer. It succeeds: it writes into a byte
/// vector, and an integer is written by one call that cannot fail. The text
/// is the integer in decimal notation, with a minus sign before a negative
/// one.
#[verifier::external_body]
fn integer_to_string(n: i128) -> (r: Result<String, serde_json::Error>)
    ensures
        r is Ok,
        r matches Ok(text) ==> text@ == decimal(n as int),
{
    serde_json::to_string(&n)
}

/// `serde_json::to_string` on a string. It succeeds: it writes into a byte
/// vector, and a string is written by one call that cannot fail. The text is
/// the JSON text of the string.
#[verifier::external_body]
fn str_to_string(s: &str) -> (r: Result<String, serde_json::Error>)
    ensures
        r is Ok,
        r matches Ok(text) ==> text@ == quoted(s@),
{
    serde_json::to_string(s)
}

/// Writes an integer as JSON text.
pub fn integer_text(n: i128) -> (text: String)
    ensures
        text@ == decimal(n as int),
{
    integer_to_string(n).unwrap()
}

/// Writes a string as JSON text.
pub fn string_text(s: &str) -> (text: String)
    ensures
        text@ == quoted(s@),
{
    str_to_string(s).unwrap()
}

/// Returns the JSON text of a boolean.
pub fn boolean_text(b: bool) -> (text: &'static str)
    ensures
        text@ == boolean(b),
{
    if b {
        "true"
    } else {
        "false"
    }
}

/// The `items`, separated by commas.
pub open spec fn joined(items: Seq<Seq<char>>) -> Seq<char>
    decreases items.len(),
{
    if items.len() == 0 {
        Seq::empty()
    } else if items.len() == 1 {
        items[0]
    } else {
        joined(items.drop_last()) + ","@ + items.last()
    }
}

/// A member of a JSON object: the name between double quotes, a colon, and
/// the value, which is JSON text already.
pub open spec fn member(name: Seq<char>, value: Seq<char>) -> Seq<char> {
    "\""@ + name + "\":"@ + value
}

/// A JSON object with the given members, in their order.
pub open spec fn object(members: Seq<Seq<char>>) -> Seq<char> {
    "{"@ + joined(members) + "}"@
}

/// A JSON array with the given items, in their order.
pub open spec fn array(items: Seq<Seq<char>>) -> Seq<char> {
    "["@ + joined(items) + "]"@
}

/// A string without characters that JSON escapes, between double quotes.
pub open spec fn plain(s: Seq<char>) -> Seq<char> {
    "\""@ + s + "\""@
}

/// Writes a member of a JSON object from its name and its value, which is
/// JSON text already.
pub fn frame_member(name: &str, value: &str) -> (text: String)
    ensures
        text@ == member(name@, value@),
{
    let mut text = "\"".to_owned();
    text.append(name);
    text.append("\":");
    text.append(value);
    text
}

/// Writes a string without characters that JSON escapes between double quotes.
pub fn frame_plain(s: &str) -> (text: String)
    ensures
        text@ == plain(s@),
{
    let mut text = "\"".to_owned();
    text.append(s);
    text.append("\"");
    text
}

/// The texts of `items`.
pub open spec fn texts(items: Seq<String>) -> Seq<Seq<char>> {
    Seq::new(items.len(), |i: int| items[i]@)
}

/// Separates `items` by commas.
pub fn join(items: &Vec<String>) -> (text: String)
    ensures
        text@ == joined(texts(items@)),
{
    let mut text = String::new();
    let mut i: usize = 0;
    while i < items.len()
        invariant
            i <= items.len(),
            text@ == joined(texts(items@).take(i as int)),
        decreases items.len() - i,
    {
        let ghost done = texts(items@).take(i as int);
        if i > 0 {
            text.append(",");
        }
        text.append(items[i].as_str());
        proof {
            let next = texts(items@).take(i + 1);
            assert(next.drop_last() =~= done);
        }
        i = i + 1;
    }
    assert(texts(items@).take(i as int) =~= texts(items@));
    text
}

/// Writes a JSON object from its members, which are JSON text already.
pub fn frame_object(members: &Vec<String>) -> (text: String)
    ensures
        text@ == object(texts(members@)),
{
    let mut text = "{".to_owned();
    let list = join(members);
    text.append(list.as_str());
    text.append("}");
    text
}

/// Writes a JSON array from its items, which are JSON text already.
pub fn frame_array(items: &Vec<String>) -> (text: String)
    ensures
        text@ == array(texts(items@)),
{
    let mut text = "[".to_owned();
    let list = join(items);
    text.append(list.as_str());
    text.append("]");
    text
}

} // verus!
