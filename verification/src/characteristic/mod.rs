//! Characteristics: formats, values, and the characteristic itself.

use vstd::prelude::*;
use crate::error::HapError;
use crate::hap_type::HapType;
use crate::json::{
    boolean, boolean_text, decimal, frame_member, frame_object, frame_plain, integer_text, member,
    object, plain, quoted, string_text, texts,
};
use crate::pointer::EventEmitter;

pub mod kinds;

pub use crate::characteristic::kinds::{format_for, format_of};

verus! {

/// Format of the value that a characteristic holds.
#[derive(Clone, Copy, Debug, PartialEq, Eq, Hash, Structural)]
pub enum Format {
    Bool,
    UInt8,
    UInt16,
    UInt32,
    Int32,
    String,
}

/// A value as it is written to or read from a characteristic.
#[derive(Debug)]
pub enum Value {
    Bool(bool),
    Number(i64),
    String(String),
}

/// Mathematical content of a [`Value`].
pub enum ValueView {
    Bool(bool),
    Number(int),
    String(Seq<char>),
}

impl View for Value {
    type V = ValueView;

    open spec fn view(&self) -> ValueView {
        match self {
            Value::Bool(b) => ValueView::Bool(*b),
            Value::Number(n) => ValueView::Number(*n as int),
            Value::String(s) => ValueView::String(s@),
        }
    }
}

impl ValueView {
    /// The JSON text of the value.
    pub open spec fn json(self) -> Seq<char> {
        match self {
            ValueView::Bool(b) => boolean(b),
            ValueView::Number(n) => decimal(n),
            ValueView::String(s) => quoted(s),
        }
    }
}

impl Value {
    /// Writes the value as JSON text.
    pub fn serialize(&self) -> (text: String)
        ensures
            text@ == self@.json(),
    {
        match self {
            Value::Bool(b) => boolean_text(*b).to_owned(),
            Value::Number(n) => integer_text(*n as i128),
            Value::String(s) => string_text(s.as_str()),
        }
    }
}

impl Format {
    /// Whether a characteristic of this format can hold `value`: a boolean
    /// for `Bool`, a number within the range of the integer type for the
    /// numeric formats, a string for `String`.
    pub open spec fn admits(self, value: ValueView) -> bool {
        match self {
            Format::Bool => value is Bool,
            Format::UInt8 => value matches ValueView::Number(n) && 0 <= n <= 0xff,
            Format::UInt16 => value matches ValueView::Number(n) && 0 <= n <= 0xffff,
            Format::UInt32 => value matches ValueView::Number(n) && 0 <= n <= 0xffff_ffff,
            Format::Int32 => value matches ValueView::Number(n) && -0x8000_0000 <= n <= 0x7fff_ffff,
            Format::String => value is String,
        }
    }

    /// The value of a characteristic of this format to which nothing has been
    /// assigned: `false`, zero or the empty string.
    pub open spec fn initial(self) -> ValueView {
        match self {
            Format::Bool => ValueView::Bool(false),
            Format::String => ValueView::String(Seq::empty()),
            _ => ValueView::Number(0),
        }
    }

    /// Tells whether a characteristic of this format can hold `value`.
    pub fn accepts(&self, value: &Value) -> (ok: bool)
        ensures
            ok == self.admits(value@),
    {
        match self {
            Format::Bool => match value {
                Value::Bool(_) => true,
                _ => false,
            },
            Format::UInt8 => match value {
                Value::Number(n) => 0 <= *n && *n <= 0xff,
                _ => false,
            },
            Format::UInt16 => match value {
                Value::Number(n) => 0 <= *n && *n <= 0xffff,
                _ => false,
            },
            Format::UInt32 => match value {
                Value::Number(n) => 0 <= *n && *n <= 0xffff_ffff,
                _ => false,
            },
            Format::Int32 => match value {
                Value::Number(n) => -0x8000_0000 <= *n && *n <= 0x7fff_ffff,
                _ => false,
            },
            Format::String => match value {
                Value::String(_) => true,
                _ => false,
            },
        }
    }

    /// The value that a fresh characteristic of this format holds.
    pub fn initial_value(&self) -> (value: Value)
        ensures
            value@ == self.initial(),
            self.admits(value@),
    {
        match self {
            Format::Bool => Value::Bool(false),
            Format::String => Value::String(String::new()),
            _ => Value::Number(0),
        }
    }

    /// The name of the format on the wire.
    pub open spec fn name(self) -> Seq<char> {
        match self {
            Format::Bool => "bool"@,
            Format::UInt8 => "uint8"@,
            Format::UInt16 => "uint16"@,
            Format::UInt32 => "uint32"@,
            Format::Int32 => "int"@,
            Format::String => "string"@,
        }
    }

    /// Returns the name of the format on the wire.
    pub fn as_str(&self) -> (s: &'static str)
        ensures
            s@ == self.name(),
    {
        match self {
            Format::Bool => "bool",
            Format::UInt8 => "uint8",
            Format::UInt16 => "uint16",
            Format::UInt32 => "uint32",
            Format::Int32 => "int",
            Format::String => "string",
        }
    }
}

/// The smallest addressable value of an accessory.
///
/// A characteristic has an instance identifier, the identifier of the
/// accessory that it belongs to, a type tag, a format, a value that the
/// format admits, and, once the accessory is wired up, a handle to the
/// notification sink.
#[derive(Debug)]
pub struct Characteristic {
    id: u64,
    accessory_id: u64,
    hap_type: HapType,
    format: Format,
    value: Value,
    event_emitter: Option<EventEmitter>,
}

/// Mathematical content of a [`Characteristic`].
pub struct CharacteristicView {
    pub id: u64,
    pub accessory_id: u64,
    pub hap_type: HapType,
    pub format: Format,
    pub value: ValueView,
    pub event_emitter: Option<EventEmitter>,
}

impl CharacteristicView {
    /// The content of a characteristic to which nothing has been assigned.
    pub open spec fn fresh(hap_type: HapType, format: Format, id: u64, accessory_id: u64) -> Self {
        CharacteristicView {
            id,
            accessory_id,
            hap_type,
            format,
            value: format.initial(),
            event_emitter: None,
        }
    }

    /// The same characteristic, holding `value`.
    pub open spec fn with_value(self, value: ValueView) -> Self {
        CharacteristicView { value, ..self }
    }

    /// The same characteristic, reporting to `event_emitter`.
    pub open spec fn with_event_emitter(self, event_emitter: Option<EventEmitter>) -> Self {
        CharacteristicView { event_emitter, ..self }
    }
}

/// The names of the fields of the wire form of a characteristic, in their order.
pub open spec fn characteristic_fields() -> Seq<Seq<char>> {
    seq!["iid"@, "type"@, "format"@, "value"@]
}

/// Returns the names of the fields of the wire form of a characteristic, in
/// their order.
pub fn characteristic_field_names() -> (names: Vec<&'static str>)
    ensures
        names@.len() == 4,
        forall|i: int| 0 <= i < 4 ==> (#[trigger] names@[i])@ == characteristic_fields()[i],
{
    vec!["iid", "type", "format", "value"]
}

/// The wire form of a characteristic whose identifier and value are already
/// written as JSON text: an object whose members have the names of
/// [`characteristic_fields`], in their order. They hold the identifier, the
/// type tag and the format between double quotes, and the value.
pub open spec fn characteristic_frame(
    iid: Seq<char>,
    hap_type: HapType,
    format: Format,
    value: Seq<char>,
) -> Seq<char> {
    object(
        seq![
            member(characteristic_fields()[0], iid),
            member(characteristic_fields()[1], plain(hap_type.code())),
            member(characteristic_fields()[2], plain(format.name())),
            member(characteristic_fields()[3], value),
        ],
    )
}

/// Writes the wire form of a characteristic from its identifier and its
/// value, both already written as JSON text.
pub fn frame_characteristic(iid: &str, hap_type: HapType, format: Format, value: &str) -> (text:
    String)
    ensures
        text@ == characteristic_frame(iid@, hap_type, format, value@),
{
    let names = characteristic_field_names();
    let tag = frame_plain(hap_type.as_str());
    let kind = frame_plain(format.as_str());
    let members = vec![
        frame_member(names[0], iid),
        frame_member(names[1], tag.as_str()),
        frame_member(names[2], kind.as_str()),
        frame_member(names[3], value),
    ];
    assert(texts(members@) =~= seq![
        member(characteristic_fields()[0], iid@),
        member(characteristic_fields()[1], plain(hap_type.code())),
        member(characteristic_fields()[2], plain(format.name())),
        member(characteristic_fields()[3], value@),
    ]);
    frame_object(&members)
}

impl CharacteristicView {
    /// The wire form of the characteristic.
    pub open spec fn json(self) -> Seq<char> {
        characteristic_frame(decimal(self.id as int), self.hap_type, self.format, self.value.json())
    }
}

impl View for Characteristic {
    type V = CharacteristicView;

    closed spec fn view(&self) -> CharacteristicView {
        CharacteristicView {
            id: self.id,
            accessory_id: self.accessory_id,
            hap_type: self.hap_type,
            format: self.format,
            value: self.value@,
            event_emitter: self.event_emitter,
        }
    }
}

impl Characteristic {
    #[verifier::type_invariant]
    spec fn value_fits(&self) -> bool {
        self.format.admits(self.value@)
    }

    /// Creates a characteristic of the given type and format that holds the
    /// format's initial value and reports to no sink.
    pub fn new(hap_type: HapType, format: Format, id: u64, accessory_id: u64) -> (c: Characteristic)
        ensures
            c@ == CharacteristicView::fresh(hap_type, format, id, accessory_id),
    {
        Characteristic {
            id,
            accessory_id,
            hap_type,
            format,
            value: format.initial_value(),
            event_emitter: None,
        }
    }

    /// Returns the instance identifier.
    pub fn get_id(&self) -> (id: u64)
        ensures
            id == self@.id,
    {
        self.id
    }

    /// Returns the identifier of the accessory that the characteristic belongs to.
    pub fn get_accessory_id(&self) -> (id: u64)
        ensures
            id == self@.accessory_id,
    {
        self.accessory_id
    }

    /// Returns the type tag.
    pub fn get_type(&self) -> (hap_type: HapType)
        ensures
            hap_type == self@.hap_type,
    {
        self.hap_type
    }

    /// Returns the format.
    pub fn get_format(&self) -> (format: Format)
        ensures
            format == self@.format,
    {
        self.format
    }

    /// Returns the value, which the format always admits.
    pub fn get_value(&self) -> (value: &Value)
        ensures
            value@ == self@.value,
            self@.format.admits(value@),
    {
        proof {
            use_type_invariant(self);
        }
        &self.value
    }

    /// Assigns `value` if the format admits it. Otherwise the characteristic
    /// stays as it is and the format is reported.
    pub fn set_value(&mut self, value: Value) -> (r: Result<(), HapError>)
        ensures
            old(self)@.format.admits(value@) ==> r is Ok && final(self)@ == old(self)@.with_value(
                value@,
            ),
            !old(self)@.format.admits(value@) ==> r == Err::<(), HapError>(
                HapError::InvalidValue(old(self)@.format),
            ) && final(self)@ == old(self)@,
    {
        if self.format.accepts(&value) {
            self.value = value;
            Ok(())
        } else {
            Err(HapError::InvalidValue(self.format))
        }
    }

    /// Writes the wire form of the characteristic.
    pub fn serialize(&self) -> (text: String)
        ensures
            text@ == self@.json(),
    {
        let iid = integer_text(self.id as i128);
        let value = self.value.serialize();
        frame_characteristic(iid.as_str(), self.hap_type, self.format, value.as_str())
    }

    /// Returns the handle of the sink that the characteristic reports to.
    pub fn get_event_emitter(&self) -> (event_emitter: Option<EventEmitter>)
        ensures
            event_emitter == self@.event_emitter,
    {
        self.event_emitter
    }

    /// Installs the sink that the characteristic reports to, or clears it.
    pub fn set_event_emitter(&mut self, event_emitter: Option<EventEmitter>)
        ensures
            final(self)@ == old(self)@.with_event_emitter(event_emitter),
    {
        proof {
            use_type_invariant(&*self);
        }
        self.event_emitter = event_emitter;
    }
}

} // verus!
