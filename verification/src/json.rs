//! JSON values as the service produces them, and their mathematical model.
//!
//! A [`JsonValue`] is what the converter builds; its view, a [`JsonModel`],
//! is what the contracts speak of. An object keeps its members in the order
//! in which their keys were first inserted, and inserting under a key that is
//! already there replaces the value and keeps the place.

use crate::assoc::{distinct_keys, entry_models, find_entry, lookup};
use vstd::prelude::*;

verus! {

/// The model of a JSON number.
pub enum NumberModel {
    /// An integer.
    Int(i64),
    /// The IEEE 754 binary32 value with these bits; it is widened to
    /// binary64 when the number is written out.
    Single(u32),
    /// The IEEE 754 binary64 value with these bits.
    Double(u64),
    /// The number that this decimal text denotes.
    Decimal(Seq<char>),
}

/// The model of a JSON value.
pub enum JsonModel {
    Null,
    Bool(bool),
    Number(NumberModel),
    String(Seq<char>),
    Array(Seq<JsonModel>),
    /// The members in insertion order.
    Object(Seq<(Seq<char>, JsonModel)>),
}

/// A JSON number. Binary floating-point numbers are held by their bits, so
/// that no arithmetic ever touches them; numerics are held as decimal text,
/// which loses nothing.
#[derive(Debug)]
pub enum Number {
    Int(i64),
    Single(u32),
    Double(u64),
    Decimal(String),
}

/// A JSON value.
#[derive(Debug)]
pub enum JsonValue {
    Null,
    Bool(bool),
    Number(Number),
    String(String),
    Array(Vec<JsonValue>),
    Object(Vec<(String, JsonValue)>),
}

/// Whether the binary32 value with these bits is neither an infinity nor a
/// NaN: its eight exponent bits are not all set.
pub open spec fn single_is_finite(bits: u32) -> bool {
    (bits / 0x80_0000) % 0x100 != 0xff
}

/// Whether the binary64 value with these bits is neither an infinity nor a
/// NaN: its eleven exponent bits are not all set.
pub open spec fn double_is_finite(bits: u64) -> bool {
    (bits / 0x10_0000_0000_0000) % 0x800 != 0x7ff
}

impl NumberModel {
    /// A number that JSON can write down: no infinity, no NaN.
    pub open spec fn well_formed(self) -> bool {
        match self {
            NumberModel::Int(_) => true,
            NumberModel::Single(bits) => single_is_finite(bits),
            NumberModel::Double(bits) => double_is_finite(bits),
            NumberModel::Decimal(_) => true,
        }
    }
}

impl JsonModel {
    /// Every number in the value can be written down, and no object in it
    /// holds a key twice.
    pub open spec fn well_formed(self) -> bool
        decreases self,
    {
        match self {
            JsonModel::Null => true,
            JsonModel::Bool(_) => true,
            JsonModel::Number(n) => n.well_formed(),
            JsonModel::String(_) => true,
            JsonModel::Array(items) => forall|i: int|
                0 <= i < items.len() ==> (#[trigger] items[i]).well_formed(),
            JsonModel::Object(members) => distinct_keys(members) && forall|i: int|
                0 <= i < members.len() ==> (#[trigger] members[i]).1.well_formed(),
        }
    }

    /// The boolean that the value holds, if it is one.
    pub open spec fn as_bool(self) -> Option<bool> {
        match self {
            JsonModel::Bool(b) => Some(b),
            _ => None,
        }
    }

    /// The integer that the value holds, if it is one.
    pub open spec fn as_int(self) -> Option<int> {
        match self {
            JsonModel::Number(NumberModel::Int(v)) => Some(v as int),
            _ => None,
        }
    }

    /// The text that the value holds, if it is a string.
    pub open spec fn as_text(self) -> Option<Seq<char>> {
        match self {
            JsonModel::String(s) => Some(s),
            _ => None,
        }
    }

    /// The member stored under `key`, if the value is an object that has one.
    pub open spec fn member(self, key: Seq<char>) -> Option<JsonModel> {
        match self {
            JsonModel::Object(members) => lookup(members, key),
            _ => None,
        }
    }
}

impl View for Number {
    type V = NumberModel;

    open spec fn view(&self) -> NumberModel {
        match self {
            Number::Int(v) => NumberModel::Int(*v),
            Number::Single(bits) => NumberModel::Single(*bits),
            Number::Double(bits) => NumberModel::Double(*bits),
            Number::Decimal(text) => NumberModel::Decimal(text@),
        }
    }
}

/// The model of a value: arrays and objects item by item.
pub open spec fn model_of(value: JsonValue) -> JsonModel
    decreases value,
{
    match value {
        JsonValue::Null => JsonModel::Null,
        JsonValue::Bool(b) => JsonModel::Bool(b),
        JsonValue::Number(n) => JsonModel::Number(n@),
        JsonValue::String(s) => JsonModel::String(s@),
        JsonValue::Array(items) => JsonModel::Array(
            Seq::new(
                items@.len(),
                |i: int|
                    if 0 <= i < items@.len() {
                        model_of(items@[i])
                    } else {
                        JsonModel::Null
                    },
            ),
        ),
        JsonValue::Object(members) => JsonModel::Object(
            Seq::new(
                members@.len(),
                |i: int|
                    if 0 <= i < members@.len() {
                        (members@[i].0@, model_of(members@[i].1))
                    } else {
                        (Seq::empty(), JsonModel::Null)
                    },
            ),
        ),
    }
}

impl View for JsonValue {
    type V = JsonModel;

    open spec fn view(&self) -> JsonModel {
        model_of(*self)
    }
}

/// The models of a sequence of values, in order.
pub open spec fn item_models(items: Seq<JsonValue>) -> Seq<JsonModel> {
    Seq::new(items.len(), |i: int| items[i]@)
}

/// The view of an array is the array of its items' views.
pub proof fn lemma_array_view(items: Vec<JsonValue>)
    ensures
        JsonValue::Array(items)@ == JsonModel::Array(item_models(items@)),
{
    let viewed = JsonValue::Array(items)@->Array_0;
    assert forall|i: int| 0 <= i < items@.len() implies viewed[i] == item_models(items@)[i] by {
        assert(items@[i]@ == item_models(items@)[i]);
    }
    assert(viewed =~= item_models(items@));
}

/// The view of an object is the sequence of its members' views.
pub proof fn lemma_object_view(members: Vec<(String, JsonValue)>)
    ensures
        JsonValue::Object(members)@ == JsonModel::Object(entry_models(members@)),
{
    let viewed = JsonValue::Object(members)@->Object_0;
    assert forall|i: int| 0 <= i < members@.len() implies viewed[i] == entry_models(
        members@,
    )[i] by {
        assert((members@[i].0@, members@[i].1@) == entry_models(members@)[i]);
    }
    assert(viewed =~= entry_models(members@));
}

impl JsonValue {
    /// Whether the value is `null`.
    pub fn is_null(&self) -> (null: bool)
        ensures
            null == (self@ is Null),
    {
        match self {
            JsonValue::Null => true,
            _ => false,
        }
    }

    /// The boolean that the value holds, if it is one.
    pub fn as_bool(&self) -> (held: Option<bool>)
        ensures
            held == self@.as_bool(),
    {
        match self {
            JsonValue::Bool(b) => Some(*b),
            _ => None,
        }
    }

    /// The integer that the value holds, if it is one.
    pub fn as_i64(&self) -> (held: Option<i64>)
        ensures
            held is Some == self@.as_int() is Some,
            held matches Some(v) ==> self@.as_int() == Some(v as int),
    {
        match self {
            JsonValue::Number(Number::Int(v)) => Some(*v),
            _ => None,
        }
    }

    /// The text that the value holds, if it is a string.
    pub fn as_str(&self) -> (held: Option<&str>)
        ensures
            held is Some == self@.as_text() is Some,
            held matches Some(s) ==> self@.as_text() == Some(s@),
    {
        match self {
            JsonValue::String(s) => Some(s.as_str()),
            _ => None,
        }
    }

    /// The member stored under `key`, if the value is an object that has one.
    pub fn get(&self, key: &str) -> (held: Option<&JsonValue>)
        requires
            self@.well_formed(),
        ensures
            held is Some == self@.member(key@) is Some,
            held matches Some(v) ==> self@.member(key@) == Some(v@),
    {
        match self {
            JsonValue::Object(members) => {
                proof {
                    lemma_object_view(*members);
                }
                match find_entry(members, key) {
                    Some(at) => {
                        assert(entry_models(members@)[at as int].1 == members@[at as int].1@);
                        Some(&members[at].1)
                    },
                    None => None,
                }
            },
            _ => None,
        }
    }
}

} // verus!
