//! From result sets to JSON.
//!
//! A result set is a sequence of rows, a row a sequence of cells, and a cell
//! the name and type code of its column with the bytes that the server sent,
//! or none for SQL `NULL`. A row becomes a JSON object with one member per
//! column name, a result set the JSON array of its rows, in order. Where two
//! columns of a row share a name, the later one's value is the one that
//! stays. A cell that cannot be decoded fails the whole conversion.

use crate::assoc::{distinct_keys, entry_models, insert_entry, lemma_put, put};
use crate::error::Error;
use crate::json::{
    double_is_finite, item_models, lemma_array_view, lemma_object_view, single_is_finite,
    JsonModel, JsonValue, Number, NumberModel,
};
use crate::pgtype::{classify, classify_spec, PgType, Scalar};
use crate::text::{i8_text, int_text};
use crate::wire::{
    array_from_sql, array_parts, as_i8, be_i16, be_i32, be_i64, be_u32, be_u64, bool_from_sql,
    char_from_sql, element_bytes, float4_bits, float8_bits, hyphenated, int2_from_sql,
    int4_from_sql, int8_from_sql, numeric_from_sql, numeric_header_in_reach, numeric_in_reach,
    numeric_text, oid_from_sql, text_from_sql, timestamp_from_sql, timestamp_text, uuid_from_sql,
};
use vstd::prelude::*;
use vstd::utf8::{decode_utf8, valid_utf8};

verus! {

/// The model of a cell.
pub struct CellModel {
    pub name: Seq<char>,
    pub type_oid: u32,
    pub raw: Option<Seq<u8>>,
}

/// One value of a row, with the name and type code of its column. `raw` is
/// the value in PostgreSQL's binary format, `None` for SQL `NULL`.
#[derive(Debug)]
pub struct Cell {
    pub name: String,
    pub type_oid: u32,
    pub raw: Option<Vec<u8>>,
}

/// A row of a result set: its cells in column order.
#[derive(Debug)]
pub struct Row {
    pub cells: Vec<Cell>,
}

impl View for Cell {
    type V = CellModel;

    open spec fn view(&self) -> CellModel {
        CellModel {
            name: self.name@,
            type_oid: self.type_oid,
            raw: match self.raw {
                Some(bytes) => Some(bytes@),
                None => None,
            },
        }
    }
}

impl View for Row {
    type V = Seq<CellModel>;

    open spec fn view(&self) -> Seq<CellModel> {
        Seq::new(self.cells@.len(), |i: int| self.cells@[i]@)
    }
}

/// The rows of a result set, each by its view.
pub open spec fn row_models(rows: Seq<Row>) -> Seq<Seq<CellModel>> {
    Seq::new(rows.len(), |i: int| rows[i]@)
}

/// The JSON value of one non-null value of the given kind, `None` where the
/// bytes cannot be decoded as that kind.
pub open spec fn scalar_json(kind: Scalar, raw: Seq<u8>) -> Option<JsonModel> {
    match kind {
        Scalar::Bool => if raw.len() == 1 {
            Some(JsonModel::Bool(raw[0] != 0))
        } else {
            None
        },
        Scalar::Int2 => if raw.len() == 2 {
            Some(JsonModel::Number(NumberModel::Int(be_i16(raw) as i64)))
        } else {
            None
        },
        Scalar::Int4 => if raw.len() == 4 {
            Some(JsonModel::Number(NumberModel::Int(be_i32(raw) as i64)))
        } else {
            None
        },
        Scalar::Int8 => if raw.len() == 8 {
            Some(JsonModel::Number(NumberModel::Int(be_i64(raw) as i64)))
        } else {
            None
        },
        Scalar::Oid => if raw.len() == 4 {
            Some(JsonModel::Number(NumberModel::Int(be_u32(raw) as i64)))
        } else {
            None
        },
        Scalar::Char => if raw.len() == 1 {
            Some(JsonModel::String(int_text(as_i8(raw[0]))))
        } else {
            None
        },
        Scalar::Float4 => if raw.len() == 4 && single_is_finite(be_u32(raw) as u32) {
            Some(JsonModel::Number(NumberModel::Single(be_u32(raw) as u32)))
        } else {
            None
        },
        Scalar::Float8 => if raw.len() == 8 && double_is_finite(be_u64(raw) as u64) {
            Some(JsonModel::Number(NumberModel::Double(be_u64(raw) as u64)))
        } else {
            None
        },
        Scalar::Numeric => if numeric_in_reach(raw) {
            decimal_json(numeric_text(raw))
        } else {
            None
        },
        Scalar::Timestamp => string_json(timestamp_text(raw)),
        Scalar::Uuid => if raw.len() == 16 {
            Some(JsonModel::String(hyphenated(raw)))
        } else {
            None
        },
        Scalar::Text => if valid_utf8(raw) {
            Some(JsonModel::String(decode_utf8(raw)))
        } else {
            None
        },
    }
}

/// The JSON value of one element of an array. A null element cannot be
/// decoded.
pub open spec fn element_json(kind: Scalar, element: Option<Seq<u8>>) -> Option<JsonModel> {
    match element {
        Some(raw) => scalar_json(kind, raw),
        None => None,
    }
}

/// The JSON array of the parts of an array value: every element by the rule
/// of its kind, in order. An array of more than one dimension cannot be
/// decoded, nor one with an element that cannot.
pub open spec fn parts_json(
    kind: Scalar,
    dimensions: nat,
    elements: Seq<Option<Seq<u8>>>,
) -> Option<JsonModel> {
    if dimensions <= 1 && forall|i: int|
        0 <= i < elements.len() ==> (#[trigger] element_json(kind, elements[i])) is Some {
        Some(
            JsonModel::Array(
                Seq::new(elements.len(), |i: int| element_json(kind, elements[i]).unwrap()),
            ),
        )
    } else {
        None
    }
}

/// The JSON array of an array value, `None` where the bytes are no array or
/// its parts cannot be decoded.
pub open spec fn array_json(kind: Scalar, raw: Seq<u8>) -> Option<JsonModel> {
    match array_parts(raw) {
        Some((dimensions, elements)) => parts_json(kind, dimensions, elements),
        None => None,
    }
}

/// The JSON string of a text that was decoded, if it was.
pub open spec fn string_json(text: Option<Seq<char>>) -> Option<JsonModel> {
    match text {
        Some(text) => Some(JsonModel::String(text)),
        None => None,
    }
}

/// The JSON number of a decimal text that was decoded, if it was.
pub open spec fn decimal_json(text: Option<Seq<char>>) -> Option<JsonModel> {
    match text {
        Some(text) => Some(JsonModel::Number(NumberModel::Decimal(text))),
        None => None,
    }
}

/// The JSON value of a cell. SQL `NULL` is JSON `null` whatever the column's
/// type, and so is every value of type `VOID`. A value of a type without a
/// rule cannot be decoded.
pub open spec fn cell_json(cell: CellModel) -> Option<JsonModel> {
    match cell.raw {
        None => Some(JsonModel::Null),
        Some(raw) => match classify_spec(cell.type_oid) {
            PgType::Void => Some(JsonModel::Null),
            PgType::Scalar(kind) => scalar_json(kind, raw),
            PgType::Array(kind) => array_json(kind, raw),
            PgType::Other => None,
        },
    }
}

/// The members of the object of a row: the cells' values inserted under the
/// cells' names, from the first column to the last.
pub open spec fn row_members(cells: Seq<CellModel>) -> Option<Seq<(Seq<char>, JsonModel)>>
    decreases cells.len(),
{
    if cells.len() == 0 {
        Some(Seq::empty())
    } else {
        match (row_members(cells.drop_last()), cell_json(cells.last())) {
            (Some(members), Some(value)) => Some(put(members, cells.last().name, value)),
            _ => None,
        }
    }
}

/// The JSON object of a row, `None` where a cell cannot be decoded.
pub open spec fn row_json(cells: Seq<CellModel>) -> Option<JsonModel> {
    match row_members(cells) {
        Some(members) => Some(JsonModel::Object(members)),
        None => None,
    }
}

/// The JSON array of a result set, `None` where a cell cannot be decoded.
pub open spec fn rows_json(rows: Seq<Seq<CellModel>>) -> Option<JsonModel> {
    if forall|i: int| 0 <= i < rows.len() ==> (#[trigger] row_json(rows[i])) is Some {
        Some(JsonModel::Array(Seq::new(rows.len(), |i: int| row_json(rows[i]).unwrap())))
    } else {
        None
    }
}

/// A scalar's JSON value holds no object and no number that JSON cannot
/// write down.
pub proof fn lemma_scalar_well_formed(kind: Scalar, raw: Seq<u8>)
    requires
        scalar_json(kind, raw) is Some,
    ensures
        scalar_json(kind, raw).unwrap().well_formed(),
{
}

/// A cell's JSON value is well formed.
pub proof fn lemma_cell_well_formed(cell: CellModel)
    requires
        cell_json(cell) is Some,
    ensures
        cell_json(cell).unwrap().well_formed(),
{
    if let Some(raw) = cell.raw {
        match classify_spec(cell.type_oid) {
            PgType::Void => {},
            PgType::Other => {},
            PgType::Scalar(kind) => {
                lemma_scalar_well_formed(kind, raw);
            },
            PgType::Array(kind) => {
                let elements = array_parts(raw).unwrap().1;
                let items = array_json(kind, raw).unwrap()->Array_0;
                assert(array_json(kind, raw) == parts_json(
                    kind,
                    array_parts(raw).unwrap().0,
                    elements,
                ));
                assert forall|i: int| 0 <= i < items.len() implies (
                #[trigger] items[i]).well_formed() by {
                    assert(element_json(kind, elements[i]) is Some);
                    lemma_scalar_well_formed(kind, elements[i].unwrap());
                }
            },
        }
    }
}

/// The members of a row's object have distinct keys and well-formed values,
/// and a row decodes exactly if each of its cells does.
pub proof fn lemma_row_members(cells: Seq<CellModel>)
    ensures
        row_members(cells) is Some <==> forall|i: int|
            0 <= i < cells.len() ==> (#[trigger] cell_json(cells[i])) is Some,
        row_members(cells) matches Some(members) ==> distinct_keys(members) && forall|i: int|
            0 <= i < members.len() ==> (#[trigger] members[i]).1.well_formed(),
    decreases cells.len(),
{
    if cells.len() > 0 {
        let front = cells.drop_last();
        lemma_row_members(front);
        assert forall|i: int| 0 <= i < front.len() implies front[i] == cells[i] by {}
        if row_members(cells) is Some {
            let before = row_members(front).unwrap();
            let value = cell_json(cells.last()).unwrap();
            let key = cells.last().name;
            let members = row_members(cells).unwrap();
            lemma_put(before, key, value);
            lemma_cell_well_formed(cells.last());
            assert forall|i: int| 0 <= i < cells.len() implies (#[trigger] cell_json(
                cells[i],
            )) is Some by {
                if i < front.len() {
                    assert(cell_json(front[i]) is Some);
                }
            }
            assert forall|i: int| 0 <= i < members.len() implies (
            #[trigger] members[i]).1.well_formed() by {
                if members[i] != (key, value) {
                    assert(members[i] == before[i]);
                }
            }
        } else {
            if row_members(front) is Some {
                assert(cell_json(cells[cells.len() - 1]) is None);
            } else {
                let bad = choose|i: int| 0 <= i < front.len() && !(#[trigger] cell_json(
                    front[i],
                ) is Some);
                assert(cell_json(cells[bad]) is None);
            }
        }
    }
}

/// The JSON string of a text that was decoded, if it was.
pub fn string_to_json(text: Option<String>) -> (value: Option<JsonValue>)
    ensures
        match (text, value) {
            (Some(text), Some(json)) => json@ == JsonModel::String(text@),
            (None, None) => true,
            _ => false,
        },
{
    match text {
        Some(text) => Some(JsonValue::String(text)),
        None => None,
    }
}

/// The JSON number of a decimal text that was decoded, if it was.
pub fn decimal_to_json(text: Option<String>) -> (value: Option<JsonValue>)
    ensures
        match (text, value) {
            (Some(text), Some(json)) => json@ == JsonModel::Number(NumberModel::Decimal(text@)),
            (None, None) => true,
            _ => false,
        },
{
    match text {
        Some(text) => Some(JsonValue::Number(Number::Decimal(text))),
        None => None,
    }
}

/// The JSON value of one non-null value of the given kind.
pub fn scalar_to_json(kind: Scalar, raw: &[u8]) -> (value: Option<JsonValue>)
    ensures
        match value {
            Some(json) => scalar_json(kind, raw@) == Some(json@),
            None => scalar_json(kind, raw@) is None,
        },
{
    match kind {
        Scalar::Bool => match bool_from_sql(raw) {
            Some(flag) => Some(JsonValue::Bool(flag)),
            None => None,
        },
        Scalar::Int2 => match int2_from_sql(raw) {
            Some(number) => Some(JsonValue::Number(Number::Int(number as i64))),
            None => None,
        },
        Scalar::Int4 => match int4_from_sql(raw) {
            Some(number) => Some(JsonValue::Number(Number::Int(number as i64))),
            None => None,
        },
        Scalar::Int8 => match int8_from_sql(raw) {
            Some(number) => Some(JsonValue::Number(Number::Int(number))),
            None => None,
        },
        Scalar::Oid => match oid_from_sql(raw) {
            Some(number) => Some(JsonValue::Number(Number::Int(number as i64))),
            None => None,
        },
        Scalar::Char => match char_from_sql(raw) {
            Some(byte) => Some(JsonValue::String(i8_text(byte))),
            None => None,
        },
        Scalar::Float4 => match float4_bits(raw) {
            Some(bits) => if (bits / 0x80_0000) % 0x100 != 0xff {
                Some(JsonValue::Number(Number::Single(bits)))
            } else {
                None
            },
            None => None,
        },
        Scalar::Float8 => match float8_bits(raw) {
            Some(bits) => if (bits / 0x10_0000_0000_0000) % 0x800 != 0x7ff {
                Some(JsonValue::Number(Number::Double(bits)))
            } else {
                None
            },
            None => None,
        },
        Scalar::Numeric => if numeric_header_in_reach(raw) {
            decimal_to_json(numeric_from_sql(raw))
        } else {
            None
        },
        Scalar::Timestamp => string_to_json(timestamp_from_sql(raw)),
        Scalar::Uuid => string_to_json(uuid_from_sql(raw)),
        Scalar::Text => string_to_json(text_from_sql(raw)),
    }
}

/// The JSON array of the parts of an array value: the number of its
/// dimensions and its elements, `None` for a null element.
pub fn parts_to_json(
    kind: Scalar,
    dimensions: usize,
    elements: &Vec<Option<Vec<u8>>>,
) -> (value: Option<JsonValue>)
    ensures
        match value {
            Some(json) => parts_json(kind, dimensions as nat, element_bytes(elements@)) == Some(
                json@,
            ),
            None => parts_json(kind, dimensions as nat, element_bytes(elements@)) is None,
        },
{
    if dimensions > 1 {
        return None;
    }
    let ghost parts = element_bytes(elements@);
    let mut items: Vec<JsonValue> = Vec::new();
    let mut at: usize = 0;
    while at < elements.len()
        invariant
            at <= elements.len(),
            dimensions <= 1,
            parts == element_bytes(elements@),
            items@.len() == at,
            forall|i: int|
                0 <= i < at ==> element_json(kind, parts[i]) == Some(#[trigger] items@[i]@),
        decreases elements.len() - at,
    {
        assert(parts[at as int] == match elements@[at as int] {
            Some(bytes) => Some(bytes@),
            None => None,
        });
        let item = match &elements[at] {
            Some(bytes) => scalar_to_json(kind, bytes.as_slice()),
            None => None,
        };
        match item {
            Some(json) => {
                items.push(json);
            },
            None => {
                assert(element_json(kind, parts[at as int]) is None);
                return None;
            },
        }
        at += 1;
    }
    proof {
        lemma_array_view(items);
        assert forall|i: int| 0 <= i < parts.len() implies (#[trigger] element_json(
            kind,
            parts[i],
        )) is Some by {
            assert(element_json(kind, parts[i]) == Some(items@[i]@));
        }
        assert(item_models(items@) =~= Seq::new(
            parts.len(),
            |i: int| element_json(kind, parts[i]).unwrap(),
        ));
    }
    Some(JsonValue::Array(items))
}

/// The JSON array of an array value whose elements are of the given kind.
pub fn array_to_json(kind: Scalar, raw: &[u8]) -> (value: Option<JsonValue>)
    ensures
        match value {
            Some(json) => array_json(kind, raw@) == Some(json@),
            None => array_json(kind, raw@) is None,
        },
{
    match array_from_sql(raw) {
        Some((dimensions, elements)) => parts_to_json(kind, dimensions, &elements),
        None => None,
    }
}

/// The JSON value of a cell, or `Error::Decode` where its bytes cannot be
/// decoded as the column's type demands.
pub fn cell_to_json(cell: &Cell) -> (result: Result<JsonValue, Error>)
    ensures
        match result {
            Ok(json) => cell_json(cell@) == Some(json@),
            Err(error) => error == Error::Decode && cell_json(cell@) is None,
        },
{
    let value = match &cell.raw {
        None => Some(JsonValue::Null),
        Some(bytes) => match classify(cell.type_oid) {
            PgType::Void => Some(JsonValue::Null),
            PgType::Scalar(kind) => scalar_to_json(kind, bytes.as_slice()),
            PgType::Array(kind) => array_to_json(kind, bytes.as_slice()),
            PgType::Other => None,
        },
    };
    match value {
        Some(json) => Ok(json),
        None => Err(Error::Decode),
    }
}

/// What can be turned into JSON.
pub trait IntoJson: Sized {
    /// The JSON value, `None` where some cell cannot be decoded.
    spec fn json(&self) -> Option<JsonModel>;

    /// Turns the value into JSON. The only failure is `Error::Decode`, and
    /// then nothing of the value is returned.
    fn into_json(self) -> (result: Result<JsonValue, Error>)
        ensures
            match result {
                Ok(json) => self.json() == Some(json@) && json@.well_formed(),
                Err(error) => error == Error::Decode && self.json() is None,
            },
    ;
}

/// The JSON object of a row, borrowed.
pub fn row_to_json(row: &Row) -> (result: Result<JsonValue, Error>)
    ensures
        match result {
            Ok(json) => row_json(row@) == Some(json@) && json@.well_formed(),
            Err(error) => error == Error::Decode && row_json(row@) is None,
        },
{
    let ghost cells = row@;
    let mut members: Vec<(String, JsonValue)> = Vec::new();
    let mut at: usize = 0;
    assert(cells.take(0) =~= Seq::<CellModel>::empty());
    assert(entry_models(members@) =~= Seq::empty());
    while at < row.cells.len()
        invariant
            at <= row.cells.len(),
            cells == row@,
            row_members(cells.take(at as int)) == Some(entry_models(members@)),
            distinct_keys(entry_models(members@)),
        decreases row.cells.len() - at,
    {
        let cell = &row.cells[at];
        assert(cells[at as int] == cell@);
        assert(cells.take(at + 1).drop_last() =~= cells.take(at as int));
        assert(cells.take(at + 1).last() == cells[at as int]);
        match cell_to_json(cell) {
            Ok(json) => {
                proof {
                    lemma_put(entry_models(members@), cell.name@, json@);
                }
                insert_entry(&mut members, cell.name.clone(), json);
            },
            Err(_) => {
                proof {
                    lemma_row_members(cells);
                    lemma_row_members(cells.take(at + 1));
                }
                return Err(Error::Decode);
            },
        }
        at += 1;
    }
    proof {
        assert(cells.take(at as int) =~= cells);
        lemma_object_view(members);
        lemma_row_members(cells);
    }
    Ok(JsonValue::Object(members))
}

impl IntoJson for Row {
    open spec fn json(&self) -> Option<JsonModel> {
        row_json(self@)
    }

    fn into_json(self) -> (result: Result<JsonValue, Error>) {
        row_to_json(&self)
    }
}

impl IntoJson for Vec<Row> {
    open spec fn json(&self) -> Option<JsonModel> {
        rows_json(row_models(self@))
    }

    fn into_json(self) -> (result: Result<JsonValue, Error>)
        ensures
            result matches Ok(json) ==> json@ is Array && json@->Array_0.len() == self@.len(),
    {
        let ghost rows = row_models(self@);
        let mut items: Vec<JsonValue> = Vec::new();
        let mut at: usize = 0;
        while at < self.len()
            invariant
                at <= self.len(),
                rows == row_models(self@),
                items@.len() == at,
                forall|i: int| 0 <= i < at ==> row_json(rows[i]) == Some(#[trigger] items@[i]@),
                forall|i: int| 0 <= i < at ==> (#[trigger] items@[i]@).well_formed(),
            decreases self.len() - at,
        {
            assert(rows[at as int] == self@[at as int]@);
            match row_to_json(&self[at]) {
                Ok(json) => {
                    items.push(json);
                },
                Err(_) => {
                    assert(row_json(rows[at as int]) is None);
                    return Err(Error::Decode);
                },
            }
            at += 1;
        }
        proof {
            lemma_array_view(items);
            assert forall|i: int| 0 <= i < rows.len() implies (#[trigger] row_json(
                rows[i],
            )) is Some by {
                assert(row_json(rows[i]) == Some(items@[i]@));
            }
            assert(item_models(items@) =~= Seq::new(
                rows.len(),
                |i: int| row_json(rows[i]).unwrap(),
            ));
            assert forall|i: int| 0 <= i < items@.len() implies (#[trigger] item_models(
                items@,
            )[i]).well_formed() by {
                assert(items@[i]@.well_formed());
            }
        }
        Ok(JsonValue::Array(items))
    }
}

} // verus!
