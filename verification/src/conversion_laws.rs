//! What holds of the conversion for every result set.

use crate::assoc::{has_key, key_index, lemma_put, put};
use crate::conversion::{
    cell_json, lemma_row_members, row_json, row_members, rows_json, CellModel,
};
use crate::json::{JsonModel, NumberModel};
use crate::pgtype::{BOOL_OID, INT2_OID, INT4_OID, INT8_OID, UUID_OID};
use crate::wire::{
    be_i16, be_i32, be_i64, be_u32, be_u64, hex_digit, hyphenated, hyphenated_char,
    hyphens_before, is_hyphen_place,
};
use vstd::prelude::*;

verus! {

/// The byte that a `BOOL` is sent as.
pub open spec fn bool_bytes(value: bool) -> Seq<u8> {
    seq![if value { 1u8 } else { 0u8 }]
}

/// Two bytes, most significant first, of a value below 2^16.
pub open spec fn u16_bytes(value: int) -> Seq<u8> {
    seq![(value / 0x100) as u8, (value % 0x100) as u8]
}

/// Four bytes, most significant first, of a value below 2^32.
pub open spec fn u32_bytes(value: int) -> Seq<u8> {
    seq![
        (value / 0x100_0000) as u8,
        (value / 0x1_0000 % 0x100) as u8,
        (value / 0x100 % 0x100) as u8,
        (value % 0x100) as u8,
    ]
}

/// Eight bytes, most significant first, of a value below 2^64.
pub open spec fn u64_bytes(value: int) -> Seq<u8> {
    u32_bytes(value / 0x1_0000_0000) + u32_bytes(value % 0x1_0000_0000)
}

/// The bytes that an `INT2` is sent as: two's complement, most significant
/// byte first.
pub open spec fn int2_bytes(value: i16) -> Seq<u8> {
    u16_bytes(if value < 0 { value + 0x1_0000 } else { value as int })
}

/// The bytes that an `INT4` is sent as.
pub open spec fn int4_bytes(value: i32) -> Seq<u8> {
    u32_bytes(if value < 0 { value + 0x1_0000_0000 } else { value as int })
}

/// The bytes that an `INT8` is sent as.
pub open spec fn int8_bytes(value: i64) -> Seq<u8> {
    u64_bytes(if value < 0 { value + 0x1_0000_0000_0000_0000 } else { value as int })
}

/// The value of a lower-case hexadecimal digit, and -1 for any other
/// character.
pub open spec fn hex_value(c: char) -> int {
    if c == '0' {
        0
    } else if c == '1' {
        1
    } else if c == '2' {
        2
    } else if c == '3' {
        3
    } else if c == '4' {
        4
    } else if c == '5' {
        5
    } else if c == '6' {
        6
    } else if c == '7' {
        7
    } else if c == '8' {
        8
    } else if c == '9' {
        9
    } else if c == 'a' {
        10
    } else if c == 'b' {
        11
    } else if c == 'c' {
        12
    } else if c == 'd' {
        13
    } else if c == 'e' {
        14
    } else if c == 'f' {
        15
    } else {
        -1
    }
}

/// The place in a hyphenated UUID of the digit with this number, counted
/// from zero without the hyphens.
pub open spec fn digit_place(digit: int) -> int {
    if digit < 8 {
        digit
    } else if digit < 12 {
        digit + 1
    } else if digit < 16 {
        digit + 2
    } else if digit < 20 {
        digit + 3
    } else {
        digit + 4
    }
}

/// The sixteen bytes that a canonical hyphenated text stands for, `None`
/// where the text is not of that form.
pub open spec fn parse_hyphenated(text: Seq<char>) -> Option<Seq<u8>> {
    if text.len() == 36 && (forall|place: int|
        0 <= place < 36 ==> if is_hyphen_place(place) {
            #[trigger] text[place] == '-'
        } else {
            hex_value(text[place]) >= 0
        }) {
        Some(
            Seq::new(
                16,
                |i: int|
                    (hex_value(text[digit_place(2 * i)]) * 16 + hex_value(
                        text[digit_place(2 * i + 1)],
                    )) as u8,
            ),
        )
    } else {
        None
    }
}

/// The cell of a column of the given name and type.
pub open spec fn cell_of(name: Seq<char>, type_oid: u32, raw: Option<Seq<u8>>) -> CellModel {
    CellModel { name, type_oid, raw }
}

/// SQL `NULL` becomes JSON `null`, whatever the declared type of the column.
pub proof fn null_cell_is_json_null(cell: CellModel)
    requires
        cell.raw is None,
    ensures
        cell_json(cell) == Some(JsonModel::Null),
{
}

/// A result set that can be decoded becomes an array with one object per
/// row, in the order of the rows.
pub proof fn result_set_is_array_of_objects(rows: Seq<Seq<CellModel>>)
    requires
        rows_json(rows) is Some,
    ensures
        rows_json(rows).unwrap() is Array,
        rows_json(rows).unwrap()->Array_0.len() == rows.len(),
        forall|i: int|
            0 <= i < rows.len() ==> (#[trigger] rows_json(rows).unwrap()->Array_0[i]) == row_json(
                rows[i],
            ).unwrap(),
        forall|i: int|
            0 <= i < rows.len() ==> (#[trigger] rows_json(rows).unwrap()->Array_0[i]) is Object,
{
    let items = rows_json(rows).unwrap()->Array_0;
    assert forall|i: int| 0 <= i < rows.len() implies (#[trigger] items[i]) is Object by {
        assert(row_json(rows[i]) is Some);
    }
}

/// The empty result set becomes the empty array.
pub proof fn empty_result_set_is_empty_array()
    ensures
        rows_json(Seq::empty()) == Some(JsonModel::Array(Seq::empty())),
{
    let rows = Seq::<Seq<CellModel>>::empty();
    assert(rows_json(rows).unwrap()->Array_0 =~= Seq::<JsonModel>::empty());
}

/// A row of one cell becomes an object of one member: the cell's value under
/// the column's name.
pub proof fn single_cell_row(cell: CellModel)
    requires
        cell_json(cell) is Some,
    ensures
        row_json(seq![cell]) == Some(
            JsonModel::Object(seq![(cell.name, cell_json(cell).unwrap())]),
        ),
{
    let cells = seq![cell];
    assert(cells.drop_last() =~= Seq::<CellModel>::empty());
    assert(cells.last() == cell);
    reveal_with_fuel(row_members, 2);
    let none = Seq::<(Seq<char>, JsonModel)>::empty();
    assert(!has_key(none, cell.name));
    assert(put(none, cell.name, cell_json(cell).unwrap()) =~= seq![
        (cell.name, cell_json(cell).unwrap()),
    ]);
}

/// Where several columns of a row share a name, the object holds under that
/// name the value of the last of them.
pub proof fn last_column_of_a_name_wins(cells: Seq<CellModel>, column: int)
    requires
        row_json(cells) is Some,
        0 <= column < cells.len(),
        forall|later: int| column < later < cells.len() ==> cells[later].name != cells[column].name,
    ensures
        cell_json(cells[column]) is Some,
        row_json(cells).unwrap().member(cells[column].name) == cell_json(cells[column]),
    decreases cells.len(),
{
    lemma_row_members(cells);
    let front = cells.drop_last();
    lemma_row_members(front);
    let before = row_members(front).unwrap();
    let last = cells.last();
    let value = cell_json(last).unwrap();
    lemma_put(before, last.name, value);
    if column == cells.len() - 1 {
    } else {
        assert(front[column] == cells[column]);
        assert forall|later: int| column < later < front.len() implies front[later].name
            != front[column].name by {
            assert(front[later] == cells[later]);
        }
        last_column_of_a_name_wins(front, column);
        assert(cells[cells.len() - 1].name != cells[column].name);
    }
}

/// Where the columns of a row have distinct names, the members of the object
/// stand in column order.
pub proof fn distinct_columns_keep_their_order(cells: Seq<CellModel>)
    requires
        row_json(cells) is Some,
        forall|i: int, j: int| 0 <= i < j < cells.len() ==> cells[i].name != cells[j].name,
    ensures
        row_members(cells).unwrap().len() == cells.len(),
        forall|i: int|
            0 <= i < cells.len() ==> (#[trigger] row_members(cells).unwrap()[i]) == (
                cells[i].name,
                cell_json(cells[i]).unwrap(),
            ),
    decreases cells.len(),
{
    if cells.len() > 0 {
        let front = cells.drop_last();
        let last = cells.last();
        assert forall|i: int, j: int| 0 <= i < j < front.len() implies front[i].name
            != front[j].name by {
            assert(front[i] == cells[i]);
            assert(front[j] == cells[j]);
        }
        distinct_columns_keep_their_order(front);
        let before = row_members(front).unwrap();
        if has_key(before, last.name) {
            let at = key_index(before, last.name);
            assert(before[at].0 == front[at].name);
            assert(front[at] == cells[at]);
            assert(cells[at].name != cells[cells.len() - 1].name);
        }
        let members = row_members(cells).unwrap();
        assert forall|i: int| 0 <= i < cells.len() implies (#[trigger] members[i]) == (
            cells[i].name,
            cell_json(cells[i]).unwrap(),
        ) by {
            if i < front.len() {
                assert(members[i] == before[i]);
                assert(front[i] == cells[i]);
            }
        }
    }
}

/// A `BOOL` comes back from its JSON value as it was sent.
pub proof fn bool_round_trip(name: Seq<char>, value: bool)
    ensures
        cell_json(cell_of(name, BOOL_OID, Some(bool_bytes(value)))) == Some(
            JsonModel::Bool(value),
        ),
        JsonModel::Bool(value).as_bool() == Some(value),
{
}

/// Four bytes written most significant first are read back as the same
/// number.
pub proof fn lemma_u32_bytes(value: int)
    requires
        0 <= value < 0x1_0000_0000,
    ensures
        u32_bytes(value).len() == 4,
        be_u32(u32_bytes(value)) == value,
{
}

/// An `INT2` comes back from its JSON value as it was sent.
pub proof fn int2_round_trip(name: Seq<char>, value: i16)
    ensures
        cell_json(cell_of(name, INT2_OID, Some(int2_bytes(value)))) == Some(
            JsonModel::Number(NumberModel::Int(value as i64)),
        ),
        JsonModel::Number(NumberModel::Int(value as i64)).as_int() == Some(value as int),
{
    assert(be_i16(int2_bytes(value)) == value);
}

/// An `INT4` comes back from its JSON value as it was sent.
pub proof fn int4_round_trip(name: Seq<char>, value: i32)
    ensures
        cell_json(cell_of(name, INT4_OID, Some(int4_bytes(value)))) == Some(
            JsonModel::Number(NumberModel::Int(value as i64)),
        ),
        JsonModel::Number(NumberModel::Int(value as i64)).as_int() == Some(value as int),
{
    let unsigned = if value < 0 {
        value + 0x1_0000_0000
    } else {
        value as int
    };
    lemma_u32_bytes(unsigned);
    assert(be_i32(int4_bytes(value)) == value);
}

/// An `INT8` comes back from its JSON value as it was sent.
pub proof fn int8_round_trip(name: Seq<char>, value: i64)
    ensures
        cell_json(cell_of(name, INT8_OID, Some(int8_bytes(value)))) == Some(
            JsonModel::Number(NumberModel::Int(value)),
        ),
        JsonModel::Number(NumberModel::Int(value)).as_int() == Some(value as int),
{
    let unsigned = if value < 0 {
        value + 0x1_0000_0000_0000_0000
    } else {
        value as int
    };
    let high = unsigned / 0x1_0000_0000;
    let low = unsigned % 0x1_0000_0000;
    lemma_u32_bytes(high);
    lemma_u32_bytes(low);
    let bytes = int8_bytes(value);
    assert(bytes.subrange(0, 4) =~= u32_bytes(high));
    assert(bytes.subrange(4, 8) =~= u32_bytes(low));
    assert(be_u64(bytes) == unsigned);
    assert(be_i64(bytes) == value);
}

/// A hexadecimal digit stands for the value it was written from.
pub proof fn lemma_hex_digit(nibble: int)
    requires
        0 <= nibble < 16,
    ensures
        hex_value(hex_digit(nibble)) == nibble,
{
}

/// A UUID comes back from its canonical hyphenated text as it was sent.
pub proof fn uuid_round_trip(name: Seq<char>, bytes: Seq<u8>)
    requires
        bytes.len() == 16,
    ensures
        cell_json(cell_of(name, UUID_OID, Some(bytes))) == Some(
            JsonModel::String(hyphenated(bytes)),
        ),
        JsonModel::String(hyphenated(bytes)).as_text() == Some(hyphenated(bytes)),
        parse_hyphenated(hyphenated(bytes)) == Some(bytes),
{
    let text = hyphenated(bytes);
    assert forall|place: int| 0 <= place < 36 implies if is_hyphen_place(place) {
        #[trigger] text[place] == '-'
    } else {
        hex_value(text[place]) >= 0
    } by {
        if !is_hyphen_place(place) {
            let digit = place - hyphens_before(place);
            let byte = bytes[digit / 2] as int;
            lemma_hex_digit(byte / 16);
            lemma_hex_digit(byte % 16);
        }
    }
    let parsed = parse_hyphenated(text).unwrap();
    assert forall|i: int| 0 <= i < 16 implies parsed[i] == bytes[i] by {
        let byte = bytes[i] as int;
        lemma_hex_digit(byte / 16);
        lemma_hex_digit(byte % 16);
        assert(text[digit_place(2 * i)] == hyphenated_char(bytes, digit_place(2 * i)));
        assert(text[digit_place(2 * i + 1)] == hyphenated_char(bytes, digit_place(2 * i + 1)));
    }
    assert(parsed =~= bytes);
}

} // verus!
