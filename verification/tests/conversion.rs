use bytes::BytesMut;
use pg_dispatch::conversion::{
    array_to_json, cell_to_json, decimal_to_json, parts_to_json, row_to_json, scalar_to_json,
    string_to_json, Cell, IntoJson, Row,
};
use pg_dispatch::error::Error;
use pg_dispatch::json::{JsonValue, Number};
use pg_dispatch::pgtype::Scalar;
use postgres::types::{ToSql, Type};
use postgres_protocol::types::{array_to_sql, ArrayDimension};
use postgres_protocol::IsNull;

fn cell(name: &str, ty: &Type, raw: Option<Vec<u8>>) -> Cell {
    Cell { name: name.to_string(), type_oid: ty.oid(), raw }
}

fn wire<T: ToSql>(value: T, ty: &Type) -> Vec<u8> {
    let mut buffer = BytesMut::new();
    value.to_sql(ty, &mut buffer).unwrap();
    buffer.to_vec()
}

fn only_member(json: JsonValue) -> (String, JsonValue) {
    match json {
        JsonValue::Object(mut members) => {
            assert_eq!(members.len(), 1);
            members.remove(0)
        }
        other => panic!("not an object: {:?}", other),
    }
}

fn value_of(ty: &Type, raw: Vec<u8>) -> Result<JsonValue, Error> {
    cell_to_json(&cell("c", ty, Some(raw)))
}

fn text_of(json: JsonValue) -> String {
    match json {
        JsonValue::String(text) => text,
        other => panic!("not a string: {:?}", other),
    }
}

fn int_of(json: &JsonValue) -> i64 {
    match json {
        JsonValue::Number(Number::Int(value)) => *value,
        other => panic!("not an integer: {:?}", other),
    }
}

fn items_of(json: JsonValue) -> Vec<JsonValue> {
    match json {
        JsonValue::Array(items) => items,
        other => panic!("not an array: {:?}", other),
    }
}

#[test]
fn empty_result_set_is_empty_array() {
    let rows: Vec<Row> = Vec::new();
    let items = items_of(rows.into_json().unwrap());
    assert!(items.is_empty());
}

#[test]
fn result_set_has_one_object_per_row() {
    let mut rows = Vec::new();
    for number in 0..5i32 {
        rows.push(Row { cells: vec![cell("n", &Type::INT4, Some(wire(number, &Type::INT4)))] });
    }
    let items = items_of(rows.into_json().unwrap());
    assert_eq!(items.len(), 5);
    for (at, item) in items.into_iter().enumerate() {
        let (name, value) = only_member(item);
        assert_eq!(name, "n");
        assert_eq!(int_of(&value), at as i64);
    }
}

#[test]
fn single_null_cell_is_null_member() {
    let rows = vec![Row { cells: vec![cell("col", &Type::INT4, None)] }];
    let mut items = items_of(rows.into_json().unwrap());
    assert_eq!(items.len(), 1);
    let (name, value) = only_member(items.remove(0));
    assert_eq!(name, "col");
    assert!(matches!(value, JsonValue::Null));
}

#[test]
fn null_is_null_whatever_the_type() {
    let types = [
        Type::VOID,
        Type::BOOL,
        Type::INT2,
        Type::INT4,
        Type::INT8,
        Type::OID,
        Type::CHAR,
        Type::FLOAT4,
        Type::FLOAT8,
        Type::NUMERIC,
        Type::TIMESTAMP,
        Type::UUID,
        Type::TEXT,
        Type::NAME,
        Type::VARCHAR,
        Type::INT4_ARRAY,
        Type::TEXT_ARRAY,
        Type::BYTEA,
        Type::DATE,
        Type::JSONB,
    ];
    for ty in types.iter() {
        let json = cell_to_json(&cell("c", ty, None)).unwrap();
        assert!(matches!(json, JsonValue::Null), "{}", ty);
    }
    let unknown = Cell { name: "c".to_string(), type_oid: 4_000_000_000, raw: None };
    assert!(matches!(cell_to_json(&unknown).unwrap(), JsonValue::Null));
}

#[test]
fn void_is_null_even_with_bytes() {
    let json = value_of(&Type::VOID, vec![1, 2, 3]).unwrap();
    assert!(matches!(json, JsonValue::Null));
}

#[test]
fn bool_cells() {
    assert!(matches!(value_of(&Type::BOOL, wire(true, &Type::BOOL)), Ok(JsonValue::Bool(true))));
    assert!(matches!(value_of(&Type::BOOL, wire(false, &Type::BOOL)), Ok(JsonValue::Bool(false))));
    assert!(matches!(value_of(&Type::BOOL, vec![7]), Ok(JsonValue::Bool(true))));
    assert_eq!(value_of(&Type::BOOL, wire(true, &Type::BOOL)).unwrap().as_bool(), Some(true));
    assert_eq!(value_of(&Type::BOOL, wire(false, &Type::BOOL)).unwrap().as_bool(), Some(false));
}

#[test]
fn bool_of_wrong_length_fails() {
    assert_eq!(value_of(&Type::BOOL, vec![]).unwrap_err(), Error::Decode);
    assert_eq!(value_of(&Type::BOOL, vec![1, 0]).unwrap_err(), Error::Decode);
}

#[test]
fn int2_cells() {
    for value in [0i16, 1, -1, 258, i16::MIN, i16::MAX] {
        let json = value_of(&Type::INT2, wire(value, &Type::INT2)).unwrap();
        assert_eq!(json.as_i64(), Some(value as i64));
    }
    assert_eq!(int_of(&value_of(&Type::INT2, vec![0x01, 0x02]).unwrap()), 258);
    assert_eq!(int_of(&value_of(&Type::INT2, vec![0xff, 0xfe]).unwrap()), -2);
}

#[test]
fn int4_cells() {
    for value in [0i32, 1, -1, 16_909_060, i32::MIN, i32::MAX] {
        let json = value_of(&Type::INT4, wire(value, &Type::INT4)).unwrap();
        assert_eq!(json.as_i64(), Some(value as i64));
    }
    assert_eq!(int_of(&value_of(&Type::INT4, vec![1, 2, 3, 4]).unwrap()), 16_909_060);
    assert_eq!(int_of(&value_of(&Type::INT4, vec![0x80, 0, 0, 0]).unwrap()), -2_147_483_648);
}

#[test]
fn int8_cells() {
    for value in [0i64, 1, -1, 72_623_859_790_382_856, i64::MIN, i64::MAX] {
        let json = value_of(&Type::INT8, wire(value, &Type::INT8)).unwrap();
        assert_eq!(json.as_i64(), Some(value));
    }
    assert_eq!(
        int_of(&value_of(&Type::INT8, vec![1, 2, 3, 4, 5, 6, 7, 8]).unwrap()),
        72_623_859_790_382_856
    );
}

#[test]
fn integers_of_wrong_length_fail() {
    assert_eq!(value_of(&Type::INT2, vec![1]).unwrap_err(), Error::Decode);
    assert_eq!(value_of(&Type::INT2, vec![1, 2, 3]).unwrap_err(), Error::Decode);
    assert_eq!(value_of(&Type::INT4, vec![1, 2]).unwrap_err(), Error::Decode);
    assert_eq!(value_of(&Type::INT4, vec![1, 2, 3, 4, 5]).unwrap_err(), Error::Decode);
    assert_eq!(value_of(&Type::INT8, vec![1, 2, 3, 4]).unwrap_err(), Error::Decode);
    assert_eq!(value_of(&Type::INT8, vec![0; 9]).unwrap_err(), Error::Decode);
    assert_eq!(value_of(&Type::OID, vec![0; 3]).unwrap_err(), Error::Decode);
}

#[test]
fn oid_is_unsigned() {
    let json = value_of(&Type::OID, wire(u32::MAX, &Type::OID)).unwrap();
    assert_eq!(int_of(&json), 4_294_967_295);
    assert_eq!(int_of(&value_of(&Type::OID, vec![0x80, 0, 0, 1]).unwrap()), 2_147_483_649);
}

#[test]
fn char_is_decimal_text_of_signed_byte() {
    assert_eq!(text_of(value_of(&Type::CHAR, wire(65i8, &Type::CHAR)).unwrap()), "65");
    assert_eq!(text_of(value_of(&Type::CHAR, wire(-128i8, &Type::CHAR)).unwrap()), "-128");
    assert_eq!(text_of(value_of(&Type::CHAR, wire(0i8, &Type::CHAR)).unwrap()), "0");
    assert_eq!(text_of(value_of(&Type::CHAR, vec![0xff]).unwrap()), "-1");
    assert_eq!(value_of(&Type::CHAR, vec![]).unwrap_err(), Error::Decode);
    assert_eq!(value_of(&Type::CHAR, vec![1, 2]).unwrap_err(), Error::Decode);
}

#[test]
fn float4_keeps_its_bits() {
    let json = value_of(&Type::FLOAT4, wire(1.5f32, &Type::FLOAT4)).unwrap();
    match json {
        JsonValue::Number(Number::Single(bits)) => {
            assert_eq!(bits, 0x3fc0_0000);
            assert_eq!(f32::from_bits(bits), 1.5f32);
        }
        other => panic!("unexpected {:?}", other),
    }
    let json = value_of(&Type::FLOAT4, wire(-0.1f32, &Type::FLOAT4)).unwrap();
    match json {
        JsonValue::Number(Number::Single(bits)) => assert_eq!(f32::from_bits(bits), -0.1f32),
        other => panic!("unexpected {:?}", other),
    }
    assert_eq!(value_of(&Type::FLOAT4, vec![0; 8]).unwrap_err(), Error::Decode);
}

#[test]
fn float8_keeps_its_bits() {
    let json = value_of(&Type::FLOAT8, wire(1.5f64, &Type::FLOAT8)).unwrap();
    match json {
        JsonValue::Number(Number::Double(bits)) => {
            assert_eq!(bits, 0x3ff8_0000_0000_0000);
            assert_eq!(f64::from_bits(bits), 1.5f64);
        }
        other => panic!("unexpected {:?}", other),
    }
    let json = value_of(&Type::FLOAT8, wire(f64::MAX, &Type::FLOAT8)).unwrap();
    match json {
        JsonValue::Number(Number::Double(bits)) => assert_eq!(f64::from_bits(bits), f64::MAX),
        other => panic!("unexpected {:?}", other),
    }
    assert_eq!(value_of(&Type::FLOAT8, vec![0; 4]).unwrap_err(), Error::Decode);
}

#[test]
fn floats_that_json_cannot_write_fail() {
    for value in [f32::NAN, f32::INFINITY, f32::NEG_INFINITY] {
        assert_eq!(
            value_of(&Type::FLOAT4, wire(value, &Type::FLOAT4)).unwrap_err(),
            Error::Decode
        );
    }
    for value in [f64::NAN, f64::INFINITY, f64::NEG_INFINITY] {
        assert_eq!(
            value_of(&Type::FLOAT8, wire(value, &Type::FLOAT8)).unwrap_err(),
            Error::Decode
        );
    }
    assert!(value_of(&Type::FLOAT4, wire(f32::MAX, &Type::FLOAT4)).is_ok());
    assert!(value_of(&Type::FLOAT8, wire(f64::MIN_POSITIVE, &Type::FLOAT8)).is_ok());
}

#[test]
fn numeric_is_decimal_text() {
    let tenth: rust_decimal::Decimal = "0.1".parse().unwrap();
    let json = value_of(&Type::NUMERIC, wire(tenth, &Type::NUMERIC)).unwrap();
    match json {
        JsonValue::Number(Number::Decimal(text)) => {
            assert_eq!(text, "0.1");
            let number: f64 = text.parse().unwrap();
            assert!((number - 0.1).abs() < 1e-12);
        }
        other => panic!("unexpected {:?}", other),
    }
    let raw = vec![0x00, 0x03, 0x00, 0x00, 0x00, 0x00, 0x00, 0x06, 0x0f, 0x6e, 0x04, 0xd2, 0x15, 0xe0];
    match value_of(&Type::NUMERIC, raw).unwrap() {
        JsonValue::Number(Number::Decimal(text)) => assert_eq!(text, "3950.123456"),
        other => panic!("unexpected {:?}", other),
    }
    let negative: rust_decimal::Decimal = "-12.50".parse().unwrap();
    match value_of(&Type::NUMERIC, wire(negative, &Type::NUMERIC)).unwrap() {
        JsonValue::Number(Number::Decimal(text)) => assert_eq!(text, "-12.50"),
        other => panic!("unexpected {:?}", other),
    }
}

#[test]
fn numeric_that_is_no_number_fails() {
    let not_a_number = vec![0x00, 0x00, 0x00, 0x00, 0xc0, 0x00, 0x00, 0x00];
    assert_eq!(value_of(&Type::NUMERIC, not_a_number).unwrap_err(), Error::Decode);
    assert_eq!(value_of(&Type::NUMERIC, vec![0x00]).unwrap_err(), Error::Decode);
}

#[test]
fn timestamp_is_rfc3339_in_utc() {
    let at = chrono::NaiveDate::from_ymd_opt(2020, 1, 2).unwrap().and_hms_opt(3, 4, 5).unwrap();
    let text = text_of(value_of(&Type::TIMESTAMP, wire(at, &Type::TIMESTAMP)).unwrap());
    assert_eq!(text, "2020-01-02T03:04:05+00:00");
    let epoch = text_of(value_of(&Type::TIMESTAMP, vec![0; 8]).unwrap());
    assert_eq!(epoch, "2000-01-01T00:00:00+00:00");
}

#[test]
fn timestamp_round_trips_through_rfc3339() {
    let at = chrono::NaiveDate::from_ymd_opt(1999, 12, 31)
        .unwrap()
        .and_hms_micro_opt(23, 59, 59, 123_456)
        .unwrap();
    let text = text_of(value_of(&Type::TIMESTAMP, wire(at, &Type::TIMESTAMP)).unwrap());
    assert_eq!(text, "1999-12-31T23:59:59.123456+00:00");
    let back = chrono::DateTime::parse_from_rfc3339(&text).unwrap();
    assert_eq!(back.naive_utc(), at);
    assert_eq!(back.offset().local_minus_utc(), 0);
}

#[test]
fn timestamp_of_wrong_length_fails() {
    assert_eq!(value_of(&Type::TIMESTAMP, vec![0; 4]).unwrap_err(), Error::Decode);
    assert_eq!(value_of(&Type::TIMESTAMP, vec![0; 9]).unwrap_err(), Error::Decode);
    assert_eq!(value_of(&Type::TIMESTAMP, vec![0x7f; 8]).unwrap_err(), Error::Decode);
}

#[test]
fn uuid_is_hyphenated_lower_case() {
    let bytes: Vec<u8> = vec![
        0x67, 0xe5, 0x50, 0x44, 0x10, 0xb1, 0x42, 0x6f, 0x92, 0x47, 0xbb, 0x68, 0x0e, 0x5f, 0xe0,
        0xc8,
    ];
    let text = text_of(value_of(&Type::UUID, bytes.clone()).unwrap());
    assert_eq!(text, "67e55044-10b1-426f-9247-bb680e5fe0c8");
    let back = uuid::Uuid::parse_str(&text).unwrap();
    assert_eq!(back.as_bytes().to_vec(), bytes);
    assert_eq!(value_of(&Type::UUID, vec![0; 15]).unwrap_err(), Error::Decode);
    assert_eq!(value_of(&Type::UUID, vec![0; 17]).unwrap_err(), Error::Decode);
}

#[test]
fn uuid_round_trips_for_many_values() {
    for seed in 0..=255u8 {
        let bytes: Vec<u8> = (0..16u8).map(|i| seed.wrapping_mul(31).wrapping_add(i.wrapping_mul(17))).collect();
        let text = text_of(value_of(&Type::UUID, bytes.clone()).unwrap());
        assert_eq!(text.len(), 36);
        assert_eq!(text, text.to_lowercase());
        assert_eq!(uuid::Uuid::parse_str(&text).unwrap().as_bytes().to_vec(), bytes);
    }
}

#[test]
fn texts_are_strings() {
    for ty in [Type::TEXT, Type::NAME, Type::VARCHAR] {
        let json = value_of(&ty, wire("abc", &ty)).unwrap();
        assert_eq!(json.as_str(), Some("abc"));
    }
    let json = value_of(&Type::TEXT, "gr\u{fc}n \u{1f600}".as_bytes().to_vec()).unwrap();
    assert_eq!(text_of(json), "gr\u{fc}n \u{1f600}");
    assert_eq!(text_of(value_of(&Type::TEXT, vec![]).unwrap()), "");
}

#[test]
fn text_that_is_not_utf8_fails() {
    assert_eq!(value_of(&Type::TEXT, vec![0xff, 0xfe]).unwrap_err(), Error::Decode);
    assert_eq!(value_of(&Type::VARCHAR, vec![0xc3]).unwrap_err(), Error::Decode);
}

#[test]
fn every_text_type_is_read_as_text() {
    for ty in [Type::TEXT, Type::NAME, Type::VARCHAR, Type::BPCHAR, Type::UNKNOWN] {
        let json = value_of(&ty, b"x y".to_vec()).unwrap();
        assert_eq!(text_of(json), "x y", "{}", ty);
        assert_eq!(value_of(&ty, vec![0x80]).unwrap_err(), Error::Decode, "{}", ty);
    }
}

#[test]
fn value_of_a_type_without_a_rule_fails() {
    for ty in [Type::JSONB, Type::DATE, Type::BYTEA, Type::TIMESTAMPTZ, Type::UUID_ARRAY, Type::BPCHAR_ARRAY] {
        assert_eq!(value_of(&ty, b"hello".to_vec()).unwrap_err(), Error::Decode, "{}", ty);
        assert_eq!(value_of(&ty, Vec::new()).unwrap_err(), Error::Decode, "{}", ty);
        assert!(matches!(cell_to_json(&cell("c", &ty, None)), Ok(JsonValue::Null)), "{}", ty);
    }
    let odd = Cell { name: "c".to_string(), type_oid: 999_999, raw: Some(b"x y".to_vec()) };
    assert_eq!(cell_to_json(&odd).unwrap_err(), Error::Decode);
    let row = Row {
        cells: vec![
            cell("a", &Type::INT4, Some(wire(1i32, &Type::INT4))),
            cell("d", &Type::DATE, Some(vec![0, 0, 0, 1])),
        ],
    };
    assert_eq!(row.into_json().unwrap_err(), Error::Decode);
}

#[test]
fn numeric_beyond_the_decoder_fails() {
    let ten_to_32 = vec![0x00, 0x01, 0x00, 0x08, 0x00, 0x00, 0x00, 0x00, 0x00, 0x01];
    assert_eq!(value_of(&Type::NUMERIC, ten_to_32.clone()).unwrap_err(), Error::Decode);
    let no_digits = vec![0x00, 0x00, 0x00, 0x08, 0x00, 0x00, 0x00, 0x00];
    assert_eq!(value_of(&Type::NUMERIC, no_digits).unwrap_err(), Error::Decode);
    let nine_groups = vec![0x00, 0x01, 0x00, 0x09, 0x00, 0x00, 0x00, 0x00, 0x00, 0x01];
    assert_eq!(value_of(&Type::NUMERIC, nine_groups).unwrap_err(), Error::Decode);
    let far_beyond = vec![0x00, 0x01, 0x7f, 0xff, 0x00, 0x00, 0x00, 0x00, 0x00, 0x01];
    assert_eq!(value_of(&Type::NUMERIC, far_beyond).unwrap_err(), Error::Decode);
    assert!(scalar_to_json(Scalar::Numeric, &ten_to_32).is_none());
    let elements = vec![Some(vec![0x00, 0x00, 0x00, 0x00, 0x00, 0x00, 0x00, 0x00]), Some(ten_to_32)];
    assert!(parts_to_json(Scalar::Numeric, 1, &elements).is_none());
}

#[test]
fn largest_numerics_within_the_decoder() {
    let ten_to_28 = vec![0x00, 0x01, 0x00, 0x07, 0x00, 0x00, 0x00, 0x00, 0x00, 0x01];
    match value_of(&Type::NUMERIC, ten_to_28).unwrap() {
        JsonValue::Number(Number::Decimal(text)) => {
            assert_eq!(text, "10000000000000000000000000000")
        }
        other => panic!("unexpected {:?}", other),
    }
    let zero = vec![0x00, 0x00, 0x00, 0x00, 0x00, 0x00, 0x00, 0x00];
    match value_of(&Type::NUMERIC, zero).unwrap() {
        JsonValue::Number(Number::Decimal(text)) => assert_eq!(text, "0"),
        other => panic!("unexpected {:?}", other),
    }
    let largest: rust_decimal::Decimal = rust_decimal::Decimal::MAX;
    match value_of(&Type::NUMERIC, wire(largest, &Type::NUMERIC)).unwrap() {
        JsonValue::Number(Number::Decimal(text)) => {
            assert_eq!(text, "79228162514264337593543950335")
        }
        other => panic!("unexpected {:?}", other),
    }
    let smallest: rust_decimal::Decimal = "0.0000000000000000000000000001".parse().unwrap();
    match value_of(&Type::NUMERIC, wire(smallest, &Type::NUMERIC)).unwrap() {
        JsonValue::Number(Number::Decimal(text)) => {
            assert_eq!(text, "0.0000000000000000000000000001")
        }
        other => panic!("unexpected {:?}", other),
    }
}

#[test]
fn int4_array_is_array_of_integers() {
    let json = value_of(&Type::INT4_ARRAY, wire(vec![1i32, 2, 3], &Type::INT4_ARRAY)).unwrap();
    let items = items_of(json);
    assert_eq!(items.iter().map(int_of).collect::<Vec<_>>(), vec![1, 2, 3]);
}

#[test]
fn arrays_of_each_kind() {
    let items = items_of(value_of(&Type::INT2_ARRAY, wire(vec![-3i16, 4], &Type::INT2_ARRAY)).unwrap());
    assert_eq!(items.iter().map(int_of).collect::<Vec<_>>(), vec![-3, 4]);
    let items = items_of(value_of(&Type::INT8_ARRAY, wire(vec![i64::MAX], &Type::INT8_ARRAY)).unwrap());
    assert_eq!(items.iter().map(int_of).collect::<Vec<_>>(), vec![i64::MAX]);
    let items =
        items_of(value_of(&Type::BOOL_ARRAY, wire(vec![true, false], &Type::BOOL_ARRAY)).unwrap());
    assert_eq!(items.iter().map(|j| j.as_bool()).collect::<Vec<_>>(), vec![Some(true), Some(false)]);
    for ty in [Type::TEXT_ARRAY, Type::NAME_ARRAY, Type::VARCHAR_ARRAY] {
        let items = items_of(value_of(&ty, wire(vec!["a", "bc"], &ty)).unwrap());
        assert_eq!(items.iter().map(|j| j.as_str()).collect::<Vec<_>>(), vec![Some("a"), Some("bc")]);
    }
    let items =
        items_of(value_of(&Type::FLOAT4_ARRAY, wire(vec![0.5f32], &Type::FLOAT4_ARRAY)).unwrap());
    assert!(matches!(items[0], JsonValue::Number(Number::Single(0x3f00_0000))));
    let items =
        items_of(value_of(&Type::FLOAT8_ARRAY, wire(vec![0.5f64], &Type::FLOAT8_ARRAY)).unwrap());
    assert!(matches!(items[0], JsonValue::Number(Number::Double(0x3fe0_0000_0000_0000))));
    let numbers: Vec<rust_decimal::Decimal> = vec!["1.25".parse().unwrap(), "-7".parse().unwrap()];
    let items = items_of(value_of(&Type::NUMERIC_ARRAY, wire(numbers, &Type::NUMERIC_ARRAY)).unwrap());
    match (&items[0], &items[1]) {
        (JsonValue::Number(Number::Decimal(a)), JsonValue::Number(Number::Decimal(b))) => {
            assert_eq!(a, "1.25");
            assert_eq!(b, "-7");
        }
        other => panic!("unexpected {:?}", other),
    }
    let at = chrono::NaiveDate::from_ymd_opt(2021, 6, 7).unwrap().and_hms_opt(8, 9, 10).unwrap();
    let items =
        items_of(value_of(&Type::TIMESTAMP_ARRAY, wire(vec![at], &Type::TIMESTAMP_ARRAY)).unwrap());
    assert_eq!(items[0].as_str(), Some("2021-06-07T08:09:10+00:00"));
}

#[test]
fn empty_array_is_empty_array() {
    let none: Vec<i32> = Vec::new();
    let items = items_of(value_of(&Type::INT4_ARRAY, wire(none, &Type::INT4_ARRAY)).unwrap());
    assert!(items.is_empty());
}

#[test]
fn array_with_null_element_fails() {
    let raw = wire(vec![Some(1i32), None, Some(3)], &Type::INT4_ARRAY);
    assert_eq!(value_of(&Type::INT4_ARRAY, raw).unwrap_err(), Error::Decode);
}

#[test]
fn array_of_two_dimensions_fails() {
    let mut buffer = BytesMut::new();
    array_to_sql(
        vec![ArrayDimension { len: 2, lower_bound: 1 }, ArrayDimension { len: 2, lower_bound: 1 }],
        Type::INT4.oid(),
        vec![1i32, 2, 3, 4],
        |value, out| {
            postgres_protocol::types::int4_to_sql(value, out);
            Ok(IsNull::No)
        },
        &mut buffer,
    )
    .unwrap();
    assert_eq!(value_of(&Type::INT4_ARRAY, buffer.to_vec()).unwrap_err(), Error::Decode);
}

#[test]
fn array_with_bad_element_or_bad_bytes_fails() {
    let raw = wire(vec![1i16, 2], &Type::INT2_ARRAY);
    assert_eq!(value_of(&Type::INT4_ARRAY, raw).unwrap_err(), Error::Decode);
    assert_eq!(value_of(&Type::INT4_ARRAY, vec![0, 0]).unwrap_err(), Error::Decode);
    let mut cut = wire(vec![1i32, 2, 3], &Type::INT4_ARRAY);
    cut.pop();
    assert_eq!(value_of(&Type::INT4_ARRAY, cut).unwrap_err(), Error::Decode);
    let mut long = wire(vec![1i32, 2, 3], &Type::INT4_ARRAY);
    long.push(0);
    assert_eq!(value_of(&Type::INT4_ARRAY, long).unwrap_err(), Error::Decode);
}

#[test]
fn array_functions_agree_with_cells() {
    let raw = wire(vec![true], &Type::BOOL_ARRAY);
    let items = items_of(array_to_json(Scalar::Bool, &raw).unwrap());
    assert_eq!(items.len(), 1);
    assert!(array_to_json(Scalar::Int8, &raw).is_none());
    assert!(scalar_to_json(Scalar::Int4, &[0, 0, 0, 9]).is_some());
    assert!(scalar_to_json(Scalar::Int4, &[0, 0, 9]).is_none());
}

#[test]
fn later_column_of_a_name_overwrites() {
    let row = Row {
        cells: vec![
            cell("a", &Type::INT4, Some(wire(1i32, &Type::INT4))),
            cell("b", &Type::INT4, Some(wire(2i32, &Type::INT4))),
            cell("a", &Type::TEXT, Some(wire("last", &Type::TEXT))),
        ],
    };
    match row.into_json().unwrap() {
        JsonValue::Object(members) => {
            assert_eq!(members.len(), 2);
            assert_eq!(members[0].0, "a");
            assert_eq!(members[0].1.as_str(), Some("last"));
            assert_eq!(members[1].0, "b");
            assert_eq!(int_of(&members[1].1), 2);
        }
        other => panic!("unexpected {:?}", other),
    }
}

#[test]
fn members_stand_in_column_order() {
    let names = ["z", "m", "a", "k"];
    let row = Row {
        cells: names
            .iter()
            .enumerate()
            .map(|(at, name)| cell(name, &Type::INT4, Some(wire(at as i32, &Type::INT4))))
            .collect(),
    };
    match row_to_json(&row).unwrap() {
        JsonValue::Object(members) => {
            let found: Vec<&str> = members.iter().map(|member| member.0.as_str()).collect();
            assert_eq!(found, names.to_vec());
            for (at, member) in members.iter().enumerate() {
                assert_eq!(int_of(&member.1), at as i64);
            }
        }
        other => panic!("unexpected {:?}", other),
    }
}

#[test]
fn row_without_columns_is_empty_object() {
    let row = Row { cells: Vec::new() };
    match row.into_json().unwrap() {
        JsonValue::Object(members) => assert!(members.is_empty()),
        other => panic!("unexpected {:?}", other),
    }
}

#[test]
fn one_bad_cell_fails_the_row() {
    let row = Row {
        cells: vec![
            cell("a", &Type::INT4, Some(wire(1i32, &Type::INT4))),
            cell("b", &Type::INT4, Some(vec![1, 2])),
            cell("c", &Type::INT4, Some(wire(3i32, &Type::INT4))),
        ],
    };
    assert_eq!(row.into_json().unwrap_err(), Error::Decode);
}

#[test]
fn one_bad_row_fails_the_result_set() {
    let rows = vec![
        Row { cells: vec![cell("a", &Type::INT4, Some(wire(1i32, &Type::INT4)))] },
        Row { cells: vec![cell("a", &Type::INT4, Some(vec![]))] },
    ];
    assert_eq!(rows.into_json().unwrap_err(), Error::Decode);
}

#[test]
fn members_are_found_by_name() {
    let row = Row {
        cells: vec![
            cell("b", &Type::BOOL, Some(wire(true, &Type::BOOL))),
            cell("n", &Type::INT4, None),
            cell("s", &Type::TEXT, Some(wire("abc", &Type::TEXT))),
        ],
    };
    let json = row.into_json().unwrap();
    assert_eq!(json.get("b").unwrap().as_bool(), Some(true));
    assert!(json.get("n").unwrap().is_null());
    assert_eq!(json.get("s").unwrap().as_str(), Some("abc"));
    assert!(json.get("missing").is_none());
}

#[test]
fn parts_of_an_array_become_its_items() {
    let elements = vec![Some(vec![0, 0, 0, 1]), Some(vec![0xff, 0xff, 0xff, 0xfe])];
    let items = items_of(parts_to_json(Scalar::Int4, 1, &elements).unwrap());
    assert_eq!(items.iter().map(int_of).collect::<Vec<_>>(), vec![1, -2]);
    let none: Vec<Option<Vec<u8>>> = Vec::new();
    assert!(items_of(parts_to_json(Scalar::Int4, 0, &none).unwrap()).is_empty());
    assert!(items_of(parts_to_json(Scalar::Int4, 1, &none).unwrap()).is_empty());
}

#[test]
fn parts_that_cannot_be_decoded() {
    let elements = vec![Some(vec![0, 0, 0, 1])];
    assert!(parts_to_json(Scalar::Int4, 2, &elements).is_none());
    assert!(parts_to_json(Scalar::Int8, 1, &elements).is_none());
    let with_null = vec![Some(vec![0, 0, 0, 1]), None];
    assert!(parts_to_json(Scalar::Int4, 1, &with_null).is_none());
    let none: Vec<Option<Vec<u8>>> = Vec::new();
    assert!(parts_to_json(Scalar::Int4, 2, &none).is_none());
}

#[test]
fn decoded_texts_become_strings_and_numbers() {
    assert!(string_to_json(None).is_none());
    assert!(decimal_to_json(None).is_none());
    assert_eq!(string_to_json(Some("a b".to_string())).unwrap().as_str(), Some("a b"));
    match decimal_to_json(Some("12.5".to_string())).unwrap() {
        JsonValue::Number(Number::Decimal(text)) => assert_eq!(text, "12.5"),
        other => panic!("unexpected {:?}", other),
    }
}

#[test]
fn crate_root_names_the_main_items() {
    let row = pg_dispatch::Row {
        cells: vec![pg_dispatch::Cell { name: "a".to_string(), type_oid: 16, raw: Some(vec![0]) }],
    };
    let json = pg_dispatch::IntoJson::into_json(row).unwrap();
    assert_eq!(json.get("a").unwrap().as_bool(), Some(false));
    let server = pg_dispatch::Server::new(pg_dispatch::Threaded::new());
    assert_eq!(server.run("x").unwrap_err(), pg_dispatch::Error::NotFound);
}
