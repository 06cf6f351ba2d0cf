use pg_dispatch::error::Error;
use pg_dispatch::facade::response_status;
use pg_dispatch::json::JsonValue;

const ALL: [Error; 6] =
    [Error::Other, Error::Pool, Error::Driver, Error::Decode, Error::NotFound, Error::Blocking];

#[test]
fn each_error_has_its_description() {
    assert_eq!(Error::Other.description(), "other");
    assert_eq!(Error::Pool.description(), "r2d2");
    assert_eq!(Error::Driver.description(), "postgres");
    assert_eq!(Error::Decode.description(), "decode");
    assert_eq!(Error::NotFound.description(), "not_found");
    assert_eq!(Error::Blocking.description(), "blocking");
}

#[test]
fn error_text_is_its_description() {
    for error in ALL {
        assert_eq!(error.to_string(), error.description());
    }
}

#[test]
fn no_error_has_a_source() {
    for error in ALL {
        assert!(error.source().is_none());
    }
}

#[test]
fn only_not_found_is_404() {
    assert_eq!(Error::NotFound.status(), 404);
    assert_eq!(Error::Pool.status(), 500);
    assert_eq!(Error::Driver.status(), 500);
    assert_eq!(Error::Decode.status(), 500);
    assert_eq!(Error::Blocking.status(), 500);
    assert_eq!(Error::Other.status(), 500);
}

#[test]
fn answers_have_their_status() {
    assert_eq!(response_status(&Ok(JsonValue::Array(Vec::new()))), 200);
    assert_eq!(response_status(&Ok(JsonValue::Null)), 200);
    assert_eq!(response_status(&Err(Error::NotFound)), 404);
    assert_eq!(response_status(&Err(Error::Pool)), 500);
    assert_eq!(response_status(&Err(Error::Driver)), 500);
    assert_eq!(response_status(&Err(Error::Decode)), 500);
    assert_eq!(response_status(&Err(Error::Blocking)), 500);
    assert_eq!(response_status(&Err(Error::Other)), 500);
}

#[test]
fn error_texts_are_exact() {
    assert_eq!(Error::Other.to_string(), "other");
    assert_eq!(Error::Pool.to_string(), "r2d2");
    assert_eq!(Error::Driver.to_string(), "postgres");
    assert_eq!(Error::NotFound.to_string(), "not_found");
    assert_eq!(Error::Decode.to_string(), "decode");
    assert_eq!(Error::Blocking.to_string(), "blocking");
}

#[test]
fn different_kinds_have_different_texts() {
    for (at, one) in ALL.iter().enumerate() {
        for other in ALL.iter().skip(at + 1) {
            assert_ne!(one.to_string(), other.to_string());
        }
    }
}
