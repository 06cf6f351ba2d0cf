//! What the HTTP facade decides: under which name a query is saved or run,
//! and with which status a request is answered.
//!
//! `POST /:name` saves the body under the name, `GET /:name` runs what is
//! saved there. Reading the request and writing the response is left to the
//! program around the library.

use crate::connector::AsyncConnector;
use crate::dispatch::{Dispatch, DispatchModel};
use crate::error::Error;
use crate::json::JsonValue;
use crate::server::{planned_run, Server};
use vstd::prelude::*;

verus! {

/// The request succeeded.
pub const STATUS_OK: u16 = 200;

/// The request names no query.
pub const STATUS_BAD_REQUEST: u16 = 400;

/// The HTTP status of an answer: 200 for a result, 404 where the name is
/// unknown, 500 for every other failure.
pub open spec fn response_status_spec<T>(outcome: Result<T, Error>) -> u16 {
    match outcome {
        Ok(_) => STATUS_OK,
        Err(error) => error.status_spec(),
    }
}

/// The HTTP status with which a request to run a query is answered.
pub fn response_status(outcome: &Result<JsonValue, Error>) -> (code: u16)
    ensures
        code == response_status_spec(*outcome),
{
    match outcome {
        Ok(_) => STATUS_OK,
        Err(error) => error.status(),
    }
}

/// `POST /:name`: saves `query` under `name` and answers 200. A request
/// without a name saves nothing and is answered 400.
pub fn save_query<T: AsyncConnector>(
    server: &mut Server<T>,
    name: String,
    query: String,
) -> (code: u16)
    requires
        old(server).well_formed(),
    ensures
        final(server).well_formed(),
        final(server).connector() == old(server).connector(),
        name@.len() > 0 ==> code == STATUS_OK && final(server).registry() == old(
            server,
        ).registry().insert(name@, query@),
        name@.len() == 0 ==> code == STATUS_BAD_REQUEST && final(server).registry() == old(
            server,
        ).registry(),
{
    if name.as_str().unicode_len() == 0 {
        STATUS_BAD_REQUEST
    } else {
        server.save(name, query);
        STATUS_OK
    }
}

/// `GET /:name`: begins one run of the query saved under `name`. Where none
/// is saved the error is `NotFound`, which is answered 404.
pub fn run_query<T: AsyncConnector>(server: &Server<T>, name: &str) -> (result: Result<
    Dispatch,
    Error,
>)
    requires
        server.well_formed(),
    ensures
        match result {
            Ok(run) => planned_run(server.registry(), server.connector().strategy_spec(), name@)
                == Ok::<DispatchModel, Error>(run@),
            Err(error) => planned_run(
                server.registry(),
                server.connector().strategy_spec(),
                name@,
            ) == Err::<DispatchModel, Error>(error) && error == Error::NotFound
                && response_status_spec(Err::<JsonValue, Error>(error)) == 404,
        },
{
    server.run(name)
}

} // verus!
