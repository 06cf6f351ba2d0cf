//! Dispatching ad-hoc SQL to PostgreSQL and turning the rows that come back
//! into JSON.
//!
//! The crate holds the decisions of that service and proves them: how a cell
//! of each PostgreSQL type becomes a JSON value, how a row becomes an object
//! and a result set an array, which query text a name stands for, and in
//! which order a dispatcher acquires a connection, runs the query, releases
//! the connection and resolves. Talking to the network, to the database and
//! to the connection pools is left to the program around it.

pub mod assoc;
pub mod connector;
pub mod conversion;
pub mod conversion_laws;
pub mod dispatch;
pub mod dispatch_laws;
pub mod error;
pub mod facade;
pub mod json;
pub mod pgtype;
pub mod server;
pub mod text;
pub mod wire;

pub use connector::{AsyncConnector, Asynchronous, Synchronous, Threaded};
pub use conversion::{Cell, IntoJson, Row};
pub use dispatch::{Action, Dispatch, Event, Phase, Strategy};
pub use error::Error;
pub use json::{JsonModel, JsonValue, Number, NumberModel};
pub use server::Server;
