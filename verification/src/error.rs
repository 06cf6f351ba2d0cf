//! The error kinds of the service and what the HTTP facade answers for each.

use vstd::prelude::*;

verus! {

/// What can go wrong between a request and its JSON answer.
#[derive(Debug, Clone, Copy, PartialEq, Eq, Structural)]
pub enum Error {
    /// No connection could be acquired: the pool is exhausted, timed out or
    /// shut down.
    Pool,
    /// The database driver reported a protocol, syntax or execution error.
    Driver,
    /// A column value could not be decoded as its type code demands.
    Decode,
    /// No query is registered under the requested name.
    NotFound,
    /// The blocking executor refused the task.
    Blocking,
    /// A failure of none of these kinds.
    Other,
}

impl Error {
    /// The label of each kind. A pool failure goes by the name of the
    /// blocking pool, a driver failure by the name of the driver. The label
    /// is fixed: it carries no detail of the failure.
    pub open spec fn description_spec(self) -> Seq<char> {
        match self {
            Error::Pool => "r2d2"@,
            Error::Driver => "postgres"@,
            Error::Decode => "decode"@,
            Error::NotFound => "not_found"@,
            Error::Blocking => "blocking"@,
            Error::Other => "other"@,
        }
    }

    /// The HTTP status of each kind: 404 for an unknown name, 500 for
    /// everything else.
    pub open spec fn status_spec(self) -> u16 {
        if self == Error::NotFound {
            404
        } else {
            500
        }
    }

    pub fn description(&self) -> (text: &'static str)
        ensures
            text@ == self.description_spec(),
    {
        match self {
            Error::Pool => "r2d2",
            Error::Driver => "postgres",
            Error::Decode => "decode",
            Error::NotFound => "not_found",
            Error::Blocking => "blocking",
            Error::Other => "other",
        }
    }

    /// The text that is printed for this error: its label and nothing else.
    pub fn to_string(&self) -> (text: String)
        ensures
            text@ == self.description_spec(),
    {
        String::from_str(self.description())
    }

    /// The error that caused this one. No kind wraps another error.
    pub fn source(&self) -> (cause: Option<Error>)
        ensures
            cause is None,
    {
        None
    }

    pub fn status(&self) -> (code: u16)
        ensures
            code == self.status_spec(),
    {
        match self {
            Error::NotFound => 404,
            _ => 500,
        }
    }
}

/// Different kinds have different labels.
pub proof fn kinds_have_distinct_labels(one: Error, other: Error)
    requires
        one != other,
    ensures
        one.description_spec() != other.description_spec(),
{
    reveal_strlit("r2d2");
    reveal_strlit("postgres");
    reveal_strlit("decode");
    reveal_strlit("not_found");
    reveal_strlit("blocking");
    reveal_strlit("other");
    assert("r2d2"@.len() == 4);
    assert("postgres"@.len() == 8);
    assert("decode"@.len() == 6);
    assert("not_found"@.len() == 9);
    assert("blocking"@.len() == 8);
    assert("other"@.len() == 5);
    assert("postgres"@[0] != "blocking"@[0]);
}

} // verus!
