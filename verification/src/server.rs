//! The registry of named queries and the dispatcher behind it.
//!
//! A query is saved under a name and later run by that name. Saving under a
//! name that is taken replaces the text. The registry neither parses nor
//! checks the text.

use crate::assoc::{
    as_map, distinct_keys, entry_models, find_entry, insert_entry, lemma_put_as_map,
};
use crate::connector::AsyncConnector;
use crate::dispatch::{Dispatch, DispatchModel, Strategy};
use crate::error::Error;
use vstd::prelude::*;

verus! {

/// The queries that were saved, by name, and the dispatcher that runs them.
pub struct Server<T: AsyncConnector> {
    db: T,
    queries: Vec<(String, String)>,
}

/// What running the query of a name comes to: a fresh run of the text that
/// was saved under the name, or `Error::NotFound` where none was.
pub open spec fn planned_run(
    registry: Map<Seq<char>, Seq<char>>,
    strategy: Strategy,
    name: Seq<char>,
) -> Result<DispatchModel, Error> {
    if registry.dom().contains(name) {
        Ok(DispatchModel::initial(strategy, registry[name]))
    } else {
        Err(Error::NotFound)
    }
}

impl<T: AsyncConnector> Server<T> {
    /// No name is held twice. Every server that `new` made and `save`
    /// changed is well formed.
    pub closed spec fn well_formed(&self) -> bool {
        distinct_keys(entry_models(self.queries@))
    }

    /// The query text that each name stands for.
    pub closed spec fn registry(&self) -> Map<Seq<char>, Seq<char>> {
        as_map(entry_models(self.queries@))
    }

    /// The dispatcher that runs the queries.
    pub closed spec fn connector(&self) -> T {
        self.db
    }

    /// A server without queries.
    pub fn new(db: T) -> (server: Server<T>)
        ensures
            server.well_formed(),
            server.registry() == Map::<Seq<char>, Seq<char>>::empty(),
            server.connector() == db,
    {
        let server = Server { db, queries: Vec::new() };
        assert(server.registry() =~= Map::<Seq<char>, Seq<char>>::empty());
        server
    }

    /// The dispatcher that runs the queries.
    pub fn db(&self) -> (db: &T)
        ensures
            *db == self.connector(),
    {
        &self.db
    }

    /// Saves `query` under `name`, in place of what was saved there before.
    pub fn save(&mut self, name: String, query: String)
        requires
            old(self).well_formed(),
        ensures
            final(self).well_formed(),
            final(self).registry() == old(self).registry().insert(name@, query@),
            final(self).connector() == old(self).connector(),
    {
        proof {
            lemma_put_as_map(entry_models(self.queries@), name@, query@);
        }
        insert_entry(&mut self.queries, name, query);
    }

    /// The query text saved under `name`, if any.
    pub fn lookup(&self, name: &str) -> (query: Option<&String>)
        requires
            self.well_formed(),
        ensures
            query is Some == self.registry().dom().contains(name@),
            query matches Some(text) ==> text@ == self.registry()[name@],
    {
        match find_entry(&self.queries, name) {
            Some(at) => {
                proof {
                    let entries = entry_models(self.queries@);
                    assert(entries[at as int].1 == self.queries@[at as int].1@);
                }
                Some(&self.queries[at].1)
            },
            None => None,
        }
    }

    /// Begins a run of the query saved under `query_name`: one run, of the
    /// text that was saved last. Where nothing is saved under the name the
    /// dispatcher is not touched and the error is `NotFound`.
    pub fn run(&self, query_name: &str) -> (result: Result<Dispatch, Error>)
        requires
            self.well_formed(),
        ensures
            match result {
                Ok(run) => planned_run(
                    self.registry(),
                    self.connector().strategy_spec(),
                    query_name@,
                ) == Ok::<DispatchModel, Error>(run@),
                Err(error) => planned_run(
                    self.registry(),
                    self.connector().strategy_spec(),
                    query_name@,
                ) == Err::<DispatchModel, Error>(error),
            },
    {
        match self.lookup(query_name) {
            Some(query) => Ok(self.db.run(query.clone())),
            None => Err(Error::NotFound),
        }
    }
}

/// A query that was saved is the one that is run under its name: one fresh
/// run of exactly that text.
pub proof fn saved_query_is_run(
    registry: Map<Seq<char>, Seq<char>>,
    strategy: Strategy,
    name: Seq<char>,
    query: Seq<char>,
)
    ensures
        planned_run(registry.insert(name, query), strategy, name) == Ok::<DispatchModel, Error>(
            DispatchModel::initial(strategy, query),
        ),
{
}

/// Saving twice under one name leaves the second text.
pub proof fn later_save_overwrites(
    registry: Map<Seq<char>, Seq<char>>,
    strategy: Strategy,
    name: Seq<char>,
    first: Seq<char>,
    second: Seq<char>,
)
    ensures
        registry.insert(name, first).insert(name, second) == registry.insert(name, second),
        planned_run(registry.insert(name, first).insert(name, second), strategy, name) == Ok::<
            DispatchModel,
            Error,
        >(DispatchModel::initial(strategy, second)),
{
    assert(registry.insert(name, first).insert(name, second) =~= registry.insert(name, second));
}

/// Saving under one name changes nothing under any other.
pub proof fn save_leaves_other_names(
    registry: Map<Seq<char>, Seq<char>>,
    strategy: Strategy,
    name: Seq<char>,
    query: Seq<char>,
    other: Seq<char>,
)
    requires
        other != name,
    ensures
        planned_run(registry.insert(name, query), strategy, other) == planned_run(
            registry,
            strategy,
            other,
        ),
{
}

/// A name under which nothing was saved is not found.
pub proof fn unknown_name_is_not_found(strategy: Strategy, name: Seq<char>)
    ensures
        planned_run(Map::empty(), strategy, name) == Err::<DispatchModel, Error>(Error::NotFound),
{
}

} // verus!
