//! The three dispatchers and what each asks of its connection pool.

use crate::dispatch::{Dispatch, DispatchModel, Strategy};
use vstd::prelude::*;

verus! {

/// The largest number of connections that a pool keeps, unless told
/// otherwise.
pub const DEFAULT_POOL_SIZE: u32 = 10;

/// The seconds that a check-out waits for a connection, where the
/// dispatcher sets a limit.
pub const DEFAULT_CHECK_OUT_SECONDS: u64 = 5;

/// Where the database is and how to log in.
#[derive(Debug)]
pub struct ConnectionConfig {
    pub user: String,
    pub host: String,
    pub password: String,
}

/// The model of a connection configuration.
pub struct ConnectionModel {
    pub user: Seq<char>,
    pub host: Seq<char>,
    pub password: Seq<char>,
}

/// What a dispatcher asks of its pool.
#[derive(Debug, Clone, Copy, PartialEq, Eq, Structural)]
pub struct PoolConfig {
    /// The pool never hands out more connections than this at a time.
    pub max_size: u32,
    /// How many seconds a check-out waits before it fails; `None` leaves the
    /// pool's own limit in place.
    pub check_out_seconds: Option<u64>,
    /// Whether a connection is tested before it is handed out.
    pub test_on_check_out: bool,
}

impl View for ConnectionConfig {
    type V = ConnectionModel;

    open spec fn view(&self) -> ConnectionModel {
        ConnectionModel { user: self.user@, host: self.host@, password: self.password@ }
    }
}

impl ConnectionModel {
    /// The database on this machine: user `postgres` on `localhost`.
    pub open spec fn local() -> ConnectionModel {
        ConnectionModel { user: "postgres"@, host: "localhost"@, password: "prisma"@ }
    }

    /// The settings as one line of `key = value` pairs.
    pub open spec fn line(self) -> Seq<char> {
        "user = "@ + self.user + " host = "@ + self.host + " password = "@ + self.password
    }
}

impl ConnectionConfig {
    /// The database on this machine.
    pub fn local() -> (config: ConnectionConfig)
        ensures
            config@ == ConnectionModel::local(),
    {
        ConnectionConfig {
            user: String::from_str("postgres"),
            host: String::from_str("localhost"),
            password: String::from_str("prisma"),
        }
    }

    /// The settings as the driver reads them: `user = .. host = ..
    /// password = ..`.
    pub fn connection_string(&self) -> (line: String)
        ensures
            line@ == self@.line(),
    {
        let mut line = String::from_str("user = ");
        line.append(self.user.as_str());
        line.append(" host = ");
        line.append(self.host.as_str());
        line.append(" password = ");
        line.append(self.password.as_str());
        line
    }
}

impl PoolConfig {
    /// Settings that a pool can be built with: room for at least one
    /// connection, and a check-out limit, where one is set, that is not zero.
    pub open spec fn usable_spec(self) -> bool {
        self.max_size > 0 && self.check_out_seconds != Some(0u64)
    }

    /// Whether a pool can be built with these settings.
    pub fn is_usable(&self) -> (usable: bool)
        ensures
            usable == self.usable_spec(),
    {
        if self.max_size == 0 {
            return false;
        }
        match self.check_out_seconds {
            Some(seconds) => seconds != 0,
            None => true,
        }
    }

    /// What each strategy asks of its pool: at most ten connections, none
    /// tested at check-out, and a check-out that gives up after five
    /// seconds; the threaded dispatcher alone sets no limit of its own.
    pub open spec fn for_strategy_spec(strategy: Strategy) -> PoolConfig {
        PoolConfig {
            max_size: DEFAULT_POOL_SIZE,
            check_out_seconds: if strategy == Strategy::Threaded {
                None
            } else {
                Some(DEFAULT_CHECK_OUT_SECONDS)
            },
            test_on_check_out: false,
        }
    }

    pub fn for_strategy(strategy: Strategy) -> (config: PoolConfig)
        ensures
            config == PoolConfig::for_strategy_spec(strategy),
            config.usable_spec(),
    {
        PoolConfig {
            max_size: DEFAULT_POOL_SIZE,
            check_out_seconds: match strategy {
                Strategy::Threaded => None,
                _ => Some(DEFAULT_CHECK_OUT_SECONDS),
            },
            test_on_check_out: false,
        }
    }
}

impl Strategy {
    /// The strategy that the command line selects: threaded before
    /// synchronous before asynchronous, which is also what no flag at all
    /// selects.
    pub open spec fn select_spec(threaded: bool, synchronous: bool) -> Strategy {
        if threaded {
            Strategy::Threaded
        } else if synchronous {
            Strategy::Synchronous
        } else {
            Strategy::Asynchronous
        }
    }

    /// The strategy that the flags `--threaded`, `--sync` and `--async`
    /// select.
    pub fn select(threaded: bool, synchronous: bool, asynchronous: bool) -> (strategy: Strategy)
        ensures
            strategy == Strategy::select_spec(threaded, synchronous),
    {
        if threaded {
            Strategy::Threaded
        } else if synchronous {
            Strategy::Synchronous
        } else {
            Strategy::Asynchronous
        }
    }
}

/// A dispatcher: it runs a query text and produces JSON or an error.
pub trait AsyncConnector {
    /// How this dispatcher does its work.
    spec fn strategy_spec(&self) -> Strategy;

    fn strategy(&self) -> (strategy: Strategy)
        ensures
            strategy == self.strategy_spec(),
    ;

    /// What this dispatcher asks of its pool.
    spec fn pool_spec(&self) -> PoolConfig;

    /// The database that this dispatcher talks to.
    spec fn connection_spec(&self) -> ConnectionModel;

    fn pool(&self) -> (config: PoolConfig)
        ensures
            config == self.pool_spec(),
    ;

    fn connection(&self) -> (config: &ConnectionConfig)
        ensures
            config@ == self.connection_spec(),
    ;

    /// A run of `query` that has not begun: the handle that will resolve
    /// once.
    fn run(&self, query: String) -> (run: Dispatch)
        ensures
            run@ == DispatchModel::initial(self.strategy_spec(), query@),
    ;
}

/// Runs each query on the caller's thread.
#[derive(Debug)]
pub struct Synchronous {
    pub connection: ConnectionConfig,
    pub pool: PoolConfig,
}

/// Runs each query on a thread of a blocking executor.
#[derive(Debug)]
pub struct Threaded {
    pub connection: ConnectionConfig,
    pub pool: PoolConfig,
}

/// Runs each query on the event loop.
#[derive(Debug)]
pub struct Asynchronous {
    pub connection: ConnectionConfig,
    pub pool: PoolConfig,
}

impl Synchronous {
    /// The synchronous dispatcher for the database on this machine.
    pub fn new() -> (connector: Synchronous)
        ensures
            connector.connection@ == ConnectionModel::local(),
            connector.pool == PoolConfig::for_strategy_spec(Strategy::Synchronous),
    {
        Synchronous {
            connection: ConnectionConfig::local(),
            pool: PoolConfig::for_strategy(Strategy::Synchronous),
        }
    }

    /// The synchronous dispatcher for another database.
    pub fn with_connection(connection: ConnectionConfig) -> (connector: Synchronous)
        ensures
            connector.connection == connection,
            connector.pool == PoolConfig::for_strategy_spec(Strategy::Synchronous),
    {
        Synchronous { connection, pool: PoolConfig::for_strategy(Strategy::Synchronous) }
    }
}

impl Threaded {
    /// The threaded dispatcher for the database on this machine.
    pub fn new() -> (connector: Threaded)
        ensures
            connector.connection@ == ConnectionModel::local(),
            connector.pool == PoolConfig::for_strategy_spec(Strategy::Threaded),
    {
        Threaded {
            connection: ConnectionConfig::local(),
            pool: PoolConfig::for_strategy(Strategy::Threaded),
        }
    }

    /// The threaded dispatcher for another database.
    pub fn with_connection(connection: ConnectionConfig) -> (connector: Threaded)
        ensures
            connector.connection == connection,
            connector.pool == PoolConfig::for_strategy_spec(Strategy::Threaded),
    {
        Threaded { connection, pool: PoolConfig::for_strategy(Strategy::Threaded) }
    }
}

impl Asynchronous {
    /// The asynchronous dispatcher for the database on this machine.
    pub fn new() -> (connector: Asynchronous)
        ensures
            connector.connection@ == ConnectionModel::local(),
            connector.pool == PoolConfig::for_strategy_spec(Strategy::Asynchronous),
    {
        Asynchronous {
            connection: ConnectionConfig::local(),
            pool: PoolConfig::for_strategy(Strategy::Asynchronous),
        }
    }

    /// The asynchronous dispatcher for another database.
    pub fn with_connection(connection: ConnectionConfig) -> (connector: Asynchronous)
        ensures
            connector.connection == connection,
            connector.pool == PoolConfig::for_strategy_spec(Strategy::Asynchronous),
    {
        Asynchronous { connection, pool: PoolConfig::for_strategy(Strategy::Asynchronous) }
    }
}

impl AsyncConnector for Synchronous {
    open spec fn strategy_spec(&self) -> Strategy {
        Strategy::Synchronous
    }

    fn strategy(&self) -> (strategy: Strategy) {
        Strategy::Synchronous
    }

    open spec fn pool_spec(&self) -> PoolConfig {
        self.pool
    }

    open spec fn connection_spec(&self) -> ConnectionModel {
        self.connection@
    }

    fn pool(&self) -> (config: PoolConfig) {
        self.pool
    }

    fn connection(&self) -> (config: &ConnectionConfig) {
        &self.connection
    }

    fn run(&self, query: String) -> (run: Dispatch) {
        Dispatch::new(Strategy::Synchronous, query)
    }
}

impl AsyncConnector for Threaded {
    open spec fn strategy_spec(&self) -> Strategy {
        Strategy::Threaded
    }

    fn strategy(&self) -> (strategy: Strategy) {
        Strategy::Threaded
    }

    open spec fn pool_spec(&self) -> PoolConfig {
        self.pool
    }

    open spec fn connection_spec(&self) -> ConnectionModel {
        self.connection@
    }

    fn pool(&self) -> (config: PoolConfig) {
        self.pool
    }

    fn connection(&self) -> (config: &ConnectionConfig) {
        &self.connection
    }

    fn run(&self, query: String) -> (run: Dispatch) {
        Dispatch::new(Strategy::Threaded, query)
    }
}

impl AsyncConnector for Asynchronous {
    open spec fn strategy_spec(&self) -> Strategy {
        Strategy::Asynchronous
    }

    fn strategy(&self) -> (strategy: Strategy) {
        Strategy::Asynchronous
    }

    open spec fn pool_spec(&self) -> PoolConfig {
        self.pool
    }

    open spec fn connection_spec(&self) -> ConnectionModel {
        self.connection@
    }

    fn pool(&self) -> (config: PoolConfig) {
        self.pool
    }

    fn connection(&self) -> (config: &ConnectionConfig) {
        &self.connection
    }

    fn run(&self, query: String) -> (run: Dispatch) {
        Dispatch::new(Strategy::Asynchronous, query)
    }
}

} // verus!
