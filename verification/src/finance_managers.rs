//! The finance manager the application works with: a remote server, a
//! database file or one kept in memory, chosen by which one it was given.
use vstd::prelude::*;
use vstd::string::StringExecFns;
use crate::client::Client;

verus! {

/// One of the three finance managers; `Q` is the database one, `R` the one
/// kept in memory.
pub enum FinanceManagers<Q, R> {
    Server(Client),
    Sqlite(Q),
    Ram(R),
}

/// The flags named no finance manager, or more than one.
#[derive(Debug, Clone, Copy, PartialEq, Eq, Structural)]
pub struct InvalidFlags;

impl<Q, R> FinanceManagers<Q, R> {
    /// The finance manager for the flags (a server client, one in memory, a
    /// database one): the one given, when exactly one is.
    pub fn new(flags: (Option<Client>, Option<R>, Option<Q>)) -> (r: Result<Self, InvalidFlags>)
        ensures
            match flags {
                (Some(c), None, None) => r == Ok::<Self, InvalidFlags>(FinanceManagers::Server(c)),
                (None, Some(m), None) => r == Ok::<Self, InvalidFlags>(FinanceManagers::Ram(m)),
                (None, None, Some(d)) => r == Ok::<Self, InvalidFlags>(FinanceManagers::Sqlite(d)),
                _ => r == Err::<Self, InvalidFlags>(InvalidFlags),
            },
    {
        match flags {
            (Some(client), None, None) => Ok(FinanceManagers::Server(client)),
            (None, Some(ram), None) => Ok(FinanceManagers::Ram(ram)),
            (None, None, Some(sqlite)) => Ok(FinanceManagers::Sqlite(sqlite)),
            _ => Err(InvalidFlags),
        }
    }

    /// The kind of the finance manager, as the debug output names it.
    pub fn kind_name(&self) -> (r: &'static str)
        ensures
            r@ == match *self {
                FinanceManagers::Server(_) => "Server"@,
                FinanceManagers::Sqlite(_) => "Sqlite"@,
                FinanceManagers::Ram(_) => "Ram"@,
            },
    {
        match self {
            FinanceManagers::Server(_) => "Server",
            FinanceManagers::Sqlite(_) => "Sqlite",
            FinanceManagers::Ram(_) => "Ram",
        }
    }

    /// How the finance manager is shown to the user: the kind, then the
    /// server's url or the database's path (`sqlite_path`, the path of the
    /// database one).
    pub fn description(&self, sqlite_path: &str) -> (r: String)
        ensures
            r@ == match *self {
                FinanceManagers::Server(c) => "Server "@ + c@.url,
                FinanceManagers::Sqlite(_) => "Sqlite "@ + sqlite_path@,
                FinanceManagers::Ram(_) => "Ram"@,
            },
    {
        match self {
            FinanceManagers::Server(client) => String::from_str("Server ").concat(client.url()),
            FinanceManagers::Sqlite(_) => String::from_str("Sqlite ").concat(sqlite_path),
            FinanceManagers::Ram(_) => String::from_str("Ram"),
        }
    }
}

} // verus!
