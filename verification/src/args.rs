use crate::decode::Backend;
use vstd::prelude::*;

verus! {

/// The connection choice: embedded-file mode, or networked mode under one of
/// two protocol-compatible server-family aliases.
pub enum Command {
    Sqlite { filename: String },
    Mysql { username: String, password: String, host: String, port: u16, database: String },
    Mariadb { username: String, password: String, host: String, port: u16, database: String },
}

/// Everything the command line hands to the core: the backend selection and
/// the shared tuning knobs (pool bounds and the fixed page size).
pub struct Args {
    pub subcommand: Command,
    pub max_connections: u32,
    pub min_connections: u32,
    pub page_size: u8,
}

/// The backend variant a subcommand selects: the two server-family aliases
/// share identical connection semantics and one client-server code path.
pub open spec fn spec_command_backend(c: Command) -> Backend {
    match c {
        Command::Sqlite { .. } => Backend::Embedded,
        Command::Mysql { .. } => Backend::ClientServer,
        Command::Mariadb { .. } => Backend::ClientServer,
    }
}

impl Command {
    /// Which backend variant this subcommand connects to.
    pub fn backend(&self) -> (r: Backend)
        ensures
            r == spec_command_backend(*self),
    {
        match self {
            Command::Sqlite { .. } => Backend::Embedded,
            Command::Mysql { .. } => Backend::ClientServer,
            Command::Mariadb { .. } => Backend::ClientServer,
        }
    }
}

} // verus!
