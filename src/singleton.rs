use vstd::prelude::*;
use vstd::string::*;

verus! {

/// A shared connection handle, identified by its name.
#[derive(Debug, Clone)]
pub struct Connection {
    pub name: String,
}

/// The connection value that the process-wide instance is initialised with.
pub fn default_connection() -> (r: Connection)
    ensures
        r.name@ == "default"@,
{
    Connection { name: String::from_str("default") }
}

} // verus!
