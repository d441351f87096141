//! Where the service listens.
use vstd::prelude::*;
use vstd::string::StringExecFns;

verus! {

/// The environment variable that selects the port.
pub const PORT_VARIABLE: &'static str = "TMF_PORT";

/// The port that is taken where none is selected.
pub const DEFAULT_PORT: &'static str = "3000";

/// The interface the service listens on: all of them.
pub const EVERY_INTERFACE: &'static str = "0.0.0.0";

/// The port to listen on: the selected one, as it is written, or else the
/// default one.
pub fn port_or_default(selected: Option<String>) -> (port: String)
    ensures
        port@ == match selected {
            Some(port) => port@,
            None => DEFAULT_PORT@,
        },
{
    match selected {
        Some(port) => port,
        None => String::from_str(DEFAULT_PORT),
    }
}

/// The address to listen on: every interface, a colon, and the port.
pub fn listen_address(port: &str) -> (address: String)
    ensures
        address@ == EVERY_INTERFACE@ + ":"@ + port@,
{
    let mut address = String::from_str(EVERY_INTERFACE);
    address.append(":");
    address.append(port);
    address
}

} // verus!
