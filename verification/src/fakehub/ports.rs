//! Picking the port an ephemeral host binds: the first free port at or
//! above a starting value, reported as an error when none is found.

use vstd::prelude::*;

use crate::fakehub::error::Error;

verus! {

/// Relies on `port_selector::select_from_given_port` only to make the call.
/// The crate scans upward from the given port, but which port is free
/// depends on the machine's state, and the scan has no ceiling: on a machine
/// with every port at or above the start taken it either stops the process
/// or wraps around below the start. So nothing is promised of the outcome;
/// the caller checks what came back.
#[verifier::external_body]
fn first_free_port(starting_port: u16) -> (r: Option<u16>) {
    port_selector::select_from_given_port(starting_port)
}

/// The port an ephemeral host will bind: a free port at or above
/// `starting_port`, or the port-exhaustion error naming the start of the
/// search. The bound on the returned port is checked here, not assumed of
/// the scan: an answer below the start is refused as exhaustion.
pub fn select_port(starting_port: u16) -> (r: Result<u16, Error>)
    ensures
        r matches Ok(p) ==> p >= starting_port,
        r matches Err(e) ==> e@ == crate::fakehub::error::ErrorV::NoAvailablePorts(starting_port),
{
    match first_free_port(starting_port) {
        Some(p) => {
            if p >= starting_port {
                Ok(p)
            } else {
                Err(Error::NoAvailablePorts(starting_port))
            }
        },
        None => Err(Error::NoAvailablePorts(starting_port)),
    }
}

} // verus!
