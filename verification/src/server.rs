//! Where the service listens.

use vstd::prelude::*;

verus! {

/// The address that the service binds: `localhost:<port>`.
pub fn listen_address(port: &str) -> (res: String)
    ensures
        res@ == "localhost:"@ + port@,
{
    let mut address = String::from_str("localhost:");
    address.append(port);
    address
}

} // verus!
