//! What a health report says of the service.

use vstd::prelude::*;
use vstd::string::*;

verus! {

/// The word for the state of the service: healthy while the database can be
/// reached, degraded once it cannot.
pub open spec fn status_word(database_connected: bool) -> Seq<char> {
    if database_connected {
        "healthy"@
    } else {
        "degraded"@
    }
}

/// The word that a health report shows for the state of the service.
pub fn health_status(database_connected: bool) -> (s: String)
    ensures
        s@ == status_word(database_connected),
{
    if database_connected {
        String::from_str("healthy")
    } else {
        String::from_str("degraded")
    }
}

/// The answer to a ping.
pub fn ping() -> (s: &'static str)
    ensures
        s@ == "pong"@,
{
    "pong"
}

} // verus!
