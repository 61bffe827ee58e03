//! What the library takes from its surroundings: a random identity and
//! the time of day. Nothing is proved of either beyond what is stated
//! here, and two calls may give any two results.

use vstd::prelude::*;

verus! {

/// `Uuid::new_v4` and the `Display` of `Uuid`, of the crate uuid: a
/// random version-4 identity in its hyphenated form, which is 36
/// characters long.
#[verifier::external_body]
pub(crate) fn new_uuid() -> (id: String)
    ensures
        id@.len() == 36,
{
    uuid::Uuid::new_v4().to_string()
}

/// `Utc::now` and `DateTime::timestamp`, of the crate chrono: the
/// current time in whole seconds since the epoch. Nothing is claimed of
/// its value.
#[verifier::external_body]
pub(crate) fn unix_time() -> (now: i64) {
    chrono::Utc::now().timestamp()
}

} // verus!
