//! What every stored row is stamped with: a fresh identifier and the time of
//! writing.

use vstd::prelude::*;

verus! {

/// A point in time: whole seconds since the Unix epoch, UTC, and the
/// nanoseconds into that second.
#[derive(Clone, Copy, Debug, PartialEq, Eq)]
pub struct Timestamp {
    pub secs: i64,
    pub nanos: u32,
}

/// The bits that hold a UUID's version and variant.
pub const UUID_FIXED_BITS: u128 = 0x0000_0000_0000_F000_C000_0000_0000_0000u128;

/// What those bits hold in a random (version 4, RFC 9562) UUID.
pub const UUID_FIXED_BITS_RANDOM: u128 = 0x0000_0000_0000_4000_8000_0000_0000_0000u128;

/// Whether `id`, read as the 16 bytes of a UUID in big-endian order, is a
/// random UUID: version 4, variant `10`.
pub open spec fn is_random_uuid(id: u128) -> bool {
    id & UUID_FIXED_BITS == UUID_FIXED_BITS_RANDOM
}

/// Whether the nanoseconds of `t` stay within one second.
pub open spec fn is_whole_timestamp(t: Timestamp) -> bool {
    t.nanos < 1_000_000_000
}

/// Makes a fresh random identifier.
///
/// Trusted: calls `uuid::Uuid::new_v4` and hands out its bytes as a big-endian
/// number (`Uuid::as_u128`). All that is claimed of the result is that the
/// version and variant bits are those of a random UUID, which `new_v4` sets by
/// masking; the other 122 bits are random and nothing is said of them.
#[verifier::external_body]
pub(crate) fn fresh_id() -> (id: u128)
    ensures
        is_random_uuid(id),
{
    uuid::Uuid::new_v4().as_u128()
}

/// Reads the current time.
///
/// Trusted: calls `chrono::Utc::now` and splits the answer with
/// `DateTime::timestamp` and `DateTime::timestamp_subsec_nanos`. `Utc::now`
/// builds its answer from a duration since the epoch, whose sub-second part is
/// below one second; nothing else is claimed. The call relies on a system
/// clock that is not set before 1970.
#[verifier::external_body]
pub(crate) fn now_utc() -> (t: Timestamp)
    ensures
        is_whole_timestamp(t),
{
    let now = chrono::Utc::now();
    Timestamp { secs: now.timestamp(), nanos: now.timestamp_subsec_nanos() }
}

} // verus!
