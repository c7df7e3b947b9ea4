//! Time stamps and record identifiers.
//!
//! Every operation that needs the time of day or a fresh identifier exists
//! twice: once taking them as arguments, with an exact contract, and once
//! reading the clock and the random source itself.

use vstd::prelude::*;

verus! {

/// A point in time: milliseconds since 1970-01-01 00:00:00 UTC.
#[derive(Debug, Clone, Copy, PartialEq, Eq, Structural, Hash)]
pub struct Timestamp {
    pub millis: i64,
}

impl Timestamp {
    /// Milliseconds from `earlier` to `self`; negative if `self` is the
    /// earlier one.
    pub open spec fn since(self, earlier: Timestamp) -> int {
        self.millis - earlier.millis
    }

    /// Whole seconds since the epoch, rounded towards minus infinity.
    pub open spec fn whole_seconds(self) -> int {
        self.millis as int / 1000
    }

    /// The point in time `millis` milliseconds after the epoch.
    pub fn from_millis(millis: i64) -> (t: Timestamp)
        ensures
            t.millis == millis,
    {
        Timestamp { millis }
    }

    /// Milliseconds from `earlier` to `self`.
    pub fn millis_since(&self, earlier: &Timestamp) -> (d: i128)
        ensures
            d == self.since(*earlier),
    {
        self.millis as i128 - earlier.millis as i128
    }

    /// Whole seconds since the epoch, rounded towards minus infinity.
    pub fn seconds(&self) -> (s: i64)
        ensures
            s == self.whole_seconds(),
    {
        if self.millis >= 0 {
            self.millis / 1000
        } else {
            let below: i64 = -(self.millis + 1);
            -(below / 1000) - 1
        }
    }

    /// The current time as the system clock reads it. The clock must not
    /// read a time before 1970.
    pub fn now() -> (t: Timestamp)
        ensures
            t.millis >= 0,
    {
        Timestamp { millis: utc_now_millis() }
    }
}

/// Reads the clock with `chrono::Utc::now` and converts the reading with
/// `DateTime::timestamp_millis`.
///
/// Nothing is claimed of the reading but that it is not negative: chrono
/// refuses (by panicking) a system clock that reads before 1970.
#[verifier::external_body]
fn utc_now_millis() -> (millis: i64)
    ensures
        millis >= 0,
{
    chrono::Utc::now().timestamp_millis()
}

/// The bits that mark a 128-bit identifier as a random (version 4) UUID.
pub const RANDOM_ID_MASK: u128 = 0x0000_0000_0000_f000_c000_0000_0000_0000;

/// The value of those bits in a random (version 4) UUID.
pub const RANDOM_ID_TAG: u128 = 0x0000_0000_0000_4000_8000_0000_0000_0000;

/// Whether `id` carries the version and variant bits of a random UUID.
pub open spec fn is_random_id(id: u128) -> bool {
    id & RANDOM_ID_MASK == RANDOM_ID_TAG
}

/// A fresh random identifier.
pub fn fresh_id() -> (id: u128)
    ensures
        is_random_id(id),
{
    random_uuid()
}

/// Draws an identifier with `uuid::Uuid::new_v4` and converts it with
/// `Uuid::as_u128`.
///
/// The value is random; the contract states only the version and variant
/// bits, which `new_v4` sets in every identifier it returns. `new_v4`
/// panics when the operating system has no random bytes to give.
#[verifier::external_body]
fn random_uuid() -> (id: u128)
    ensures
        is_random_id(id),
{
    uuid::Uuid::new_v4().as_u128()
}

} // verus!
