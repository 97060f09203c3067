//! Calls into the uuid and getrandom crates.
use vstd::prelude::*;

use crate::layout::{ticks_of_unix, v1_layout};

verus! {

#[verifier::external_type_specification]
#[verifier::external_body]
pub struct ExUuidError(uuid::Error);

#[verifier::external_type_specification]
#[verifier::external_body]
pub struct ExRandomError(getrandom::Error);

/// Relies on getrandom::getrandom: it fills the buffer from the operating
/// system's random source, or reports that it could not.
#[verifier::external_body]
pub(crate) fn fill_random(buf: &mut [u8]) -> (r: Result<(), getrandom::Error>)
    ensures
        final(buf)@.len() == old(buf)@.len(),
{
    getrandom::getrandom(buf)
}

/// Relies on uuid::v1::Timestamp::from_unix: the tick count is the offset
/// between the two epochs, plus the seconds times 10^7, plus the nanoseconds
/// divided by 100. The clock sequence it draws from the throwaway context is
/// not used.
#[verifier::external_body]
pub(crate) fn unix_to_ticks(secs: u64, nanos: u32) -> (r: u64)
    requires
        ticks_of_unix(secs, nanos) <= u64::MAX,
    ensures
        r == ticks_of_unix(secs, nanos),
{
    uuid::v1::Timestamp::from_unix(&uuid::v1::Context::new(0), secs, nanos).to_rfc4122().0
}

/// Relies on uuid::Uuid::new_v1, given a timestamp made by
/// uuid::v1::Timestamp::from_rfc4122: it refuses a node that is not six
/// bytes long and otherwise packs the fields in the time-low-first layout.
#[verifier::external_body]
pub(crate) fn uuid_v1_bytes(ticks: u64, counter: u16, node: &[u8]) -> (r: Result<
    [u8; 16],
    uuid::Error,
>)
    ensures
        r is Ok <==> node@.len() == 6,
        r is Ok ==> r->Ok_0@ == v1_layout(ticks, counter, node@),
{
    uuid::Uuid::new_v1(uuid::v1::Timestamp::from_rfc4122(ticks, counter), node).map(
        |u| *u.as_bytes(),
    )
}

/// Relies on uuid::Builder::set_variant(RFC4122) and
/// set_version(Random), the steps that uuid::Uuid::new_v4 applies to its
/// random bytes: byte 6 gets the high nibble 4, byte 8 the high bits `10`.
#[verifier::external_body]
pub(crate) fn tag_random(bytes: [u8; 16]) -> (r: [u8; 16])
    ensures
        r[6] == (bytes[6] & 0x0Fu8) | 0x40u8,
        r[8] == (bytes[8] & 0x3Fu8) | 0x80u8,
        forall|i: int| 0 <= i < 16 && i != 6 && i != 8 ==> r[i] == bytes[i],
{
    *uuid::Builder::from_bytes(bytes).set_variant(uuid::Variant::RFC4122).set_version(
        uuid::Version::Random,
    ).build().as_bytes()
}

} // verus!
