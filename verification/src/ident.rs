//! Random identifiers for queries and records.

use uuid::Uuid;
use vstd::prelude::*;

verus! {

/// A 128-bit identifier. Its bits are hidden from proofs: values of this type
/// are created, carried and handed on, and only [`record_id_of`] looks inside.
#[verifier::external_type_specification]
#[verifier::external_body]
pub struct ExUuid(Uuid);

/// `Uuid` is a `Copy` type: `<Uuid as Clone>::clone` hands back the same
/// identifier.
pub assume_specification[ <Uuid as Clone>::clone ](id: &Uuid) -> (copy: Uuid)
    ensures
        copy == *id,
;

/// What `Uuid::as_u64_pair` reports for an identifier: its most significant
/// 64 bits first, its least significant 64 bits second.
pub uninterp spec fn uuid_u64_pair(id: Uuid) -> (u64, u64);

/// Whether an identifier carries the mark of a randomly drawn one: the two
/// top bits of its least significant half are `10`.
pub open spec fn is_random_id(id: Uuid) -> bool {
    uuid_u64_pair(id).1 & 0xC000_0000_0000_0000 == 0x8000_0000_0000_0000
}

/// Draws a new identifier with `Uuid::new_v4`. The identifier comes from the
/// system's random source, so only what holds of every draw is claimed:
/// `new_v4` overwrites the two top bits of the least significant half with
/// the variant mark `10`. Nothing is claimed about the other bits.
#[verifier::external_body]
pub(crate) fn fresh_uuid() -> (id: Uuid)
    ensures
        uuid_u64_pair(id).1 & 0xC000_0000_0000_0000 == 0x8000_0000_0000_0000,
{
    Uuid::new_v4()
}

/// Splits an identifier with `Uuid::as_u64_pair`. The halves depend on the
/// identifier alone, which is all that is claimed: they are the halves named
/// by [`uuid_u64_pair`].
#[verifier::external_body]
pub(crate) fn u64_pair(id: &Uuid) -> (halves: (u64, u64))
    ensures
        halves == uuid_u64_pair(*id),
{
    id.as_u64_pair()
}

/// The record identifier that a 128-bit identifier stands for: only its
/// least significant 64 bits are kept.
pub fn record_id_of(seed: &Uuid) -> (id: u64)
    ensures
        id == uuid_u64_pair(*seed).1,
{
    let halves = u64_pair(seed);
    halves.1
}

/// The smallest identifier that [`fresh_record_id`] can draw.
pub const FIRST_FRESH_RECORD_ID: u64 = 0x8000_0000_0000_0000;

/// The largest identifier that [`fresh_record_id`] can draw.
pub const LAST_FRESH_RECORD_ID: u64 = 0xBFFF_FFFF_FFFF_FFFF;

/// Draws the identifier for a newly created record: the least significant
/// half of a newly drawn random 128-bit identifier.
///
/// Of the 64 bits, 62 are left to chance. The two top bits are the variant
/// mark `10` that every random identifier carries, so the result is never
/// zero and always lies between [`FIRST_FRESH_RECORD_ID`] and
/// [`LAST_FRESH_RECORD_ID`].
///
/// Collisions are unlikely but possible; it is up to the storage that keeps
/// the records to reject a duplicate.
pub fn fresh_record_id() -> (id: u64)
    ensures
        id & 0xC000_0000_0000_0000 == 0x8000_0000_0000_0000,
        FIRST_FRESH_RECORD_ID <= id <= LAST_FRESH_RECORD_ID,
{
    let seed = fresh_uuid();
    let id = record_id_of(&seed);
    assert(id & 0xC000_0000_0000_0000u64 == 0x8000_0000_0000_0000u64 ==> 0x8000_0000_0000_0000u64
        <= id && id <= 0xBFFF_FFFF_FFFF_FFFFu64) by (bit_vector);
    id
}

} // verus!
