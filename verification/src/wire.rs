//! Fixed-width fields as they lie in an instruction's payload.
//!
//! Integers are stored least significant byte first. Identifiers are stored as
//! their 32 bytes; one that may be left out stands behind a flag of one byte.
//! Every reader checks its bounds and copies what it reads.

use crate::failure::Failure;
use vstd::prelude::*;

verus! {

/// A 32-byte address of an account or a program.
pub type Identifier = [u8; 32];

/// The number that eight bytes denote, the first byte being the least
/// significant.
pub open spec fn le_u64(bytes: Seq<u8>) -> u64
    recommends
        bytes.len() == 8,
{
    (bytes[0] as nat + bytes[1] as nat * 0x100 + bytes[2] as nat * 0x1_0000 + bytes[3] as nat
        * 0x100_0000 + bytes[4] as nat * 0x1_0000_0000 + bytes[5] as nat * 0x100_0000_0000
        + bytes[6] as nat * 0x1_0000_0000_0000 + bytes[7] as nat * 0x100_0000_0000_0000) as u64
}

/// The eight bytes that denote `value`, least significant byte first.
pub open spec fn u64_le_bytes(value: u64) -> Seq<u8> {
    seq![
        (value % 0x100) as u8,
        (value / 0x100 % 0x100) as u8,
        (value / 0x1_0000 % 0x100) as u8,
        (value / 0x100_0000 % 0x100) as u8,
        (value / 0x1_0000_0000 % 0x100) as u8,
        (value / 0x100_0000_0000 % 0x100) as u8,
        (value / 0x1_0000_0000_0000 % 0x100) as u8,
        (value / 0x100_0000_0000_0000 % 0x100) as u8,
    ]
}

/// Writing a number out and reading the bytes back gives the number again.
pub proof fn lemma_le_u64_of_bytes(value: u64)
    ensures
        u64_le_bytes(value).len() == 8,
        le_u64(u64_le_bytes(value)) == value,
{
    let q0 = value as int;
    let q1 = q0 / 0x100;
    let q2 = q0 / 0x1_0000;
    let q3 = q0 / 0x100_0000;
    let q4 = q0 / 0x1_0000_0000;
    let q5 = q0 / 0x100_0000_0000;
    let q6 = q0 / 0x1_0000_0000_0000;
    let q7 = q0 / 0x100_0000_0000_0000;
    assert(q0 == q1 * 0x100 + q0 % 0x100);
    assert(q1 == q2 * 0x100 + q1 % 0x100);
    assert(q2 == q3 * 0x100 + q2 % 0x100);
    assert(q3 == q4 * 0x100 + q3 % 0x100);
    assert(q4 == q5 * 0x100 + q4 % 0x100);
    assert(q5 == q6 * 0x100 + q5 % 0x100);
    assert(q6 == q7 * 0x100 + q6 % 0x100);
    assert(q7 == q7 % 0x100);
}

/// Reading eight bytes and writing the number out gives the bytes again.
pub proof fn lemma_bytes_of_le_u64(bytes: Seq<u8>)
    requires
        bytes.len() == 8,
    ensures
        u64_le_bytes(le_u64(bytes)) == bytes,
{
    let s7 = bytes[7] as int;
    let s6 = bytes[6] as int + s7 * 0x100;
    let s5 = bytes[5] as int + s6 * 0x100;
    let s4 = bytes[4] as int + s5 * 0x100;
    let s3 = bytes[3] as int + s4 * 0x100;
    let s2 = bytes[2] as int + s3 * 0x100;
    let s1 = bytes[1] as int + s2 * 0x100;
    let s0 = bytes[0] as int + s1 * 0x100;
    assert(le_u64(bytes) == s0);
    assert(s0 / 0x100 == s1);
    assert(s0 / 0x1_0000 == s2);
    assert(s0 / 0x100_0000 == s3);
    assert(s0 / 0x1_0000_0000 == s4);
    assert(s0 / 0x100_0000_0000 == s5);
    assert(s0 / 0x1_0000_0000_0000 == s6);
    assert(s0 / 0x100_0000_0000_0000 == s7);
    assert(u64_le_bytes(le_u64(bytes)) =~= bytes);
}

/// Reads the 64-bit integer that starts at `offset`, or nothing where the
/// buffer ends before the integer does.
pub fn read_u64_le(bytes: &[u8], offset: usize) -> (value: Option<u64>)
    ensures
        match value {
            Some(v) => offset + 8 <= bytes@.len() && v == le_u64(
                bytes@.subrange(offset as int, offset + 8),
            ),
            None => offset + 8 > bytes@.len(),
        },
{
    if bytes.len() < 8 || offset > bytes.len() - 8 {
        return None;
    }
    let b0: u64 = bytes[offset] as u64;
    let b1: u64 = bytes[offset + 1] as u64;
    let b2: u64 = bytes[offset + 2] as u64;
    let b3: u64 = bytes[offset + 3] as u64;
    let b4: u64 = bytes[offset + 4] as u64;
    let b5: u64 = bytes[offset + 5] as u64;
    let b6: u64 = bytes[offset + 6] as u64;
    let b7: u64 = bytes[offset + 7] as u64;
    Some(
        b0 + b1 * 0x100 + b2 * 0x1_0000 + b3 * 0x100_0000 + b4 * 0x1_0000_0000 + b5
            * 0x100_0000_0000 + b6 * 0x1_0000_0000_0000 + b7 * 0x100_0000_0000_0000,
    )
}

/// Reads the byte at `offset`, or nothing where the buffer ends before it.
pub fn read_u8(bytes: &[u8], offset: usize) -> (value: Option<u8>)
    ensures
        match value {
            Some(v) => offset < bytes@.len() && v == bytes@[offset as int],
            None => offset >= bytes@.len(),
        },
{
    if offset < bytes.len() {
        Some(bytes[offset])
    } else {
        None
    }
}

/// The identifier whose 32 bytes are `bytes`.
pub open spec fn identifier_of(bytes: Seq<u8>) -> Identifier
    recommends
        bytes.len() == 32,
{
    choose|id: Identifier| id@ == bytes
}

/// An identifier is the identifier of its own bytes: two identifiers with the
/// same bytes are one and the same.
pub proof fn lemma_identifier_of_bytes(id: Identifier)
    ensures
        identifier_of(id@) == id,
{
    let chosen = identifier_of(id@);
    assert(chosen@ == id@);
    assert(chosen =~= id);
}

/// Copies out the identifier that starts at `offset`, or nothing where the
/// buffer ends before the identifier does.
pub fn read_identifier(bytes: &[u8], offset: usize) -> (value: Option<Identifier>)
    ensures
        match value {
            Some(id) => {
                &&& offset + 32 <= bytes@.len()
                &&& id@ == bytes@.subrange(offset as int, offset + 32)
                &&& id == identifier_of(bytes@.subrange(offset as int, offset + 32))
            },
            None => offset + 32 > bytes@.len(),
        },
{
    if bytes.len() < 32 || offset > bytes.len() - 32 {
        return None;
    }
    let mut id: Identifier = [0u8; 32];
    let mut i: usize = 0;
    while i < 32
        invariant
            i <= 32,
            offset + 32 <= bytes.len(),
            forall|j: int| 0 <= j < i ==> id@[j] == bytes@[offset + j],
        decreases 32 - i,
    {
        id[i] = bytes[offset + i];
        i += 1;
    }
    proof {
        assert(id@ =~= bytes@.subrange(offset as int, offset + 32));
        lemma_identifier_of_bytes(id);
    }
    Some(id)
}

/// The identifier that an optional reference points to.
pub open spec fn spec_copied(identifier: Option<&Identifier>) -> Option<Identifier> {
    match identifier {
        Some(id) => Some(*id),
        None => None,
    }
}

/// Copies the identifier that an optional reference points to.
#[verifier::when_used_as_spec(spec_copied)]
pub fn copied(identifier: Option<&Identifier>) -> (copy: Option<Identifier>)
    ensures
        copy == spec_copied(identifier),
{
    match identifier {
        Some(id) => Some(*id),
        None => None,
    }
}

/// The 64-bit integer that lies at `offset` of `payload`.
pub open spec fn u64_at(payload: Seq<u8>, offset: int) -> u64
    recommends
        0 <= offset,
        offset + 8 <= payload.len(),
{
    le_u64(payload.subrange(offset, offset + 8))
}

/// The identifier that lies at `offset` of `payload`.
pub open spec fn identifier_at(payload: Seq<u8>, offset: int) -> Identifier
    recommends
        0 <= offset,
        offset + 32 <= payload.len(),
{
    identifier_of(payload.subrange(offset, offset + 32))
}

/// The identifier that may lie at `offset` of `payload`, behind a flag that
/// says whether it does.
///
/// The flag is one byte. 0 says that no identifier follows; 1 says that the
/// next 32 bytes are one. A payload that ends before the flag holds no
/// identifier either. A flag of 1 with fewer than 32 bytes behind it leaves
/// the payload too short, and any other flag is no valid value.
pub open spec fn optional_identifier_at(payload: Seq<u8>, offset: int) -> Result<
    Option<Identifier>,
    Failure,
>
    recommends
        0 <= offset,
{
    if payload.len() <= offset {
        Ok(None)
    } else if payload[offset] == 0 {
        Ok(None)
    } else if payload[offset] != 1 {
        Err(Failure::InvalidFieldValue)
    } else if payload.len() < offset + 33 {
        Err(Failure::PayloadTooShort)
    } else {
        Ok(Some(identifier_at(payload, offset + 1)))
    }
}

/// Reads the identifier that may lie at `offset`, behind its flag.
pub fn read_optional_identifier(bytes: &[u8], offset: usize) -> (value: Result<
    Option<Identifier>,
    Failure,
>)
    ensures
        value == optional_identifier_at(bytes@, offset as int),
{
    if offset >= bytes.len() {
        return Ok(None);
    }
    let flag: u8 = bytes[offset];
    if flag == 0 {
        Ok(None)
    } else if flag != 1 {
        Err(Failure::InvalidFieldValue)
    } else {
        match read_identifier(bytes, offset + 1) {
            Some(id) => Ok(Some(id)),
            None => Err(Failure::PayloadTooShort),
        }
    }
}

} // verus!
