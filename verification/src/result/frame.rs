use vstd::prelude::*;

use crate::digest::{same_bytes, sha256, sha256_digest};
use crate::error::StorageError;

verus! {

/// Bytes of the length prefix of a frame.
pub const FRAME_PREFIX_BYTES: usize = 4;

/// A number as four bytes, the most significant one first.
pub open spec fn big_endian(value: u32) -> Seq<u8> {
    seq![
        (value / 0x100_0000) as u8,
        ((value / 0x1_0000) % 0x100) as u8,
        ((value / 0x100) % 0x100) as u8,
        (value % 0x100) as u8,
    ]
}

/// The number that the first four bytes make, the most significant one first.
pub open spec fn big_endian_value(bytes: Seq<u8>) -> int {
    bytes[0] * 0x100_0000 + bytes[1] * 0x1_0000 + bytes[2] * 0x100 + bytes[3]
}

/// A payload behind its length.
pub open spec fn framed(payload: Seq<u8>) -> Seq<u8> {
    big_endian(payload.len() as u32) + payload
}

/// The lengths of payloads that can be framed.
pub open spec fn payload_check(length: nat, maximum: usize) -> Result<(), StorageError> {
    if length == 0 || length > maximum {
        Err(StorageError::InvalidResult("protobuf payload is empty or exceeds its frame limit"))
    } else if length > u32::MAX {
        Err(StorageError::NumericRange("protobuf payload length"))
    } else {
        Ok(())
    }
}

/// The failure of a damaged result.
pub open spec fn corrupted(id: String, reason: &'static str) -> StorageError {
    StorageError::CorruptResult { result_id: id, reason }
}

/// What the index may say of a frame.
pub open spec fn frame_index_check(
    id: String,
    frame_length: u64,
    expected_hash: Seq<u8>,
    maximum: usize,
) -> Result<(), StorageError> {
    if frame_length > usize::MAX {
        Err(StorageError::NumericRange("indexed frame length"))
    } else if frame_length <= FRAME_PREFIX_BYTES || frame_length - FRAME_PREFIX_BYTES > maximum
        || expected_hash.len() != 32 {
        Err(corrupted(id, "indexed frame metadata is invalid"))
    } else {
        Ok(())
    }
}

/// What the file may hold where the index places a frame; `frame` is as much of the indexed length
/// as the file holds.
pub open spec fn frame_check(
    id: String,
    frame_length: u64,
    expected_hash: Seq<u8>,
    frame: Seq<u8>,
    maximum: usize,
) -> Result<(), StorageError> {
    match frame_index_check(id, frame_length, expected_hash, maximum) {
        Err(error) => Err(error),
        Ok(_) => if frame.len() != frame_length {
            Err(corrupted(id, "indexed frame is truncated"))
        } else if sha256_digest(frame) != expected_hash {
            Err(corrupted(id, "indexed frame hash mismatch"))
        } else if big_endian_value(frame) != frame_length - FRAME_PREFIX_BYTES {
            Err(corrupted(id, "indexed frame length prefix is invalid"))
        } else {
            Ok(())
        },
    }
}

/// The failure of a damaged result.
pub fn corrupt(id: &String, reason: &'static str) -> (result: StorageError)
    ensures
        result == corrupted(*id, reason),
{
    StorageError::CorruptResult { result_id: id.clone(), reason }
}

/// Puts a payload behind its length.
pub fn encode_frame(payload: &Vec<u8>, maximum: usize) -> (result: Result<Vec<u8>, StorageError>)
    ensures
        match result {
            Ok(frame) => payload_check(payload@.len(), maximum) is Ok && frame@ == framed(payload@),
            Err(error) => payload_check(payload@.len(), maximum) == Err::<(), StorageError>(error),
        },
{
    let length: usize = payload.len();
    if length == 0 || length > maximum {
        return Err(
            StorageError::InvalidResult("protobuf payload is empty or exceeds its frame limit"),
        );
    }
    let encoded: u32 = match u32::try_from(length) {
        Ok(encoded) => encoded,
        Err(_) => return Err(StorageError::NumericRange("protobuf payload length")),
    };
    let mut frame: Vec<u8> = Vec::new();
    frame.push((encoded / 0x100_0000) as u8);
    frame.push(((encoded / 0x1_0000) % 0x100) as u8);
    frame.push(((encoded / 0x100) % 0x100) as u8);
    frame.push((encoded % 0x100) as u8);
    assert(frame@ =~= big_endian(encoded));
    frame.extend_from_slice(payload.as_slice());
    assert(frame@ =~= framed(payload@));
    Ok(frame)
}

/// Checks what the index says of a frame, before the frame is read.
pub fn check_frame_index(
    id: &String,
    frame_length: u64,
    expected_hash: &Vec<u8>,
    maximum: usize,
) -> (result: Result<(), StorageError>)
    ensures
        result == frame_index_check(*id, frame_length, expected_hash@, maximum),
{
    let length: usize = match usize::try_from(frame_length) {
        Ok(length) => length,
        Err(_) => return Err(StorageError::NumericRange("indexed frame length")),
    };
    if length <= FRAME_PREFIX_BYTES || length - FRAME_PREFIX_BYTES > maximum || expected_hash.len()
        != 32 {
        return Err(corrupt(id, "indexed frame metadata is invalid"));
    }
    Ok(())
}

/// Takes the payload out of a frame that the file holds as the index says.
pub fn open_frame(
    id: &String,
    frame_length: u64,
    expected_hash: &Vec<u8>,
    frame: &Vec<u8>,
    maximum: usize,
) -> (result: Result<Vec<u8>, StorageError>)
    ensures
        match result {
            Ok(payload) => {
                &&& frame_check(*id, frame_length, expected_hash@, frame@, maximum) is Ok
                &&& payload@ == frame@.skip(FRAME_PREFIX_BYTES as int)
            },
            Err(error) => frame_check(*id, frame_length, expected_hash@, frame@, maximum) == Err::<
                (),
                StorageError,
            >(error),
        },
{
    check_frame_index(id, frame_length, expected_hash, maximum)?;
    if frame.len() as u64 != frame_length {
        return Err(corrupt(id, "indexed frame is truncated"));
    }
    let hash = sha256(frame.as_slice());
    if !same_bytes(hash.as_slice(), expected_hash.as_slice()) {
        return Err(corrupt(id, "indexed frame hash mismatch"));
    }
    let length: u64 = frame[0] as u64 * 0x100_0000 + frame[1] as u64 * 0x1_0000 + frame[2] as u64
        * 0x100 + frame[3] as u64;
    if length != frame_length - FRAME_PREFIX_BYTES as u64 {
        return Err(corrupt(id, "indexed frame length prefix is invalid"));
    }
    let payload = vstd::slice::slice_subrange(frame.as_slice(), FRAME_PREFIX_BYTES, frame.len());
    let mut copy: Vec<u8> = Vec::new();
    copy.extend_from_slice(payload);
    assert(copy@ =~= frame@.skip(FRAME_PREFIX_BYTES as int));
    Ok(copy)
}

/// Accepts what a payload decodes to, if it decodes.
pub fn require_decoded<M>(id: &String, decoded: Option<M>) -> (result: Result<M, StorageError>)
    ensures
        result == (match decoded {
            Some(message) => Ok::<M, StorageError>(message),
            None => Err(corrupted(*id, "indexed protobuf payload cannot be decoded")),
        }),
{
    match decoded {
        Some(message) => Ok(message),
        None => Err(corrupt(id, "indexed protobuf payload cannot be decoded")),
    }
}

/// Four bytes give back the number they were made from.
pub proof fn law_big_endian_round_trip(value: u32, rest: Seq<u8>)
    ensures
        big_endian(value).len() == FRAME_PREFIX_BYTES,
        big_endian_value(big_endian(value) + rest) == value,
{
    assert(value == (value / 0x100_0000) * 0x100_0000 + ((value / 0x1_0000) % 0x100) * 0x1_0000 + ((
    value / 0x100) % 0x100) * 0x100 + (value % 0x100)) by (bit_vector);
    assert(value / 0x100_0000 <= 0xff) by (bit_vector);
    let bytes = big_endian(value) + rest;
    assert(bytes[0] == (value / 0x100_0000) as u8);
    assert(bytes[1] == ((value / 0x1_0000) % 0x100) as u8);
    assert(bytes[2] == ((value / 0x100) % 0x100) as u8);
    assert(bytes[3] == (value % 0x100) as u8);
}

/// A frame that was written reads back, and its payload is the one that was framed.
pub proof fn law_frame_round_trip(id: String, payload: Seq<u8>, maximum: usize)
    requires
        payload_check(payload.len(), maximum) is Ok,
        sha256_digest(framed(payload)).len() == 32,
        framed(payload).len() <= usize::MAX,
    ensures
        framed(payload).len() == payload.len() + FRAME_PREFIX_BYTES,
        frame_check(
            id,
            framed(payload).len() as u64,
            sha256_digest(framed(payload)),
            framed(payload),
            maximum,
        ) == Ok::<(), StorageError>(()),
        framed(payload).skip(FRAME_PREFIX_BYTES as int) == payload,
{
    law_big_endian_round_trip(payload.len() as u32, payload);
    assert(framed(payload).skip(FRAME_PREFIX_BYTES as int) =~= payload);
}

/// A frame whose file bytes no longer have the indexed digest, or are too few, is refused.
pub proof fn law_damaged_frame_is_refused(
    id: String,
    frame_length: u64,
    expected_hash: Seq<u8>,
    frame: Seq<u8>,
    maximum: usize,
)
    requires
        frame.len() != frame_length || sha256_digest(frame) != expected_hash,
    ensures
        frame_check(id, frame_length, expected_hash, frame, maximum) is Err,
{
}

} // verus!
