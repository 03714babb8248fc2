//! The stable fingerprint of a telemetry reading.
//!
//! The fingerprint is the lowercase hexadecimal SHA-256 digest of
//! `device_uid ‖ 0x00 ‖ plant_id ‖ 0x00 ‖ seq ‖ timestamp_ns`, the two numbers
//! in little-endian order on 4 and 8 bytes. It is the key by which a reading
//! is recognised when it arrives again.

use sha2::Digest;
use vstd::bytes::{
    lemma_auto_spec_u32_to_from_le_bytes, lemma_auto_spec_u64_to_from_le_bytes,
    spec_u32_to_le_bytes, spec_u64_to_le_bytes, u32_to_le_bytes, u64_to_le_bytes,
};
use vstd::prelude::*;
use vstd::string::StringSliceAdditionalSpecFns;
use vstd::utf8::encode_utf8;

verus! {

/// The SHA-256 digest of a byte string.
pub uninterp spec fn sha256(data: Seq<u8>) -> Seq<u8>;

/// The lowercase hexadecimal digit of a value under 16.
pub open spec fn hex_digit(n: int) -> char {
    if n < 10 {
        ((48 + n) as u8) as char
    } else {
        ((87 + n) as u8) as char
    }
}

/// The lowercase hexadecimal text of a byte string: two digits per byte, the
/// high half first.
pub open spec fn hex_lower(bytes: Seq<u8>) -> Seq<char> {
    Seq::new(
        2 * bytes.len(),
        |i: int|
            if i % 2 == 0 {
                hex_digit(bytes[i / 2] as int / 16)
            } else {
                hex_digit(bytes[i / 2] as int % 16)
            },
    )
}

/// True for the characters `0`–`9` and `a`–`f`.
pub open spec fn is_lower_hex(c: char) -> bool {
    (48 <= c as u32 && c as u32 <= 57) || (97 <= c as u32 && c as u32 <= 102)
}

/// The bytes that are hashed for a reading.
pub open spec fn preimage(
    device_uid: Seq<char>,
    plant_id: Seq<char>,
    seq: u32,
    timestamp_ns: i64,
) -> Seq<u8> {
    encode_utf8(device_uid) + seq![0u8] + encode_utf8(plant_id) + seq![0u8] + spec_u32_to_le_bytes(
        seq,
    ) + spec_u64_to_le_bytes(timestamp_ns as u64)
}

/// The fingerprint of a reading.
pub open spec fn fingerprint(
    device_uid: Seq<char>,
    plant_id: Seq<char>,
    seq: u32,
    timestamp_ns: i64,
) -> Seq<char> {
    hex_lower(sha256(preimage(device_uid, plant_id, seq, timestamp_ns)))
}

/// Calls `sha2::Sha256::digest`: the result is the SHA-256 digest of `data`,
/// which has 32 bytes.
#[verifier::external_body]
fn sha256_digest(data: &[u8]) -> (out: Vec<u8>)
    ensures
        out@ == sha256(data@),
        out@.len() == 32,
{
    sha2::Sha256::digest(data).to_vec()
}

/// Calls `hex::encode`: the result holds, for each byte in order, its high
/// and its low half as lowercase hexadecimal digits.
#[verifier::external_body]
fn hex_encode(bytes: &[u8]) -> (s: String)
    ensures
        s@ == hex_lower(bytes@),
{
    hex::encode(bytes)
}

/// Every character of a hexadecimal text is a lowercase hexadecimal digit,
/// and there are two for each byte.
pub proof fn lemma_hex_lower_shape(bytes: Seq<u8>)
    ensures
        hex_lower(bytes).len() == 2 * bytes.len(),
        forall|i: int| 0 <= i < hex_lower(bytes).len() ==> is_lower_hex(#[trigger] hex_lower(bytes)[i]),
{
    assert forall|i: int| 0 <= i < hex_lower(bytes).len() implies is_lower_hex(
        #[trigger] hex_lower(bytes)[i],
    ) by {
        let b = bytes[i / 2] as int;
        let n = if i % 2 == 0 {
            b / 16
        } else {
            b % 16
        };
        assert(0 <= n < 16);
        assert(hex_lower(bytes)[i] == hex_digit(n));
        if n < 10 {
            assert(((48 + n) as u8) as char as u32 == 48 + n);
        } else {
            assert(((87 + n) as u8) as char as u32 == 87 + n);
        }
    }
}

/// Lays out the bytes that are hashed for a reading.
pub fn preimage_of(device_uid: &str, plant_id: &str, seq: u32, timestamp_ns: i64) -> (data: Vec<
    u8,
>)
    ensures
        data@ == preimage(device_uid@, plant_id@, seq, timestamp_ns),
{
    let mut data: Vec<u8> = Vec::new();
    data.extend_from_slice(device_uid.as_bytes());
    data.push(0u8);
    data.extend_from_slice(plant_id.as_bytes());
    data.push(0u8);
    let seq_bytes = u32_to_le_bytes(seq);
    data.extend_from_slice(seq_bytes.as_slice());
    let ts_bytes = u64_to_le_bytes(timestamp_ns as u64);
    data.extend_from_slice(ts_bytes.as_slice());
    proof {
        assert(data@ =~= preimage(device_uid@, plant_id@, seq, timestamp_ns));
    }
    data
}

/// Computes the fingerprint of a reading from the fields that identify it.
pub fn compute(device_uid: &str, plant_id: &str, seq: u32, timestamp_ns: i64) -> (id: String)
    ensures
        id@ == fingerprint(device_uid@, plant_id@, seq, timestamp_ns),
        id@.len() == 64,
        forall|i: int| 0 <= i < 64 ==> is_lower_hex(#[trigger] id@[i]),
{
    let data = preimage_of(device_uid, plant_id, seq, timestamp_ns);
    let digest = sha256_digest(data.as_slice());
    let id = hex_encode(digest.as_slice());
    proof {
        lemma_hex_lower_shape(digest@);
    }
    id
}

/// The fingerprint depends on the four identifying fields alone: readings
/// that agree on them have the same fingerprint.
pub proof fn lemma_fingerprint_deterministic(
    device_uid_a: Seq<char>,
    plant_id_a: Seq<char>,
    seq_a: u32,
    timestamp_ns_a: i64,
    device_uid_b: Seq<char>,
    plant_id_b: Seq<char>,
    seq_b: u32,
    timestamp_ns_b: i64,
)
    requires
        device_uid_a == device_uid_b,
        plant_id_a == plant_id_b,
        seq_a == seq_b,
        timestamp_ns_a == timestamp_ns_b,
    ensures
        fingerprint(device_uid_a, plant_id_a, seq_a, timestamp_ns_a) == fingerprint(
            device_uid_b,
            plant_id_b,
            seq_b,
            timestamp_ns_b,
        ),
{
}

/// Where the sequence number starts in the hashed bytes: after the two texts
/// and their terminators.
pub open spec fn numbers_offset(device_uid: Seq<char>, plant_id: Seq<char>) -> int {
    (encode_utf8(device_uid).len() + encode_utf8(plant_id).len() + 2) as int
}

/// The two numbers occupy a fixed number of bytes at the end of the hashed
/// bytes: 4 for the sequence number, then 8 for the timestamp.
pub proof fn lemma_preimage_layout(
    device_uid: Seq<char>,
    plant_id: Seq<char>,
    seq: u32,
    timestamp_ns: i64,
)
    ensures
        preimage(device_uid, plant_id, seq, timestamp_ns).len() == numbers_offset(
            device_uid,
            plant_id,
        ) + 12,
        preimage(device_uid, plant_id, seq, timestamp_ns).subrange(
            numbers_offset(device_uid, plant_id),
            numbers_offset(device_uid, plant_id) + 4,
        ) == spec_u32_to_le_bytes(seq),
        preimage(device_uid, plant_id, seq, timestamp_ns).subrange(
            numbers_offset(device_uid, plant_id) + 4,
            numbers_offset(device_uid, plant_id) + 12,
        ) == spec_u64_to_le_bytes(timestamp_ns as u64),
{
    lemma_auto_spec_u32_to_from_le_bytes();
    lemma_auto_spec_u64_to_from_le_bytes();
    let p = preimage(device_uid, plant_id, seq, timestamp_ns);
    let n = numbers_offset(device_uid, plant_id);
    assert(spec_u32_to_le_bytes(seq).len() == 4);
    assert(spec_u64_to_le_bytes(timestamp_ns as u64).len() == 8);
    assert(p.subrange(n, n + 4) =~= spec_u32_to_le_bytes(seq));
    assert(p.subrange(n + 4, n + 12) =~= spec_u64_to_le_bytes(timestamp_ns as u64));
}

} // verus!
