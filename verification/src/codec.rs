//! Trusted surface of the protocol codec collaborator.
//!
//! Everything the session manager takes from the `ssp` codec crate is
//! declared here: checksum computation, entropy-sourced key material,
//! key-derivation arithmetic, the encrypted envelope, and frame decoding.
//! Each item's contract states only what the codec's source shows.
use vstd::arithmetic::power::pow;
use vstd::prelude::*;

use crate::error::Error;
use ssp::MessageOps;

verus! {

/// The CRC-16 checksum the protocol codec computes over a byte sequence
/// (forward CRC-16, polynomial 0x8005, seed 0xffff).
pub uninterp spec fn crc16_of(data: Seq<u8>) -> u16;

/// Relies on ssp::crc::crc16: the protocol's CRC-16 checksum, a pure
/// function of the input bytes.
#[verifier::external_body]
pub(crate) fn crc16(data: &[u8]) -> (r: u16)
    ensures
        r == crc16_of(data@),
{
    ssp::crc::crc16(data)
}

/// Relies on ssp::GeneratorKey::from_entropy: draws a fresh prime from
/// system entropy.  The primality tests accept neither zero nor one, so
/// the result is at least two.
#[verifier::external_body]
pub(crate) fn generator_key_from_entropy() -> (r: u64)
    ensures
        r >= 2,
{
    ssp::GeneratorKey::from_entropy().as_inner()
}

/// Relies on ssp::ModulusKey::from_entropy: draws a fresh prime from
/// system entropy, at least two for the same reason as the generator.
#[verifier::external_body]
pub(crate) fn modulus_key_from_entropy() -> (r: u64)
    ensures
        r >= 2,
{
    ssp::ModulusKey::from_entropy().as_inner()
}

/// Relies on ssp::RandomKey::from_entropy: a fresh random 64-bit value.
/// Nothing can be promised of it.
#[verifier::external_body]
pub(crate) fn random_key_from_entropy() -> (r: u64) {
    ssp::RandomKey::from_entropy().as_inner()
}

/// Relies on ssp::FixedKey::from_entropy: a fresh random 64-bit key seed.
/// Nothing can be promised of it.
#[verifier::external_body]
pub(crate) fn fixed_key_from_entropy() -> (r: u64) {
    ssp::FixedKey::from_entropy().as_inner()
}

/// Relies on ssp::IntermediateKey::from_keys: the intermediate key of the
/// handshake, `(generator ^ random) mod modulus` over big integers.  The
/// big-integer modpow requires a nonzero modulus, and its result always
/// fits in 64 bits because it is smaller than the modulus.
#[verifier::external_body]
pub(crate) fn intermediate_key_from_keys(generator: u64, random: u64, modulus: u64) -> (r: u64)
    requires
        modulus > 0,
    ensures
        r as int == pow(generator as int, random as nat) % (modulus as int),
{
    ssp::IntermediateKey::from_keys(
        &ssp::GeneratorKey::from_inner(generator),
        &ssp::RandomKey::from_inner(random),
        &ssp::ModulusKey::from_inner(modulus),
    ).as_inner()
}

/// Relies on ssp::EncryptionKey::from_keys: the negotiated shared secret,
/// `(device intermediate key ^ random) mod modulus` over big integers.
#[verifier::external_body]
pub(crate) fn encryption_key_from_keys(inter_key: u64, random: u64, modulus: u64) -> (r: u64)
    requires
        modulus > 0,
    ensures
        r as int == pow(inter_key as int, random as nat) % (modulus as int),
{
    ssp::EncryptionKey::from_keys(
        &ssp::IntermediateKey::from_inner(inter_key),
        &ssp::RandomKey::from_inner(random),
        &ssp::ModulusKey::from_inner(modulus),
    ).as_inner()
}

/// Which byte strings can be the encrypted envelope of a command payload
/// under a key.  The codec draws a process-wide count and fresh random
/// packing, so one payload has many envelopes; this relation holds of
/// every envelope the codec produces for that key and payload.
pub uninterp spec fn envelope_of(key: Seq<u8>, data: Seq<u8>, env: Seq<u8>) -> bool;

/// Relies on ssp::EncryptedCommand::encrypt: wraps a command's data bytes
/// in an encrypted envelope keyed by `key`, already framed by the codec.
/// The payload is loaded at the envelope's data field exactly as
/// EncryptedCommand::set_message_data lays it out: the length byte set,
/// the bytes at the envelope's data offset.  The envelope carries a
/// process-wide count and fresh random packing, so beyond the envelope
/// relation only structure is stated: the result is a whole frame that
/// starts with the start marker and fits the one-byte length field.
///
/// The payload bound keeps the codec inside its fixed buffers, which its
/// arithmetic indexes without checking: the padded envelope must fit the
/// command buffer, and even a fully byte-stuffed ciphertext must fit the
/// wrapping frame's buffer.  The library's own commands carry at most
/// nine payload bytes.
#[verifier::external_body]
pub(crate) fn encrypt_envelope(key: &Vec<u8>, data: &Vec<u8>) -> (r: Vec<u8>)
    requires
        key@.len() == 16,
        1 <= data@.len() <= 105,
    ensures
        5 <= r@.len() <= 260,
        r@[0] == 0x7f,
        envelope_of(key@, data@, r@),
{
    let mut cmd = ssp::EncryptedCommand::new();
    cmd.set_data_len(data.len() as u8);
    cmd.buf_mut()[6..6 + data.len()].copy_from_slice(data.as_slice());
    let aes_key = ssp::AesKey::clone_from_slice(key.as_slice());
    let mut wrapped = cmd.encrypt(&aes_key);
    wrapped.buf().to_vec()
}

/// What the codec's decryption yields for an encrypted response frame
/// under a key: the inner payload bytes, a pure function of both.
pub uninterp spec fn decrypted_data_of(key: Seq<u8>, frame: Seq<u8>) -> Seq<u8>;

/// Relies on ssp::EncryptedResponse::decrypt (the frame rebuilt through
/// WrappedEncryptedMessage::try_from): unstuffs and AES-decrypts the
/// envelope carried by a whole response frame and yields the payload that
/// the codec's generic data accessor exposes — a pure function of the key
/// and the frame bytes.
///
/// The declared-length bound keeps the codec inside its fixed response
/// buffer: decryption sizes the plaintext eight bytes under the declared
/// length and then pads it to the cipher's block size, all indexed
/// without checking.
#[verifier::external_body]
pub(crate) fn decrypt_envelope(key: &Vec<u8>, frame: &Vec<u8>) -> (r: Vec<u8>)
    requires
        key@.len() == 16,
        5 <= frame@.len() <= 260,
        frame@[0] == 0x7f,
        frame@[2] != 0,
        frame@[2] <= 241,
        frame@.len() == frame@[2] + 5,
    ensures
        r@ == decrypted_data_of(key@, frame@),
{
    let aes_key = ssp::AesKey::clone_from_slice(key.as_slice());
    let wrapped = match ssp::WrappedEncryptedMessage::try_from(frame.as_slice()) {
        Ok(w) => w,
        Err(_) => ssp::WrappedEncryptedMessage::new(),
    };
    let dec = ssp::EncryptedResponse::decrypt(&aes_key, wrapped);
    dec.data().to_vec()
}

/// The largest data length a response frame may declare for a given
/// expected command identity, as sized by the codec's buffers: the
/// key-exchange and barcode-configuration responses have short buffers
/// the decoder indexes without checking, and an encrypted envelope's
/// declared length must leave its decrypted plaintext inside the
/// response buffer.  Exceeding the capacity is a malformed length.
pub open spec fn spec_response_data_capacity(kind: u8) -> u8 {
    if kind == 0x4c {
        9
    } else if kind == 0x23 || kind == 0x24 {
        5
    } else if kind == 0x7e {
        241
    } else {
        255
    }
}

/// The largest data length a response frame may declare for a given
/// expected command identity.
pub fn response_data_capacity(kind: u8) -> (r: u8)
    ensures
        r == spec_response_data_capacity(kind),
{
    if kind == 0x4c {
        9
    } else if kind == 0x23 || kind == 0x24 {
        5
    } else if kind == 0x7e {
        241
    } else {
        255
    }
}

/// Whether the codec accepts a whole response frame as a response of the
/// given expected command identity: its checksum and per-command checks
/// pass.  A pure function of the frame bytes and the identity.
pub uninterp spec fn decode_accepts(frame: Seq<u8>, kind: u8) -> bool;

/// Relies on ssp::MessageVariant::from_buf: validates a whole response
/// frame against the expected command identity (checksum and per-command
/// checks; both deliberately lenient for encrypted envelopes) and yields
/// the response's data bytes — the bytes between the length byte and the
/// CRC-16 trailer.  Acceptance is deterministic in the frame and the
/// identity, which `decode_accepts` names.  The declared length must not
/// exceed the expected response's buffer, which the codec indexes without
/// checking.
#[verifier::external_body]
pub(crate) fn decode_frame(frame: &Vec<u8>, kind: u8) -> (r: Result<Vec<u8>, Error>)
    requires
        5 <= frame@.len() <= 260,
        frame@[0] == 0x7f,
        frame@[2] != 0,
        frame@.len() == frame@[2] + 5,
        frame@[2] <= spec_response_data_capacity(kind),
    ensures
        r is Ok <==> decode_accepts(frame@, kind),
        (r matches Ok(data) ==> data@ == frame@.subrange(3, 3 + frame@[2] as int)),
        (r matches Err(e) ==> e == Error::Decode),
{
    match ssp::MessageVariant::from_buf(frame.as_slice(), ssp::MessageType::from(kind)) {
        Ok(v) => Ok(v.as_response().data().to_vec()),
        Err(_) => Err(Error::Decode),
    }
}

} // verus!
