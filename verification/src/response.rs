//! Typed responses, and what both channel flavours yield.
//!
//! A response is the command identity it answers plus its data bytes; the
//! first data byte is the device's status.  A plaintext exchange takes the
//! data straight from the validated frame; an encrypted exchange takes it
//! from the decrypted envelope.  Both build the response the same way, so
//! a codec that passes payloads through unchanged makes the two channels
//! indistinguishable byte for byte.
use vstd::bytes::spec_u64_from_le_bytes;
use vstd::bytes::u64_from_le_bytes;
use vstd::prelude::*;

use crate::codec::decrypted_data_of;
use crate::error::Error;
use crate::error::STATUS_OK;

verus! {

/// A typed response: the command identity it answers and its data bytes
/// (status byte first).
#[derive(Clone, Debug, PartialEq, Eq)]
pub struct Response {
    /// Message type byte of the command this answers.
    pub kind: u8,
    /// The response's data bytes; the first is the status.
    pub data: Vec<u8>,
}

/// The mathematical model of a response.
pub struct ResponseModel {
    pub kind: u8,
    pub data: Seq<u8>,
}

impl Response {
    /// A response carries at least its status byte.
    pub open spec fn wf(&self) -> bool {
        self.data@.len() >= 1
    }

    /// The model of this response.
    pub open spec fn model(&self) -> ResponseModel {
        ResponseModel { kind: self.kind, data: self.data@ }
    }

    /// The device's status byte.
    pub fn status(&self) -> (r: u8)
        requires
            self.wf(),
        ensures
            r == self.data@[0],
    {
        self.data[0]
    }

    /// Whether the device reported success.
    pub fn is_ok(&self) -> (r: bool)
        requires
            self.wf(),
        ensures
            r == (self.data@[0] == STATUS_OK),
    {
        self.data[0] == STATUS_OK
    }

    /// The response's data bytes.
    pub fn data(&self) -> (r: &Vec<u8>)
        ensures
            r@ == self.data@,
    {
        &self.data
    }

    /// The device's intermediate key as a key-exchange response carries
    /// it: a 64-bit little-endian number in the eight data bytes after the
    /// status, zero-padded if fewer are present.
    pub fn intermediate_key(&self) -> (r: u64)
        requires
            self.wf(),
        ensures
            r == spec_u64_from_le_bytes(spec_key_field(self.data@)),
    {
        let mut field: Vec<u8> = Vec::new();
        let mut i: usize = 1;
        while i < 9 && i < self.data.len()
            invariant
                1 <= i <= 9,
                i <= self.data@.len() || i == 1,
                field@.len() == i - 1,
                field@ == spec_key_field(self.data@).subrange(0, i - 1),
                self.data@.len() >= 1,
            decreases 9 - i,
        {
            proof {
                assert(spec_key_field(self.data@)[i - 1] == self.data@[i as int]);
            }
            field.push(self.data[i]);
            i = i + 1;
        }
        while field.len() < 8
            invariant
                field@.len() <= 8,
                field@.len() == 8 || field@.len() + 1 >= self.data@.len(),
                field@ == spec_key_field(self.data@).subrange(0, field@.len() as int),
            decreases 8 - field@.len(),
        {
            proof {
                assert(spec_key_field(self.data@)[field@.len() as int] == 0u8);
            }
            field.push(0u8);
        }
        proof {
            assert(field@ =~= spec_key_field(self.data@));
        }
        u64_from_le_bytes(field.as_slice())
    }
}

/// The eight bytes after the status byte, zero-padded to eight.
pub open spec fn spec_key_field(data: Seq<u8>) -> Seq<u8> {
    Seq::new(8, |i: int| if 1 + i < data.len() { data[1 + i] } else { 0u8 })
}

/// Builds the typed response both channel flavours hand back: the command
/// identity plus the payload bytes, which must carry at least a status
/// byte.
pub fn assemble_response(kind: u8, data: Vec<u8>) -> (r: Result<Response, Error>)
    ensures
        data@.len() >= 1 ==> (r matches Ok(resp) && resp.kind == kind && resp.data@ == data@
            && resp.wf()),
        data@.len() == 0 ==> r == Err::<Response, Error>(Error::Decode),
{
    if data.len() == 0 {
        Err(Error::Decode)
    } else {
        Ok(Response { kind, data })
    }
}

/// The payload bytes a validated plaintext frame carries.
pub open spec fn plain_payload(frame: Seq<u8>) -> Seq<u8> {
    frame.subrange(3, 3 + frame[2] as int)
}

/// The response a plaintext exchange yields from a validated frame.
pub open spec fn plain_response(kind: u8, frame: Seq<u8>) -> ResponseModel {
    ResponseModel { kind, data: plain_payload(frame) }
}

/// The response an encrypted exchange yields once the envelope is
/// decrypted under `key`.
pub open spec fn encrypted_response(kind: u8, key: Seq<u8>, frame: Seq<u8>) -> ResponseModel {
    ResponseModel { kind, data: decrypted_data_of(key, frame) }
}

/// Round trip through the encrypted channel: when decrypting the envelope
/// yields exactly the payload a plaintext frame would have carried (a
/// codec that passes payloads through unchanged), the encrypted channel's
/// response is bytewise identical to the plaintext channel's.
pub proof fn lemma_encrypted_channel_transparent(
    kind: u8,
    key: Seq<u8>,
    enc_frame: Seq<u8>,
    plain_frame: Seq<u8>,
)
    requires
        decrypted_data_of(key, enc_frame) == plain_payload(plain_frame),
    ensures
        encrypted_response(kind, key, enc_frame) == plain_response(kind, plain_frame),
{
}

} // verus!
