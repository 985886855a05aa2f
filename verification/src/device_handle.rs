//! The session: key material, sequence flag, poller state, and the
//! per-command entry points.
//!
//! The handle owns the negotiation state (generator, modulus, random and
//! fixed keys, and the installed symmetric key), the process-wide
//! sequence flag, and the background-poller flag.  Every operation
//! follows one dispatch rule: if a symmetric key is installed the command
//! travels inside an encrypted envelope, otherwise in the clear; a small
//! set of operations that only make sense once secure instead fail with
//! an encryption error when no key is installed.
//!
//! Serial I/O, locking and threads belong to the embedding program: it
//! asks the handle to begin an exchange, drives the exchange against the
//! port, acknowledges the successful write (which flips the sequence
//! flag), and asks the handle to conclude the exchange into a response.
use vstd::arithmetic::power::pow;
use vstd::bytes::spec_u64_from_le_bytes;
use vstd::bytes::spec_u64_to_le_bytes;
use vstd::bytes::u64_to_le_bytes;
use vstd::prelude::*;

use crate::codec::decode_accepts;
use crate::codec::decode_frame;
use crate::codec::decrypted_data_of;
use crate::codec::decrypt_envelope;
use crate::codec::encrypt_envelope;
use crate::codec::envelope_of;
use crate::codec::encryption_key_from_keys;
use crate::codec::fixed_key_from_entropy;
use crate::codec::generator_key_from_entropy;
use crate::codec::intermediate_key_from_keys;
use crate::codec::modulus_key_from_entropy;
use crate::codec::random_key_from_entropy;
use crate::codec::response_data_capacity;
use crate::codec::spec_response_data_capacity;
use crate::error::Error;
use crate::error::STATUS_COMMAND_CANNOT_BE_PROCESSED;
use crate::error::STATUS_KEY_NOT_SET;
use crate::error::STATUS_OK;
use crate::exchange::Exchange;
use crate::response::assemble_response;
use crate::response::encrypted_response;
use crate::response::plain_response;
use crate::response::spec_key_field;
use crate::response::Response;
use crate::wire::framed;
use crate::wire::reframed;
use crate::wire::frame_message;
use crate::wire::seq_id_byte;
use crate::wire::spec_seq_id_byte;

verus! {

/// Reset command byte.
pub const CMD_RESET: u8 = 0x01;

/// SetInhibits command byte.
pub const CMD_SET_INHIBITS: u8 = 0x02;

/// DisplayOn command byte.
pub const CMD_DISPLAY_ON: u8 = 0x03;

/// DisplayOff command byte.
pub const CMD_DISPLAY_OFF: u8 = 0x04;

/// SetupRequest command byte.
pub const CMD_SETUP_REQUEST: u8 = 0x05;

/// HostProtocolVersion command byte.
pub const CMD_HOST_PROTOCOL_VERSION: u8 = 0x06;

/// Poll command byte.
pub const CMD_POLL: u8 = 0x07;

/// Reject command byte.
pub const CMD_REJECT: u8 = 0x08;

/// Disable command byte.
pub const CMD_DISABLE: u8 = 0x09;

/// Enable command byte.
pub const CMD_ENABLE: u8 = 0x0a;

/// SerialNumber command byte.
pub const CMD_SERIAL_NUMBER: u8 = 0x0c;

/// UnitData command byte.
pub const CMD_UNIT_DATA: u8 = 0x0d;

/// ChannelValueData command byte.
pub const CMD_CHANNEL_VALUE_DATA: u8 = 0x0e;

/// Synchronisation command byte.
pub const CMD_SYNC: u8 = 0x11;

/// LastRejectCode command byte.
pub const CMD_LAST_REJECT_CODE: u8 = 0x17;

/// Hold command byte.
pub const CMD_HOLD: u8 = 0x18;

/// SetBarcodeReaderConfiguration command byte.
pub const CMD_SET_BARCODE_READER_CONFIGURATION: u8 = 0x23;

/// GetBarcodeReaderConfiguration command byte.
pub const CMD_GET_BARCODE_READER_CONFIGURATION: u8 = 0x24;

/// GetBarcodeInhibit command byte.
pub const CMD_GET_BARCODE_INHIBIT: u8 = 0x25;

/// SetBarcodeInhibit command byte.
pub const CMD_SET_BARCODE_INHIBIT: u8 = 0x26;

/// GetBarcodeData command byte.
pub const CMD_GET_BARCODE_DATA: u8 = 0x27;

/// Empty command byte.
pub const CMD_EMPTY: u8 = 0x3f;

/// SetGenerator command byte.
pub const CMD_SET_GENERATOR: u8 = 0x4a;

/// SetModulus command byte.
pub const CMD_SET_MODULUS: u8 = 0x4b;

/// RequestKeyExchange command byte.
pub const CMD_REQUEST_KEY_EXCHANGE: u8 = 0x4c;

/// SmartEmpty command byte.
pub const CMD_SMART_EMPTY: u8 = 0x52;

/// ConfigureBezel command byte.
pub const CMD_CONFIGURE_BEZEL: u8 = 0x54;

/// PollWithAck command byte.
pub const CMD_POLL_WITH_ACK: u8 = 0x56;

/// EventAck command byte.
pub const CMD_EVENT_ACK: u8 = 0x57;

/// SetEncryptionKey command byte.
pub const CMD_SET_ENCRYPTION_KEY: u8 = 0x60;

/// EncryptionReset command byte.
pub const CMD_ENCRYPTION_RESET: u8 = 0x61;

/// Message type byte of an encrypted envelope.
pub const CMD_ENCRYPTED: u8 = 0x7e;

/// The default fixed key seed shared by all of the vendor's devices.
pub const DEFAULT_FIXED_KEY: u64 = 0x0123456701234567;

/// How many fresh candidates a regeneration draws before giving up and
/// keeping key material that already satisfies the invariant.
pub const ENTROPY_ATTEMPTS: u64 = 1_000_000;

/// The 16-byte symmetric-key material the fixed key alone provides: its
/// little-endian bytes followed by zeros.
pub open spec fn fixed_key_material(fixed: u64) -> Seq<u8> {
    spec_u64_to_le_bytes(fixed) + seq![0u8, 0u8, 0u8, 0u8, 0u8, 0u8, 0u8, 0u8]
}

/// The installed symmetric key: the fixed-key material with its low-order
/// eight bytes overwritten by the little-endian encoding of the shared
/// secret.
pub open spec fn symmetric_key_bytes(fixed: u64, secret: u64) -> Seq<u8> {
    spec_u64_to_le_bytes(secret) + fixed_key_material(fixed).skip(8)
}

/// Builds the symmetric key bytes from the fixed key and the derived
/// shared secret.
pub fn build_symmetric_key(fixed: u64, secret: u64) -> (r: Vec<u8>)
    ensures
        r@ == symmetric_key_bytes(fixed, secret),
        r@.len() == 16,
{
    let mut key = u64_to_le_bytes(secret);
    let mut i: usize = 0;
    while i < 8
        invariant
            i <= 8,
            key@ == spec_u64_to_le_bytes(secret) + Seq::new(i as nat, |_j: int| 0u8),
        decreases 8 - i,
    {
        key.push(0u8);
        proof {
            assert(key@ =~= spec_u64_to_le_bytes(secret) + Seq::new(
                (i + 1) as nat,
                |_j: int| 0u8,
            ));
        }
        i = i + 1;
    }
    proof {
        vstd::bytes::lemma_auto_spec_u64_to_from_le_bytes();
        assert(key@ =~= symmetric_key_bytes(fixed, secret));
    }
    key
}

/// One session with one peripheral device.
pub struct DeviceHandle {
    /// Generator prime of the asymmetric handshake.
    pub generator: u64,
    /// Modulus prime of the asymmetric handshake; always smaller than the
    /// generator.
    pub modulus: u64,
    /// Ephemeral secret of the current handshake attempt.
    pub random: u64,
    /// Locally generated key seed mixed into the symmetric key.
    pub fixed_key: u64,
    /// The installed symmetric key, absent until a key exchange succeeds.
    pub key: Option<Vec<u8>>,
    /// Process-wide sequence flag, alternated after every successful
    /// frame exchange.
    pub sequence_flag: bool,
    /// Whether the background polling routine is running.
    pub polling_inited: bool,
}

/// Whether the background polling routine has started.
pub fn polling_inited(handle: &DeviceHandle) -> (r: bool)
    ensures
        r == handle.polling_inited,
{
    handle.polling_inited
}

/// Sets the flag indicating whether the polling routine started.
pub fn set_polling_inited(handle: &mut DeviceHandle, inited: bool)
    ensures
        (*final(handle) == DeviceHandle { polling_inited: inited, ..*old(handle) }),
{
    handle.polling_inited = inited;
}

/// The process-wide sequence flag.
pub fn sequence_flag(handle: &DeviceHandle) -> (r: bool)
    ensures
        r == handle.sequence_flag,
{
    handle.sequence_flag
}

/// Sets the process-wide sequence flag.
pub fn set_sequence_flag(handle: &mut DeviceHandle, flag: bool)
    ensures
        (*final(handle) == DeviceHandle { sequence_flag: flag, ..*old(handle) }),
{
    handle.sequence_flag = flag;
}

/// The relation `start_background_polling` establishes between the state
/// before, the state after, and whether a poller thread must be spawned.
pub open spec fn spec_start_polling(pre: DeviceHandle, post: DeviceHandle, spawn: bool) -> bool {
    &&& post == DeviceHandle { polling_inited: true, ..pre }
    &&& spawn == !pre.polling_inited
}

impl DeviceHandle {
    /// The handle's invariant: the modulus is nonzero (the key derivation
    /// divides by it) and smaller than the generator, and an installed
    /// symmetric key has exactly sixteen bytes.
    pub open spec fn wf(&self) -> bool {
        &&& 0 < self.modulus < self.generator
        &&& (self.key matches Some(k) ==> k@.len() == 16)
    }

    /// The installed symmetric key's bytes.
    pub open spec fn installed_key(&self) -> Seq<u8> {
        match self.key {
            Some(k) => k@,
            None => Seq::empty(),
        }
    }

    /// The locally derived intermediate key of the handshake:
    /// `(generator ^ random) mod modulus`.
    pub open spec fn spec_intermediate_key(&self) -> int {
        pow(self.generator as int, self.random as nat) % (self.modulus as int)
    }

    /// The shared secret derived from the device's intermediate key:
    /// `(device intermediate key ^ random) mod modulus`.
    pub open spec fn spec_shared_secret(&self, dev_inter: u64) -> int {
        pow(dev_inter as int, self.random as nat) % (self.modulus as int)
    }

    /// What beginning a command exchange guarantees: a fresh exchange for
    /// `kind` under the current sequence flag, inside an encrypted
    /// envelope exactly when a symmetric key is installed; the wire
    /// carries `data` verbatim when in the clear, and when encrypted it
    /// is an envelope of `data` under the installed key, re-issued under
    /// the current sequence flag.
    pub open spec fn begins(&self, ex: Exchange, kind: u8, data: Seq<u8>) -> bool {
        &&& ex.wf()
        &&& ex.phase is Sending
        &&& ex.kind == kind
        &&& ex.sent_flag == self.sequence_flag
        &&& ex.initial_flag == self.sequence_flag
        &&& ex.write_failures == 0
        &&& (ex.encrypted <==> self.key is Some)
        &&& (!ex.encrypted ==> ex.wire@ == framed(spec_seq_id_byte(self.sequence_flag, 0), data))
        &&& (ex.encrypted ==> (exists|env: Seq<u8>|
            #[trigger] envelope_of(self.installed_key(), data, env) && ex.wire@ == reframed(
                env,
                spec_seq_id_byte(self.sequence_flag, 0),
            )))
    }

    /// Creates a handle with fresh key material: a generator prime, a
    /// modulus prime drawn until it is smaller than the generator, a
    /// fresh random key, the default fixed key, and no symmetric key.
    /// Opening and configuring the serial device is the embedding
    /// program's part.
    pub fn new() -> (h: DeviceHandle)
        ensures
            h.wf(),
            h.key is None,
            !h.sequence_flag,
            !h.polling_inited,
            h.fixed_key == DEFAULT_FIXED_KEY,
    {
        let generator: u64 = generator_key_from_entropy();
        let mut modulus: u64 = modulus_key_from_entropy();
        let mut attempts: u64 = 0;
        while modulus >= generator && attempts < ENTROPY_ATTEMPTS
            invariant
                modulus >= 2,
            decreases ENTROPY_ATTEMPTS - attempts,
        {
            modulus = modulus_key_from_entropy();
            attempts = attempts + 1;
        }
        if modulus >= generator {
            // Entropy would not yield a candidate below the generator in
            // any reasonable number of draws; fall back to the largest
            // value the invariant admits.
            modulus = generator - 1;
        }
        let random: u64 = random_key_from_entropy();
        DeviceHandle {
            generator,
            modulus,
            random,
            fixed_key: DEFAULT_FIXED_KEY,
            key: None,
            sequence_flag: false,
            polling_inited: false,
        }
    }

    /// Builds a handle from explicit key material, accepted only when the
    /// modulus is nonzero and smaller than the generator.
    pub fn with_key_material(generator: u64, modulus: u64, random: u64) -> (r: Option<
        DeviceHandle,
    >)
        ensures
            (0 < modulus < generator) <==> r is Some,
            r matches Some(h) ==> {
                &&& h.wf()
                &&& h.generator == generator
                &&& h.modulus == modulus
                &&& h.random == random
                &&& h.fixed_key == DEFAULT_FIXED_KEY
                &&& h.key is None
                &&& !h.sequence_flag
                &&& !h.polling_inited
            },
    {
        if 0 < modulus && modulus < generator {
            Some(
                DeviceHandle {
                    generator,
                    modulus,
                    random,
                    fixed_key: DEFAULT_FIXED_KEY,
                    key: None,
                    sequence_flag: false,
                    polling_inited: false,
                },
            )
        } else {
            None
        }
    }

    /// The installed symmetric key, if any.
    pub fn encryption_key(&self) -> (r: &Option<Vec<u8>>)
        ensures
            r is Some <==> self.key is Some,
            r matches Some(k) ==> (self.key matches Some(k0) && k@ == k0@),
    {
        &self.key
    }

    /// Draws a fresh generator key and clears the installed symmetric
    /// key: changing any handshake parameter invalidates the previously
    /// negotiated secret.  Candidates not above the modulus are discarded
    /// and regenerated, keeping the modulus-below-generator invariant.
    pub fn new_generator_key(&mut self)
        requires
            old(self).wf(),
        ensures
            final(self).wf(),
            final(self).key is None,
            final(self).modulus == old(self).modulus,
            final(self).random == old(self).random,
            final(self).fixed_key == old(self).fixed_key,
            final(self).sequence_flag == old(self).sequence_flag,
            final(self).polling_inited == old(self).polling_inited,
    {
        let mut generator: u64 = generator_key_from_entropy();
        let mut attempts: u64 = 0;
        while generator <= self.modulus && attempts < ENTROPY_ATTEMPTS
            invariant
                old(self).wf(),
                (*self == *old(self)),
            decreases ENTROPY_ATTEMPTS - attempts,
        {
            generator = generator_key_from_entropy();
            attempts = attempts + 1;
        }
        if generator > self.modulus {
            self.generator = generator;
        }
        self.reset_key();
    }

    /// Draws a fresh modulus key and clears the installed symmetric key.
    /// Candidates not below the generator are discarded and regenerated.
    pub fn new_modulus_key(&mut self)
        requires
            old(self).wf(),
        ensures
            final(self).wf(),
            final(self).key is None,
            final(self).modulus < final(self).generator,
            final(self).generator == old(self).generator,
            final(self).random == old(self).random,
            final(self).fixed_key == old(self).fixed_key,
            final(self).sequence_flag == old(self).sequence_flag,
            final(self).polling_inited == old(self).polling_inited,
    {
        let mut modulus: u64 = modulus_key_from_entropy();
        let mut attempts: u64 = 0;
        while (modulus >= self.generator) && attempts < ENTROPY_ATTEMPTS
            invariant
                old(self).wf(),
                (*self == *old(self)),
                modulus >= 2,
            decreases ENTROPY_ATTEMPTS - attempts,
        {
            modulus = modulus_key_from_entropy();
            attempts = attempts + 1;
        }
        if modulus < self.generator {
            self.modulus = modulus;
        }
        self.reset_key();
    }

    /// Installs an explicit modulus candidate: accepted exactly when it
    /// is nonzero and smaller than the generator, in which case the
    /// installed symmetric key is cleared; a rejected candidate is
    /// discarded and changes nothing.
    pub fn try_set_modulus(&mut self, candidate: u64) -> (accepted: bool)
        requires
            old(self).wf(),
        ensures
            final(self).wf(),
            accepted == (0 < candidate < old(self).generator),
            accepted ==> {
                &&& final(self).modulus == candidate
                &&& final(self).key is None
                &&& final(self).generator == old(self).generator
                &&& final(self).random == old(self).random
                &&& final(self).fixed_key == old(self).fixed_key
                &&& final(self).sequence_flag == old(self).sequence_flag
                &&& final(self).polling_inited == old(self).polling_inited
            },
            !accepted ==> *final(self) == *old(self),
    {
        if 0 < candidate && candidate < self.generator {
            self.modulus = candidate;
            self.reset_key();
            true
        } else {
            false
        }
    }

    /// Draws a fresh random key and clears the installed symmetric key.
    pub fn new_random_key(&mut self)
        requires
            old(self).wf(),
        ensures
            final(self).wf(),
            final(self).key is None,
            final(self).generator == old(self).generator,
            final(self).modulus == old(self).modulus,
            final(self).fixed_key == old(self).fixed_key,
            final(self).sequence_flag == old(self).sequence_flag,
            final(self).polling_inited == old(self).polling_inited,
    {
        let random: u64 = random_key_from_entropy();
        self.random = random;
        self.reset_key();
    }

    /// Clears the installed symmetric key; encrypted operations need a
    /// new key negotiation afterwards.
    fn reset_key(&mut self)
        ensures
            final(self).key is None,
            (*final(self) == DeviceHandle { key: None, ..*old(self) }),
    {
        self.key = None;
    }

    /// Begins one command exchange, applying the dispatch rule: inside an
    /// encrypted envelope when a symmetric key is installed, in the clear
    /// otherwise.  The data bound is the envelope wrapper's; the
    /// library's own commands carry at most nine payload bytes.
    pub fn begin_command(&self, kind: u8, data: &Vec<u8>) -> (ex: Exchange)
        requires
            self.wf(),
            1 <= data@.len() <= 105,
            data@[0] == kind,
        ensures
            self.begins(ex, kind, data@),
    {
        match &self.key {
            Some(k) => {
                let envelope = encrypt_envelope(k, data);
                let ex = Exchange::new_encrypted(kind, &envelope, self.sequence_flag);
                proof {
                    assert(k@ == self.installed_key());
                    assert(envelope_of(self.installed_key(), data@, envelope@) && ex.wire@
                        == reframed(envelope@, spec_seq_id_byte(self.sequence_flag, 0)));
                }
                ex
            },
            None => Exchange::new_plain(kind, data, self.sequence_flag),
        }
    }

    /// Acknowledges a successful write: the exchange moves to reading,
    /// and the process-wide sequence flag becomes the complement of the
    /// flag just sent, so the next command is recognised as new rather
    /// than a retransmission.
    pub fn commit_write(&mut self, ex: &mut Exchange)
        requires
            old(ex).wf(),
            old(ex).phase is Sending,
        ensures
            final(self).sequence_flag == !old(ex).sent_flag,
            (*final(self) == DeviceHandle {
                sequence_flag: !old(ex).sent_flag,
                ..*old(self)
            }),
            final(ex).wf(),
            final(ex).phase is AwaitStx,
            (*final(ex) == Exchange { phase: crate::exchange::Phase::AwaitStx, ..*old(ex) }),
    {
        let next = ex.write_succeeded();
        self.sequence_flag = next;
    }

    /// Concludes a completed exchange into a typed response.
    ///
    /// A plaintext exchange hands the validated frame's payload back — a
    /// success exactly when the codec accepts the frame.  An encrypted
    /// exchange first checks the outer status byte: a response saying the
    /// key is not set means the device rejected the envelope, an
    /// encryption error; otherwise the envelope is decrypted and the
    /// response rebuilt from the decrypted payload.  A declared length
    /// beyond what the expected response may carry is a framing error on
    /// either path.
    pub fn conclude(&self, ex: &Exchange) -> (r: Result<Response, Error>)
        requires
            self.wf(),
            ex.wf(),
            ex.phase is Complete,
        ensures
            (r matches Ok(resp) ==> resp.wf() && resp.kind == ex.kind),
            (r matches Err(e) ==> (e is Decode || e is InvalidLength || e is Encryption)),
            (ex.encrypted && self.key is None) ==> r == Err::<Response, Error>(
                Error::Encryption(STATUS_KEY_NOT_SET),
            ),
            !ex.encrypted ==> {
                &&& (ex.frame@[2] > spec_response_data_capacity(ex.kind) ==> r == Err::<
                    Response,
                    Error,
                >(Error::InvalidLength(ex.frame@[2])))
                &&& (ex.frame@[2] <= spec_response_data_capacity(ex.kind) ==> (r is Ok
                    <==> decode_accepts(ex.frame@, ex.kind)))
                &&& (r matches Ok(resp) ==> resp.model() == plain_response(ex.kind, ex.frame@))
            },
            (ex.encrypted && self.key is Some) ==> {
                &&& (ex.frame@[2] > spec_response_data_capacity(CMD_ENCRYPTED) ==> r == Err::<
                    Response,
                    Error,
                >(Error::InvalidLength(ex.frame@[2])))
                &&& (ex.frame@[2] <= spec_response_data_capacity(CMD_ENCRYPTED) ==> {
                    &&& (r is Ok <==> (decode_accepts(ex.frame@, CMD_ENCRYPTED) && ex.frame@[3]
                        != STATUS_KEY_NOT_SET && decrypted_data_of(
                        self.installed_key(),
                        ex.frame@,
                    ).len() >= 1))
                    &&& ((decode_accepts(ex.frame@, CMD_ENCRYPTED) && ex.frame@[3]
                        == STATUS_KEY_NOT_SET) ==> r == Err::<Response, Error>(
                        Error::Encryption(STATUS_KEY_NOT_SET),
                    ))
                    &&& (r matches Ok(resp) ==> resp.model() == encrypted_response(
                        ex.kind,
                        self.installed_key(),
                        ex.frame@,
                    ))
                })
            },
    {
        let frame = ex.response_frame();
        let declared: u8 = frame[2];
        if ex.encrypted {
            match &self.key {
                None => Err(Error::Encryption(STATUS_KEY_NOT_SET)),
                Some(k) => {
                    if declared > response_data_capacity(CMD_ENCRYPTED) {
                        return Err(Error::InvalidLength(declared));
                    }
                    match decode_frame(frame, CMD_ENCRYPTED) {
                        Err(e) => Err(e),
                        Ok(outer) => {
                            if outer[0] == STATUS_KEY_NOT_SET {
                                Err(Error::Encryption(STATUS_KEY_NOT_SET))
                            } else {
                                proof {
                                    assert(k@ == self.installed_key());
                                }
                                let payload = decrypt_envelope(k, frame);
                                assemble_response(ex.kind, payload)
                            }
                        },
                    }
                },
            }
        } else {
            if declared > response_data_capacity(ex.kind) {
                return Err(Error::InvalidLength(declared));
            }
            match decode_frame(frame, ex.kind) {
                Err(e) => Err(e),
                Ok(payload) => assemble_response(ex.kind, payload),
            }
        }
    }
}


/// Frame data holding just a command byte.
fn single_byte_data(kind: u8) -> (r: Vec<u8>)
    ensures
        r@ == seq![kind],
{
    let mut v: Vec<u8> = Vec::new();
    v.push(kind);
    proof {
        assert(v@ =~= seq![kind]);
    }
    v
}

/// Frame data holding a command byte and a little-endian 64-bit key.
fn key_data(kind: u8, value: u64) -> (r: Vec<u8>)
    ensures
        r@ == seq![kind] + spec_u64_to_le_bytes(value),
        r@.len() == 9,
        r@[0] == kind,
{
    let mut v: Vec<u8> = Vec::new();
    v.push(kind);
    let le = u64_to_le_bytes(value);
    v.extend_from_slice(le.as_slice());
    proof {
        vstd::bytes::lemma_auto_spec_u64_to_from_le_bytes();
        assert(v@ =~= seq![kind] + spec_u64_to_le_bytes(value));
    }
    v
}

impl DeviceHandle {
    /// Begins a Poll exchange: the keep-alive that reports the events
    /// accumulated since the last poll.
    pub fn poll(&self) -> (ex: Exchange)
        requires
            self.wf(),
        ensures
            self.begins(ex, CMD_POLL, seq![CMD_POLL]),
    {
        let data = single_byte_data(CMD_POLL);
        self.begin_command(CMD_POLL, &data)
    }

    /// Begins a PollWithAck exchange.
    pub fn poll_with_ack(&self) -> (ex: Exchange)
        requires
            self.wf(),
        ensures
            self.begins(ex, CMD_POLL_WITH_ACK, seq![CMD_POLL_WITH_ACK]),
    {
        let data = single_byte_data(CMD_POLL_WITH_ACK);
        self.begin_command(CMD_POLL_WITH_ACK, &data)
    }

    /// Begins an EventAck exchange.
    pub fn event_ack(&self) -> (ex: Exchange)
        requires
            self.wf(),
        ensures
            self.begins(ex, CMD_EVENT_ACK, seq![CMD_EVENT_ACK]),
    {
        let data = single_byte_data(CMD_EVENT_ACK);
        self.begin_command(CMD_EVENT_ACK, &data)
    }

    /// Begins a Reject exchange.
    pub fn reject(&self) -> (ex: Exchange)
        requires
            self.wf(),
        ensures
            self.begins(ex, CMD_REJECT, seq![CMD_REJECT]),
    {
        let data = single_byte_data(CMD_REJECT);
        self.begin_command(CMD_REJECT, &data)
    }

    /// Begins a Synchronisation exchange.  Once it succeeds, the caller
    /// finishes with [`complete_sync`](Self::complete_sync), which pins
    /// the next sequence flag.
    pub fn sync(&self) -> (ex: Exchange)
        requires
            self.wf(),
        ensures
            self.begins(ex, CMD_SYNC, seq![CMD_SYNC]),
    {
        let data = single_byte_data(CMD_SYNC);
        self.begin_command(CMD_SYNC, &data)
    }

    /// After a successful synchronisation the next sequence flag sent
    /// must be set.
    pub fn complete_sync(&mut self)
        ensures
            (*final(self) == DeviceHandle { sequence_flag: true, ..*old(self) }),
    {
        self.sequence_flag = true;
    }

    /// Begins an Enable exchange.
    pub fn enable(&self) -> (ex: Exchange)
        requires
            self.wf(),
        ensures
            self.begins(ex, CMD_ENABLE, seq![CMD_ENABLE]),
    {
        let data = single_byte_data(CMD_ENABLE);
        self.begin_command(CMD_ENABLE, &data)
    }

    /// Begins a Disable exchange.
    pub fn disable(&self) -> (ex: Exchange)
        requires
            self.wf(),
        ensures
            self.begins(ex, CMD_DISABLE, seq![CMD_DISABLE]),
    {
        let data = single_byte_data(CMD_DISABLE);
        self.begin_command(CMD_DISABLE, &data)
    }

    /// Begins a DisplayOff exchange.
    pub fn display_off(&self) -> (ex: Exchange)
        requires
            self.wf(),
        ensures
            self.begins(ex, CMD_DISPLAY_OFF, seq![CMD_DISPLAY_OFF]),
    {
        let data = single_byte_data(CMD_DISPLAY_OFF);
        self.begin_command(CMD_DISPLAY_OFF, &data)
    }

    /// Begins a DisplayOn exchange.
    pub fn display_on(&self) -> (ex: Exchange)
        requires
            self.wf(),
        ensures
            self.begins(ex, CMD_DISPLAY_ON, seq![CMD_DISPLAY_ON]),
    {
        let data = single_byte_data(CMD_DISPLAY_ON);
        self.begin_command(CMD_DISPLAY_ON, &data)
    }

    /// Begins a SetupRequest exchange.
    pub fn setup_request(&self) -> (ex: Exchange)
        requires
            self.wf(),
        ensures
            self.begins(ex, CMD_SETUP_REQUEST, seq![CMD_SETUP_REQUEST]),
    {
        let data = single_byte_data(CMD_SETUP_REQUEST);
        self.begin_command(CMD_SETUP_REQUEST, &data)
    }

    /// Begins a UnitData exchange.
    pub fn unit_data(&self) -> (ex: Exchange)
        requires
            self.wf(),
        ensures
            self.begins(ex, CMD_UNIT_DATA, seq![CMD_UNIT_DATA]),
    {
        let data = single_byte_data(CMD_UNIT_DATA);
        self.begin_command(CMD_UNIT_DATA, &data)
    }

    /// Begins a ChannelValueData exchange.
    pub fn channel_value_data(&self) -> (ex: Exchange)
        requires
            self.wf(),
        ensures
            self.begins(ex, CMD_CHANNEL_VALUE_DATA, seq![CMD_CHANNEL_VALUE_DATA]),
    {
        let data = single_byte_data(CMD_CHANNEL_VALUE_DATA);
        self.begin_command(CMD_CHANNEL_VALUE_DATA, &data)
    }

    /// Begins a LastRejectCode exchange.
    pub fn last_reject_code(&self) -> (ex: Exchange)
        requires
            self.wf(),
        ensures
            self.begins(ex, CMD_LAST_REJECT_CODE, seq![CMD_LAST_REJECT_CODE]),
    {
        let data = single_byte_data(CMD_LAST_REJECT_CODE);
        self.begin_command(CMD_LAST_REJECT_CODE, &data)
    }

    /// Begins a Hold exchange.
    pub fn hold(&self) -> (ex: Exchange)
        requires
            self.wf(),
        ensures
            self.begins(ex, CMD_HOLD, seq![CMD_HOLD]),
    {
        let data = single_byte_data(CMD_HOLD);
        self.begin_command(CMD_HOLD, &data)
    }

    /// Begins a SerialNumber exchange.
    pub fn serial_number(&self) -> (ex: Exchange)
        requires
            self.wf(),
        ensures
            self.begins(ex, CMD_SERIAL_NUMBER, seq![CMD_SERIAL_NUMBER]),
    {
        let data = single_byte_data(CMD_SERIAL_NUMBER);
        self.begin_command(CMD_SERIAL_NUMBER, &data)
    }

    /// Begins a GetBarcodeReaderConfiguration exchange.
    pub fn get_barcode_reader_configuration(&self) -> (ex: Exchange)
        requires
            self.wf(),
        ensures
            self.begins(
                ex,
                CMD_GET_BARCODE_READER_CONFIGURATION,
                seq![CMD_GET_BARCODE_READER_CONFIGURATION],
            ),
    {
        let data = single_byte_data(CMD_GET_BARCODE_READER_CONFIGURATION);
        self.begin_command(CMD_GET_BARCODE_READER_CONFIGURATION, &data)
    }

    /// Begins the exchange behind the barcode-reader presence query; the
    /// caller concludes it and applies [`barcode_reader_present`].
    pub fn has_barcode_reader(&self) -> (ex: Exchange)
        requires
            self.wf(),
        ensures
            self.begins(
                ex,
                CMD_GET_BARCODE_READER_CONFIGURATION,
                seq![CMD_GET_BARCODE_READER_CONFIGURATION],
            ),
    {
        self.get_barcode_reader_configuration()
    }

    /// Begins a GetBarcodeInhibit exchange.
    pub fn get_barcode_inhibit(&self) -> (ex: Exchange)
        requires
            self.wf(),
        ensures
            self.begins(ex, CMD_GET_BARCODE_INHIBIT, seq![CMD_GET_BARCODE_INHIBIT]),
    {
        let data = single_byte_data(CMD_GET_BARCODE_INHIBIT);
        self.begin_command(CMD_GET_BARCODE_INHIBIT, &data)
    }

    /// Begins a GetBarcodeData exchange.
    pub fn get_barcode_data(&self) -> (ex: Exchange)
        requires
            self.wf(),
        ensures
            self.begins(ex, CMD_GET_BARCODE_DATA, seq![CMD_GET_BARCODE_DATA]),
    {
        let data = single_byte_data(CMD_GET_BARCODE_DATA);
        self.begin_command(CMD_GET_BARCODE_DATA, &data)
    }

    /// Begins a HostProtocolVersion exchange for the given version byte.
    pub fn host_protocol_version(&self, version: u8) -> (ex: Exchange)
        requires
            self.wf(),
        ensures
            self.begins(
                ex,
                CMD_HOST_PROTOCOL_VERSION,
                seq![CMD_HOST_PROTOCOL_VERSION, version],
            ),
    {
        let mut data: Vec<u8> = Vec::new();
        data.push(CMD_HOST_PROTOCOL_VERSION);
        data.push(version);
        proof {
            assert(data@ =~= seq![CMD_HOST_PROTOCOL_VERSION, version]);
        }
        self.begin_command(CMD_HOST_PROTOCOL_VERSION, &data)
    }

    /// Begins a SetInhibits exchange for a list of one to eight channel
    /// bitfield bytes; any other list length is rejected as malformed.
    pub fn set_inhibits(&self, enable_list: &Vec<u8>) -> (r: Result<Exchange, Error>)
        requires
            self.wf(),
        ensures
            (1 <= enable_list@.len() <= 8) <==> r is Ok,
            (r matches Ok(ex) ==> self.begins(
                ex,
                CMD_SET_INHIBITS,
                seq![CMD_SET_INHIBITS] + enable_list@,
            )),
            (r matches Err(e) ==> e is InvalidLength),
    {
        if enable_list.len() < 1 || enable_list.len() > 8 {
            let n: u8 = if enable_list.len() > 255 {
                255
            } else {
                enable_list.len() as u8
            };
            return Err(Error::InvalidLength(n));
        }
        let mut data: Vec<u8> = Vec::new();
        data.push(CMD_SET_INHIBITS);
        data.extend_from_slice(enable_list.as_slice());
        proof {
            assert(data@ =~= seq![CMD_SET_INHIBITS] + enable_list@);
        }
        Ok(self.begin_command(CMD_SET_INHIBITS, &data))
    }

    /// Begins a SetBarcodeReaderConfiguration exchange from the plain
    /// configuration bytes: enabled readers, barcode format, and the
    /// number of barcode characters.
    pub fn set_barcode_reader_configuration(
        &self,
        enabled_status: u8,
        format: u8,
        num_characters: u8,
    ) -> (ex: Exchange)
        requires
            self.wf(),
        ensures
            self.begins(
                ex,
                CMD_SET_BARCODE_READER_CONFIGURATION,
                seq![CMD_SET_BARCODE_READER_CONFIGURATION, enabled_status, format, num_characters],
            ),
    {
        let mut data: Vec<u8> = Vec::new();
        data.push(CMD_SET_BARCODE_READER_CONFIGURATION);
        data.push(enabled_status);
        data.push(format);
        data.push(num_characters);
        proof {
            assert(data@ =~= seq![
                CMD_SET_BARCODE_READER_CONFIGURATION,
                enabled_status,
                format,
                num_characters,
            ]);
        }
        self.begin_command(CMD_SET_BARCODE_READER_CONFIGURATION, &data)
    }

    /// Begins a SetBarcodeInhibit exchange for the given inhibit byte.
    pub fn set_barcode_inhibit(&self, inhibit: u8) -> (ex: Exchange)
        requires
            self.wf(),
        ensures
            self.begins(ex, CMD_SET_BARCODE_INHIBIT, seq![CMD_SET_BARCODE_INHIBIT, inhibit]),
    {
        let mut data: Vec<u8> = Vec::new();
        data.push(CMD_SET_BARCODE_INHIBIT);
        data.push(inhibit);
        proof {
            assert(data@ =~= seq![CMD_SET_BARCODE_INHIBIT, inhibit]);
        }
        self.begin_command(CMD_SET_BARCODE_INHIBIT, &data)
    }

    /// Begins a ConfigureBezel exchange: a colour and where to store it.
    pub fn configure_bezel(&self, red: u8, green: u8, blue: u8, storage: u8) -> (ex: Exchange)
        requires
            self.wf(),
        ensures
            self.begins(
                ex,
                CMD_CONFIGURE_BEZEL,
                seq![CMD_CONFIGURE_BEZEL, red, green, blue, storage],
            ),
    {
        let mut data: Vec<u8> = Vec::new();
        data.push(CMD_CONFIGURE_BEZEL);
        data.push(red);
        data.push(green);
        data.push(blue);
        data.push(storage);
        proof {
            assert(data@ =~= seq![CMD_CONFIGURE_BEZEL, red, green, blue, storage]);
        }
        self.begin_command(CMD_CONFIGURE_BEZEL, &data)
    }

    /// Begins a SetGenerator exchange, transmitting the local generator
    /// key.  On a non-success response the caller regenerates the
    /// generator and retries the whole handshake.
    pub fn set_generator(&self) -> (ex: Exchange)
        requires
            self.wf(),
        ensures
            self.begins(
                ex,
                CMD_SET_GENERATOR,
                seq![CMD_SET_GENERATOR] + spec_u64_to_le_bytes(self.generator),
            ),
    {
        let data = key_data(CMD_SET_GENERATOR, self.generator);
        self.begin_command(CMD_SET_GENERATOR, &data)
    }

    /// Begins a SetModulus exchange, transmitting the local modulus key.
    /// On a non-success response the caller regenerates the modulus
    /// (keeping it below the generator) and retries.
    pub fn set_modulus(&self) -> (ex: Exchange)
        requires
            self.wf(),
        ensures
            self.begins(
                ex,
                CMD_SET_MODULUS,
                seq![CMD_SET_MODULUS] + spec_u64_to_le_bytes(self.modulus),
            ),
    {
        let data = key_data(CMD_SET_MODULUS, self.modulus);
        self.begin_command(CMD_SET_MODULUS, &data)
    }

    /// Begins a RequestKeyExchange exchange, transmitting the local
    /// intermediate key `(generator ^ random) mod modulus`.  The caller
    /// concludes the exchange and hands the response to
    /// [`complete_key_exchange`](Self::complete_key_exchange); on a
    /// non-success response it regenerates the random key and retries.
    pub fn request_key_exchange(&self) -> (ex: Exchange)
        requires
            self.wf(),
        ensures
            self.begins(
                ex,
                CMD_REQUEST_KEY_EXCHANGE,
                seq![CMD_REQUEST_KEY_EXCHANGE] + spec_u64_to_le_bytes(
                    self.spec_intermediate_key() as u64,
                ),
            ),
    {
        let inter: u64 = intermediate_key_from_keys(self.generator, self.random, self.modulus);
        let data = key_data(CMD_REQUEST_KEY_EXCHANGE, inter);
        self.begin_command(CMD_REQUEST_KEY_EXCHANGE, &data)
    }

    /// Finishes the key-exchange step.  When the device reported
    /// success, the shared secret is derived from its returned
    /// intermediate key and the local random and modulus keys, and the
    /// symmetric key — the fixed-key material with its low-order bytes
    /// overwritten by the secret's little-endian encoding — is installed.
    /// On any other status nothing changes.
    pub fn complete_key_exchange(&mut self, resp: &Response)
        requires
            old(self).wf(),
            resp.wf(),
        ensures
            final(self).wf(),
            resp.data@[0] == STATUS_OK ==> (final(self).key matches Some(k) && k@
                == symmetric_key_bytes(
                old(self).fixed_key,
                old(self).spec_shared_secret(
                    spec_u64_from_le_bytes(spec_key_field(resp.data@)),
                ) as u64,
            )),
            resp.data@[0] != STATUS_OK ==> *final(self) == *old(self),
            final(self).generator == old(self).generator,
            final(self).modulus == old(self).modulus,
            final(self).random == old(self).random,
            final(self).fixed_key == old(self).fixed_key,
            final(self).sequence_flag == old(self).sequence_flag,
            final(self).polling_inited == old(self).polling_inited,
    {
        if resp.status() == STATUS_OK {
            let dev_inter: u64 = resp.intermediate_key();
            let secret: u64 = encryption_key_from_keys(dev_inter, self.random, self.modulus);
            let k = build_symmetric_key(self.fixed_key, secret);
            self.key = Some(k);
        }
    }

    /// Begins an Empty exchange.  Emptying only makes sense on a secure
    /// channel: without an installed symmetric key it fails with an
    /// encryption error rather than sending in the clear.
    pub fn empty(&self) -> (r: Result<Exchange, Error>)
        requires
            self.wf(),
        ensures
            self.key is None ==> r == Err::<Exchange, Error>(Error::Encryption(STATUS_KEY_NOT_SET)),
            self.key is Some ==> (r matches Ok(ex) && self.begins(ex, CMD_EMPTY, seq![CMD_EMPTY])
                && ex.encrypted),
    {
        match &self.key {
            None => Err(Error::Encryption(STATUS_KEY_NOT_SET)),
            Some(_) => {
                let data = single_byte_data(CMD_EMPTY);
                Ok(self.begin_command(CMD_EMPTY, &data))
            },
        }
    }

    /// Begins a SmartEmpty exchange; like [`empty`](Self::empty) it
    /// requires an installed symmetric key.
    pub fn smart_empty(&self) -> (r: Result<Exchange, Error>)
        requires
            self.wf(),
        ensures
            self.key is None ==> r == Err::<Exchange, Error>(Error::Encryption(STATUS_KEY_NOT_SET)),
            self.key is Some ==> (r matches Ok(ex) && self.begins(
                ex,
                CMD_SMART_EMPTY,
                seq![CMD_SMART_EMPTY],
            ) && ex.encrypted),
    {
        match &self.key {
            None => Err(Error::Encryption(STATUS_KEY_NOT_SET)),
            Some(_) => {
                let data = single_byte_data(CMD_SMART_EMPTY);
                Ok(self.begin_command(CMD_SMART_EMPTY, &data))
            },
        }
    }

    /// Begins a SetEncryptionKey exchange rotating the fixed key seed
    /// over the encrypted channel: a fresh seed is drawn and returned
    /// beside the exchange, to be installed by
    /// [`complete_set_encryption_key`](Self::complete_set_encryption_key)
    /// once the exchange succeeds.  Without an installed symmetric key it
    /// fails with an encryption error.
    pub fn set_encryption_key(&self) -> (r: Result<(Exchange, u64), Error>)
        requires
            self.wf(),
        ensures
            self.key is None ==> r == Err::<(Exchange, u64), Error>(
                Error::Encryption(STATUS_KEY_NOT_SET),
            ),
            self.key is Some ==> (r matches Ok(p) && self.begins(
                p.0,
                CMD_SET_ENCRYPTION_KEY,
                seq![CMD_SET_ENCRYPTION_KEY] + spec_u64_to_le_bytes(p.1),
            ) && p.0.encrypted),
    {
        match &self.key {
            None => Err(Error::Encryption(STATUS_KEY_NOT_SET)),
            Some(_) => {
                let fixed: u64 = fixed_key_from_entropy();
                let data = key_data(CMD_SET_ENCRYPTION_KEY, fixed);
                Ok((self.begin_command(CMD_SET_ENCRYPTION_KEY, &data), fixed))
            },
        }
    }

    /// Records that the device accepted the rotated fixed key seed.
    pub fn complete_set_encryption_key(&mut self, fixed: u64)
        ensures
            (*final(self) == DeviceHandle { fixed_key: fixed, ..*old(self) }),
    {
        self.fixed_key = fixed;
    }

    /// Begins an EncryptionReset exchange.  The caller concludes it and
    /// maps the response through [`encryption_reset_outcome`].
    pub fn encryption_reset(&self) -> (ex: Exchange)
        requires
            self.wf(),
        ensures
            self.begins(ex, CMD_ENCRYPTION_RESET, seq![CMD_ENCRYPTION_RESET]),
    {
        let data = single_byte_data(CMD_ENCRYPTION_RESET);
        self.begin_command(CMD_ENCRYPTION_RESET, &data)
    }

    /// Builds the Reset command frame.  Reset has no response and is not
    /// retried: the caller writes it once, maps a failed write to a
    /// transport error, and waits for the device to come back online.
    /// The sequence flag does not advance.
    pub fn reset(&self) -> (wire: Vec<u8>)
        requires
            self.wf(),
        ensures
            wire@ == framed(spec_seq_id_byte(self.sequence_flag, 0), seq![CMD_RESET]),
    {
        let data = single_byte_data(CMD_RESET);
        frame_message(seq_id_byte(self.sequence_flag, 0), &data)
    }

    /// Starts the background polling routine.  Idempotent: when the
    /// poller already runs this is a no-op reporting success; otherwise
    /// the running flag is set and the caller must spawn the polling
    /// thread — a loop that, every minimum polling interval, takes the
    /// transport and key locks, begins a Poll exchange (encrypted when a
    /// key is installed), drives it, and keeps going on transient
    /// errors.
    pub fn start_background_polling(&mut self) -> (spawn: bool)
        ensures
            spec_start_polling(*old(self), *final(self), spawn),
            final(self).polling_inited,
    {
        if self.polling_inited {
            false
        } else {
            self.polling_inited = true;
            true
        }
    }

    /// Clears the running flag as the polling loop exits, so a future
    /// start can succeed.
    pub fn finish_background_polling(&mut self)
        ensures
            (*final(self) == DeviceHandle { polling_inited: false, ..*old(self) }),
    {
        self.polling_inited = false;
    }
}

/// Maps an encryption-reset response: a device that cannot process the
/// command reports that as an encryption error; anything else passes
/// through unchanged.
pub fn encryption_reset_outcome(resp: Response) -> (r: Result<Response, Error>)
    requires
        resp.wf(),
    ensures
        resp.data@[0] == STATUS_COMMAND_CANNOT_BE_PROCESSED ==> r == Err::<Response, Error>(
            Error::Encryption(STATUS_COMMAND_CANNOT_BE_PROCESSED),
        ),
        resp.data@[0] != STATUS_COMMAND_CANNOT_BE_PROCESSED ==> (r matches Ok(x) && x.model()
            == resp.model()),
{
    if resp.status() == STATUS_COMMAND_CANNOT_BE_PROCESSED {
        Err(Error::Encryption(STATUS_COMMAND_CANNOT_BE_PROCESSED))
    } else {
        Ok(resp)
    }
}

/// Whether a barcode-reader-configuration response reports reader
/// hardware present: the device must have answered with success and a
/// known nonzero hardware status.
pub fn barcode_reader_present(resp: &Response) -> (r: bool)
    requires
        resp.wf(),
    ensures
        r == (resp.data@[0] == STATUS_OK && resp.data@.len() > 1 && (resp.data@[1] == 1
            || resp.data@[1] == 2 || resp.data@[1] == 3)),
{
    if resp.data()[0] == STATUS_OK && resp.data().len() > 1 {
        let b: u8 = resp.data()[1];
        b == 1 || b == 2 || b == 3
    } else {
        false
    }
}

/// Starting the background poller twice spawns exactly one polling
/// thread: the second start finds the running flag already set and is a
/// no-op success.
pub proof fn lemma_poller_singleton(
    pre: DeviceHandle,
    mid: DeviceHandle,
    fin: DeviceHandle,
    s1: bool,
    s2: bool,
)
    requires
        spec_start_polling(pre, mid, s1),
        spec_start_polling(mid, fin, s2),
    ensures
        !s2,
        s1 == !pre.polling_inited,
        fin.polling_inited,
{
}

} // verus!
