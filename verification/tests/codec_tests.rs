//! Cross-checks of the session manager's wire output against the codec
//! crate's own builders, and of the encrypted channel against the codec's
//! own decryption.
use ssp::MessageOps;

use ssp_session::device_handle::DeviceHandle;
use ssp_session::error::Error;
use ssp_session::response::assemble_response;
use ssp_session::wire::frame_message;
use ssp_session::wire::reframe_message;
use ssp_session::wire::seq_id_byte;

#[test]
fn poll_frame_matches_the_codec_builder() {
    let h = DeviceHandle::with_key_material(11, 7, 5).unwrap();
    let ex = h.poll();
    let mut m = ssp::PollCommand::new();
    assert_eq!(ex.wire_bytes().as_slice(), m.as_bytes());
}

#[test]
fn poll_frame_with_set_flag_matches_the_codec_builder() {
    let mut h = DeviceHandle::with_key_material(11, 7, 5).unwrap();
    h.complete_sync();
    let ex = h.poll();
    let mut m = ssp::PollCommand::new();
    let mut sid = m.sequence_id();
    sid.set_flag(ssp::SequenceFlag::from(true));
    m.set_sequence_id(sid);
    assert_eq!(ex.wire_bytes().as_slice(), m.as_bytes());
}

#[test]
fn enable_and_sync_frames_match_the_codec_builders() {
    let h = DeviceHandle::with_key_material(11, 7, 5).unwrap();
    let mut enable = ssp::EnableCommand::new();
    assert_eq!(h.enable().wire_bytes().as_slice(), enable.as_bytes());
    let mut sync = ssp::SyncCommand::new();
    assert_eq!(h.sync().wire_bytes().as_slice(), sync.as_bytes());
}

#[test]
fn set_generator_frame_matches_the_codec_builder() {
    let h = DeviceHandle::with_key_material(0x7fcc_9ee3, 0x7f1c_7181, 0x7f2b_ceec).unwrap();
    let ex = h.set_generator();
    let mut m = ssp::SetGeneratorCommand::new();
    m.set_generator(&ssp::GeneratorKey::from_inner(0x7fcc_9ee3));
    assert_eq!(ex.wire_bytes().as_slice(), m.as_bytes());
}

#[test]
fn set_modulus_frame_matches_the_codec_builder() {
    let h = DeviceHandle::with_key_material(0x7fcc_9ee3, 0x7f1c_7181, 0x7f2b_ceec).unwrap();
    let ex = h.set_modulus();
    let mut m = ssp::SetModulusCommand::new();
    m.set_modulus(&ssp::ModulusKey::from_inner(0x7f1c_7181));
    assert_eq!(ex.wire_bytes().as_slice(), m.as_bytes());
}

#[test]
fn host_protocol_version_frame_matches_the_codec_builder() {
    let h = DeviceHandle::with_key_material(11, 7, 5).unwrap();
    let ex = h.host_protocol_version(8);
    let mut m = ssp::HostProtocolVersionCommand::new();
    m.set_version(ssp::ProtocolVersion::from(8));
    assert_eq!(ex.wire_bytes().as_slice(), m.as_bytes());
}

#[test]
fn reset_frame_matches_the_codec_builder() {
    let h = DeviceHandle::with_key_material(11, 7, 5).unwrap();
    let wire = h.reset();
    let mut m = ssp::ResetCommand::new();
    assert_eq!(wire.as_slice(), m.as_bytes());
}

#[test]
fn request_key_exchange_carries_the_derived_intermediate_key() {
    // Vendor-documented values: this generator, random and modulus derive
    // intermediate key 0x0c04_3f46.
    let h = DeviceHandle::with_key_material(0x7fcc_9ee3, 0x7f1c_7181, 0x7f2b_ceec).unwrap();
    let ex = h.request_key_exchange();
    let wire = ex.wire_bytes();
    assert_eq!(wire[3], 0x4c);
    assert_eq!(&wire[4..12], &0x0c04_3f46u64.to_le_bytes());

    let mut m = ssp::RequestKeyExchangeCommand::new();
    m.set_intermediate_key(&ssp::IntermediateKey::from_inner(0x0c04_3f46));
    assert_eq!(wire.as_slice(), m.as_bytes());
}

#[test]
fn frame_checksum_matches_the_codec_crc() {
    let data = vec![0x01u8, 0x11];
    let frame = frame_message(0x80, &data);
    let crc = ssp::crc::crc16(&frame[1..frame.len() - 2]);
    assert_eq!(&frame[frame.len() - 2..], &crc.to_le_bytes());
}

#[test]
fn reframing_recomputes_the_checksum() {
    let frame = frame_message(0x00, &vec![0x07]);
    let reframed = reframe_message(&frame, seq_id_byte(true, 0));
    assert_eq!(reframed.len(), frame.len());
    assert_eq!(reframed[1], 0x80);
    let crc = ssp::crc::crc16(&reframed[1..reframed.len() - 2]);
    assert_eq!(&reframed[reframed.len() - 2..], &crc.to_le_bytes());
}

#[test]
fn response_intermediate_key_reads_little_endian_bytes() {
    let mut data = vec![0xf0u8];
    data.extend_from_slice(&0x0102_0304_0506_0708u64.to_le_bytes());
    let resp = assemble_response(0x4c, data).unwrap();
    assert_eq!(resp.intermediate_key(), 0x0102_0304_0506_0708);

    // Short responses are zero-padded, as the codec's fixed buffer is.
    let resp2 = assemble_response(0x4c, vec![0xf0, 0x2a]).unwrap();
    assert_eq!(resp2.intermediate_key(), 0x2a);
}

#[test]
fn empty_payload_cannot_become_a_response() {
    assert!(matches!(assemble_response(0x07, vec![]), Err(Error::Decode)));
}

fn handle_with_installed_key() -> DeviceHandle {
    let mut h = DeviceHandle::with_key_material(0x7fcc_9ee3, 0x7f1c_7181, 0x7f2b_ceec).unwrap();
    let mut data = vec![0xf0u8];
    data.extend_from_slice(&0x634c_0016u64.to_le_bytes());
    let resp = assemble_response(0x4c, data).unwrap();
    h.complete_key_exchange(&resp);
    h
}

#[test]
fn encrypted_response_is_decrypted_as_the_codec_does() {
    let mut h = handle_with_installed_key();
    let key_bytes = h.encryption_key().as_ref().unwrap().clone();
    let aes = ssp::AesKey::clone_from_slice(&key_bytes);

    // Device side: an encrypted response carrying a successful payload.
    let mut inner = ssp::PollResponse::new();
    inner.set_data(&[0xf0, 0x01, 0x02, 0x03]).unwrap();
    let mut er = ssp::EncryptedResponse::new();
    er.set_message_data(&inner).unwrap();
    let mut wrapped = er.encrypt(&aes);
    let full = wrapped.as_bytes().to_vec();

    // Host side: drive the encrypted exchange with that frame.
    let mut ex = h.empty().unwrap();
    h.commit_write(&mut ex);
    assert_eq!(ex.read_returned(&vec![full[0]]), Ok(false));
    assert_eq!(ex.read_returned(&vec![full[1], full[2]]), Ok(false));
    let body_len = ex.expected_read_len();
    let body: Vec<u8> = full[3..3 + body_len].to_vec();
    assert_eq!(ex.read_returned(&body), Ok(true));

    let resp = h.conclude(&ex).unwrap();
    assert_eq!(resp.kind, 0x3f);

    // The library's payload equals what the codec's own decryption yields
    // for the very same frame bytes.
    let mut seen = full[..3].to_vec();
    seen.extend_from_slice(&body);
    let wrapped2 = ssp::WrappedEncryptedMessage::try_from(seen.as_slice()).unwrap();
    let dec = ssp::EncryptedResponse::decrypt(&aes, wrapped2);
    assert_eq!(resp.data().as_slice(), dec.data());
}

#[test]
fn encrypted_command_payload_round_trips() {
    // Encrypt a nine-byte command through the library, then decrypt it as
    // the device would: the envelope must carry the command data intact.
    let h = handle_with_installed_key();
    let ex = h.set_generator();
    assert!(ex.encrypted);
    let wire = ex.wire_bytes().clone();

    let key = ssp::AesKey::clone_from_slice(h.encryption_key().as_ref().unwrap());
    let wrapped = ssp::WrappedEncryptedMessage::try_from(wire.as_slice()).unwrap();
    let dec = ssp::EncryptedCommand::decrypt(&key, wrapped);

    let mut expected = vec![0x4au8];
    expected.extend_from_slice(&0x7fcc_9ee3u64.to_le_bytes());
    assert_eq!(dec.message_data(), expected.as_slice());
}

#[test]
fn device_rejecting_the_envelope_is_an_encryption_error() {
    let mut h = handle_with_installed_key();
    let mut ex = h.empty().unwrap();
    h.commit_write(&mut ex);
    // The device answers in the clear that no key is set.
    let reply = frame_message(0x80, &vec![0xfa]);
    assert_eq!(ex.read_returned(&vec![reply[0]]), Ok(false));
    assert_eq!(ex.read_returned(&vec![reply[1], reply[2]]), Ok(false));
    assert_eq!(ex.read_returned(&reply[3..].to_vec()), Ok(true));
    assert_eq!(h.conclude(&ex), Err(Error::Encryption(0xfa)));
}

#[test]
fn encryption_reset_maps_unprocessable_to_encryption_error() {
    let resp = assemble_response(0x61, vec![0xf5]).unwrap();
    assert_eq!(
        ssp_session::device_handle::encryption_reset_outcome(resp),
        Err(Error::Encryption(0xf5))
    );
    let ok = assemble_response(0x61, vec![0xf0]).unwrap();
    let out = ssp_session::device_handle::encryption_reset_outcome(ok).unwrap();
    assert_eq!(out.status(), 0xf0);
}

#[test]
fn barcode_reader_presence_follows_status_and_hardware_byte() {
    let present = assemble_response(0x24, vec![0xf0, 0x01, 0x01, 0x06]).unwrap();
    assert!(ssp_session::device_handle::barcode_reader_present(&present));
    let none = assemble_response(0x24, vec![0xf0, 0x00, 0x01, 0x06]).unwrap();
    assert!(!ssp_session::device_handle::barcode_reader_present(&none));
    let failed = assemble_response(0x24, vec![0xf8, 0x01, 0x01, 0x06]).unwrap();
    assert!(!ssp_session::device_handle::barcode_reader_present(&failed));
}

#[test]
fn both_channels_assemble_the_same_response_from_one_payload() {
    // A codec that passes payloads through unchanged makes the encrypted
    // and plaintext channels indistinguishable: both assemble the
    // response from the same bytes.
    let payload = vec![0xf0u8, 0x10, 0x20];
    let plain = assemble_response(0x07, payload.clone()).unwrap();
    let unwrapped = assemble_response(0x07, payload).unwrap();
    assert_eq!(plain.kind, unwrapped.kind);
    assert_eq!(plain.data().as_slice(), unwrapped.data().as_slice());
}
