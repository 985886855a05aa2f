use ssp_session::device_handle::polling_inited;
use ssp_session::device_handle::sequence_flag;
use ssp_session::device_handle::set_polling_inited;
use ssp_session::device_handle::set_sequence_flag;
use ssp_session::device_handle::DeviceHandle;
use ssp_session::error::Error;
use ssp_session::response::assemble_response;

#[test]
fn fresh_handle_upholds_modulus_below_generator() {
    let h = DeviceHandle::new();
    assert!(h.modulus > 0);
    assert!(h.modulus < h.generator);
    assert!(h.key.is_none());
    assert!(!h.sequence_flag);
    assert!(!h.polling_inited);
}

#[test]
fn explicit_key_material_is_validated() {
    assert!(DeviceHandle::with_key_material(11, 7, 5).is_some());
    assert!(DeviceHandle::with_key_material(11, 11, 5).is_none());
    assert!(DeviceHandle::with_key_material(11, 13, 5).is_none());
    assert!(DeviceHandle::with_key_material(11, 0, 5).is_none());
}

#[test]
fn modulus_candidates_are_rejected_until_below_generator() {
    let mut h = DeviceHandle::with_key_material(11, 3, 5).unwrap();
    assert!(!h.try_set_modulus(13));
    assert_eq!(h.modulus, 3);
    assert!(!h.try_set_modulus(11));
    assert_eq!(h.modulus, 3);
    assert!(h.try_set_modulus(7));
    assert_eq!(h.modulus, 7);
    assert!(h.modulus < h.generator);
}

#[test]
fn regeneration_preserves_modulus_below_generator() {
    let mut h = DeviceHandle::new();
    h.new_generator_key();
    assert!(h.modulus < h.generator);
    h.new_modulus_key();
    assert!(h.modulus < h.generator);
    h.new_random_key();
    assert!(h.modulus < h.generator);
}

fn handle_with_installed_key() -> DeviceHandle {
    let mut h = DeviceHandle::with_key_material(0x7fcc_9ee3, 0x7f1c_7181, 0x7f2b_ceec).unwrap();
    let mut data = vec![0xf0u8];
    data.extend_from_slice(&0x634c_0016u64.to_le_bytes());
    let resp = assemble_response(0x4c, data).unwrap();
    h.complete_key_exchange(&resp);
    assert!(h.key.is_some());
    h
}

#[test]
fn successful_key_exchange_installs_known_key() {
    let h = handle_with_installed_key();
    // The shared secret for this material is a vendor-documented value;
    // the installed key is its little-endian bytes followed by zeros.
    let mut expected = 0x7bf4_9046u64.to_le_bytes().to_vec();
    expected.extend_from_slice(&[0u8; 8]);
    let key = h.encryption_key().as_ref().unwrap();
    assert_eq!(key.as_slice(), expected.as_slice());
}

#[test]
fn failed_key_exchange_installs_nothing() {
    let mut h = DeviceHandle::with_key_material(11, 7, 5).unwrap();
    let mut data = vec![0xf8u8];
    data.extend_from_slice(&0x1234u64.to_le_bytes());
    let resp = assemble_response(0x4c, data).unwrap();
    h.complete_key_exchange(&resp);
    assert!(h.key.is_none());
}

#[test]
fn regenerating_generator_clears_symmetric_key() {
    let mut h = handle_with_installed_key();
    h.new_generator_key();
    assert!(h.key.is_none());
}

#[test]
fn regenerating_modulus_clears_symmetric_key() {
    // A wide-open generator so a fresh 64-bit modulus lands below it fast.
    let mut h = DeviceHandle::with_key_material(u64::MAX, 7, 5).unwrap();
    let mut data = vec![0xf0u8];
    data.extend_from_slice(&0x634c_0016u64.to_le_bytes());
    let resp = assemble_response(0x4c, data).unwrap();
    h.complete_key_exchange(&resp);
    assert!(h.key.is_some());
    h.new_modulus_key();
    assert!(h.key.is_none());
    assert!(h.modulus < h.generator);
}

#[test]
fn regenerating_random_clears_symmetric_key() {
    let mut h = handle_with_installed_key();
    h.new_random_key();
    assert!(h.key.is_none());
}

#[test]
fn empty_without_key_is_an_encryption_error() {
    let h = DeviceHandle::with_key_material(11, 7, 5).unwrap();
    assert_eq!(h.empty().err(), Some(Error::Encryption(0xfa)));
}

#[test]
fn smart_empty_without_key_is_an_encryption_error() {
    let h = DeviceHandle::with_key_material(11, 7, 5).unwrap();
    assert_eq!(h.smart_empty().err(), Some(Error::Encryption(0xfa)));
}

#[test]
fn set_encryption_key_without_key_is_an_encryption_error() {
    let h = DeviceHandle::with_key_material(11, 7, 5).unwrap();
    assert_eq!(h.set_encryption_key().err(), Some(Error::Encryption(0xfa)));
}

#[test]
fn empty_with_key_goes_through_the_encrypted_channel() {
    let h = handle_with_installed_key();
    let ex = h.empty().unwrap();
    assert!(ex.encrypted);
    let wire = ex.wire_bytes();
    assert_eq!(wire[0], 0x7f);
    // The envelope's first data byte is the inner start marker, not the
    // command byte: nothing goes out in the clear.
    assert_eq!(wire[3], 0x7e);
    assert!(wire.len() > 6);
}

#[test]
fn commands_without_key_go_out_in_the_clear() {
    let h = DeviceHandle::with_key_material(11, 7, 5).unwrap();
    let ex = h.poll();
    assert!(!ex.encrypted);
    assert_eq!(ex.wire_bytes()[3], 0x07);
}

#[test]
fn background_polling_start_is_idempotent() {
    let mut h = DeviceHandle::with_key_material(11, 7, 5).unwrap();
    let first = h.start_background_polling();
    assert!(first);
    assert!(h.polling_inited);
    let second = h.start_background_polling();
    assert!(!second);
    assert!(h.polling_inited);
    h.finish_background_polling();
    assert!(!h.polling_inited);
    assert!(h.start_background_polling());
}

#[test]
fn polling_flag_accessors_mirror_the_handle() {
    let mut h = DeviceHandle::with_key_material(11, 7, 5).unwrap();
    assert!(!polling_inited(&h));
    set_polling_inited(&mut h, true);
    assert!(polling_inited(&h));
    set_polling_inited(&mut h, false);
    assert!(!polling_inited(&h));
}

#[test]
fn sequence_flag_accessors_mirror_the_handle() {
    let mut h = DeviceHandle::with_key_material(11, 7, 5).unwrap();
    assert!(!sequence_flag(&h));
    set_sequence_flag(&mut h, true);
    assert!(sequence_flag(&h));
}

#[test]
fn set_encryption_key_rotates_fixed_key_on_success() {
    let mut h = handle_with_installed_key();
    let (ex, pending) = h.set_encryption_key().unwrap();
    assert!(ex.encrypted);
    h.complete_set_encryption_key(pending);
    assert_eq!(h.fixed_key, pending);
}

#[test]
fn sync_completion_pins_the_sequence_flag() {
    let mut h = DeviceHandle::with_key_material(11, 7, 5).unwrap();
    let _ex = h.sync();
    h.complete_sync();
    assert!(h.sequence_flag);
}

#[test]
fn set_inhibits_rejects_malformed_channel_lists() {
    let h = DeviceHandle::with_key_material(11, 7, 5).unwrap();
    assert!(matches!(
        h.set_inhibits(&vec![]),
        Err(Error::InvalidLength(_))
    ));
    assert!(matches!(
        h.set_inhibits(&vec![0xff; 9]),
        Err(Error::InvalidLength(_))
    ));
    let ex = h.set_inhibits(&vec![0xff, 0x01]).unwrap();
    assert_eq!(ex.wire_bytes()[3], 0x02);
    assert_eq!(ex.wire_bytes()[4], 0xff);
    assert_eq!(ex.wire_bytes()[5], 0x01);
}
