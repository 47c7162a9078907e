use ed25519_dalek::Digest;

use firmware_updater::flash::FlashDevice;
use firmware_updater::flash::FlashErrorKind;
use firmware_updater::flash::MemFlash;
use firmware_updater::partition::Partition;
use firmware_updater::updater::FirmwareUpdater;
use firmware_updater::updater::FirmwareUpdaterError;
use firmware_updater::writer::FirmwareWriter;
use firmware_updater::BOOT_MAGIC;
use firmware_updater::ERASED;
use firmware_updater::State;
use firmware_updater::SWAP_MAGIC;

const DEVICE_SIZE: usize = 256;
const WRITE_SIZE: usize = 4;
const ERASE_SIZE: usize = 16;
const STATE_FROM: usize = 0;
const STATE_TO: usize = 16;
const DFU_FROM: usize = 64;
const DFU_TO: usize = 192;

fn setup() -> (MemFlash, FirmwareUpdater) {
    let flash = MemFlash::new(DEVICE_SIZE, WRITE_SIZE, ERASE_SIZE);
    let dfu = Partition::new(DFU_FROM, DFU_TO);
    let state = Partition::new(STATE_FROM, STATE_TO);
    (flash, FirmwareUpdater::new(dfu, state))
}

fn aligned_buf() -> Vec<u8> {
    vec![0u8; WRITE_SIZE]
}

#[test]
fn firmware_len_is_dfu_length() {
    let (_, updater) = setup();
    assert_eq!(updater.firmware_len(), DFU_TO - DFU_FROM);
}

#[test]
fn partition_accessors() {
    let (_, updater) = setup();
    assert_eq!(updater.dfu_partition(), Partition::new(DFU_FROM, DFU_TO));
    assert_eq!(updater.state_partition(), Partition::new(STATE_FROM, STATE_TO));
}

#[test]
fn blank_state_reads_boot() {
    let (mut flash, mut updater) = setup();
    let mut aligned = aligned_buf();
    let state = updater.get_state_blocking(&mut flash, &mut aligned).unwrap();
    assert_eq!(state, State::Boot);
}

#[test]
fn preloaded_swap_magic_reads_swap() {
    let (mut flash, mut updater) = setup();
    flash.program(STATE_FROM, &[SWAP_MAGIC; WRITE_SIZE]);
    let mut aligned = aligned_buf();
    let state = updater.get_state_blocking(&mut flash, &mut aligned).unwrap();
    assert_eq!(state, State::Swap);
}

#[test]
fn partial_swap_magic_reads_boot() {
    let (mut flash, mut updater) = setup();
    flash.program(STATE_FROM, &[SWAP_MAGIC, SWAP_MAGIC, SWAP_MAGIC, BOOT_MAGIC]);
    let mut aligned = aligned_buf();
    let state = updater.get_state_blocking(&mut flash, &mut aligned).unwrap();
    assert_eq!(state, State::Boot);
}

#[test]
fn round_trip_boot_swap_boot() {
    let (mut flash, mut updater) = setup();
    flash.program(STATE_FROM, &[BOOT_MAGIC; WRITE_SIZE]);
    let mut aligned = aligned_buf();

    let state = updater.get_state_blocking(&mut flash, &mut aligned).unwrap();
    assert_eq!(state, State::Boot);

    updater.mark_updated_blocking(&mut flash, &mut aligned).unwrap();
    let state = updater.get_state_blocking(&mut flash, &mut aligned).unwrap();
    assert_eq!(state, State::Swap);

    updater.mark_booted_blocking(&mut flash, &mut aligned).unwrap();
    let state = updater.get_state_blocking(&mut flash, &mut aligned).unwrap();
    assert_eq!(state, State::Boot);
}

#[test]
fn transition_leaves_exact_block_and_erased_tail() {
    let (mut flash, mut updater) = setup();
    // something distinctive outside the state partition must survive
    flash.program(DFU_FROM, &[0xAB, 0xCD]);
    let mut aligned = aligned_buf();
    updater.mark_updated_blocking(&mut flash, &mut aligned).unwrap();

    for i in STATE_FROM..STATE_FROM + WRITE_SIZE {
        assert_eq!(flash.byte_at(i), SWAP_MAGIC);
    }
    for i in STATE_FROM + WRITE_SIZE..STATE_TO {
        assert_eq!(flash.byte_at(i), ERASED);
    }
    assert_eq!(flash.byte_at(DFU_FROM), 0xAB);
    assert_eq!(flash.byte_at(DFU_FROM + 1), 0xCD);
}

#[test]
fn mark_booted_twice_is_idempotent_and_write_free() {
    let (mut flash, mut updater) = setup();
    let mut aligned = aligned_buf();

    updater.mark_booted_blocking(&mut flash, &mut aligned).unwrap();
    let contents_after_first = flash.data.clone();
    let writes_after_first = flash.writes;
    let erases_after_first = flash.erases;

    updater.mark_booted_blocking(&mut flash, &mut aligned).unwrap();
    assert_eq!(flash.data, contents_after_first);
    assert_eq!(flash.writes, writes_after_first);
    assert_eq!(flash.erases, erases_after_first);
}

#[test]
fn mark_updated_twice_is_idempotent_and_write_free() {
    let (mut flash, mut updater) = setup();
    let mut aligned = aligned_buf();

    updater.mark_updated_blocking(&mut flash, &mut aligned).unwrap();
    assert_eq!(flash.writes, 2);
    assert_eq!(flash.erases, 1);
    let contents_after_first = flash.data.clone();

    updater.mark_updated_blocking(&mut flash, &mut aligned).unwrap();
    assert_eq!(flash.data, contents_after_first);
    assert_eq!(flash.writes, 2);
    assert_eq!(flash.erases, 1);
}

#[test]
fn write_firmware_stages_data() {
    let (mut flash, mut updater) = setup();
    let data: Vec<u8> = (0..32u8).collect();
    updater
        .write_firmware_blocking(0, &data, &mut flash, 8)
        .unwrap();
    for (i, b) in data.iter().enumerate() {
        assert_eq!(flash.byte_at(DFU_FROM + i), *b);
    }
}

#[test]
fn write_firmware_oversized_fails_without_truncation() {
    let (mut flash, mut updater) = setup();
    let before = flash.data.clone();
    let data = vec![0x55u8; DEVICE_SIZE];
    let r = updater.write_firmware_blocking(0, &data, &mut flash, 8);
    assert_eq!(
        r,
        Err(FirmwareUpdaterError::Flash(FlashErrorKind::OutOfBounds))
    );
    assert_eq!(flash.data, before);
}

#[test]
fn write_firmware_offset_past_end_fails() {
    let (mut flash, mut updater) = setup();
    let data = vec![0x55u8; ERASE_SIZE];
    let r = updater.write_firmware_blocking(DFU_TO - DFU_FROM - 1, &data, &mut flash, 4);
    assert_eq!(
        r,
        Err(FirmwareUpdaterError::Flash(FlashErrorKind::OutOfBounds))
    );
}

#[test]
fn prepare_update_wipes_whole_dfu_area() {
    let (mut flash, mut updater) = setup();
    flash.program(DFU_FROM + 10, &[1, 2, 3, 4]);
    let writer = updater.prepare_update_blocking(&mut flash).unwrap();
    for i in DFU_FROM..DFU_TO {
        assert_eq!(flash.byte_at(i), ERASED);
    }
    assert_eq!(writer.partition, Partition::new(DFU_FROM, DFU_TO));
}

#[test]
fn writer_streams_in_uneven_chunks() {
    let (mut flash, mut updater) = setup();
    let writer = updater.prepare_update_blocking(&mut flash).unwrap();
    let data: Vec<u8> = (100..110u8).collect();
    writer
        .write_block_blocking(5, &data, &mut flash, 3)
        .unwrap();
    for (i, b) in data.iter().enumerate() {
        assert_eq!(flash.byte_at(DFU_FROM + 5 + i), *b);
    }
    assert_eq!(flash.byte_at(DFU_FROM + 4), ERASED);
    assert_eq!(flash.byte_at(DFU_FROM + 15), ERASED);
}

#[test]
fn writer_rejects_range_past_partition_end() {
    let (mut flash, _) = setup();
    let writer = FirmwareWriter::new(Partition::new(DFU_FROM, DFU_TO));
    let data = vec![9u8; 64];
    let r = writer.write_block_blocking(DFU_TO - DFU_FROM - 8, &data, &mut flash, 16);
    assert_eq!(r, Err(FlashErrorKind::OutOfBounds));
}

#[test]
fn state_read_beyond_device_is_a_flash_error() {
    let mut flash = MemFlash::new(8, WRITE_SIZE, ERASE_SIZE);
    let dfu = Partition::new(0, 4);
    let state = Partition::new(300, 320);
    let mut updater = FirmwareUpdater::new(dfu, state);
    let mut aligned = aligned_buf();
    let r = updater.get_state_blocking(&mut flash, &mut aligned);
    assert_eq!(
        r,
        Err(FirmwareUpdaterError::Flash(FlashErrorKind::OutOfBounds))
    );
}

#[test]
fn helpers_decide_block_contents() {
    assert!(firmware_updater::bytes_match(&[7, 7, 7], 7));
    assert!(!firmware_updater::bytes_match(&[7, 7, 8], 7));
    assert_eq!(
        firmware_updater::state_of_bytes(&[SWAP_MAGIC; 4]),
        State::Swap
    );
    assert_eq!(
        firmware_updater::state_of_bytes(&[ERASED; 4]),
        State::Boot
    );
    let mut v = vec![1u8, 2, 3];
    firmware_updater::fill_bytes(&mut v, 9);
    assert_eq!(v, vec![9u8, 9, 9]);
}

fn keys_from_seed(seed: u8) -> (ed25519_dalek::PublicKey, ed25519_dalek::ExpandedSecretKey) {
    let secret = ed25519_dalek::SecretKey::from_bytes(&[seed; 32]).unwrap();
    let public = ed25519_dalek::PublicKey::from(&secret);
    let expanded = ed25519_dalek::ExpandedSecretKey::from(&secret);
    (public, expanded)
}

fn sha512(bytes: &[u8]) -> Vec<u8> {
    let mut hasher = ed25519_dalek::Sha512::new();
    hasher.update(bytes);
    hasher.finalize().to_vec()
}

#[test]
fn verify_accepts_matching_signature_and_marks_swap() {
    let (mut flash, mut updater) = setup();
    flash.program(STATE_FROM, &[BOOT_MAGIC; WRITE_SIZE]);
    let image: Vec<u8> = (0..20u8).map(|b| b.wrapping_mul(7)).collect();
    flash.program(DFU_FROM, &image);

    let (public, expanded) = keys_from_seed(42);
    let signature = expanded.sign(&sha512(&image), &public);

    let mut aligned = aligned_buf();
    updater
        .verify_and_mark_updated_blocking(
            &mut flash,
            &public.to_bytes(),
            &signature.to_bytes(),
            image.len(),
            &mut aligned,
        )
        .unwrap();
    let state = updater.get_state_blocking(&mut flash, &mut aligned).unwrap();
    assert_eq!(state, State::Swap);
}

#[test]
fn verify_rejects_signature_from_other_key() {
    let (mut flash, mut updater) = setup();
    flash.program(STATE_FROM, &[BOOT_MAGIC; WRITE_SIZE]);
    let image: Vec<u8> = (0..20u8).collect();
    flash.program(DFU_FROM, &image);

    let (public, _) = keys_from_seed(42);
    let (other_public, other_expanded) = keys_from_seed(43);
    let signature = other_expanded.sign(&sha512(&image), &other_public);

    let before = flash.data.clone();
    let mut aligned = aligned_buf();
    let r = updater.verify_and_mark_updated_blocking(
        &mut flash,
        &public.to_bytes(),
        &signature.to_bytes(),
        image.len(),
        &mut aligned,
    );
    assert_eq!(r, Err(FirmwareUpdaterError::Signature));
    assert_eq!(flash.data, before);
    let state = updater.get_state_blocking(&mut flash, &mut aligned).unwrap();
    assert_eq!(state, State::Boot);
}

#[test]
fn verify_rejects_tampered_image() {
    let (mut flash, mut updater) = setup();
    let image: Vec<u8> = (0..24u8).collect();
    let (public, expanded) = keys_from_seed(5);
    let signature = expanded.sign(&sha512(&image), &public);

    let mut tampered = image.clone();
    tampered[3] ^= 0xFF;
    flash.program(DFU_FROM, &tampered);

    let mut aligned = aligned_buf();
    let r = updater.verify_and_mark_updated_blocking(
        &mut flash,
        &public.to_bytes(),
        &signature.to_bytes(),
        image.len(),
        &mut aligned,
    );
    assert_eq!(r, Err(FirmwareUpdaterError::Signature));
}

#[test]
fn verify_rejects_malformed_key_and_signature() {
    let (mut flash, mut updater) = setup();
    let image: Vec<u8> = (0..16u8).collect();
    flash.program(DFU_FROM, &image);
    let (public, expanded) = keys_from_seed(1);
    let signature = expanded.sign(&sha512(&image), &public);

    let mut aligned = aligned_buf();
    let r = updater.verify_and_mark_updated_blocking(
        &mut flash,
        &[0u8; 5],
        &signature.to_bytes(),
        image.len(),
        &mut aligned,
    );
    assert_eq!(r, Err(FirmwareUpdaterError::Signature));

    let r = updater.verify_and_mark_updated_blocking(
        &mut flash,
        &public.to_bytes(),
        &[0u8; 10],
        image.len(),
        &mut aligned,
    );
    assert_eq!(r, Err(FirmwareUpdaterError::Signature));
}

#[test]
fn mem_flash_trait_operations() {
    let mut flash = MemFlash::new(32, 4, 8);
    assert_eq!(flash.capacity(), 32);
    assert!(flash.write(4, &[1, 2, 3, 4]).is_ok());
    assert_eq!(flash.writes, 1);
    let mut buf = vec![0u8; 4];
    assert!(flash.read(4, &mut buf).is_ok());
    assert_eq!(buf, vec![1, 2, 3, 4]);
    assert!(flash.erase(0, 8).is_ok());
    assert_eq!(flash.erases, 1);
    assert_eq!(flash.byte_at(4), ERASED);
    assert_eq!(flash.read(30, &mut buf), Err(FlashErrorKind::OutOfBounds));
    assert_eq!(flash.write(30, &[1, 2, 3, 4]), Err(FlashErrorKind::OutOfBounds));
    assert_eq!(flash.erase(24, 40), Err(FlashErrorKind::OutOfBounds));
}
