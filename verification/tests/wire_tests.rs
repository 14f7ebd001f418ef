use solana_streamer::wire::{
    read_bool, read_i64_le, read_pubkey, read_u128_le, read_u32_le, read_u64_le, read_u8,
};

#[test]
fn reads_little_endian_u64() {
    let data = [1u8, 2, 3, 4, 5, 6, 7, 8, 9];
    assert_eq!(read_u64_le(&data, 0), Some(0x0807060504030201));
    assert_eq!(read_u64_le(&data, 1), Some(0x0908070605040302));
    assert_eq!(read_u64_le(&data, 2), None);
}

#[test]
fn reads_little_endian_u32_and_u128() {
    let data: Vec<u8> = (1u8..=16).collect();
    assert_eq!(read_u32_le(&data, 0), Some(0x04030201));
    assert_eq!(read_u32_le(&data, 13), None);
    assert_eq!(read_u128_le(&data, 0), Some(u128::from_le_bytes(data.clone().try_into().unwrap())));
    assert_eq!(read_u128_le(&data, 1), None);
}

#[test]
fn reads_signed_numbers_in_twos_complement() {
    assert_eq!(read_i64_le(&(-1i64).to_le_bytes(), 0), Some(-1));
    assert_eq!(read_i64_le(&i64::MIN.to_le_bytes(), 0), Some(i64::MIN));
    assert_eq!(read_i64_le(&i64::MAX.to_le_bytes(), 0), Some(i64::MAX));
    assert_eq!(read_i64_le(&1_700_000_000i64.to_le_bytes(), 0), Some(1_700_000_000));
}

#[test]
fn refuses_reads_past_the_end() {
    let data = [7u8; 8];
    assert_eq!(read_u8(&data, 8), None);
    assert_eq!(read_u8(&data, 7), Some(7));
    assert_eq!(read_u64_le(&data, usize::MAX), None);
    assert_eq!(read_pubkey(&data, 0), None);
    assert_eq!(read_u64_le(&[], 0), None);
}

#[test]
fn reads_flags_strictly() {
    assert_eq!(read_bool(&[0, 1, 2], 0), Some(false));
    assert_eq!(read_bool(&[0, 1, 2], 1), Some(true));
    assert_eq!(read_bool(&[0, 1, 2], 2), None);
    assert_eq!(read_bool(&[0, 1, 2], 3), None);
}

#[test]
fn reads_an_address() {
    let data: Vec<u8> = (0u8..40).collect();
    let key = read_pubkey(&data, 8).unwrap();
    assert_eq!(key.bytes.to_vec(), (8u8..40).collect::<Vec<u8>>());
    assert_eq!(read_pubkey(&data, 9), None);
}
