use parity_scale_codec::{Compact, Encode};
use subxt::scale::{
    copy_bool, copy_bytes, copy_compact_u128, copy_compact_u16, copy_compact_u32,
    copy_compact_u64, copy_compact_u8, copy_str, read_byte, read_count, read_u32,
};
use subxt::{DecodeError, Phase};

#[test]
fn read_byte_takes_the_first_byte() {
    let input = &mut &[7u8, 8][..];
    assert_eq!(read_byte(input), Ok(7));
    assert_eq!(read_byte(input), Ok(8));
    assert_eq!(read_byte(input), Err(DecodeError::Codec));
    assert!(input.is_empty());
}

#[test]
fn read_u32_is_little_endian() {
    let input = &mut &[0x78u8, 0x56, 0x34, 0x12, 0xff][..];
    assert_eq!(read_u32(input), Ok(0x1234_5678));
    assert_eq!(*input, &[0xff][..]);
    assert_eq!(read_u32(&mut &[0xffu8; 4][..]), Ok(u32::MAX));
    let short = &mut &[1u8, 2, 3][..];
    assert_eq!(read_u32(short), Err(DecodeError::Codec));
    assert_eq!(short.len(), 3);
}

#[test]
fn read_count_reads_a_compact_u32() {
    for value in [0u32, 1, 63, 64, 16383, 16384, (1 << 30) - 1, 1 << 30, u32::MAX] {
        let mut bytes = Compact(value).encode();
        bytes.push(0x99);
        let input = &mut &bytes[..];
        assert_eq!(read_count(input), Ok(value));
        assert_eq!(*input, &[0x99][..]);
    }
    assert_eq!(read_count(&mut &[][..]), Err(DecodeError::Codec));
    assert_eq!(read_count(&mut &[0x01][..]), Err(DecodeError::Codec));
    assert_eq!(read_count(&mut &Compact(1u64 << 32).encode()[..]), Err(DecodeError::Codec));
}

#[test]
fn copy_bytes_moves_exactly_n() {
    let input = &mut &[1u8, 2, 3, 4, 5][..];
    let mut output = vec![9];
    assert_eq!(copy_bytes(input, 3, &mut output), Ok(()));
    assert_eq!(output, vec![9, 1, 2, 3]);
    assert_eq!(*input, &[4, 5][..]);
    assert_eq!(copy_bytes(input, 0, &mut output), Ok(()));
    assert_eq!(output, vec![9, 1, 2, 3]);
    assert_eq!(copy_bytes(input, 3, &mut output), Err(DecodeError::Codec));
    assert_eq!(output, vec![9, 1, 2, 3]);
    assert_eq!(*input, &[4, 5][..]);
    assert_eq!(copy_bytes(input, 2, &mut output), Ok(()));
    assert_eq!(output, vec![9, 1, 2, 3, 4, 5]);
    assert!(input.is_empty());
}

#[test]
fn copy_bool_checks_the_byte() {
    let mut output = Vec::new();
    assert_eq!(copy_bool(&mut &[1u8][..], &mut output), Ok(()));
    assert_eq!(copy_bool(&mut &[0u8][..], &mut output), Ok(()));
    assert_eq!(output, vec![1, 0]);
    assert_eq!(copy_bool(&mut &[255u8][..], &mut output), Err(DecodeError::Codec));
}

#[test]
fn copy_str_writes_the_encoding_of_the_text() {
    let mut bytes = "grüße".to_string().encode();
    let encoded = bytes.clone();
    bytes.extend_from_slice(&[1, 2]);
    let input = &mut &bytes[..];
    let mut output = vec![0];
    assert_eq!(copy_str(input, &mut output), Ok(()));
    assert_eq!(output[1..], encoded[..]);
    assert_eq!(*input, &[1, 2][..]);
    let empty = &mut &[0u8][..];
    let mut output = Vec::new();
    assert_eq!(copy_str(empty, &mut output), Ok(()));
    assert_eq!(output, vec![0]);
}

#[test]
fn copy_compact_writes_the_encoding_of_the_value() {
    let mut output = Vec::new();
    let bytes = Compact(200u8).encode();
    assert_eq!(copy_compact_u8(&mut &bytes[..], &mut output), Ok(()));
    assert_eq!(output, bytes);

    let mut output = Vec::new();
    let bytes = Compact(40_000u16).encode();
    assert_eq!(copy_compact_u16(&mut &bytes[..], &mut output), Ok(()));
    assert_eq!(output, bytes);
    assert_eq!(copy_compact_u8(&mut &bytes[..], &mut output), Err(DecodeError::Codec));

    let mut output = Vec::new();
    let bytes = Compact(3_000_000_000u32).encode();
    assert_eq!(copy_compact_u32(&mut &bytes[..], &mut output), Ok(()));
    assert_eq!(output, bytes);
    assert_eq!(copy_compact_u16(&mut &bytes[..], &mut output), Err(DecodeError::Codec));

    let mut output = Vec::new();
    let bytes = Compact(1u64 << 50).encode();
    assert_eq!(copy_compact_u64(&mut &bytes[..], &mut output), Ok(()));
    assert_eq!(output, bytes);
    assert_eq!(copy_compact_u32(&mut &bytes[..], &mut output), Err(DecodeError::Codec));

    let mut output = vec![1, 2];
    let mut bytes = Compact(1u128 << 100).encode();
    let encoded = bytes.clone();
    bytes.push(0x44);
    let input = &mut &bytes[..];
    assert_eq!(copy_compact_u128(input, &mut output), Ok(()));
    assert_eq!(output[2..], encoded[..]);
    assert_eq!(*input, &[0x44][..]);
    assert_eq!(copy_compact_u64(&mut &bytes[..], &mut output), Err(DecodeError::Codec));
}

#[test]
fn phase_decode_reads_tag_and_index() {
    let input = &mut &[0u8, 1, 1, 0, 0, 9][..];
    assert_eq!(Phase::decode(input), Ok(Phase::ApplyExtrinsic(257)));
    assert_eq!(*input, &[9][..]);
    assert_eq!(Phase::decode(&mut &[1u8][..]), Ok(Phase::Finalization));
    assert_eq!(Phase::decode(&mut &[2u8][..]), Ok(Phase::Initialization));
    assert_eq!(Phase::decode(&mut &[3u8][..]), Err(DecodeError::Codec));
    assert_eq!(Phase::decode(&mut &[0u8, 1, 2, 3][..]), Err(DecodeError::Codec));
    assert_eq!(Phase::decode(&mut &[][..]), Err(DecodeError::Codec));
}
