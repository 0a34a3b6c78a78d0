use parity_scale_codec::Encode;
use subxt::rpc::{
    to_hex, BlockNumber, BlockStats, ChainBlockExtrinsic, Health, NumberOrHex, SubstrateTxStatus,
    TryFromIntError, U256,
};
use subxt::DecodeError;

#[test]
fn number_or_hex_default_is_zero() {
    assert_eq!(NumberOrHex::default(), NumberOrHex::Number(0));
}

#[test]
fn into_u256_keeps_the_number() {
    assert_eq!(NumberOrHex::Number(5).into_u256(), U256 { high: 0, low: 5 });
    assert_eq!(
        NumberOrHex::Number(u64::MAX).into_u256(),
        U256 { high: 0, low: u64::MAX as u128 }
    );
    let big = U256 { high: 3, low: 4 };
    assert_eq!(NumberOrHex::Hex(big).into_u256(), big);
    assert_eq!(U256::from(NumberOrHex::Hex(big)), big);
    assert_eq!(U256::from(NumberOrHex::Number(9)), U256 { high: 0, low: 9 });
}

#[test]
fn number_or_hex_from_integers() {
    assert_eq!(NumberOrHex::from(7u32), NumberOrHex::Number(7));
    assert_eq!(NumberOrHex::from(7u64), NumberOrHex::Number(7));
    assert_eq!(NumberOrHex::from(7u128), NumberOrHex::Hex(U256 { high: 0, low: 7 }));
    assert_eq!(
        NumberOrHex::from(U256 { high: 1, low: 0 }),
        NumberOrHex::Hex(U256 { high: 1, low: 0 })
    );
    assert_eq!(U256::from(0x1234u64), U256 { high: 0, low: 0x1234 });
    assert_eq!(U256::from(u128::MAX), U256 { high: 0, low: u128::MAX });
}

#[test]
fn try_from_succeeds_up_to_the_maximum() {
    let hex = |low: u128| NumberOrHex::Hex(U256 { high: 0, low });
    assert_eq!(u32::try_from(NumberOrHex::Number(10000)), Ok(10000));
    assert_eq!(u32::try_from(hex(u32::MAX as u128)), Ok(u32::MAX));
    assert_eq!(u32::try_from(hex(u32::MAX as u128 + 1)), Err(TryFromIntError));
    assert_eq!(u32::try_from(NumberOrHex::Number(1 << 32)), Err(TryFromIntError));
    assert_eq!(u64::try_from(NumberOrHex::Number(1000000000000)), Ok(1000000000000));
    assert_eq!(u64::try_from(hex(u64::MAX as u128)), Ok(u64::MAX));
    assert_eq!(u64::try_from(hex(u64::MAX as u128 + 1)), Err(TryFromIntError));
    assert_eq!(u128::try_from(hex(u128::MAX)), Ok(u128::MAX));
    assert_eq!(u128::try_from(NumberOrHex::Number(0)), Ok(0));
}

#[test]
fn try_from_fails_above_128_bits() {
    let wide = NumberOrHex::Hex(U256 { high: 1, low: 0 });
    assert_eq!(u32::try_from(wide), Err(TryFromIntError));
    assert_eq!(u64::try_from(wide), Err(TryFromIntError));
    assert_eq!(u128::try_from(wide), Err(TryFromIntError));
    let low_small = NumberOrHex::Hex(U256 { high: u128::MAX, low: 1 });
    assert_eq!(u32::try_from(low_small), Err(TryFromIntError));
    assert_eq!(u128::try_from(low_small), Err(TryFromIntError));
}

#[test]
fn block_number_from_integers() {
    assert_eq!(BlockNumber::from(3u8), BlockNumber(NumberOrHex::Number(3)));
    assert_eq!(BlockNumber::from(3u16), BlockNumber(NumberOrHex::Number(3)));
    assert_eq!(BlockNumber::from(3u32), BlockNumber(NumberOrHex::Number(3)));
    assert_eq!(BlockNumber::from(u64::MAX), BlockNumber(NumberOrHex::Number(u64::MAX)));
    let hex = NumberOrHex::Hex(U256 { high: 0, low: 0x1234 });
    assert_eq!(BlockNumber::from(hex), BlockNumber(hex));
}

#[test]
fn to_hex_is_lower_case_behind_0x() {
    assert_eq!(to_hex(&[]), "0x");
    assert_eq!(to_hex(&[0x12, 0x34]), "0x1234");
    assert_eq!(to_hex(&[0]), "0x00");
    assert_eq!(to_hex(&[1, 2, 3, 15, 16]), "0x0102030f10");
    assert_eq!(to_hex(&[0xab, 0xcd, 0xef, 0x09, 0x9a, 0xff]), "0xabcdef099aff");
}

#[test]
fn chain_block_extrinsic_is_behind_a_length() {
    let encoded = vec![1u8, 2, 3].encode();
    assert_eq!(encoded, vec![12, 1, 2, 3]);
    assert_eq!(ChainBlockExtrinsic::decode(&encoded), Ok(ChainBlockExtrinsic(vec![1, 2, 3])));
    assert_eq!(ChainBlockExtrinsic::decode(&[0]), Ok(ChainBlockExtrinsic(vec![])));
    assert_eq!(
        ChainBlockExtrinsic::decode(&[4, 9, 8, 7]),
        Ok(ChainBlockExtrinsic(vec![9]))
    );
    let long = vec![5u8; 300].encode();
    assert_eq!(ChainBlockExtrinsic::decode(&long), Ok(ChainBlockExtrinsic(vec![5; 300])));
}

#[test]
fn chain_block_extrinsic_rejects_short_input() {
    assert_eq!(ChainBlockExtrinsic::decode(&[]), Err(DecodeError::Codec));
    assert_eq!(ChainBlockExtrinsic::decode(&[12, 1, 2]), Err(DecodeError::Codec));
}

#[test]
fn plain_values_compare_by_their_fields() {
    let stats =
        BlockStats { witness_len: 1, witness_compact_len: 2, block_len: 3, num_extrinsics: 4 };
    assert_eq!(stats, stats.clone());
    assert_ne!(stats, BlockStats { num_extrinsics: 5, ..stats });
    let health = Health { peers: 3, is_syncing: false, should_have_peers: true };
    assert_ne!(health, Health { is_syncing: true, ..health });
    let status: SubstrateTxStatus<u8, u16> = SubstrateTxStatus::InBlock(7);
    assert_eq!(status.clone(), SubstrateTxStatus::InBlock(7));
    assert_ne!(status, SubstrateTxStatus::Finalized(7));
    assert_ne!(SubstrateTxStatus::<u8, u16>::Usurped(1), SubstrateTxStatus::Dropped);
    assert_eq!(
        SubstrateTxStatus::<u8, u16>::Broadcast(vec!["a".to_string()]),
        SubstrateTxStatus::Broadcast(vec!["a".to_string()])
    );
}
