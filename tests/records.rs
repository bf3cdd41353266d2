use nft_stake::codec::{
    decode_instruction, decode_stake, decode_vault, decode_whitelist, encode_stake, encode_vault,
    encode_whitelist, StakeInstruction, StakeRecord, VaultRecord, WhitelistRecord,
};
use nft_stake::error::StakeError;
use nft_stake::handlers::unstake_reward;
use nft_stake::key::Key;

#[test]
fn vault_record_round_trip() {
    let v = VaultRecord { min_period: 86400, reward_period: 3600 };
    let bytes = encode_vault(&v);
    assert_eq!(bytes, vec![0x80, 0x51, 0x01, 0, 0, 0, 0, 0, 0x10, 0x0e, 0, 0, 0, 0, 0, 0]);
    assert_eq!(decode_vault(&bytes), Some(v));
    assert_eq!(decode_vault(&bytes[..15]), None);
}

#[test]
fn whitelist_record_round_trip() {
    let w = WhitelistRecord { price: u64::MAX - 1 };
    let bytes = encode_whitelist(&w);
    assert_eq!(bytes.len(), 8);
    assert_eq!(decode_whitelist(&bytes), Some(w));
    assert_eq!(decode_whitelist(&[1, 2, 3]), None);
}

#[test]
fn stake_record_round_trip() {
    let s = StakeRecord { timestamp: 1_700_000_000, staker: Key::new([9u8; 32]), active: true };
    let bytes = encode_stake(&s);
    assert_eq!(bytes.len(), 41);
    assert_eq!(bytes[40], 1);
    assert_eq!(&bytes[8..40], &[9u8; 32]);
    let back = decode_stake(&bytes).unwrap();
    assert_eq!(back.timestamp, 1_700_000_000);
    assert!(back.staker == Key::new([9u8; 32]));
    assert!(back.active);
    let mut bad = bytes.clone();
    bad[40] = 2;
    assert!(decode_stake(&bad).is_none());
    assert!(decode_stake(&bytes[..40]).is_none());
}

#[test]
fn instruction_tags_decode() {
    let mut gen = vec![0u8];
    gen.extend_from_slice(&86400u64.to_le_bytes());
    gen.extend_from_slice(&3600u64.to_le_bytes());
    assert_eq!(
        decode_instruction(&gen),
        Some(StakeInstruction::GenerateVault { min_period: 86400, reward_period: 3600 })
    );
    assert_eq!(decode_instruction(&[1]), Some(StakeInstruction::Stake));
    assert_eq!(decode_instruction(&[2, 99]), Some(StakeInstruction::Unstake));
    let mut price = vec![3u8];
    price.extend_from_slice(&10u64.to_le_bytes());
    assert_eq!(decode_instruction(&price), Some(StakeInstruction::AddToWhitelist { price: 10 }));
    let mut amount = vec![4u8];
    amount.extend_from_slice(&500u64.to_le_bytes());
    assert_eq!(decode_instruction(&amount), Some(StakeInstruction::Withdraw { amount: 500 }));
}

#[test]
fn malformed_instructions_rejected() {
    assert_eq!(decode_instruction(&[]), None);
    assert_eq!(decode_instruction(&[5]), None);
    assert_eq!(decode_instruction(&[0, 1, 2, 3]), None);
    assert_eq!(decode_instruction(&[4, 1]), None);
}

#[test]
fn reward_is_whole_periods_times_price() {
    let holder = Key::new([5u8; 32]);
    let vault = VaultRecord { min_period: 86400, reward_period: 3600 };
    let t0 = 1_000_000u64;
    let rec = StakeRecord { timestamp: t0, staker: holder, active: true };
    assert_eq!(unstake_reward(&rec, &vault, 10, &holder, t0 + 3600), Err(StakeError::TooEarly));
    assert_eq!(unstake_reward(&rec, &vault, 10, &holder, t0 + 90000), Ok(250));
    assert_eq!(unstake_reward(&rec, &vault, 10, &holder, t0 + 86400), Ok(240));
}

#[test]
fn reward_refusals() {
    let holder = Key::new([5u8; 32]);
    let other = Key::new([6u8; 32]);
    let vault = VaultRecord { min_period: 10, reward_period: 1 };
    let rec = StakeRecord { timestamp: 0, staker: holder, active: true };
    assert_eq!(unstake_reward(&rec, &vault, 1, &other, 1_000_000), Err(StakeError::Unauthorized));
    let inactive = StakeRecord { timestamp: 0, staker: holder, active: false };
    assert_eq!(unstake_reward(&inactive, &vault, 1, &holder, 100), Err(StakeError::StakeInactive));
    assert_eq!(unstake_reward(&rec, &vault, u64::MAX, &holder, 100), Err(StakeError::RewardOverflow));
    let zero = VaultRecord { min_period: 0, reward_period: 0 };
    assert_eq!(unstake_reward(&rec, &zero, 1, &holder, 100), Err(StakeError::CorruptState));
    let late = StakeRecord { timestamp: 500, staker: holder, active: true };
    assert_eq!(unstake_reward(&late, &vault, 1, &holder, 100), Err(StakeError::TooEarly));
}

#[test]
fn error_codes_are_distinct() {
    let all = [
        StakeError::Unauthorized,
        StakeError::AddressMismatch,
        StakeError::WrongToken,
        StakeError::NotWhitelisted,
        StakeError::UnverifiedProvenance,
        StakeError::CorruptState,
        StakeError::StakeInactive,
        StakeError::TooEarly,
        StakeError::DecodeFault,
        StakeError::MissingAccount,
        StakeError::ZeroRewardPeriod,
        StakeError::RewardOverflow,
    ];
    for i in 0..all.len() {
        for j in 0..all.len() {
            assert_eq!(all[i].code() == all[j].code(), i == j);
        }
    }
}
