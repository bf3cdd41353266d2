use nft_stake::address::{
    derive_address, holding_account, metadata_seeds_exec, stake_seeds_exec, vault_seeds_exec,
    whitelist_seeds_exec,
};
use nft_stake::error::StakeError;
use borsh::BorshSerialize;
use nft_stake::handlers::{process_instruction, AccountView, Action};
use nft_stake::provenance::read_provenance;
use solana_program::pubkey::Pubkey;
use spl_token_metadata::state::{Creator as MdCreator, Data, Key as MdKey, Metadata, MAX_METADATA_LEN};
use nft_stake::key::{Config, Key};

fn k(b: u8) -> Key {
    Key::new([b; 32])
}

fn metadata_bytes(mint: &Key, creators: Option<Vec<(Key, bool)>>) -> Vec<u8> {
    let listed = creators.map(|cs| {
        cs.into_iter()
            .map(|(k, v)| MdCreator { address: Pubkey::new_from_array(k.bytes), verified: v, share: 50 })
            .collect()
    });
    let md = Metadata {
        key: MdKey::MetadataV1,
        update_authority: Pubkey::new_from_array([0u8; 32]),
        mint: Pubkey::new_from_array(mint.bytes),
        data: Data {
            name: "Ape".to_string(),
            symbol: "APE".to_string(),
            uri: "https://example.com/1.json".to_string(),
            seller_fee_basis_points: 500,
            creators: listed,
        },
        primary_sale_happened: false,
        is_mutable: true,
        edition_nonce: None,
    };
    let mut b = md.try_to_vec().unwrap();
    b.resize(MAX_METADATA_LEN, 0);
    b
}

fn acct(key: Key, owner: Key, is_signer: bool, data: Vec<u8>) -> AccountView {
    AccountView { key, owner, is_signer, data }
}

struct World {
    program: Key,
    config: Config,
    system: Key,
    vault: Key,
    vault_data: Vec<u8>,
    whitelist: Key,
    whitelist_data: Vec<u8>,
    collection: Key,
    mint: Key,
    metadata: Key,
    metadata_data: Vec<u8>,
    stake: Key,
    stake_data: Vec<u8>,
    stake_owner: Key,
}

fn world() -> World {
    let program = k(70);
    let config =
        Config { admin: k(1), reward_mint: k(2), token_program: k(3), metadata_program: k(4) };
    let vault = derive_address(&vault_seeds_exec(), &program).unwrap().0;
    let collection = k(8);
    let whitelist = derive_address(&whitelist_seeds_exec(&collection), &program).unwrap().0;
    let mint = k(6);
    let metadata =
        derive_address(&metadata_seeds_exec(&config.metadata_program, &mint), &config.metadata_program)
            .unwrap()
            .0;
    let stake = derive_address(&stake_seeds_exec(&mint), &program).unwrap().0;
    World {
        program,
        config,
        system: k(0),
        vault,
        vault_data: vec![],
        whitelist,
        whitelist_data: vec![],
        collection,
        mint,
        metadata,
        metadata_data: metadata_bytes(&mint, Some(vec![(collection, true), (k(99), false)])),
        stake,
        stake_data: vec![],
        stake_owner: k(0),
    }
}

fn payload(tag: u8, values: &[u64]) -> Vec<u8> {
    let mut out = vec![tag];
    for v in values {
        out.extend_from_slice(&v.to_le_bytes());
    }
    out
}

fn written(actions: &[Action], at: &Key) -> Vec<u8> {
    for a in actions {
        if let Action::WriteRecord { address, data } = a {
            if address == at {
                return data.clone();
            }
        }
    }
    panic!("no write to the record");
}

fn configure(w: &mut World, caller: Key, signer: bool, min: u64, period: u64) -> Result<Vec<Action>, StakeError> {
    let owner = if w.vault_data.is_empty() { w.system } else { w.program };
    let accounts = vec![
        acct(caller, w.system, signer, vec![]),
        acct(w.system, w.system, false, vec![]),
        acct(w.vault, owner, false, w.vault_data.clone()),
        acct(k(90), w.system, false, vec![]),
    ];
    let r = process_instruction(&w.program, &w.config, &accounts, &payload(0, &[min, period]), 0);
    if let Ok(actions) = &r {
        w.vault_data = written(actions, &w.vault);
    }
    r
}

fn set_price(w: &mut World, caller: Key, price: u64) -> Result<Vec<Action>, StakeError> {
    let owner = if w.whitelist_data.is_empty() { w.system } else { w.program };
    let accounts = vec![
        acct(caller, w.system, true, vec![]),
        acct(w.collection, w.system, false, vec![]),
        acct(w.whitelist, owner, false, w.whitelist_data.clone()),
        acct(w.system, w.system, false, vec![]),
        acct(k(90), w.system, false, vec![]),
    ];
    let r = process_instruction(&w.program, &w.config, &accounts, &payload(3, &[price]), 0);
    if let Ok(actions) = &r {
        w.whitelist_data = written(actions, &w.whitelist);
    }
    r
}

fn stake_accounts(w: &World, holder: Key) -> Vec<AccountView> {
    let wl_owner = if w.whitelist_data.is_empty() { w.system } else { w.program };
    vec![
        acct(holder, w.system, true, vec![]),
        acct(w.mint, w.config.token_program, false, vec![]),
        acct(w.metadata, w.config.metadata_program, false, w.metadata_data.clone()),
        acct(w.vault, w.program, false, w.vault_data.clone()),
        acct(holding_account(&holder, &w.mint), w.config.token_program, false, vec![]),
        acct(holding_account(&w.vault, &w.mint), w.system, false, vec![]),
        acct(w.config.token_program, w.system, false, vec![]),
        acct(w.system, w.system, false, vec![]),
        acct(k(90), w.system, false, vec![]),
        acct(k(91), w.system, false, vec![]),
        acct(w.stake, w.stake_owner, false, w.stake_data.clone()),
        acct(w.whitelist, wl_owner, false, w.whitelist_data.clone()),
    ]
}

fn do_stake(w: &mut World, holder: Key, now: u64) -> Result<Vec<Action>, StakeError> {
    let accounts = stake_accounts(w, holder);
    let r = process_instruction(&w.program, &w.config, &accounts, &[1], now);
    if let Ok(actions) = &r {
        w.stake_data = written(actions, &w.stake);
        w.stake_owner = w.program;
    }
    r
}

fn unstake_accounts(w: &World, holder: Key) -> Vec<AccountView> {
    let rm = w.config.reward_mint;
    vec![
        acct(holder, w.system, false, vec![]),
        acct(w.system, w.system, false, vec![]),
        acct(w.mint, w.config.token_program, false, vec![]),
        acct(w.config.token_program, w.system, false, vec![]),
        acct(k(90), w.system, false, vec![]),
        acct(k(91), w.system, false, vec![]),
        acct(w.stake, w.stake_owner, false, w.stake_data.clone()),
        acct(w.vault, w.program, false, w.vault_data.clone()),
        acct(holding_account(&holder, &rm), w.system, false, vec![]),
        acct(holding_account(&w.vault, &rm), w.config.token_program, false, vec![]),
        acct(holding_account(&holder, &w.mint), w.config.token_program, false, vec![]),
        acct(holding_account(&w.vault, &w.mint), w.config.token_program, false, vec![]),
        acct(w.metadata, w.config.metadata_program, false, w.metadata_data.clone()),
        acct(w.whitelist, w.program, false, w.whitelist_data.clone()),
        acct(rm, w.config.token_program, false, vec![]),
    ]
}

fn do_unstake(w: &mut World, holder: Key, now: u64) -> Result<Vec<Action>, StakeError> {
    let accounts = unstake_accounts(w, holder);
    let r = process_instruction(&w.program, &w.config, &accounts, &[2], now);
    if let Ok(actions) = &r {
        w.stake_data = written(actions, &w.stake);
    }
    r
}

fn ready() -> World {
    let mut w = world();
    configure(&mut w, k(1), true, 86400, 3600).unwrap();
    set_price(&mut w, k(1), 10).unwrap();
    w
}

#[test]
fn configure_vault_writes_parameters() {
    let mut w = world();
    let actions = configure(&mut w, k(1), true, 86400, 3600).unwrap();
    assert_eq!(actions.len(), 2);
    assert!(matches!(&actions[0], Action::CreateRecord { space: 16, .. }));
    assert_eq!(&w.vault_data[..8], &86400u64.to_le_bytes());
    assert_eq!(&w.vault_data[8..], &3600u64.to_le_bytes());
    let again = configure(&mut w, k(1), true, 5, 7).unwrap();
    assert_eq!(again.len(), 1);
    assert_eq!(&w.vault_data[..8], &5u64.to_le_bytes());
    assert_eq!(&w.vault_data[8..], &7u64.to_le_bytes());
}

#[test]
fn admin_instructions_refuse_others() {
    let mut w = world();
    assert_eq!(configure(&mut w, k(50), true, 1, 1).unwrap_err(), StakeError::Unauthorized);
    assert_eq!(configure(&mut w, k(1), false, 1, 1).unwrap_err(), StakeError::Unauthorized);
    assert!(w.vault_data.is_empty());
    assert_eq!(set_price(&mut w, k(50), 10).unwrap_err(), StakeError::Unauthorized);
    assert!(w.whitelist_data.is_empty());
    let accounts: Vec<AccountView> = (0..9).map(|i| acct(k(50 + i), k(0), true, vec![])).collect();
    let r = process_instruction(&w.program, &w.config, &accounts, &payload(4, &[5]), 0);
    assert_eq!(r.unwrap_err(), StakeError::Unauthorized);
}

#[test]
fn zero_reward_period_rejected() {
    let mut w = world();
    assert_eq!(configure(&mut w, k(1), true, 10, 0).unwrap_err(), StakeError::ZeroRewardPeriod);
}

#[test]
fn mismatched_addresses_rejected() {
    let mut w = ready();
    w.vault = k(33);
    assert_eq!(configure(&mut w, k(1), true, 1, 1).unwrap_err(), StakeError::AddressMismatch);
    let mut w = ready();
    w.whitelist = k(34);
    assert_eq!(set_price(&mut w, k(1), 1).unwrap_err(), StakeError::AddressMismatch);
    let mut w = ready();
    w.stake = k(35);
    assert_eq!(do_stake(&mut w, k(5), 100).unwrap_err(), StakeError::AddressMismatch);
}

#[test]
fn derivation_is_deterministic() {
    let w = world();
    let a = derive_address(&vault_seeds_exec(), &w.program).unwrap();
    let b = derive_address(&vault_seeds_exec(), &w.program).unwrap();
    assert!(a.0 == b.0);
    assert_eq!(a.1, b.1);
    assert!(!(a.0 == w.whitelist));
    assert!(!(a.0 == w.program));
    assert!(!(holding_account(&k(5), &k(6)) == k(5)));
    assert!(!(holding_account(&k(5), &k(6)) == holding_account(&k(6), &k(5))));
}

#[test]
fn stake_records_lock_and_moves_one_nft() {
    let mut w = ready();
    let holder = k(5);
    let actions = do_stake(&mut w, holder, 1_000_000).unwrap();
    assert!(matches!(&actions[0], Action::CreateRecord { space: 41, .. }));
    assert_eq!(&w.stake_data[..8], &1_000_000u64.to_le_bytes());
    assert_eq!(&w.stake_data[8..40], &[5u8; 32]);
    assert_eq!(w.stake_data[40], 1);
    match actions.last().unwrap() {
        Action::Transfer { source, destination, amount, signer, .. } => {
            assert!(*source == holding_account(&holder, &w.mint));
            assert!(*destination == holding_account(&w.vault, &w.mint));
            assert_eq!(*amount, 1);
            assert!(signer.is_none());
        }
        _ => panic!("last effect is not the NFT transfer"),
    }
}

#[test]
fn stake_refusals() {
    let mut w = world();
    configure(&mut w, k(1), true, 86400, 3600).unwrap();
    assert_eq!(do_stake(&mut w, k(5), 100).unwrap_err(), StakeError::NotWhitelisted);
    let mut w = ready();
    let mut accounts = stake_accounts(&w, k(5));
    accounts[0].is_signer = false;
    let r = process_instruction(&w.program, &w.config, &accounts, &[1], 100);
    assert_eq!(r.unwrap_err(), StakeError::Unauthorized);
    let mut accounts = stake_accounts(&w, k(5));
    accounts[2].data = metadata_bytes(&w.mint, Some(vec![(w.collection, false)]));
    let r = process_instruction(&w.program, &w.config, &accounts, &[1], 100);
    assert_eq!(r.unwrap_err(), StakeError::UnverifiedProvenance);
    accounts[2].data = metadata_bytes(&w.mint, None);
    let r = process_instruction(&w.program, &w.config, &accounts, &[1], 100);
    assert_eq!(r.unwrap_err(), StakeError::UnverifiedProvenance);
    accounts[2].data = vec![];
    let r = process_instruction(&w.program, &w.config, &accounts, &[1], 100);
    assert_eq!(r.unwrap_err(), StakeError::UnverifiedProvenance);
    accounts[2].data = vec![4u8; 10];
    let r = process_instruction(&w.program, &w.config, &accounts, &[1], 100);
    assert_eq!(r.unwrap_err(), StakeError::UnverifiedProvenance);
    let mut accounts = stake_accounts(&w, k(5));
    accounts[6].key = k(44);
    let r = process_instruction(&w.program, &w.config, &accounts, &[1], 100);
    assert_eq!(r.unwrap_err(), StakeError::WrongToken);
    let r = process_instruction(&w.program, &w.config, &accounts[..11].to_vec(), &[1], 100);
    assert_eq!(r.unwrap_err(), StakeError::MissingAccount);
    let r = process_instruction(&w.program, &w.config, &accounts, &[9], 100);
    assert_eq!(r.unwrap_err(), StakeError::DecodeFault);
    w.whitelist_data = vec![1, 2, 3];
    assert_eq!(do_stake(&mut w, k(5), 100).unwrap_err(), StakeError::CorruptState);
}

#[test]
fn early_unstake_is_too_early() {
    let mut w = ready();
    do_stake(&mut w, k(5), 1_000_000).unwrap();
    let before = w.stake_data.clone();
    assert_eq!(do_unstake(&mut w, k(5), 1_000_000).unwrap_err(), StakeError::TooEarly);
    assert_eq!(do_unstake(&mut w, k(5), 1_003_600).unwrap_err(), StakeError::TooEarly);
    assert_eq!(w.stake_data, before);
    assert_eq!(w.stake_data[40], 1);
}

#[test]
fn unstake_pays_whole_periods() {
    let mut w = ready();
    let holder = k(5);
    let t0 = 1_000_000u64;
    do_stake(&mut w, holder, t0).unwrap();
    let actions = do_unstake(&mut w, holder, t0 + 90000).unwrap();
    let rm = w.config.reward_mint;
    let mut reward_moved = 0u64;
    let mut nft_moved = 0u64;
    for a in &actions {
        if let Action::Transfer { source, destination, amount, signer, .. } = a {
            assert!(signer.is_some());
            if *source == holding_account(&w.vault, &rm) {
                assert!(*destination == holding_account(&holder, &rm));
                reward_moved += amount;
            } else {
                assert!(*source == holding_account(&w.vault, &w.mint));
                assert!(*destination == holding_account(&holder, &w.mint));
                nft_moved += amount;
            }
        }
    }
    assert_eq!(reward_moved, 250);
    assert_eq!(nft_moved, 1);
    assert!(actions.iter().any(|a| matches!(a, Action::CloseHolding { .. })));
    assert_eq!(w.stake_data[40], 0);
    assert_eq!(do_unstake(&mut w, holder, t0 + 200000).unwrap_err(), StakeError::StakeInactive);
}

#[test]
fn restake_reuses_record() {
    let mut w = ready();
    do_stake(&mut w, k(5), 1_000_000).unwrap();
    do_unstake(&mut w, k(5), 1_090_000).unwrap();
    let actions = do_stake(&mut w, k(12), 2_000_000).unwrap();
    assert!(!actions.iter().any(|a| matches!(a, Action::CreateRecord { .. })));
    assert_eq!(&w.stake_data[..8], &2_000_000u64.to_le_bytes());
    assert_eq!(&w.stake_data[8..40], &[12u8; 32]);
    assert_eq!(w.stake_data[40], 1);
}

#[test]
fn unstake_by_other_is_unauthorized() {
    let mut w = ready();
    do_stake(&mut w, k(5), 1_000_000).unwrap();
    assert_eq!(do_unstake(&mut w, k(13), 1_000_000).unwrap_err(), StakeError::Unauthorized);
    assert_eq!(do_unstake(&mut w, k(13), 9_000_000).unwrap_err(), StakeError::Unauthorized);
}

#[test]
fn withdraw_moves_requested_amount() {
    let w = ready();
    let rm = w.config.reward_mint;
    let admin = k(1);
    let accounts = vec![
        acct(admin, w.system, true, vec![]),
        acct(holding_account(&admin, &rm), w.system, false, vec![]),
        acct(holding_account(&w.vault, &rm), w.config.token_program, false, vec![]),
        acct(w.vault, w.program, false, w.vault_data.clone()),
        acct(rm, w.config.token_program, false, vec![]),
        acct(w.system, w.system, false, vec![]),
        acct(w.config.token_program, w.system, false, vec![]),
        acct(k(90), w.system, false, vec![]),
        acct(k(91), w.system, false, vec![]),
    ];
    let actions =
        process_instruction(&w.program, &w.config, &accounts, &payload(4, &[777]), 0).unwrap();
    assert_eq!(actions.len(), 2);
    assert!(matches!(&actions[0], Action::CreateHolding { .. }));
    match &actions[1] {
        Action::Transfer { amount, authority, .. } => {
            assert_eq!(*amount, 777);
            assert!(*authority == w.vault);
        }
        _ => panic!("second effect is not the transfer"),
    }
    let mut bad = accounts.clone();
    bad[2].key = k(40);
    let r = process_instruction(&w.program, &w.config, &bad, &payload(4, &[777]), 0);
    assert_eq!(r.unwrap_err(), StakeError::AddressMismatch);
}

#[test]
fn provenance_lists_creators_in_order() {
    let bytes = metadata_bytes(&k(6), Some(vec![(k(8), true), (k(9), false)]));
    let cs = read_provenance(&bytes).unwrap();
    assert_eq!(cs.len(), 2);
    assert!(cs[0].address == k(8) && cs[0].verified);
    assert!(cs[1].address == k(9) && !cs[1].verified);
    assert!(read_provenance(&bytes[..100]).is_none());
    assert!(read_provenance(&[]).is_none());
}
