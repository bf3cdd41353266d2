//! The five instructions: what each checks, in order, and the effects it
//! asks the host to apply when every check passes.
//!
//! A handler returns effects only once all of its checks have passed, so no
//! caller's funds are spent on account creation for an instruction that is
//! then refused. The administrator check of the three administrative
//! instructions comes before every other check.
use crate::address::{
    associated_address, derive_and_sign, holding_address, metadata_seeds, metadata_seeds_exec,
    program_address, signed_seeds, stake_seeds, stake_seeds_exec, vault_seeds, vault_seeds_exec,
    whitelist_seeds, whitelist_seeds_exec, Signer,
};
use crate::codec::{
    decode_instruction, decode_instruction_spec, decode_stake, decode_stake_spec, decode_vault,
    decode_vault_spec, decode_whitelist, decode_whitelist_spec, encode_stake, encode_vault,
    encode_whitelist, stake_record_bytes, vault_bytes, whitelist_bytes, StakeInstruction,
    StakeRecord, VaultRecord, WhitelistRecord, STAKE_RECORD_LEN, VAULT_RECORD_LEN,
    WHITELIST_RECORD_LEN,
};
use crate::error::StakeError;
use crate::key::{Config, Key};
use crate::provenance::{first_creator, first_of, provenance_of};
use vstd::prelude::*;

verus! {

/// What the instruction sees of one ledger account.
#[derive(Clone, Debug)]
pub struct AccountView {
    pub key: Key,
    pub owner: Key,
    pub is_signer: bool,
    pub data: Vec<u8>,
}

pub struct AccountModel {
    pub key: Seq<u8>,
    pub owner: Seq<u8>,
    pub is_signer: bool,
    pub data: Seq<u8>,
}

impl View for AccountView {
    type V = AccountModel;

    open spec fn view(&self) -> AccountModel {
        AccountModel {
            key: self.key@,
            owner: self.owner@,
            is_signer: self.is_signer,
            data: self.data@,
        }
    }
}

/// An effect that the host applies once the whole instruction has passed.
#[derive(Clone, Debug)]
pub enum Action {
    /// Fund `address` for `space` bytes from `payer`, allocate it and assign
    /// it to the program, signing as `address` with `signer`.
    CreateRecord { payer: Key, address: Key, space: u64, signer: Signer },
    /// Create the holding account of `wallet` for `mint`, paid by `payer`.
    CreateHolding { payer: Key, wallet: Key, mint: Key },
    /// Move `amount` token units from `source` to `destination` on the
    /// authority of `authority`, which signs through `signer` when it is a
    /// derived address.
    Transfer { source: Key, destination: Key, authority: Key, amount: u64, signer: Option<Signer> },
    /// Close the holding account `account`, refunding its deposit to
    /// `destination`.
    CloseHolding { account: Key, destination: Key, authority: Key, signer: Signer },
    /// Overwrite the bytes of the record account `address`.
    WriteRecord { address: Key, data: Vec<u8> },
}

pub enum ActionModel {
    CreateRecord { payer: Seq<u8>, address: Seq<u8>, space: u64, seeds: Seq<Seq<u8>> },
    CreateHolding { payer: Seq<u8>, wallet: Seq<u8>, mint: Seq<u8> },
    Transfer {
        source: Seq<u8>,
        destination: Seq<u8>,
        authority: Seq<u8>,
        amount: u64,
        signer: Option<Seq<Seq<u8>>>,
    },
    CloseHolding { account: Seq<u8>, destination: Seq<u8>, authority: Seq<u8>, seeds: Seq<Seq<u8>> },
    WriteRecord { address: Seq<u8>, data: Seq<u8> },
}

impl View for Action {
    type V = ActionModel;

    open spec fn view(&self) -> ActionModel {
        match self {
            Action::CreateRecord { payer, address, space, signer } => ActionModel::CreateRecord {
                payer: payer@,
                address: address@,
                space: *space,
                seeds: signer@,
            },
            Action::CreateHolding { payer, wallet, mint } => ActionModel::CreateHolding {
                payer: payer@,
                wallet: wallet@,
                mint: mint@,
            },
            Action::Transfer { source, destination, authority, amount, signer } => {
                ActionModel::Transfer {
                    source: source@,
                    destination: destination@,
                    authority: authority@,
                    amount: *amount,
                    signer: match signer {
                        Some(s) => Some(s@),
                        None => None,
                    },
                }
            },
            Action::CloseHolding { account, destination, authority, signer } => {
                ActionModel::CloseHolding {
                    account: account@,
                    destination: destination@,
                    authority: authority@,
                    seeds: signer@,
                }
            },
            Action::WriteRecord { address, data } => ActionModel::WriteRecord {
                address: address@,
                data: data@,
            },
        }
    }
}

pub open spec fn accounts_model(v: Seq<AccountView>) -> Seq<AccountModel> {
    v.map_values(|a: AccountView| a@)
}

pub open spec fn actions_model(v: Seq<Action>) -> Seq<ActionModel> {
    v.map_values(|a: Action| a@)
}

/// The outcome of an instruction, with its effects seen through their models.
pub open spec fn outcome(r: Result<Vec<Action>, StakeError>) -> Result<Seq<ActionModel>, StakeError> {
    match r {
        Ok(v) => Ok(actions_model(v@)),
        Err(e) => Err(e),
    }
}

/// The supplied address is the one derived from `seeds` under `program`.
pub open spec fn derived_ok(seeds: Seq<Seq<u8>>, program: Seq<u8>, supplied: Seq<u8>) -> bool {
    program_address(seeds, program) matches Some((a, _)) && a == supplied
}

pub open spec fn bump_of(seeds: Seq<Seq<u8>>, program: Seq<u8>) -> u8 {
    program_address(seeds, program)->Some_0.1
}

/// The signing capability of the address derived from `seeds`.
pub open spec fn signer_of(seeds: Seq<Seq<u8>>, program: Seq<u8>) -> Seq<Seq<u8>> {
    signed_seeds(seeds, bump_of(seeds, program))
}

/// The creation of a record account, where it is not yet the program's.
pub open spec fn record_creation(
    needed: bool,
    payer: Seq<u8>,
    address: Seq<u8>,
    space: u64,
    seeds: Seq<Seq<u8>>,
) -> Seq<ActionModel> {
    if needed {
        seq![ActionModel::CreateRecord { payer, address, space, seeds }]
    } else {
        seq![]
    }
}

/// The creation of a holding account, where the token service does not own it yet.
pub open spec fn holding_creation(needed: bool, payer: Seq<u8>, wallet: Seq<u8>, mint: Seq<u8>) -> Seq<
    ActionModel,
> {
    if needed {
        seq![ActionModel::CreateHolding { payer, wallet, mint }]
    } else {
        seq![]
    }
}

pub open spec fn is_admin(cfg: Config, caller: AccountModel) -> bool {
    caller.key == cfg.admin@ && caller.is_signer
}

/// The reward owed when a lock of `staker` taken at `timestamp` is released
/// by `caller` at `now`, or why it cannot be released.
pub open spec fn unstake_outcome(
    timestamp: u64,
    staker: Seq<u8>,
    active: bool,
    vault: VaultRecord,
    price: u64,
    caller: Seq<u8>,
    now: u64,
) -> Result<u64, StakeError> {
    if !active {
        Err(StakeError::StakeInactive)
    } else if staker != caller {
        Err(StakeError::Unauthorized)
    } else if now < timestamp || now - timestamp < vault.min_period {
        Err(StakeError::TooEarly)
    } else if vault.reward_period == 0 {
        Err(StakeError::CorruptState)
    } else if (now - timestamp) / (vault.reward_period as int) * price > u64::MAX {
        Err(StakeError::RewardOverflow)
    } else {
        Ok(((now - timestamp) / (vault.reward_period as int) * price) as u64)
    }
}

/// Accounts: admin, system service, vault record, rent.
pub open spec fn configure_vault_spec(
    program: Seq<u8>,
    cfg: Config,
    a: Seq<AccountModel>,
    min_period: u64,
    reward_period: u64,
) -> Result<Seq<ActionModel>, StakeError> {
    if a.len() < 4 {
        Err(StakeError::MissingAccount)
    } else {
        let admin = a[0];
        let vault = a[2];
        if !is_admin(cfg, admin) {
            Err(StakeError::Unauthorized)
        } else if reward_period == 0 {
            Err(StakeError::ZeroRewardPeriod)
        } else if !derived_ok(vault_seeds(), program, vault.key) {
            Err(StakeError::AddressMismatch)
        } else {
            Ok(
                record_creation(
                    vault.owner != program,
                    admin.key,
                    vault.key,
                    16,
                    signer_of(vault_seeds(), program),
                ) + seq![
                    ActionModel::WriteRecord {
                        address: vault.key,
                        data: vault_bytes(VaultRecord { min_period, reward_period }),
                    },
                ],
            )
        }
    }
}

/// Accounts: admin, collection, price record, system service, rent.
pub open spec fn add_to_whitelist_spec(
    program: Seq<u8>,
    cfg: Config,
    a: Seq<AccountModel>,
    price: u64,
) -> Result<Seq<ActionModel>, StakeError> {
    if a.len() < 5 {
        Err(StakeError::MissingAccount)
    } else {
        let admin = a[0];
        let collection = a[1];
        let wl = a[2];
        if !is_admin(cfg, admin) {
            Err(StakeError::Unauthorized)
        } else if !derived_ok(whitelist_seeds(collection.key), program, wl.key) {
            Err(StakeError::AddressMismatch)
        } else {
            Ok(
                record_creation(
                    wl.owner != program,
                    admin.key,
                    wl.key,
                    8,
                    signer_of(whitelist_seeds(collection.key), program),
                ) + seq![
                    ActionModel::WriteRecord {
                        address: wl.key,
                        data: whitelist_bytes(WhitelistRecord { price }),
                    },
                ],
            )
        }
    }
}

/// Accounts: admin, admin's reward holding, vault's reward holding, vault,
/// reward token, system service, token service, rent, holding-account factory.
pub open spec fn withdraw_spec(
    program: Seq<u8>,
    cfg: Config,
    a: Seq<AccountModel>,
    amount: u64,
) -> Result<Seq<ActionModel>, StakeError> {
    if a.len() < 9 {
        Err(StakeError::MissingAccount)
    } else {
        let admin = a[0];
        let admin_reward = a[1];
        let vault_reward = a[2];
        let vault = a[3];
        if !is_admin(cfg, admin) {
            Err(StakeError::Unauthorized)
        } else if !derived_ok(vault_seeds(), program, vault.key) {
            Err(StakeError::AddressMismatch)
        } else if associated_address(admin.key, cfg.reward_mint@) != admin_reward.key {
            Err(StakeError::AddressMismatch)
        } else if associated_address(vault.key, cfg.reward_mint@) != vault_reward.key {
            Err(StakeError::AddressMismatch)
        } else {
            Ok(
                holding_creation(
                    admin_reward.owner != cfg.token_program@,
                    admin.key,
                    admin.key,
                    cfg.reward_mint@,
                ) + seq![
                    ActionModel::Transfer {
                        source: vault_reward.key,
                        destination: admin_reward.key,
                        authority: vault.key,
                        amount,
                        signer: Some(signer_of(vault_seeds(), program)),
                    },
                ],
            )
        }
    }
}

/// Accounts: holder, mint, provenance record, vault, holder's NFT holding,
/// vault's NFT holding, token service, system service, rent, holding-account
/// factory, stake record, price record.
pub open spec fn stake_spec(
    program: Seq<u8>,
    cfg: Config,
    a: Seq<AccountModel>,
    now: u64,
) -> Result<Seq<ActionModel>, StakeError> {
    if a.len() < 12 {
        Err(StakeError::MissingAccount)
    } else {
        let holder = a[0];
        let mint = a[1];
        let metadata = a[2];
        let vault = a[3];
        let source = a[4];
        let destination = a[5];
        let token = a[6];
        let stake = a[10];
        let wl = a[11];
        let first = first_creator(provenance_of(metadata.data));
        if token.key != cfg.token_program@ {
            Err(StakeError::WrongToken)
        } else if !holder.is_signer {
            Err(StakeError::Unauthorized)
        } else if !derived_ok(stake_seeds(mint.key), program, stake.key) {
            Err(StakeError::AddressMismatch)
        } else if !derived_ok(
            metadata_seeds(cfg.metadata_program@, mint.key),
            cfg.metadata_program@,
            metadata.key,
        ) {
            Err(StakeError::AddressMismatch)
        } else if first is None {
            Err(StakeError::UnverifiedProvenance)
        } else if !derived_ok(whitelist_seeds(first->Some_0.0), program, wl.key) {
            Err(StakeError::AddressMismatch)
        } else if wl.owner != program {
            Err(StakeError::NotWhitelisted)
        } else if decode_whitelist_spec(wl.data) is None {
            Err(StakeError::CorruptState)
        } else if !first->Some_0.1 {
            Err(StakeError::UnverifiedProvenance)
        } else if !derived_ok(vault_seeds(), program, vault.key) {
            Err(StakeError::AddressMismatch)
        } else if associated_address(holder.key, mint.key) != source.key {
            Err(StakeError::AddressMismatch)
        } else if associated_address(vault.key, mint.key) != destination.key {
            Err(StakeError::AddressMismatch)
        } else {
            Ok(
                record_creation(
                    stake.owner != program,
                    holder.key,
                    stake.key,
                    41,
                    signer_of(stake_seeds(mint.key), program),
                ) + seq![
                    ActionModel::WriteRecord {
                        address: stake.key,
                        data: stake_record_bytes(now, holder.key, true),
                    },
                ] + holding_creation(
                    destination.owner != cfg.token_program@,
                    holder.key,
                    vault.key,
                    mint.key,
                ) + seq![
                    ActionModel::Transfer {
                        source: source.key,
                        destination: destination.key,
                        authority: holder.key,
                        amount: 1,
                        signer: None,
                    },
                ],
            )
        }
    }
}

/// The effects of a release that pays `reward`.
pub open spec fn release_actions(
    program: Seq<u8>,
    cfg: Config,
    a: Seq<AccountModel>,
    timestamp: u64,
    staker: Seq<u8>,
    reward: u64,
) -> Seq<ActionModel> {
    let holder = a[0];
    let mint = a[2];
    let stake = a[6];
    let vault = a[7];
    let holder_reward = a[8];
    let vault_reward = a[9];
    let holder_nft = a[10];
    let vault_nft = a[11];
    let signer = signer_of(vault_seeds(), program);
    holding_creation(
        holder_reward.owner != cfg.token_program@,
        holder.key,
        holder.key,
        cfg.reward_mint@,
    ) + seq![
        ActionModel::Transfer {
            source: vault_reward.key,
            destination: holder_reward.key,
            authority: vault.key,
            amount: reward,
            signer: Some(signer),
        },
    ] + holding_creation(holder_nft.owner != cfg.token_program@, holder.key, holder.key, mint.key)
        + seq![
        ActionModel::Transfer {
            source: vault_nft.key,
            destination: holder_nft.key,
            authority: vault.key,
            amount: 1,
            signer: Some(signer),
        },
        ActionModel::CloseHolding {
            account: vault_nft.key,
            destination: holder.key,
            authority: vault.key,
            seeds: signer,
        },
        ActionModel::WriteRecord {
            address: stake.key,
            data: stake_record_bytes(timestamp, staker, false),
        },
    ]
}

/// Accounts: holder, system service, mint, token service, rent,
/// holding-account factory, stake record, vault, holder's reward holding,
/// vault's reward holding, holder's NFT holding, vault's NFT holding,
/// provenance record, price record, reward token.
pub open spec fn unstake_spec(
    program: Seq<u8>,
    cfg: Config,
    a: Seq<AccountModel>,
    now: u64,
) -> Result<Seq<ActionModel>, StakeError> {
    if a.len() < 15 {
        Err(StakeError::MissingAccount)
    } else {
        let holder = a[0];
        let mint = a[2];
        let token = a[3];
        let stake = a[6];
        let vault = a[7];
        let holder_reward = a[8];
        let vault_reward = a[9];
        let holder_nft = a[10];
        let vault_nft = a[11];
        let metadata = a[12];
        let wl = a[13];
        let reward_mint = a[14];
        let first = first_creator(provenance_of(metadata.data));
        let w = decode_whitelist_spec(wl.data);
        let v = decode_vault_spec(vault.data);
        let s = decode_stake_spec(stake.data);
        if token.key != cfg.token_program@ {
            Err(StakeError::WrongToken)
        } else if !derived_ok(stake_seeds(mint.key), program, stake.key) {
            Err(StakeError::AddressMismatch)
        } else if !derived_ok(vault_seeds(), program, vault.key) {
            Err(StakeError::AddressMismatch)
        } else if associated_address(holder.key, cfg.reward_mint@) != holder_reward.key {
            Err(StakeError::AddressMismatch)
        } else if associated_address(vault.key, cfg.reward_mint@) != vault_reward.key {
            Err(StakeError::AddressMismatch)
        } else if associated_address(holder.key, mint.key) != holder_nft.key {
            Err(StakeError::AddressMismatch)
        } else if associated_address(vault.key, mint.key) != vault_nft.key {
            Err(StakeError::AddressMismatch)
        } else if !derived_ok(
            metadata_seeds(cfg.metadata_program@, mint.key),
            cfg.metadata_program@,
            metadata.key,
        ) {
            Err(StakeError::AddressMismatch)
        } else if reward_mint.key != cfg.reward_mint@ {
            Err(StakeError::WrongToken)
        } else if first is None {
            Err(StakeError::UnverifiedProvenance)
        } else if !derived_ok(whitelist_seeds(first->Some_0.0), program, wl.key) {
            Err(StakeError::AddressMismatch)
        } else if w is None || v is None || s is None {
            Err(StakeError::CorruptState)
        } else if !first->Some_0.1 {
            Err(StakeError::UnverifiedProvenance)
        } else {
            let (timestamp, staker, active) = s->Some_0;
            match unstake_outcome(
                timestamp,
                staker,
                active,
                v->Some_0,
                w->Some_0.price,
                holder.key,
                now,
            ) {
                Err(e) => Err(e),
                Ok(reward) => Ok(release_actions(program, cfg, a, timestamp, staker, reward)),
            }
        }
    }
}

/// Where an instruction payload leads.
pub open spec fn process_spec(
    program: Seq<u8>,
    cfg: Config,
    a: Seq<AccountModel>,
    data: Seq<u8>,
    now: u64,
) -> Result<Seq<ActionModel>, StakeError> {
    match decode_instruction_spec(data) {
        None => Err(StakeError::DecodeFault),
        Some(StakeInstruction::GenerateVault { min_period, reward_period }) => configure_vault_spec(
            program,
            cfg,
            a,
            min_period,
            reward_period,
        ),
        Some(StakeInstruction::Stake) => stake_spec(program, cfg, a, now),
        Some(StakeInstruction::Unstake) => unstake_spec(program, cfg, a, now),
        Some(StakeInstruction::AddToWhitelist { price }) => add_to_whitelist_spec(
            program,
            cfg,
            a,
            price,
        ),
        Some(StakeInstruction::Withdraw { amount }) => withdraw_spec(program, cfg, a, amount),
    }
}

/// Checks that `supplied` is the address derived from `seeds` under
/// `program`, and hands back the capability to sign as it.
fn expect_derived(seeds: Vec<Vec<u8>>, program: &Key, supplied: &Key) -> (r: Result<
    Signer,
    StakeError,
>)
    ensures
        derived_ok(seeds.deep_view(), program@, supplied@) ==> (r matches Ok(s) && s@ == signer_of(
            seeds.deep_view(),
            program@,
        )),
        !derived_ok(seeds.deep_view(), program@, supplied@) ==> r == Err::<Signer, StakeError>(
            StakeError::AddressMismatch,
        ),
{
    match derive_and_sign(seeds, program) {
        None => Err(StakeError::AddressMismatch),
        Some((k, s)) => {
            if k.same(supplied) {
                Ok(s)
            } else {
                Err(StakeError::AddressMismatch)
            }
        },
    }
}

/// Checks that `supplied` is the holding account of `wallet` for `mint`.
fn expect_holding(wallet: &Key, mint: &Key, supplied: &Key) -> (r: Result<(), StakeError>)
    ensures
        r is Ok <==> associated_address(wallet@, mint@) == supplied@,
        r is Err ==> r == Err::<(), StakeError>(StakeError::AddressMismatch),
{
    if holding_address(wallet, mint).same(supplied) {
        Ok(())
    } else {
        Err(StakeError::AddressMismatch)
    }
}

/// Creates or overwrites the vault record with the timing parameters.
/// Only the administrator may do so, and the reward period must not be zero.
pub fn configure_vault(
    program_id: &Key,
    config: &Config,
    accounts: &Vec<AccountView>,
    min_period: u64,
    reward_period: u64,
) -> (r: Result<Vec<Action>, StakeError>)
    ensures
        outcome(r) == configure_vault_spec(
            program_id@,
            *config,
            accounts_model(accounts@),
            min_period,
            reward_period,
        ),
{
    if accounts.len() < 4 {
        return Err(StakeError::MissingAccount);
    }
    let admin = &accounts[0];
    let vault = &accounts[2];
    if !admin.key.same(&config.admin) || !admin.is_signer {
        return Err(StakeError::Unauthorized);
    }
    if reward_period == 0 {
        return Err(StakeError::ZeroRewardPeriod);
    }
    let seeds = vault_seeds_exec();
    let signer = match expect_derived(seeds, program_id, &vault.key) {
        Ok(s) => s,
        Err(e) => return Err(e),
    };
    let mut actions: Vec<Action> = Vec::new();
    if !vault.owner.same(program_id) {
        actions.push(
            Action::CreateRecord {
                payer: admin.key,
                address: vault.key,
                space: VAULT_RECORD_LEN,
                signer,
            },
        );
    }
    let data = encode_vault(&VaultRecord { min_period, reward_period });
    actions.push(Action::WriteRecord { address: vault.key, data });
    proof {
        let a = accounts_model(accounts@);
        assert(actions_model(actions@) =~= record_creation(
            a[2].owner != program_id@,
            a[0].key,
            a[2].key,
            16,
            signer_of(vault_seeds(), program_id@),
        ) + seq![
            ActionModel::WriteRecord {
                address: a[2].key,
                data: vault_bytes(VaultRecord { min_period, reward_period }),
            },
        ]);
    }
    Ok(actions)
}

/// Creates or overwrites the price record of a collection. Only the
/// administrator may do so.
pub fn add_to_whitelist(
    program_id: &Key,
    config: &Config,
    accounts: &Vec<AccountView>,
    price: u64,
) -> (r: Result<Vec<Action>, StakeError>)
    ensures
        outcome(r) == add_to_whitelist_spec(program_id@, *config, accounts_model(accounts@), price),
{
    if accounts.len() < 5 {
        return Err(StakeError::MissingAccount);
    }
    let admin = &accounts[0];
    let collection = &accounts[1];
    let wl = &accounts[2];
    if !admin.key.same(&config.admin) || !admin.is_signer {
        return Err(StakeError::Unauthorized);
    }
    let seeds = whitelist_seeds_exec(&collection.key);
    let signer = match expect_derived(seeds, program_id, &wl.key) {
        Ok(s) => s,
        Err(e) => return Err(e),
    };
    let mut actions: Vec<Action> = Vec::new();
    if !wl.owner.same(program_id) {
        actions.push(
            Action::CreateRecord {
                payer: admin.key,
                address: wl.key,
                space: WHITELIST_RECORD_LEN,
                signer,
            },
        );
    }
    let data = encode_whitelist(&WhitelistRecord { price });
    actions.push(Action::WriteRecord { address: wl.key, data });
    proof {
        let a = accounts_model(accounts@);
        assert(actions_model(actions@) =~= record_creation(
            a[2].owner != program_id@,
            a[0].key,
            a[2].key,
            8,
            signer_of(whitelist_seeds(a[1].key), program_id@),
        ) + seq![
            ActionModel::WriteRecord {
                address: a[2].key,
                data: whitelist_bytes(WhitelistRecord { price }),
            },
        ]);
    }
    Ok(actions)
}

/// Moves `amount` reward-token units from the vault's holding to the
/// administrator's. Only the administrator may do so.
pub fn withdraw(program_id: &Key, config: &Config, accounts: &Vec<AccountView>, amount: u64) -> (r:
    Result<Vec<Action>, StakeError>)
    ensures
        outcome(r) == withdraw_spec(program_id@, *config, accounts_model(accounts@), amount),
{
    if accounts.len() < 9 {
        return Err(StakeError::MissingAccount);
    }
    let admin = &accounts[0];
    let admin_reward = &accounts[1];
    let vault_reward = &accounts[2];
    let vault = &accounts[3];
    if !admin.key.same(&config.admin) || !admin.is_signer {
        return Err(StakeError::Unauthorized);
    }
    let seeds = vault_seeds_exec();
    let signer = match expect_derived(seeds, program_id, &vault.key) {
        Ok(s) => s,
        Err(e) => return Err(e),
    };
    if let Err(e) = expect_holding(&admin.key, &config.reward_mint, &admin_reward.key) {
        return Err(e);
    }
    if let Err(e) = expect_holding(&vault.key, &config.reward_mint, &vault_reward.key) {
        return Err(e);
    }
    let mut actions: Vec<Action> = Vec::new();
    if !admin_reward.owner.same(&config.token_program) {
        actions.push(
            Action::CreateHolding { payer: admin.key, wallet: admin.key, mint: config.reward_mint },
        );
    }
    actions.push(
        Action::Transfer {
            source: vault_reward.key,
            destination: admin_reward.key,
            authority: vault.key,
            amount,
            signer: Some(signer),
        },
    );
    proof {
        let a = accounts_model(accounts@);
        assert(actions_model(actions@) =~= holding_creation(
            a[1].owner != config.token_program@,
            a[0].key,
            a[0].key,
            config.reward_mint@,
        ) + seq![
            ActionModel::Transfer {
                source: a[2].key,
                destination: a[1].key,
                authority: a[3].key,
                amount,
                signer: Some(signer_of(vault_seeds(), program_id@)),
            },
        ]);
    }
    Ok(actions)
}

/// The reward owed for releasing `stake` at `now`: whole reward periods
/// elapsed since the lock, times the collection's price. Refused while the
/// lock is inactive, to anyone but its staker, and before the minimum period
/// (a clock behind the lock time counts as too early). A stored reward period
/// of zero is corrupt state, and a reward beyond 64 bits is refused.
pub fn unstake_reward(
    stake: &StakeRecord,
    vault: &VaultRecord,
    price: u64,
    caller: &Key,
    now: u64,
) -> (r: Result<u64, StakeError>)
    ensures
        r == unstake_outcome(
            stake.timestamp,
            stake.staker@,
            stake.active,
            *vault,
            price,
            caller@,
            now,
        ),
{
    if !stake.active {
        return Err(StakeError::StakeInactive);
    }
    if !stake.staker.same(caller) {
        return Err(StakeError::Unauthorized);
    }
    if now < stake.timestamp || now - stake.timestamp < vault.min_period {
        return Err(StakeError::TooEarly);
    }
    if vault.reward_period == 0 {
        return Err(StakeError::CorruptState);
    }
    let periods = (now - stake.timestamp) / vault.reward_period;
    match periods.checked_mul(price) {
        Some(reward) => Ok(reward),
        None => Err(StakeError::RewardOverflow),
    }
}

/// Locks one NFT of `mint` into the vault's custody on behalf of the holder
/// and records the lock, overwriting any earlier record of that mint.
#[verifier::rlimit(40)]
pub fn stake(
    program_id: &Key,
    config: &Config,
    accounts: &Vec<AccountView>,
    now: u64,
) -> (r: Result<Vec<Action>, StakeError>)
    ensures
        outcome(r) == stake_spec(
            program_id@,
            *config,
            accounts_model(accounts@),
            now,
        ),
{
    if accounts.len() < 12 {
        return Err(StakeError::MissingAccount);
    }
    let ghost a = accounts_model(accounts@);
    let holder = &accounts[0];
    let mint = &accounts[1];
    let metadata = &accounts[2];
    let vault = &accounts[3];
    let source = &accounts[4];
    let destination = &accounts[5];
    let token = &accounts[6];
    let stake = &accounts[10];
    let wl = &accounts[11];
    if !token.key.same(&config.token_program) {
        return Err(StakeError::WrongToken);
    }
    if !holder.is_signer {
        return Err(StakeError::Unauthorized);
    }
    let signer = match expect_derived(stake_seeds_exec(&mint.key), program_id, &stake.key) {
        Ok(s) => s,
        Err(e) => return Err(e),
    };
    if let Err(e) = expect_derived(
        metadata_seeds_exec(&config.metadata_program, &mint.key),
        &config.metadata_program,
        &metadata.key,
    ) {
        return Err(e);
    }
    let first = match first_of(metadata.data.as_slice()) {
        Some(c) => c,
        None => return Err(StakeError::UnverifiedProvenance),
    };
    if let Err(e) = expect_derived(whitelist_seeds_exec(&first.address), program_id, &wl.key) {
        return Err(e);
    }
    if !wl.owner.same(program_id) {
        return Err(StakeError::NotWhitelisted);
    }
    if decode_whitelist(wl.data.as_slice()).is_none() {
        return Err(StakeError::CorruptState);
    }
    if !first.verified {
        return Err(StakeError::UnverifiedProvenance);
    }
    if let Err(e) = expect_derived(vault_seeds_exec(), program_id, &vault.key) {
        return Err(e);
    }
    if let Err(e) = expect_holding(&holder.key, &mint.key, &source.key) {
        return Err(e);
    }
    if let Err(e) = expect_holding(&vault.key, &mint.key, &destination.key) {
        return Err(e);
    }
    let mut actions: Vec<Action> = Vec::new();
    if !stake.owner.same(program_id) {
        actions.push(
            Action::CreateRecord {
                payer: holder.key,
                address: stake.key,
                space: STAKE_RECORD_LEN,
                signer,
            },
        );
    }
    let ghost created = actions_model(actions@);
    proof {
        assert(created =~= record_creation(
            a[10].owner != program_id@,
            a[0].key,
            a[10].key,
            41,
            signer_of(stake_seeds(a[1].key), program_id@),
        ));
    }
    let record = StakeRecord { timestamp: now, staker: holder.key, active: true };
    let data = encode_stake(&record);
    actions.push(Action::WriteRecord { address: stake.key, data });
    let ghost written = actions_model(actions@);
    proof {
        assert(written =~= created + seq![
            ActionModel::WriteRecord {
                address: a[10].key,
                data: stake_record_bytes(now, a[0].key, true),
            },
        ]);
    }
    if !destination.owner.same(&config.token_program) {
        actions.push(
            Action::CreateHolding { payer: holder.key, wallet: vault.key, mint: mint.key },
        );
    }
    let ghost held = actions_model(actions@);
    proof {
        assert(held =~= written + holding_creation(
            a[5].owner != config.token_program@,
            a[0].key,
            a[3].key,
            a[1].key,
        ));
    }
    actions.push(
        Action::Transfer {
            source: source.key,
            destination: destination.key,
            authority: holder.key,
            amount: 1,
            signer: None,
        },
    );
    proof {
        assert(actions_model(actions@) =~= held + seq![
            ActionModel::Transfer {
                source: a[4].key,
                destination: a[5].key,
                authority: a[0].key,
                amount: 1,
                signer: None,
            },
        ]);
        assert(stake_spec(program_id@, *config, a, now) == Ok::<Seq<ActionModel>, StakeError>(actions_model(actions@)));
    }
    Ok(actions)
}

/// Releases a locked NFT to its staker once the minimum period has elapsed,
/// pays the reward owed, closes the vault's holding of that NFT and marks
/// the stake record inactive.
#[verifier::rlimit(60)]
pub fn unstake(
    program_id: &Key,
    config: &Config,
    accounts: &Vec<AccountView>,
    now: u64,
) -> (r: Result<Vec<Action>, StakeError>)
    ensures
        outcome(r) == unstake_spec(
            program_id@,
            *config,
            accounts_model(accounts@),
            now,
        ),
{
    if accounts.len() < 15 {
        return Err(StakeError::MissingAccount);
    }
    let ghost a = accounts_model(accounts@);
    let holder = &accounts[0];
    let mint = &accounts[2];
    let token = &accounts[3];
    let stake = &accounts[6];
    let vault = &accounts[7];
    let holder_reward = &accounts[8];
    let vault_reward = &accounts[9];
    let holder_nft = &accounts[10];
    let vault_nft = &accounts[11];
    let metadata = &accounts[12];
    let wl = &accounts[13];
    let reward_mint = &accounts[14];
    if !token.key.same(&config.token_program) {
        return Err(StakeError::WrongToken);
    }
    if let Err(e) = expect_derived(stake_seeds_exec(&mint.key), program_id, &stake.key) {
        return Err(e);
    }
    let signer = match expect_derived(vault_seeds_exec(), program_id, &vault.key) {
        Ok(s) => s,
        Err(e) => return Err(e),
    };
    if let Err(e) = expect_holding(&holder.key, &config.reward_mint, &holder_reward.key) {
        return Err(e);
    }
    if let Err(e) = expect_holding(&vault.key, &config.reward_mint, &vault_reward.key) {
        return Err(e);
    }
    if let Err(e) = expect_holding(&holder.key, &mint.key, &holder_nft.key) {
        return Err(e);
    }
    if let Err(e) = expect_holding(&vault.key, &mint.key, &vault_nft.key) {
        return Err(e);
    }
    if let Err(e) = expect_derived(
        metadata_seeds_exec(&config.metadata_program, &mint.key),
        &config.metadata_program,
        &metadata.key,
    ) {
        return Err(e);
    }
    if !reward_mint.key.same(&config.reward_mint) {
        return Err(StakeError::WrongToken);
    }
    let first = match first_of(metadata.data.as_slice()) {
        Some(c) => c,
        None => return Err(StakeError::UnverifiedProvenance),
    };
    if let Err(e) = expect_derived(whitelist_seeds_exec(&first.address), program_id, &wl.key) {
        return Err(e);
    }
    let price = match decode_whitelist(wl.data.as_slice()) {
        Some(w) => w.price,
        None => return Err(StakeError::CorruptState),
    };
    let params = match decode_vault(vault.data.as_slice()) {
        Some(v) => v,
        None => return Err(StakeError::CorruptState),
    };
    let record = match decode_stake(stake.data.as_slice()) {
        Some(s) => s,
        None => return Err(StakeError::CorruptState),
    };
    if !first.verified {
        return Err(StakeError::UnverifiedProvenance);
    }
    let reward = match unstake_reward(&record, &params, price, &holder.key, now) {
        Ok(x) => x,
        Err(e) => return Err(e),
    };
    let ghost sig = signer_of(vault_seeds(), program_id@);
    let mut actions: Vec<Action> = Vec::new();
    if !holder_reward.owner.same(&config.token_program) {
        actions.push(
            Action::CreateHolding {
                payer: holder.key,
                wallet: holder.key,
                mint: config.reward_mint,
            },
        );
    }
    let ghost m1 = actions_model(actions@);
    proof {
        assert(m1 =~= holding_creation(
            a[8].owner != config.token_program@,
            a[0].key,
            a[0].key,
            config.reward_mint@,
        ));
    }
    actions.push(
        Action::Transfer {
            source: vault_reward.key,
            destination: holder_reward.key,
            authority: vault.key,
            amount: reward,
            signer: Some(signer.duplicate()),
        },
    );
    let ghost m2 = actions_model(actions@);
    if !holder_nft.owner.same(&config.token_program) {
        actions.push(
            Action::CreateHolding { payer: holder.key, wallet: holder.key, mint: mint.key },
        );
    }
    let ghost m3 = actions_model(actions@);
    proof {
        assert(m3 =~= m2 + holding_creation(
            a[10].owner != config.token_program@,
            a[0].key,
            a[0].key,
            a[2].key,
        ));
    }
    actions.push(
        Action::Transfer {
            source: vault_nft.key,
            destination: holder_nft.key,
            authority: vault.key,
            amount: 1,
            signer: Some(signer.duplicate()),
        },
    );
    actions.push(
        Action::CloseHolding {
            account: vault_nft.key,
            destination: holder.key,
            authority: vault.key,
            signer,
        },
    );
    let released = StakeRecord { timestamp: record.timestamp, staker: record.staker, active: false };
    let data = encode_stake(&released);
    actions.push(Action::WriteRecord { address: stake.key, data });
    proof {
        assert(actions_model(actions@) =~= release_actions(
            program_id@,
            *config,
            a,
            record.timestamp,
            record.staker@,
            reward,
        ));
    }
    Ok(actions)
}

/// Decodes an instruction and runs it against the supplied accounts.
/// `now` is the ledger's current time in seconds.
pub fn process_instruction(
    program_id: &Key,
    config: &Config,
    accounts: &Vec<AccountView>,
    instruction_data: &[u8],
    now: u64,
) -> (r: Result<Vec<Action>, StakeError>)
    ensures
        outcome(r) == process_spec(
            program_id@,
            *config,
            accounts_model(accounts@),
            instruction_data@,
            now,
        ),
{
    match decode_instruction(instruction_data) {
        None => Err(StakeError::DecodeFault),
        Some(StakeInstruction::GenerateVault { min_period, reward_period }) => configure_vault(
            program_id,
            config,
            accounts,
            min_period,
            reward_period,
        ),
        Some(StakeInstruction::Stake) => stake(program_id, config, accounts, now),
        Some(StakeInstruction::Unstake) => unstake(program_id, config, accounts, now),
        Some(StakeInstruction::AddToWhitelist { price }) => add_to_whitelist(
            program_id,
            config,
            accounts,
            price,
        ),
        Some(StakeInstruction::Withdraw { amount }) => withdraw(program_id, config, accounts, amount),
    }
}

} // verus!
