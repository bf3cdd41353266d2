//! Properties that hold across calls and over every prior state.
use crate::address::{program_address, stake_seeds, vault_seeds, whitelist_seeds};
use crate::codec::{
    decode_stake_spec, decode_vault_spec, lemma_stake_round_trip, lemma_vault_round_trip,
    stake_record_bytes, StakeRecord, VaultRecord,
};
use crate::error::StakeError;
use crate::handlers::{
    add_to_whitelist_spec, configure_vault_spec, derived_ok, is_admin, record_creation, signer_of,
    stake_spec, unstake_outcome, unstake_spec, withdraw_spec, AccountModel, ActionModel,
};
use crate::key::{Config, Key};
use vstd::prelude::*;

verus! {

/// A successful vault configuration writes a record that reads back as
/// exactly the supplied parameters, whatever the vault held before.
pub proof fn lemma_configure_vault_sets_parameters(
    program: Seq<u8>,
    cfg: Config,
    a: Seq<AccountModel>,
    min_period: u64,
    reward_period: u64,
)
    requires
        a.len() >= 4,
        is_admin(cfg, a[0]),
        reward_period > 0,
        derived_ok(vault_seeds(), program, a[2].key),
    ensures
        configure_vault_spec(program, cfg, a, min_period, reward_period) matches Ok(acts) && (acts.len()
            > 0 && (acts.last() matches ActionModel::WriteRecord { address, data } && address
            == a[2].key && decode_vault_spec(data) == Some(
            (VaultRecord { min_period, reward_period }),
        ))),
{
    lemma_vault_round_trip(VaultRecord { min_period, reward_period });
}

/// Configuring the vault, setting a price and withdrawing are refused with
/// `Unauthorized`, and so change nothing, unless the administrator signs.
/// Each instruction needs its full list of accounts to get that far.
pub proof fn lemma_admin_only(
    program: Seq<u8>,
    cfg: Config,
    a: Seq<AccountModel>,
    min_period: u64,
    reward_period: u64,
    price: u64,
    amount: u64,
)
    requires
        a.len() > 0,
        !is_admin(cfg, a[0]),
    ensures
        a.len() >= 4 ==> configure_vault_spec(program, cfg, a, min_period, reward_period) == Err::<
            Seq<ActionModel>,
            StakeError,
        >(StakeError::Unauthorized),
        a.len() >= 5 ==> add_to_whitelist_spec(program, cfg, a, price) == Err::<
            Seq<ActionModel>,
            StakeError,
        >(StakeError::Unauthorized),
        a.len() >= 9 ==> withdraw_spec(program, cfg, a, amount) == Err::<Seq<ActionModel>, StakeError>(
            StakeError::Unauthorized,
        ),
{
}

/// A successful stake at `t0` writes an active record of the holder dated
/// `t0`; an unstake of that record before the minimum period has elapsed is
/// refused, so the record stays active and no token moves. Whatever price
/// applies, the release itself is refused with `TooEarly`.
pub proof fn lemma_early_unstake_refused(
    program: Seq<u8>,
    cfg: Config,
    a: Seq<AccountModel>,
    b: Seq<AccountModel>,
    holder: Key,
    t0: u64,
    now: u64,
    price: u64,
)
    requires
        stake_spec(program, cfg, a, t0) is Ok,
        a[0].key == holder@,
        b.len() >= 15,
        b[0].key == holder@,
        b[6].data == stake_record_bytes(t0, holder@, true),
        decode_vault_spec(b[7].data) matches Some(v) && t0 <= now && now - t0 < v.min_period,
    ensures
        stake_spec(program, cfg, a, t0) matches Ok(acts) && acts.contains(
            (ActionModel::WriteRecord {
                address: a[10].key,
                data: stake_record_bytes(t0, holder@, true),
            }),
        ),
        unstake_spec(program, cfg, b, now) is Err,
        unstake_outcome(t0, holder@, true, decode_vault_spec(b[7].data)->Some_0, price, holder@, now)
            == Err::<u64, StakeError>(StakeError::TooEarly),
{
    let acts = stake_spec(program, cfg, a, t0)->Ok_0;
    let n = record_creation(
        a[10].owner != program,
        a[0].key,
        a[10].key,
        41,
        signer_of(stake_seeds(a[1].key), program),
    ).len();
    assert(acts[n as int] == ActionModel::WriteRecord {
        address: a[10].key,
        data: stake_record_bytes(t0, holder@, true),
    });
    lemma_stake_round_trip(StakeRecord { timestamp: t0, staker: holder, active: true });
}

/// The same account holding other bytes.
pub open spec fn with_data(m: AccountModel, data: Seq<u8>) -> AccountModel {
    AccountModel { data, ..m }
}

/// Staking a mint again, once its record exists, reuses the record: no
/// account is created for it, and the record written is an active lock of
/// the new holder at the new time, whatever the record held before.
pub proof fn lemma_restake_resets_record(
    program: Seq<u8>,
    cfg: Config,
    a: Seq<AccountModel>,
    holder: Key,
    now: u64,
    prior: Seq<u8>,
)
    requires
        stake_spec(program, cfg, a, now) is Ok,
        a[0].key == holder@,
        a[10].owner == program,
    ensures
        stake_spec(program, cfg, a, now) matches Ok(acts) && acts[0] == (
        ActionModel::WriteRecord { address: a[10].key, data: stake_record_bytes(now, holder@, true) })
            && !acts.contains(
            (ActionModel::CreateRecord {
                payer: a[0].key,
                address: a[10].key,
                space: 41,
                seeds: signer_of(stake_seeds(a[1].key), program),
            }),
        ),
        decode_stake_spec(stake_record_bytes(now, holder@, true)) == Some((now, holder@, true)),
        stake_spec(program, cfg, a.update(10, with_data(a[10], prior)), now) == stake_spec(
            program,
            cfg,
            a,
            now,
        ),
{
    lemma_stake_round_trip(StakeRecord { timestamp: now, staker: holder, active: true });
    let acts = stake_spec(program, cfg, a, now)->Ok_0;
    let c = ActionModel::CreateRecord {
        payer: a[0].key,
        address: a[10].key,
        space: 41,
        seeds: signer_of(stake_seeds(a[1].key), program),
    };
    assert forall|i: int| 0 <= i < acts.len() implies acts[i] != c by {}
    let a2 = a.update(10, with_data(a[10], prior));
    assert(a2[10].key == a[10].key && a2[10].owner == a[10].owner);
    assert(stake_spec(program, cfg, a2, now) =~= stake_spec(program, cfg, a, now));
}

/// Derivation is a function of its seeds and program: the same inputs
/// always give the same address and bump byte.
pub proof fn lemma_derivation_deterministic(
    seeds_a: Seq<Seq<u8>>,
    seeds_b: Seq<Seq<u8>>,
    program_a: Seq<u8>,
    program_b: Seq<u8>,
)
    requires
        seeds_a == seeds_b,
        program_a == program_b,
    ensures
        program_address(seeds_a, program_a) == program_address(seeds_b, program_b),
{
}

/// A vault, price or stake record account other than the derived one is
/// refused with `AddressMismatch`, and so changes nothing, once the checks
/// that come before it pass.
pub proof fn lemma_mismatched_records_refused(
    program: Seq<u8>,
    cfg: Config,
    a: Seq<AccountModel>,
    min_period: u64,
    reward_period: u64,
    price: u64,
    amount: u64,
    now: u64,
)
    requires
        a.len() >= 12,
    ensures
        is_admin(cfg, a[0]) && reward_period > 0 && !derived_ok(vault_seeds(), program, a[2].key)
            ==> configure_vault_spec(program, cfg, a, min_period, reward_period) == Err::<
            Seq<ActionModel>,
            StakeError,
        >(StakeError::AddressMismatch),
        is_admin(cfg, a[0]) && !derived_ok(whitelist_seeds(a[1].key), program, a[2].key)
            ==> add_to_whitelist_spec(program, cfg, a, price) == Err::<Seq<ActionModel>, StakeError>(
            StakeError::AddressMismatch,
        ),
        is_admin(cfg, a[0]) && !derived_ok(vault_seeds(), program, a[3].key) ==> withdraw_spec(
            program,
            cfg,
            a,
            amount,
        ) == Err::<Seq<ActionModel>, StakeError>(StakeError::AddressMismatch),
        a[6].key == cfg.token_program@ && a[0].is_signer && !derived_ok(
            stake_seeds(a[1].key),
            program,
            a[10].key,
        ) ==> stake_spec(program, cfg, a, now) == Err::<Seq<ActionModel>, StakeError>(
            StakeError::AddressMismatch,
        ),
        a.len() >= 15 && a[3].key == cfg.token_program@ && !derived_ok(
            stake_seeds(a[2].key),
            program,
            a[6].key,
        ) ==> unstake_spec(program, cfg, a, now) == Err::<Seq<ActionModel>, StakeError>(
            StakeError::AddressMismatch,
        ),
        a.len() >= 15 && a[3].key == cfg.token_program@ && derived_ok(
            stake_seeds(a[2].key),
            program,
            a[6].key,
        ) && !derived_ok(vault_seeds(), program, a[7].key) ==> unstake_spec(program, cfg, a, now)
            == Err::<Seq<ActionModel>, StakeError>(StakeError::AddressMismatch),
{
}

/// Only the recorded staker may release a lock: anyone else is refused with
/// `Unauthorized` however much time has passed, and the unstake changes
/// nothing.
pub proof fn lemma_only_staker_unstakes(
    program: Seq<u8>,
    cfg: Config,
    b: Seq<AccountModel>,
    staker: Key,
    timestamp: u64,
    vault: VaultRecord,
    price: u64,
    now: u64,
)
    requires
        b.len() >= 15,
        b[0].key != staker@,
        b[6].data == stake_record_bytes(timestamp, staker@, true),
    ensures
        unstake_outcome(timestamp, staker@, true, vault, price, b[0].key, now) == Err::<
            u64,
            StakeError,
        >(StakeError::Unauthorized),
        unstake_spec(program, cfg, b, now) is Err,
{
    lemma_stake_round_trip(StakeRecord { timestamp, staker, active: true });
}

} // verus!
