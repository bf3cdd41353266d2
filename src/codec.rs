//! Byte layouts of the instruction payload and of the three stored records.
//! Integers are little-endian; a flag is one byte, 0 or 1.
use crate::key::Key;
use vstd::prelude::*;

verus! {

/// Protocol-wide timing parameters, in seconds.
#[derive(Clone, Copy, Debug, PartialEq, Eq, Structural)]
pub struct VaultRecord {
    pub min_period: u64,
    pub reward_period: u64,
}

/// Reward-token units paid per elapsed reward period, for one collection.
#[derive(Clone, Copy, Debug, PartialEq, Eq, Structural)]
pub struct WhitelistRecord {
    pub price: u64,
}

/// The lock of one NFT mint.
#[derive(Clone, Copy, Debug)]
pub struct StakeRecord {
    pub timestamp: u64,
    pub staker: Key,
    pub active: bool,
}

/// A decoded instruction.
#[derive(Clone, Copy, Debug, PartialEq, Eq, Structural)]
pub enum StakeInstruction {
    GenerateVault { min_period: u64, reward_period: u64 },
    Stake,
    Unstake,
    AddToWhitelist { price: u64 },
    Withdraw { amount: u64 },
}

pub const VAULT_RECORD_LEN: u64 = 16;
pub const WHITELIST_RECORD_LEN: u64 = 8;
pub const STAKE_RECORD_LEN: u64 = 41;

pub open spec fn u64_bytes(v: u64) -> Seq<u8> {
    seq![
        v as u8,
        (v >> 8u64) as u8,
        (v >> 16u64) as u8,
        (v >> 24u64) as u8,
        (v >> 32u64) as u8,
        (v >> 40u64) as u8,
        (v >> 48u64) as u8,
        (v >> 56u64) as u8,
    ]
}

/// The little-endian integer in the eight bytes of `b` from `at` on.
pub open spec fn u64_at(b: Seq<u8>, at: int) -> u64 {
    (b[at] as u64) | ((b[at + 1] as u64) << 8u64) | ((b[at + 2] as u64) << 16u64) | ((b[at
        + 3] as u64) << 24u64) | ((b[at + 4] as u64) << 32u64) | ((b[at + 5] as u64) << 40u64)
        | ((b[at + 6] as u64) << 48u64) | ((b[at + 7] as u64) << 56u64)
}

pub open spec fn bool_byte(f: bool) -> u8 {
    if f {
        1
    } else {
        0
    }
}

pub open spec fn vault_bytes(v: VaultRecord) -> Seq<u8> {
    u64_bytes(v.min_period) + u64_bytes(v.reward_period)
}

pub open spec fn whitelist_bytes(w: WhitelistRecord) -> Seq<u8> {
    u64_bytes(w.price)
}

/// The bytes of a stake record with these fields.
pub open spec fn stake_record_bytes(timestamp: u64, staker: Seq<u8>, active: bool) -> Seq<u8> {
    u64_bytes(timestamp) + staker + seq![bool_byte(active)]
}

pub open spec fn stake_bytes(s: StakeRecord) -> Seq<u8> {
    stake_record_bytes(s.timestamp, s.staker@, s.active)
}

pub open spec fn decode_vault_spec(b: Seq<u8>) -> Option<VaultRecord> {
    if b.len() == 16 {
        Some(VaultRecord { min_period: u64_at(b, 0), reward_period: u64_at(b, 8) })
    } else {
        None
    }
}

pub open spec fn decode_whitelist_spec(b: Seq<u8>) -> Option<WhitelistRecord> {
    if b.len() == 8 {
        Some(WhitelistRecord { price: u64_at(b, 0) })
    } else {
        None
    }
}

/// What a stake record's bytes hold: the timestamp, the staker's 32 bytes and
/// the flag.
pub open spec fn decode_stake_spec(b: Seq<u8>) -> Option<(u64, Seq<u8>, bool)> {
    if b.len() == 41 && (b[40] == 0 || b[40] == 1) {
        Some((u64_at(b, 0), b.subrange(8, 40), b[40] == 1))
    } else {
        None
    }
}

pub open spec fn decode_instruction_spec(b: Seq<u8>) -> Option<StakeInstruction> {
    if b.len() == 0 {
        None
    } else if b[0] == 0 {
        if b.len() >= 17 {
            Some(
                StakeInstruction::GenerateVault {
                    min_period: u64_at(b, 1),
                    reward_period: u64_at(b, 9),
                },
            )
        } else {
            None
        }
    } else if b[0] == 1 {
        Some(StakeInstruction::Stake)
    } else if b[0] == 2 {
        Some(StakeInstruction::Unstake)
    } else if b[0] == 3 {
        if b.len() >= 9 {
            Some(StakeInstruction::AddToWhitelist { price: u64_at(b, 1) })
        } else {
            None
        }
    } else if b[0] == 4 {
        if b.len() >= 9 {
            Some(StakeInstruction::Withdraw { amount: u64_at(b, 1) })
        } else {
            None
        }
    } else {
        None
    }
}

/// Reading back the bytes of an integer gives the integer.
pub proof fn lemma_u64_round_trip(v: u64, pre: Seq<u8>, post: Seq<u8>)
    ensures
        u64_at(pre + u64_bytes(v) + post, pre.len() as int) == v,
{
    let b = pre + u64_bytes(v) + post;
    let n = pre.len() as int;
    assert(b[n] == v as u8);
    assert(b[n + 1] == (v >> 8u64) as u8);
    assert(b[n + 2] == (v >> 16u64) as u8);
    assert(b[n + 3] == (v >> 24u64) as u8);
    assert(b[n + 4] == (v >> 32u64) as u8);
    assert(b[n + 5] == (v >> 40u64) as u8);
    assert(b[n + 6] == (v >> 48u64) as u8);
    assert(b[n + 7] == (v >> 56u64) as u8);
    assert(((v as u8) as u64) | ((((v >> 8u64) as u8) as u64) << 8u64) | ((((v >> 16u64) as u8)
        as u64) << 16u64) | ((((v >> 24u64) as u8) as u64) << 24u64) | ((((v >> 32u64) as u8)
        as u64) << 32u64) | ((((v >> 40u64) as u8) as u64) << 40u64) | ((((v >> 48u64) as u8)
        as u64) << 48u64) | ((((v >> 56u64) as u8) as u64) << 56u64) == v) by (bit_vector);
}

/// Appends the eight little-endian bytes of `v`.
pub fn push_u64(out: &mut Vec<u8>, v: u64)
    ensures
        final(out)@ == old(out)@ + u64_bytes(v),
{
    out.push(v as u8);
    out.push((v >> 8u64) as u8);
    out.push((v >> 16u64) as u8);
    out.push((v >> 24u64) as u8);
    out.push((v >> 32u64) as u8);
    out.push((v >> 40u64) as u8);
    out.push((v >> 48u64) as u8);
    out.push((v >> 56u64) as u8);
    proof {
        assert(final(out)@ =~= old(out)@ + u64_bytes(v));
    }
}

/// Reads the eight little-endian bytes of `b` from `at` on.
pub fn read_u64(b: &[u8], at: usize) -> (r: u64)
    requires
        at + 8 <= b@.len(),
    ensures
        r == u64_at(b@, at as int),
{
    (b[at] as u64) | ((b[at + 1] as u64) << 8u64) | ((b[at + 2] as u64) << 16u64) | ((b[at
        + 3] as u64) << 24u64) | ((b[at + 4] as u64) << 32u64) | ((b[at + 5] as u64) << 40u64)
        | ((b[at + 6] as u64) << 48u64) | ((b[at + 7] as u64) << 56u64)
}

pub fn encode_vault(v: &VaultRecord) -> (r: Vec<u8>)
    ensures
        r@ == vault_bytes(*v),
{
    let mut out: Vec<u8> = Vec::new();
    push_u64(&mut out, v.min_period);
    push_u64(&mut out, v.reward_period);
    proof {
        assert(out@ =~= vault_bytes(*v));
    }
    out
}

pub fn encode_whitelist(w: &WhitelistRecord) -> (r: Vec<u8>)
    ensures
        r@ == whitelist_bytes(*w),
{
    let mut out: Vec<u8> = Vec::new();
    push_u64(&mut out, w.price);
    proof {
        assert(out@ =~= whitelist_bytes(*w));
    }
    out
}

pub fn encode_stake(s: &StakeRecord) -> (r: Vec<u8>)
    ensures
        r@ == stake_bytes(*s),
{
    let mut out: Vec<u8> = Vec::new();
    push_u64(&mut out, s.timestamp);
    let mut k = s.staker.to_vec();
    out.append(&mut k);
    out.push(if s.active {
        1u8
    } else {
        0u8
    });
    proof {
        assert(out@ =~= stake_bytes(*s));
    }
    out
}

pub fn decode_vault(b: &[u8]) -> (r: Option<VaultRecord>)
    ensures
        r == decode_vault_spec(b@),
{
    if b.len() != 16 {
        return None;
    }
    Some(VaultRecord { min_period: read_u64(b, 0), reward_period: read_u64(b, 8) })
}

pub fn decode_whitelist(b: &[u8]) -> (r: Option<WhitelistRecord>)
    ensures
        r == decode_whitelist_spec(b@),
{
    if b.len() != 8 {
        return None;
    }
    Some(WhitelistRecord { price: read_u64(b, 0) })
}

pub fn decode_stake(b: &[u8]) -> (r: Option<StakeRecord>)
    ensures
        match decode_stake_spec(b@) {
            Some((t, k, f)) => r matches Some(s) && s.timestamp == t && s.staker@ == k && s.active
                == f,
            None => r is None,
        },
{
    if b.len() != 41 || (b[40] != 0 && b[40] != 1) {
        return None;
    }
    let mut bytes: [u8; 32] = [0u8; 32];
    let mut i: usize = 0;
    while i < 32
        invariant
            0 <= i <= 32,
            b@.len() == 41,
            bytes@.len() == 32,
            forall|j: int| 0 <= j < i ==> bytes@[j] == b@[j + 8],
        decreases 32 - i,
    {
        bytes[i] = b[i + 8];
        i = i + 1;
    }
    proof {
        assert(bytes@ =~= b@.subrange(8, 40));
    }
    Some(StakeRecord { timestamp: read_u64(b, 0), staker: Key { bytes }, active: b[40] == 1 })
}

/// Decodes an instruction payload; bytes after the payload are ignored.
pub fn decode_instruction(b: &[u8]) -> (r: Option<StakeInstruction>)
    ensures
        r == decode_instruction_spec(b@),
{
    if b.len() == 0 {
        None
    } else if b[0] == 0 {
        if b.len() >= 17 {
            Some(
                StakeInstruction::GenerateVault {
                    min_period: read_u64(b, 1),
                    reward_period: read_u64(b, 9),
                },
            )
        } else {
            None
        }
    } else if b[0] == 1 {
        Some(StakeInstruction::Stake)
    } else if b[0] == 2 {
        Some(StakeInstruction::Unstake)
    } else if b[0] == 3 {
        if b.len() >= 9 {
            Some(StakeInstruction::AddToWhitelist { price: read_u64(b, 1) })
        } else {
            None
        }
    } else if b[0] == 4 {
        if b.len() >= 9 {
            Some(StakeInstruction::Withdraw { amount: read_u64(b, 1) })
        } else {
            None
        }
    } else {
        None
    }
}

/// Decoding an encoded vault record gives it back.
pub proof fn lemma_vault_round_trip(v: VaultRecord)
    ensures
        decode_vault_spec(vault_bytes(v)) == Some(v),
{
    lemma_u64_round_trip(v.min_period, Seq::empty(), u64_bytes(v.reward_period));
    lemma_u64_round_trip(v.reward_period, u64_bytes(v.min_period), Seq::empty());
    assert(Seq::<u8>::empty() + u64_bytes(v.min_period) + u64_bytes(v.reward_period)
        =~= vault_bytes(v));
    assert(u64_bytes(v.min_period) + u64_bytes(v.reward_period) + Seq::<u8>::empty()
        =~= vault_bytes(v));
}

/// Decoding an encoded price record gives it back.
pub proof fn lemma_whitelist_round_trip(w: WhitelistRecord)
    ensures
        decode_whitelist_spec(whitelist_bytes(w)) == Some(w),
{
    lemma_u64_round_trip(w.price, Seq::empty(), Seq::empty());
    assert(Seq::<u8>::empty() + u64_bytes(w.price) + Seq::<u8>::empty() =~= whitelist_bytes(w));
}

/// Decoding an encoded stake record gives back its fields.
pub proof fn lemma_stake_round_trip(s: StakeRecord)
    ensures
        decode_stake_spec(stake_bytes(s)) == Some((s.timestamp, s.staker@, s.active)),
{
    let b = stake_bytes(s);
    lemma_u64_round_trip(s.timestamp, Seq::empty(), s.staker@ + seq![bool_byte(s.active)]);
    assert(Seq::<u8>::empty() + u64_bytes(s.timestamp) + (s.staker@ + seq![bool_byte(s.active)])
        =~= b);
    assert(b.subrange(8, 40) =~= s.staker@);
    assert(b[40] == bool_byte(s.active));
}

} // verus!
