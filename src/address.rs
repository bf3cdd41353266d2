//! Derived addresses and the signing capability that goes with them.
use crate::key::Key;
use vstd::prelude::*;

verus! {

/// The address that the ledger derives from `seeds` under `program`, with the
/// bump byte that makes it valid; `None` where no bump byte does.
pub uninterp spec fn program_address(seeds: Seq<Seq<u8>>, program: Seq<u8>) -> Option<(Seq<u8>, u8)>;

/// The address of the holding account that the token service keeps for
/// `wallet` and token `mint`.
pub uninterp spec fn associated_address(wallet: Seq<u8>, mint: Seq<u8>) -> Seq<u8>;

/// Relies on solana_program's `Pubkey::try_find_program_address`: it searches
/// the bump bytes from 255 down and returns the first that gives a valid
/// address, and `None` when none does or the seeds are too many or too long.
/// The result depends on the seeds and the program identity alone.
#[verifier::external_body]
fn try_find_address(seeds: &Vec<Vec<u8>>, program: &Key) -> (r: Option<(Key, u8)>)
    ensures
        match program_address(seeds.deep_view(), program@) {
            Some((a, b)) => r matches Some((k, c)) && k@ == a && c == b,
            None => r is None,
        },
{
    let refs: Vec<&[u8]> = seeds.iter().map(|s| s.as_slice()).collect();
    let program = solana_program::pubkey::Pubkey::new_from_array(program.bytes);
    solana_program::pubkey::Pubkey::try_find_program_address(&refs, &program).map(
        |(k, b)| (Key { bytes: k.to_bytes() }, b),
    )
}

/// Relies on spl_associated_token_account's `get_associated_token_address`:
/// the deterministic address of the holding account of `wallet` for `mint`
/// under the token service. It derives the address from three 32-byte seeds,
/// for which a valid bump byte exists but with negligible probability.
#[verifier::external_body]
pub(crate) fn holding_address(wallet: &Key, mint: &Key) -> (r: Key)
    ensures
        r@ == associated_address(wallet@, mint@),
{
    let w = solana_program::pubkey::Pubkey::new_from_array(wallet.bytes);
    let m = solana_program::pubkey::Pubkey::new_from_array(mint.bytes);
    Key { bytes: spl_associated_token_account::get_associated_token_address(&w, &m).to_bytes() }
}

/// The holding account of `wallet` for token `mint`.
pub fn holding_account(wallet: &Key, mint: &Key) -> (r: Key)
    ensures
        r@ == associated_address(wallet@, mint@),
{
    holding_address(wallet, mint)
}

/// The right to authorize transfers as a derived address: the seeds that
/// derived it, followed by its bump byte.
#[derive(Clone, Debug)]
pub struct Signer {
    pub seeds: Vec<Vec<u8>>,
}

impl View for Signer {
    type V = Seq<Seq<u8>>;

    open spec fn view(&self) -> Seq<Seq<u8>> {
        self.seeds.deep_view()
    }
}

impl Signer {
    /// A second capability for the same address and seeds.
    pub fn duplicate(&self) -> (r: Signer)
        ensures
            r@ == self@,
    {
        let mut seeds: Vec<Vec<u8>> = Vec::new();
        let mut i: usize = 0;
        while i < self.seeds.len()
            invariant
                0 <= i <= self.seeds@.len(),
                seeds@.len() == i,
                seeds.deep_view() =~= self.seeds.deep_view().subrange(0, i as int),
            decreases self.seeds@.len() - i,
        {
            let mut seed: Vec<u8> = Vec::new();
            let mut j: usize = 0;
            while j < self.seeds[i].len()
                invariant
                    0 <= i < self.seeds@.len(),
                    seeds@.len() == i,
                    seeds.deep_view() =~= self.seeds.deep_view().subrange(0, i as int),
                    0 <= j <= self.seeds@[i as int]@.len(),
                    seed@ =~= self.seeds@[i as int]@.subrange(0, j as int),
                decreases self.seeds@[i as int]@.len() - j,
            {
                seed.push(self.seeds[i][j]);
                j = j + 1;
            }
            proof {
                assert(seed@ =~= self.seeds@[i as int]@);
            }
            let ghost sv = seed@;
            seeds.push(seed);
            proof {
                assert(seeds@[i as int].deep_view() =~= sv);
                assert(self.seeds@[i as int].deep_view() =~= sv);
                assert(seeds.deep_view() =~= self.seeds.deep_view().subrange(0, i + 1));
            }
            i = i + 1;
        }
        proof {
            assert(seeds.deep_view() =~= self.seeds.deep_view());
        }
        Signer { seeds }
    }
}

pub open spec fn vault_seed() -> Seq<u8> {
    seq![118u8, 97u8, 117u8, 108u8, 116u8]
}

pub open spec fn whitelist_seed() -> Seq<u8> {
    seq![119u8, 104u8, 105u8, 116u8, 101u8, 108u8, 105u8, 115u8, 116u8]
}

pub open spec fn metadata_seed() -> Seq<u8> {
    seq![109u8, 101u8, 116u8, 97u8, 100u8, 97u8, 116u8, 97u8]
}

pub open spec fn vault_seeds() -> Seq<Seq<u8>> {
    seq![vault_seed()]
}

pub open spec fn whitelist_seeds(collection: Seq<u8>) -> Seq<Seq<u8>> {
    seq![whitelist_seed(), collection]
}

pub open spec fn stake_seeds(mint: Seq<u8>) -> Seq<Seq<u8>> {
    seq![mint]
}

pub open spec fn metadata_seeds(registry: Seq<u8>, mint: Seq<u8>) -> Seq<Seq<u8>> {
    seq![metadata_seed(), registry, mint]
}

/// Seeds followed by a bump byte: what a signing capability carries.
pub open spec fn signed_seeds(seeds: Seq<Seq<u8>>, bump: u8) -> Seq<Seq<u8>> {
    seeds.push(seq![bump])
}

pub fn vault_seeds_exec() -> (r: Vec<Vec<u8>>)
    ensures
        r.deep_view() == vault_seeds(),
{
    let r = vec![vec![118u8, 97u8, 117u8, 108u8, 116u8]];
    proof {
        assert(r.deep_view()[0] =~= vault_seed());
        assert(r.deep_view() =~= vault_seeds());
    }
    r
}

pub fn whitelist_seeds_exec(collection: &Key) -> (r: Vec<Vec<u8>>)
    ensures
        r.deep_view() == whitelist_seeds(collection@),
{
    let r = vec![vec![119u8, 104u8, 105u8, 116u8, 101u8, 108u8, 105u8, 115u8, 116u8], collection.to_vec()];
    proof {
        assert(r.deep_view()[0] =~= whitelist_seed());
        assert(r.deep_view()[1] =~= collection@);
        assert(r.deep_view() =~= whitelist_seeds(collection@));
    }
    r
}

pub fn stake_seeds_exec(mint: &Key) -> (r: Vec<Vec<u8>>)
    ensures
        r.deep_view() == stake_seeds(mint@),
{
    let r = vec![mint.to_vec()];
    proof {
        assert(r.deep_view()[0] =~= mint@);
        assert(r.deep_view() =~= stake_seeds(mint@));
    }
    r
}

pub fn metadata_seeds_exec(registry: &Key, mint: &Key) -> (r: Vec<Vec<u8>>)
    ensures
        r.deep_view() == metadata_seeds(registry@, mint@),
{
    let r = vec![vec![109u8, 101u8, 116u8, 97u8, 100u8, 97u8, 116u8, 97u8], registry.to_vec(), mint.to_vec()];
    proof {
        assert(r.deep_view()[0] =~= metadata_seed());
        assert(r.deep_view()[1] =~= registry@);
        assert(r.deep_view()[2] =~= mint@);
        assert(r.deep_view() =~= metadata_seeds(registry@, mint@));
    }
    r
}

/// Derives the address for `seeds` under `program`.
pub fn derive_address(seeds: &Vec<Vec<u8>>, program: &Key) -> (r: Option<(Key, u8)>)
    ensures
        match program_address(seeds.deep_view(), program@) {
            Some((a, b)) => r matches Some((k, c)) && k@ == a && c == b,
            None => r is None,
        },
{
    try_find_address(seeds, program)
}

/// Derives the address for `seeds` under `program` together with the
/// capability to sign as that address, scoped to exactly those seeds.
pub fn derive_and_sign(seeds: Vec<Vec<u8>>, program: &Key) -> (r: Option<(Key, Signer)>)
    ensures
        match program_address(seeds.deep_view(), program@) {
            Some((a, b)) => r matches Some((k, s)) && k@ == a && s@ == signed_seeds(
                seeds.deep_view(),
                b,
            ),
            None => r is None,
        },
{
    match try_find_address(&seeds, program) {
        None => None,
        Some((k, bump)) => {
            let ghost before = seeds.deep_view();
            let mut all = seeds;
            all.push(vec![bump]);
            proof {
                assert(all.deep_view()[before.len() as int] =~= seq![bump]);
                assert(all.deep_view() =~= signed_seeds(before, bump));
            }
            Some((k, Signer { seeds: all }))
        },
    }
}

} // verus!
