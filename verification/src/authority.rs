use vstd::prelude::*;
use crate::account_id::AccountId;

verus! {

/// The address-and-bump pair that the host environment's program-address
/// search derives from a seed list and a program id, if any bump yields a
/// valid derived address. The search is a pure function of its arguments.
pub uninterp spec fn pda_lookup(seeds: Seq<Seq<u8>>, program: Seq<u8>) -> Option<(Seq<u8>, u8)>;

/// The address that the host environment derives from a seed list extended
/// with one given bump byte, if that candidate is a valid derived address.
/// Also a pure function of its arguments.
pub uninterp spec fn pda_candidate(seeds: Seq<Seq<u8>>, bump: u8, program: Seq<u8>) -> Option<
    Seq<u8>,
>;

/// Relies on solana_program's `Pubkey::try_find_program_address`: the result
/// is a deterministic function of the seed slices and the program id alone
/// (a bump search over SHA-256 digests), and its documentation promises that
/// the returned bump reproduces the returned address through
/// `Pubkey::create_program_address` with the bump appended as a final seed.
#[verifier::external_body]
fn find_pda(seeds: &Vec<Vec<u8>>, program_id: &AccountId) -> (r: Option<(AccountId, u8)>)
    ensures
        r is Some <==> pda_lookup(seeds.deep_view(), program_id@) is Some,
        r matches Some(p) ==> pda_lookup(seeds.deep_view(), program_id@) == Some((p.0@, p.1)),
        r matches Some(p) ==> pda_candidate(seeds.deep_view(), p.1, program_id@) == Some(p.0@),
{
    let refs: Vec<&[u8]> = seeds.iter().map(|s| s.as_slice()).collect();
    let pid = solana_program::pubkey::Pubkey::new_from_array(program_id.bytes);
    solana_program::pubkey::Pubkey::try_find_program_address(&refs, &pid)
        .map(|(k, b)| (AccountId { bytes: k.to_bytes() }, b))
}

/// Relies on solana_program's `Pubkey::create_program_address`, called with
/// the bump byte appended as the final seed: deterministic in the seeds, the
/// bump and the program id, and `Err` exactly when that candidate is not a
/// valid derived address.
#[verifier::external_body]
fn compute_pda(seeds: &Vec<Vec<u8>>, bump: u8, program_id: &AccountId) -> (r: Option<AccountId>)
    ensures
        r is Some <==> pda_candidate(seeds.deep_view(), bump, program_id@) is Some,
        r matches Some(a) ==> pda_candidate(seeds.deep_view(), bump, program_id@) == Some(a@),
{
    let mut refs: Vec<&[u8]> = seeds.iter().map(|s| s.as_slice()).collect();
    let bump_seed = [bump];
    refs.push(&bump_seed);
    let pid = solana_program::pubkey::Pubkey::new_from_array(program_id.bytes);
    solana_program::pubkey::Pubkey::create_program_address(&refs, &pid)
        .ok()
        .map(|k| AccountId { bytes: k.to_bytes() })
}

/// The domain separator scoping a vault's authority derivation: the bytes of
/// "config".
pub open spec fn spec_config_seed() -> Seq<u8> {
    seq![99u8, 111u8, 110u8, 102u8, 105u8, 103u8]
}

/// The domain separator scoping a vault's share-token derivation: the bytes
/// of "shares".
pub open spec fn spec_shares_seed() -> Seq<u8> {
    seq![115u8, 104u8, 97u8, 114u8, 101u8, 115u8]
}

/// The seed list from which a vault's authority is derived: the "config"
/// domain separator followed by the underlying asset's identity.
pub open spec fn spec_config_seeds(mint: Seq<u8>) -> Seq<Seq<u8>> {
    seq![spec_config_seed(), mint]
}

/// The seed list from which a vault's share token is derived: the "shares"
/// domain separator followed by the vault authority's identity.
pub open spec fn spec_shares_seeds(config: Seq<u8>) -> Seq<Seq<u8>> {
    seq![spec_shares_seed(), config]
}

fn config_seed_bytes() -> (r: Vec<u8>)
    ensures
        r@ == spec_config_seed(),
{
    let mut v: Vec<u8> = Vec::new();
    v.push(99u8);
    v.push(111u8);
    v.push(110u8);
    v.push(102u8);
    v.push(105u8);
    v.push(103u8);
    proof {
        assert(v@ =~= spec_config_seed());
    }
    v
}

fn shares_seed_bytes() -> (r: Vec<u8>)
    ensures
        r@ == spec_shares_seed(),
{
    let mut v: Vec<u8> = Vec::new();
    v.push(115u8);
    v.push(104u8);
    v.push(97u8);
    v.push(114u8);
    v.push(101u8);
    v.push(115u8);
    proof {
        assert(v@ =~= spec_shares_seed());
    }
    v
}

fn id_bytes_vec(id: &AccountId) -> (r: Vec<u8>)
    ensures
        r@ == id@,
{
    let mut v: Vec<u8> = Vec::new();
    let mut i: usize = 0;
    while i < 32
        invariant
            i <= 32,
            v@ == id.bytes@.subrange(0, i as int),
        decreases 32 - i,
    {
        v.push(id.bytes[i]);
        proof {
            assert(id.bytes@.subrange(0, i + 1 as int) =~= id.bytes@.subrange(0, i as int).push(
                id.bytes@[i as int],
            ));
        }
        i += 1;
    }
    proof {
        assert(id.bytes@.subrange(0, 32) =~= id.bytes@);
    }
    v
}

fn two_seeds(first: Vec<u8>, second: Vec<u8>) -> (r: Vec<Vec<u8>>)
    ensures
        r.deep_view() == seq![first@, second@],
{
    let mut v: Vec<Vec<u8>> = Vec::new();
    v.push(first);
    v.push(second);
    proof {
        assert(v.deep_view() =~~= seq![v@[0]@, v@[1]@]);
    }
    v
}

/// Derive the vault authority for one underlying asset: a deterministic,
/// keyless identity, together with the bump that makes the derivation valid.
/// `None` is the fatal case in which no bump yields a valid identity; it can
/// only surface at vault initialization, since the bump is persisted then.
pub fn derive_authority(mint: &AccountId, program_id: &AccountId) -> (r: Option<(AccountId, u8)>)
    ensures
        r is Some <==> pda_lookup(spec_config_seeds(mint@), program_id@) is Some,
        r matches Some(p) ==> pda_lookup(spec_config_seeds(mint@), program_id@) == Some((
            p.0@,
            p.1,
        )),
        r matches Some(p) ==> pda_candidate(spec_config_seeds(mint@), p.1, program_id@) == Some(
            p.0@,
        ),
{
    let seeds = two_seeds(config_seed_bytes(), id_bytes_vec(mint));
    find_pda(&seeds, program_id)
}

/// Recompute the vault authority from the underlying asset and a persisted
/// bump, in one derivation instead of a search. Every call with the same
/// arguments yields the same identity.
pub fn authority_address(mint: &AccountId, bump: u8, program_id: &AccountId) -> (r: Option<
    AccountId,
>)
    ensures
        r is Some <==> pda_candidate(spec_config_seeds(mint@), bump, program_id@) is Some,
        r matches Some(a) ==> pda_candidate(spec_config_seeds(mint@), bump, program_id@) == Some(
            a@,
        ),
{
    let seeds = two_seeds(config_seed_bytes(), id_bytes_vec(mint));
    compute_pda(&seeds, bump, program_id)
}

/// Derive the vault's share-token identity, scoped to the vault authority.
pub fn derive_shares_mint(config: &AccountId, program_id: &AccountId) -> (r: Option<(
    AccountId,
    u8,
)>)
    ensures
        r is Some <==> pda_lookup(spec_shares_seeds(config@), program_id@) is Some,
        r matches Some(p) ==> pda_lookup(spec_shares_seeds(config@), program_id@) == Some((
            p.0@,
            p.1,
        )),
{
    let seeds = two_seeds(shares_seed_bytes(), id_bytes_vec(config));
    find_pda(&seeds, program_id)
}

} // verus!
