use vstd::prelude::*;

use crate::error::VestingError;
use crate::state::{Pubkey, VestingSchedule};

verus! {

/// The domain tag of a schedule's authority: the bytes of `vesting`.
pub open spec fn vesting_seed() -> Seq<u8> {
    seq![118u8, 101u8, 115u8, 116u8, 105u8, 110u8, 103u8]
}

/// The domain tag of a schedule's escrow: the bytes of `vault`.
pub open spec fn vault_seed() -> Seq<u8> {
    seq![118u8, 97u8, 117u8, 108u8, 116u8]
}

/// The seeds that a schedule's authority is derived from: the tag, the three
/// identities of the triple, and the stored discriminant.
pub open spec fn authority_seeds(s: VestingSchedule) -> Seq<Seq<u8>> {
    seq![vesting_seed(), s.admin.bytes@, s.beneficiary.bytes@, s.mint.bytes@, seq![s.bump]]
}

/// The seeds that a schedule's escrow address is derived from.
pub open spec fn vault_seeds(schedule_key: Pubkey, vault_bump: u8) -> Seq<Seq<u8>> {
    seq![vault_seed(), schedule_key.bytes@, seq![vault_bump]]
}

/// What each seed holds.
pub open spec fn seeds_view(seeds: Seq<Vec<u8>>) -> Seq<Seq<u8>> {
    seeds.map_values(|v: Vec<u8>| v@)
}

/// The address derived from `seeds` under `program_id`, or `None` where no
/// keyless address exists for them.
pub uninterp spec fn program_address(seeds: Seq<Seq<u8>>, program_id: Seq<u8>) -> Option<Seq<u8>>;

/// Relies on `Pubkey::create_program_address` of solana-program: a hash of the
/// seeds and the program id, refused when it lies on the curve or a seed limit
/// is passed; a function of its arguments alone.
#[verifier::external_body]
fn create_program_address(seeds: &Vec<Vec<u8>>, program_id: &[u8; 32]) -> (r: Option<[u8; 32]>)
    ensures
        match r {
            Some(a) => program_address(seeds_view(seeds@), program_id@) == Some(a@),
            None => program_address(seeds_view(seeds@), program_id@) is None,
        },
{
    let refs: Vec<&[u8]> = seeds.iter().map(|s| s.as_slice()).collect();
    let id = anchor_lang::solana_program::pubkey::Pubkey::new_from_array(*program_id);
    anchor_lang::solana_program::pubkey::Pubkey::create_program_address(&refs, &id).ok().map(
        |k| k.to_bytes(),
    )
}

/// The bytes of an identity, as a vector.
fn key_bytes(k: &Pubkey) -> (r: Vec<u8>)
    ensures
        r@ == k.bytes@,
{
    let mut out: Vec<u8> = Vec::new();
    let mut i: usize = 0;
    while i < 32
        invariant
            0 <= i <= 32,
            k.bytes@.len() == 32,
            out@ == k.bytes@.subrange(0, i as int),
        decreases 32 - i,
    {
        out.push(k.bytes[i]);
        i = i + 1;
    }
    assert(out@ =~= k.bytes@);
    out
}

/// The seeds of a schedule's authority.
pub fn vesting_authority_seeds(s: &VestingSchedule) -> (r: Vec<Vec<u8>>)
    ensures
        seeds_view(r@) == authority_seeds(*s),
{
    let mut seeds: Vec<Vec<u8>> = Vec::new();
    let tag: Vec<u8> = vec![118u8, 101u8, 115u8, 116u8, 105u8, 110u8, 103u8];
    assert(tag@ =~= vesting_seed());
    seeds.push(tag);
    seeds.push(key_bytes(&s.admin));
    seeds.push(key_bytes(&s.beneficiary));
    seeds.push(key_bytes(&s.mint));
    let bump: Vec<u8> = vec![s.bump];
    assert(bump@ =~= seq![s.bump]);
    seeds.push(bump);
    assert(seeds_view(seeds@) =~= authority_seeds(*s));
    seeds
}

/// The seeds of the escrow of the schedule stored at `schedule_key`.
pub fn vault_authority_seeds(schedule_key: &Pubkey, vault_bump: u8) -> (r: Vec<Vec<u8>>)
    ensures
        seeds_view(r@) == vault_seeds(*schedule_key, vault_bump),
{
    let mut seeds: Vec<Vec<u8>> = Vec::new();
    let tag: Vec<u8> = vec![118u8, 97u8, 117u8, 108u8, 116u8];
    assert(tag@ =~= vault_seed());
    seeds.push(tag);
    seeds.push(key_bytes(schedule_key));
    let bump: Vec<u8> = vec![vault_bump];
    assert(bump@ =~= seq![vault_bump]);
    seeds.push(bump);
    assert(seeds_view(seeds@) =~= vault_seeds(*schedule_key, vault_bump));
    seeds
}

/// Re-derives the authority that controls a schedule's escrow from the stored
/// triple and discriminant.
pub fn vesting_authority(s: &VestingSchedule, program_id: &Pubkey) -> (r: Result<
    Pubkey,
    VestingError,
>)
    ensures
        match r {
            Ok(k) => program_address(authority_seeds(*s), program_id.bytes@) == Some(k.bytes@),
            Err(e) => program_address(authority_seeds(*s), program_id.bytes@) is None && e
                == VestingError::Unauthorized,
        },
{
    let seeds = vesting_authority_seeds(s);
    match create_program_address(&seeds, &program_id.bytes) {
        Some(bytes) => Ok(Pubkey { bytes }),
        None => Err(VestingError::Unauthorized),
    }
}

/// Re-derives the escrow address of the schedule stored at `schedule_key`.
pub fn vault_address(schedule_key: &Pubkey, vault_bump: u8, program_id: &Pubkey) -> (r: Result<
    Pubkey,
    VestingError,
>)
    ensures
        match r {
            Ok(k) => program_address(vault_seeds(*schedule_key, vault_bump), program_id.bytes@)
                == Some(k.bytes@),
            Err(e) => program_address(vault_seeds(*schedule_key, vault_bump), program_id.bytes@)
                is None && e == VestingError::Unauthorized,
        },
{
    let seeds = vault_authority_seeds(schedule_key, vault_bump);
    match create_program_address(&seeds, &program_id.bytes) {
        Some(bytes) => Ok(Pubkey { bytes }),
        None => Err(VestingError::Unauthorized),
    }
}

} // verus!
