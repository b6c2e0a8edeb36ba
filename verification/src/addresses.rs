use crate::state::{key_eq, push_bytes};
use vstd::bytes::{spec_u64_to_le_bytes, u64_to_le_bytes};
use vstd::prelude::*;

verus! {

/// The address and bump that program-derived-address derivation returns for
/// the given seed components under the given deriving program, or `None` in
/// the statistically improbable event that no bump yields an address.  The
/// result is a pure function of the inputs; no private key exists for it.
pub uninterp spec fn pda_of(seeds: Seq<Seq<u8>>, program_id: Seq<u8>) -> Option<(Seq<u8>, u8)>;

/// Relies on `Pubkey::try_find_program_address` of the host ledger's SDK:
/// the returned address and bump are a deterministic function of the seed
/// components and the deriving program's identity alone.
#[verifier::external_body]
fn try_find_pda(seeds: &Vec<Vec<u8>>, program_id: &[u8; 32]) -> (r: Option<([u8; 32], u8)>)
    ensures
        match r {
            Some(p) => pda_of(seeds.deep_view(), program_id@) == Some((p.0@, p.1)),
            None => pda_of(seeds.deep_view(), program_id@) is None,
        },
{
    let pid = anchor_lang::solana_program::pubkey::Pubkey::new_from_array(*program_id);
    let seed_slices: Vec<&[u8]> = seeds.iter().map(|s| s.as_slice()).collect();
    anchor_lang::solana_program::pubkey::Pubkey::try_find_program_address(
        seed_slices.as_slice(),
        &pid,
    ).map(|(address, bump)| (address.to_bytes(), bump))
}

/// Namespace tag opening the record-address derivation: the bytes of
/// `"escrow"`.
pub open spec fn escrow_namespace() -> Seq<u8> {
    seq![101u8, 115u8, 99u8, 114u8, 111u8, 119u8]
}

/// The ordered seed components a record's address is derived from.
pub open spec fn record_seeds(maker: Seq<u8>, seed: u64) -> Seq<Seq<u8>> {
    seq![escrow_namespace(), maker, spec_u64_to_le_bytes(seed)]
}

/// The ordered seed components a vault's address is derived from, under the
/// balance-holder derivation convention: the record's address, the asset
/// service's identity, the deposited asset's identifier.
pub open spec fn vault_seeds(record_address: Seq<u8>, token_program: Seq<u8>, mint_a: Seq<u8>) -> Seq<
    Seq<u8>,
> {
    seq![record_address, token_program, mint_a]
}

/// Derive a record's address and bump from the maker's identity and the
/// maker-chosen seed.  Recomputing from the same inputs yields the same pair.
pub fn derive_record_address(program_id: &[u8; 32], maker: &[u8; 32], seed: u64) -> (r: Option<
    ([u8; 32], u8),
>)
    ensures
        match r {
            Some(p) => pda_of(record_seeds(maker@, seed), program_id@) == Some((p.0@, p.1)),
            None => pda_of(record_seeds(maker@, seed), program_id@) is None,
        },
{
    let mut tag: Vec<u8> = Vec::new();
    tag.push(101u8);
    tag.push(115u8);
    tag.push(99u8);
    tag.push(114u8);
    tag.push(111u8);
    tag.push(119u8);
    let mut maker_bytes: Vec<u8> = Vec::new();
    push_bytes(&mut maker_bytes, maker.as_slice());
    let seed_bytes = u64_to_le_bytes(seed);
    let mut seeds: Vec<Vec<u8>> = Vec::new();
    seeds.push(tag);
    seeds.push(maker_bytes);
    seeds.push(seed_bytes);
    proof {
        assert(seeds.deep_view() =~~= record_seeds(maker@, seed));
    }
    try_find_pda(&seeds, program_id)
}

/// Derive a vault's address and bump from its record's address and the
/// deposited asset, under the balance-holder convention of the given asset
/// and derivation services.
pub fn derive_vault_address(
    ata_program: &[u8; 32],
    token_program: &[u8; 32],
    record_address: &[u8; 32],
    mint_a: &[u8; 32],
) -> (r: Option<([u8; 32], u8)>)
    ensures
        match r {
            Some(p) => pda_of(
                vault_seeds(record_address@, token_program@, mint_a@),
                ata_program@,
            ) == Some((p.0@, p.1)),
            None => pda_of(vault_seeds(record_address@, token_program@, mint_a@), ata_program@)
                is None,
        },
{
    let mut record_bytes: Vec<u8> = Vec::new();
    push_bytes(&mut record_bytes, record_address.as_slice());
    let mut token_bytes: Vec<u8> = Vec::new();
    push_bytes(&mut token_bytes, token_program.as_slice());
    let mut mint_bytes: Vec<u8> = Vec::new();
    push_bytes(&mut mint_bytes, mint_a.as_slice());
    let mut seeds: Vec<Vec<u8>> = Vec::new();
    seeds.push(record_bytes);
    seeds.push(token_bytes);
    seeds.push(mint_bytes);
    proof {
        assert(seeds.deep_view() =~~= vault_seeds(record_address@, token_program@, mint_a@));
    }
    try_find_pda(&seeds, ata_program)
}

/// Capability proof for a record's derived authority: the caller supplies the
/// exact seed components used at creation together with the address and
/// cached bump it claims they derive; holds exactly when derivation
/// reproduces both.  Proof of derivation substitutes for a signature.
pub fn prove_authority(
    program_id: &[u8; 32],
    maker: &[u8; 32],
    seed: u64,
    expected: &[u8; 32],
    expected_bump: u8,
) -> (r: bool)
    ensures
        r <==> pda_of(record_seeds(maker@, seed), program_id@) == Some((expected@, expected_bump)),
{
    match derive_record_address(program_id, maker, seed) {
        Some((address, bump)) => key_eq(&address, expected) && bump == expected_bump,
        None => false,
    }
}

/// Address derivation is deterministic: two successful derivations from the
/// same maker, seed, and deriving program agree on the address and the bump.
pub proof fn lemma_record_address_deterministic(
    program_id: Seq<u8>,
    maker: Seq<u8>,
    seed: u64,
    r1: (Seq<u8>, u8),
    r2: (Seq<u8>, u8),
)
    requires
        pda_of(record_seeds(maker, seed), program_id) == Some(r1),
        pda_of(record_seeds(maker, seed), program_id) == Some(r2),
    ensures
        r1 == r2,
{
}

} // verus!
