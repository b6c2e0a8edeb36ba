use crate::errors::EscrowError;
use crate::ledger::{has_record, lemma_wf_push, Ledger, LiveEscrow, TokenAccount};
use crate::state::{key_eq, Escrow};
use vstd::prelude::*;

verus! {

/// The accounts a create request presents: the maker's identity, the two
/// asset identifiers, the maker's balance-holder for the deposited asset,
/// and the derivation bump of the record address being initialized.
#[derive(Clone, Copy, Debug)]
pub struct Make {
    /// The creating party (the request's signer).
    pub maker: [u8; 32],
    /// Identifier of the asset to deposit.
    pub mint_a: [u8; 32],
    /// Identifier of the asset demanded in return.
    pub mint_b: [u8; 32],
    /// The maker's balance-holder for `mint_a`, funding the deposit.
    pub maker_ata_a: TokenAccount,
    /// Derivation bump of the record's address, as the derivation returned it.
    pub bump: u8,
}

/// The funding balance-holder really is the maker's account for `mint_a`.
pub open spec fn deposit_source_ok(m: Make) -> bool {
    m.maker_ata_a.owner@ == m.maker@ && m.maker_ata_a.mint@ == m.mint_a@
}

/// The record a successful create call persists.
pub open spec fn new_record(m: Make, seed: u64, receive: u64) -> Escrow {
    Escrow {
        seed,
        maker: m.maker,
        mint_a: m.mint_a,
        mint_b: m.mint_b,
        receive,
        bump: m.bump,
    }
}

/// Create: open an escrow under (`m.maker`, `seed`) demanding `receive` of
/// `m.mint_b`, and fund its vault with `amount` of `m.mint_a` taken from the
/// maker's balance-holder.  Returns the maker's balance-holder after the
/// deposit.  On any failure nothing is created and no balance moves.
pub fn handler(ledger: &mut Ledger, m: &Make, seed: u64, receive: u64, amount: u64) -> (r: Result<
    TokenAccount,
    EscrowError,
>)
    requires
        old(ledger).wf(),
    ensures
        final(ledger).wf(),
        r is Err ==> *final(ledger) == *old(ledger),
        (r == Err::<TokenAccount, EscrowError>(EscrowError::InvalidAmount)) <==> (receive == 0
            || amount == 0),
        (r == Err::<TokenAccount, EscrowError>(EscrowError::RecordInUse)) <==> (receive > 0
            && amount > 0 && has_record(old(ledger).escrows@, m.maker@, seed)),
        (r == Err::<TokenAccount, EscrowError>(EscrowError::AccountMismatch)) <==> (receive > 0
            && amount > 0 && !has_record(old(ledger).escrows@, m.maker@, seed)
            && !deposit_source_ok(*m)),
        (r == Err::<TokenAccount, EscrowError>(EscrowError::InsufficientFunds)) <==> (receive > 0
            && amount > 0 && !has_record(old(ledger).escrows@, m.maker@, seed)
            && deposit_source_ok(*m) && m.maker_ata_a.amount < amount),
        r is Ok <==> (receive > 0 && amount > 0 && !has_record(old(ledger).escrows@, m.maker@, seed)
            && deposit_source_ok(*m) && m.maker_ata_a.amount >= amount),
        r matches Ok(ata) ==> {
            &&& final(ledger).escrows@ == old(ledger).escrows@.push(
                LiveEscrow { record: new_record(*m, seed, receive), vault_amount: amount },
            )
            &&& ata.owner == m.maker_ata_a.owner
            &&& ata.mint == m.maker_ata_a.mint
            &&& ata.amount == m.maker_ata_a.amount - amount
        },
{
    if receive == 0 || amount == 0 {
        return Err(EscrowError::InvalidAmount);
    }
    if ledger.find_record(&m.maker, seed).is_some() {
        return Err(EscrowError::RecordInUse);
    }
    if !(key_eq(&m.maker_ata_a.owner, &m.maker) && key_eq(&m.maker_ata_a.mint, &m.mint_a)) {
        return Err(EscrowError::AccountMismatch);
    }
    if m.maker_ata_a.amount < amount {
        return Err(EscrowError::InsufficientFunds);
    }
    let record = Escrow {
        seed,
        maker: m.maker,
        mint_a: m.mint_a,
        mint_b: m.mint_b,
        receive,
        bump: m.bump,
    };
    let live = LiveEscrow { record, vault_amount: amount };
    proof {
        lemma_wf_push(ledger.escrows@, live);
    }
    ledger.escrows.push(live);
    Ok(
        TokenAccount {
            owner: m.maker_ata_a.owner,
            mint: m.maker_ata_a.mint,
            amount: m.maker_ata_a.amount - amount,
        },
    )
}

} // verus!
