use crate::errors::EscrowError;
use crate::ledger::{lemma_wf_remove, Ledger, TokenAccount};
use crate::state::{key_eq, Escrow};
use vstd::prelude::*;

verus! {

/// The accounts a cancel request presents: the maker's identity, the
/// supplied identifier of the deposited asset, and the maker's
/// balance-holder taking the deposit back.
#[derive(Clone, Copy, Debug)]
pub struct Refund {
    /// The cancelling party (the request's signer).
    pub maker: [u8; 32],
    /// Supplied identifier of the deposited asset.
    pub mint_a: [u8; 32],
    /// The maker's balance-holder receiving the deposit back.
    pub maker_ata_a: TokenAccount,
}

/// The supplied identities match the record's stored fields.
pub open spec fn identities_ok(rf: Refund, rec: Escrow) -> bool {
    rec.maker@ == rf.maker@ && rec.mint_a@ == rf.mint_a@
}

/// The receiving balance-holder belongs to the maker and the deposited asset.
pub open spec fn account_ok(rf: Refund) -> bool {
    rf.maker_ata_a.owner@ == rf.maker@ && rf.maker_ata_a.mint@ == rf.mint_a@
}

/// The receiving balance would not overflow.
pub open spec fn balance_fits(rf: Refund, vault_amount: u64) -> bool {
    rf.maker_ata_a.amount + vault_amount <= u64::MAX
}

/// Cancel: give the entire remaining vault balance of the live escrow at
/// position `idx` back to its maker (skipping the transfer when the vault is
/// empty), and destroy the record and its vault together.  On any failure
/// nothing is destroyed and no balance moves.
pub fn handler(ledger: &mut Ledger, idx: usize, rf: &Refund) -> (r: Result<
    TokenAccount,
    EscrowError,
>)
    requires
        old(ledger).wf(),
    ensures
        final(ledger).wf(),
        r is Err ==> *final(ledger) == *old(ledger),
        (r == Err::<TokenAccount, EscrowError>(EscrowError::RecordMissing)) <==> idx >= old(
            ledger,
        ).escrows@.len(),
        idx < old(ledger).escrows@.len() ==> {
            let le = old(ledger).escrows@[idx as int];
            &&& (r == Err::<TokenAccount, EscrowError>(EscrowError::InvalidMaker)) <==> le.record.maker@
                != rf.maker@
            &&& (r == Err::<TokenAccount, EscrowError>(EscrowError::InvalidMintA)) <==> (le.record.maker@
                == rf.maker@ && le.record.mint_a@ != rf.mint_a@)
            &&& (r == Err::<TokenAccount, EscrowError>(EscrowError::AccountMismatch)) <==> (
            identities_ok(*rf, le.record) && !account_ok(*rf))
            &&& (r == Err::<TokenAccount, EscrowError>(EscrowError::BalanceOverflow)) <==> (
            identities_ok(*rf, le.record) && account_ok(*rf) && !balance_fits(
                *rf,
                le.vault_amount,
            ))
            &&& r is Ok <==> (identities_ok(*rf, le.record) && account_ok(*rf) && balance_fits(
                *rf,
                le.vault_amount,
            ))
        },
        r matches Ok(ata) ==> {
            let le = old(ledger).escrows@[idx as int];
            &&& final(ledger).escrows@ == old(ledger).escrows@.remove(idx as int)
            &&& ata.owner == rf.maker_ata_a.owner
            &&& ata.mint == rf.maker_ata_a.mint
            &&& ata.amount == rf.maker_ata_a.amount + le.vault_amount
        },
{
    if idx >= ledger.live_count() {
        return Err(EscrowError::RecordMissing);
    }
    let le = ledger.escrows[idx];
    if !key_eq(&le.record.maker, &rf.maker) {
        return Err(EscrowError::InvalidMaker);
    }
    if !key_eq(&le.record.mint_a, &rf.mint_a) {
        return Err(EscrowError::InvalidMintA);
    }
    if !(key_eq(&rf.maker_ata_a.owner, &rf.maker) && key_eq(&rf.maker_ata_a.mint, &rf.mint_a)) {
        return Err(EscrowError::AccountMismatch);
    }
    if rf.maker_ata_a.amount > u64::MAX - le.vault_amount {
        return Err(EscrowError::BalanceOverflow);
    }
    proof {
        lemma_wf_remove(ledger.escrows@, idx as int);
    }
    let removed = ledger.escrows.remove(idx);
    let mut paid_back = rf.maker_ata_a;
    if removed.vault_amount > 0 {
        paid_back = TokenAccount {
            owner: rf.maker_ata_a.owner,
            mint: rf.maker_ata_a.mint,
            amount: rf.maker_ata_a.amount + removed.vault_amount,
        };
    }
    Ok(paid_back)
}

} // verus!
