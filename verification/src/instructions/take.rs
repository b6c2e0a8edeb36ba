use crate::errors::EscrowError;
use crate::ledger::{lemma_wf_remove, Ledger, TokenAccount};
use crate::state::{key_eq, Escrow};
use vstd::prelude::*;

verus! {

/// The accounts a fulfill request presents: the taker, the supplied maker
/// identity and asset identifiers (each checked against the record), the
/// taker's balance-holders for both assets, and the maker's balance-holder
/// for the requested asset.
#[derive(Clone, Copy, Debug)]
pub struct Take {
    /// The fulfilling party (the request's signer).
    pub taker: [u8; 32],
    /// The maker the taker claims opened the escrow.
    pub maker: [u8; 32],
    /// Supplied identifier of the deposited asset.
    pub mint_a: [u8; 32],
    /// Supplied identifier of the requested asset.
    pub mint_b: [u8; 32],
    /// The taker's balance-holder receiving the deposited asset.
    pub taker_ata_a: TokenAccount,
    /// The taker's balance-holder paying the requested asset.
    pub taker_ata_b: TokenAccount,
    /// The maker's balance-holder receiving the requested asset.
    pub maker_ata_b: TokenAccount,
}

/// The balance-holder accounts a fulfill call moves, after the swap.
#[derive(Clone, Copy, Debug, PartialEq, Eq)]
pub struct TakeOutcome {
    /// The taker's holder of the deposited asset, grown by the vault balance.
    pub taker_ata_a: TokenAccount,
    /// The taker's holder of the requested asset, shrunk by the demand.
    pub taker_ata_b: TokenAccount,
    /// The maker's holder of the requested asset, grown by the demand.
    pub maker_ata_b: TokenAccount,
}

/// The supplied identities match the record's stored fields.
pub open spec fn identities_ok(t: Take, rec: Escrow) -> bool {
    rec.maker@ == t.maker@ && rec.mint_a@ == t.mint_a@ && rec.mint_b@ == t.mint_b@
}

/// Each supplied balance-holder belongs to the right party and asset.
pub open spec fn accounts_ok(t: Take) -> bool {
    &&& t.taker_ata_a.owner@ == t.taker@ && t.taker_ata_a.mint@ == t.mint_a@
    &&& t.taker_ata_b.owner@ == t.taker@ && t.taker_ata_b.mint@ == t.mint_b@
    &&& t.maker_ata_b.owner@ == t.maker@ && t.maker_ata_b.mint@ == t.mint_b@
}

/// Neither receiving balance would overflow.
pub open spec fn balances_fit(t: Take, rec: Escrow, vault_amount: u64) -> bool {
    &&& t.maker_ata_b.amount + rec.receive <= u64::MAX
    &&& t.taker_ata_a.amount + vault_amount <= u64::MAX
}

/// Fulfill: against the live escrow at position `idx`, pay the record's
/// demanded amount of the requested asset from the taker to the maker, hand
/// the vault's entire balance of the deposited asset to the taker, and
/// destroy the record and its vault together.  On any failure nothing is
/// destroyed and no balance moves.
pub fn handler(ledger: &mut Ledger, idx: usize, t: &Take) -> (r: Result<TakeOutcome, EscrowError>)
    requires
        old(ledger).wf(),
    ensures
        final(ledger).wf(),
        r is Err ==> *final(ledger) == *old(ledger),
        (r == Err::<TakeOutcome, EscrowError>(EscrowError::RecordMissing)) <==> idx >= old(
            ledger,
        ).escrows@.len(),
        idx < old(ledger).escrows@.len() ==> {
            let le = old(ledger).escrows@[idx as int];
            &&& (r == Err::<TakeOutcome, EscrowError>(EscrowError::InvalidMaker)) <==> le.record.maker@
                != t.maker@
            &&& (r == Err::<TakeOutcome, EscrowError>(EscrowError::InvalidMintA)) <==> (le.record.maker@
                == t.maker@ && le.record.mint_a@ != t.mint_a@)
            &&& (r == Err::<TakeOutcome, EscrowError>(EscrowError::InvalidMintB)) <==> (le.record.maker@
                == t.maker@ && le.record.mint_a@ == t.mint_a@ && le.record.mint_b@ != t.mint_b@)
            &&& (r == Err::<TakeOutcome, EscrowError>(EscrowError::AccountMismatch)) <==> (
            identities_ok(*t, le.record) && !accounts_ok(*t))
            &&& (r == Err::<TakeOutcome, EscrowError>(EscrowError::InsufficientFunds)) <==> (
            identities_ok(*t, le.record) && accounts_ok(*t) && t.taker_ata_b.amount
                < le.record.receive)
            &&& (r == Err::<TakeOutcome, EscrowError>(EscrowError::BalanceOverflow)) <==> (
            identities_ok(*t, le.record) && accounts_ok(*t) && t.taker_ata_b.amount
                >= le.record.receive && !balances_fit(*t, le.record, le.vault_amount))
            &&& r is Ok <==> (identities_ok(*t, le.record) && accounts_ok(*t)
                && t.taker_ata_b.amount >= le.record.receive && balances_fit(
                *t,
                le.record,
                le.vault_amount,
            ))
        },
        r matches Ok(o) ==> {
            let le = old(ledger).escrows@[idx as int];
            &&& final(ledger).escrows@ == old(ledger).escrows@.remove(idx as int)
            &&& o.taker_ata_a.owner == t.taker_ata_a.owner
            &&& o.taker_ata_a.mint == t.taker_ata_a.mint
            &&& o.taker_ata_a.amount == t.taker_ata_a.amount + le.vault_amount
            &&& o.taker_ata_b.owner == t.taker_ata_b.owner
            &&& o.taker_ata_b.mint == t.taker_ata_b.mint
            &&& o.taker_ata_b.amount == t.taker_ata_b.amount - le.record.receive
            &&& o.maker_ata_b.owner == t.maker_ata_b.owner
            &&& o.maker_ata_b.mint == t.maker_ata_b.mint
            &&& o.maker_ata_b.amount == t.maker_ata_b.amount + le.record.receive
        },
{
    if idx >= ledger.live_count() {
        return Err(EscrowError::RecordMissing);
    }
    let le = ledger.escrows[idx];
    if !key_eq(&le.record.maker, &t.maker) {
        return Err(EscrowError::InvalidMaker);
    }
    if !key_eq(&le.record.mint_a, &t.mint_a) {
        return Err(EscrowError::InvalidMintA);
    }
    if !key_eq(&le.record.mint_b, &t.mint_b) {
        return Err(EscrowError::InvalidMintB);
    }
    let holders_ok = key_eq(&t.taker_ata_a.owner, &t.taker) && key_eq(&t.taker_ata_a.mint, &t.mint_a)
        && key_eq(&t.taker_ata_b.owner, &t.taker) && key_eq(&t.taker_ata_b.mint, &t.mint_b)
        && key_eq(&t.maker_ata_b.owner, &t.maker) && key_eq(&t.maker_ata_b.mint, &t.mint_b);
    if !holders_ok {
        return Err(EscrowError::AccountMismatch);
    }
    if t.taker_ata_b.amount < le.record.receive {
        return Err(EscrowError::InsufficientFunds);
    }
    if t.maker_ata_b.amount > u64::MAX - le.record.receive || t.taker_ata_a.amount > u64::MAX
        - le.vault_amount {
        return Err(EscrowError::BalanceOverflow);
    }
    proof {
        lemma_wf_remove(ledger.escrows@, idx as int);
    }
    let removed = ledger.escrows.remove(idx);
    Ok(
        TakeOutcome {
            taker_ata_a: TokenAccount {
                owner: t.taker_ata_a.owner,
                mint: t.taker_ata_a.mint,
                amount: t.taker_ata_a.amount + removed.vault_amount,
            },
            taker_ata_b: TokenAccount {
                owner: t.taker_ata_b.owner,
                mint: t.taker_ata_b.mint,
                amount: t.taker_ata_b.amount - removed.record.receive,
            },
            maker_ata_b: TokenAccount {
                owner: t.maker_ata_b.owner,
                mint: t.maker_ata_b.mint,
                amount: t.maker_ata_b.amount + removed.record.receive,
            },
        },
    )
}

} // verus!
