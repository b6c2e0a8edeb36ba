use anchor_escrow::errors::EscrowError;
use anchor_escrow::instructions::make;
use anchor_escrow::instructions::make::Make;
use anchor_escrow::instructions::refund;
use anchor_escrow::instructions::refund::Refund;
use anchor_escrow::instructions::take;
use anchor_escrow::instructions::take::Take;
use anchor_escrow::ledger::{Ledger, TokenAccount};

fn key(n: u8) -> [u8; 32] {
    [n; 32]
}

fn holder(owner: [u8; 32], mint: [u8; 32], amount: u64) -> TokenAccount {
    TokenAccount { owner, mint, amount }
}

fn plain_make(amount_held: u64) -> Make {
    Make {
        maker: key(1),
        mint_a: key(10),
        mint_b: key(11),
        maker_ata_a: holder(key(1), key(10), amount_held),
        bump: 254,
    }
}

fn plain_take() -> Take {
    Take {
        taker: key(2),
        maker: key(1),
        mint_a: key(10),
        mint_b: key(11),
        taker_ata_a: holder(key(2), key(10), 0),
        taker_ata_b: holder(key(2), key(11), 800),
        maker_ata_b: holder(key(1), key(11), 5),
    }
}

fn plain_refund(amount_held: u64) -> Refund {
    Refund {
        maker: key(1),
        mint_a: key(10),
        maker_ata_a: holder(key(1), key(10), amount_held),
    }
}

#[test]
fn create_zero_receive_rejected() {
    let mut ledger = Ledger::new();
    let r = make::handler(&mut ledger, &plain_make(1000), 1, 0, 1000);
    assert_eq!(r, Err(EscrowError::InvalidAmount));
    assert_eq!(ledger.live_count(), 0);
}

#[test]
fn create_zero_deposit_rejected() {
    let mut ledger = Ledger::new();
    let r = make::handler(&mut ledger, &plain_make(1000), 1, 500, 0);
    assert_eq!(r, Err(EscrowError::InvalidAmount));
    assert_eq!(ledger.live_count(), 0);
}

#[test]
fn create_funds_vault_and_stores_inputs() {
    let mut ledger = Ledger::new();
    let m = plain_make(1500);
    let r = make::handler(&mut ledger, &m, 42, 500, 1000).expect("valid create");
    assert_eq!(r.amount, 500);
    assert_eq!(r.owner, key(1));
    assert_eq!(r.mint, key(10));
    assert_eq!(ledger.live_count(), 1);
    let live = &ledger.escrows[0];
    assert_eq!(live.vault_amount, 1000);
    assert_eq!(live.record.seed, 42);
    assert_eq!(live.record.maker, key(1));
    assert_eq!(live.record.mint_a, key(10));
    assert_eq!(live.record.mint_b, key(11));
    assert_eq!(live.record.receive, 500);
    assert_eq!(live.record.bump, 254);
}

#[test]
fn create_insufficient_funds_rejected() {
    let mut ledger = Ledger::new();
    let r = make::handler(&mut ledger, &plain_make(999), 1, 500, 1000);
    assert_eq!(r, Err(EscrowError::InsufficientFunds));
    assert_eq!(ledger.live_count(), 0);
}

#[test]
fn create_wrong_holder_rejected() {
    let mut ledger = Ledger::new();
    let mut m = plain_make(1000);
    m.maker_ata_a = holder(key(1), key(11), 1000);
    let r = make::handler(&mut ledger, &m, 1, 500, 1000);
    assert_eq!(r, Err(EscrowError::AccountMismatch));
    assert_eq!(ledger.live_count(), 0);
}

#[test]
fn same_maker_same_seed_collides() {
    let mut ledger = Ledger::new();
    make::handler(&mut ledger, &plain_make(2000), 7, 500, 1000).expect("first create");
    let r = make::handler(&mut ledger, &plain_make(1000), 7, 600, 900);
    assert_eq!(r, Err(EscrowError::RecordInUse));
    assert_eq!(ledger.live_count(), 1);
    assert_eq!(ledger.escrows[0].record.receive, 500);
    assert_eq!(ledger.escrows[0].vault_amount, 1000);
}

#[test]
fn same_maker_different_seeds_independent() {
    let mut ledger = Ledger::new();
    make::handler(&mut ledger, &plain_make(2000), 7, 500, 1000).expect("first create");
    make::handler(&mut ledger, &plain_make(1000), 8, 600, 900).expect("second create");
    assert_eq!(ledger.live_count(), 2);
    assert_eq!(ledger.escrows[0].record.seed, 7);
    assert_eq!(ledger.escrows[0].record.receive, 500);
    assert_eq!(ledger.escrows[0].vault_amount, 1000);
    assert_eq!(ledger.escrows[1].record.seed, 8);
    assert_eq!(ledger.escrows[1].record.receive, 600);
    assert_eq!(ledger.escrows[1].vault_amount, 900);
}

#[test]
fn fulfill_wrong_maker_rejected() {
    let mut ledger = Ledger::new();
    make::handler(&mut ledger, &plain_make(1000), 1, 500, 1000).expect("create");
    let mut t = plain_take();
    t.maker = key(9);
    let r = take::handler(&mut ledger, 0, &t);
    assert_eq!(r, Err(EscrowError::InvalidMaker));
    assert_eq!(ledger.live_count(), 1);
    assert_eq!(ledger.escrows[0].vault_amount, 1000);
}

#[test]
fn fulfill_wrong_mint_a_rejected() {
    let mut ledger = Ledger::new();
    make::handler(&mut ledger, &plain_make(1000), 1, 500, 1000).expect("create");
    let mut t = plain_take();
    t.mint_a = key(12);
    let r = take::handler(&mut ledger, 0, &t);
    assert_eq!(r, Err(EscrowError::InvalidMintA));
    assert_eq!(ledger.live_count(), 1);
    assert_eq!(ledger.escrows[0].vault_amount, 1000);
}

#[test]
fn fulfill_wrong_mint_b_rejected() {
    let mut ledger = Ledger::new();
    make::handler(&mut ledger, &plain_make(1000), 1, 500, 1000).expect("create");
    let mut t = plain_take();
    t.mint_b = key(12);
    let r = take::handler(&mut ledger, 0, &t);
    assert_eq!(r, Err(EscrowError::InvalidMintB));
    assert_eq!(ledger.live_count(), 1);
    assert_eq!(ledger.escrows[0].vault_amount, 1000);
}

#[test]
fn fulfill_missing_record_rejected() {
    let mut ledger = Ledger::new();
    let r = take::handler(&mut ledger, 0, &plain_take());
    assert_eq!(r, Err(EscrowError::RecordMissing));
}

#[test]
fn fulfill_short_taker_balance_rejected() {
    let mut ledger = Ledger::new();
    make::handler(&mut ledger, &plain_make(1000), 1, 500, 1000).expect("create");
    let mut t = plain_take();
    t.taker_ata_b = holder(key(2), key(11), 499);
    let r = take::handler(&mut ledger, 0, &t);
    assert_eq!(r, Err(EscrowError::InsufficientFunds));
    assert_eq!(ledger.live_count(), 1);
}

#[test]
fn fulfill_overflowing_maker_balance_rejected() {
    let mut ledger = Ledger::new();
    make::handler(&mut ledger, &plain_make(1000), 1, 500, 1000).expect("create");
    let mut t = plain_take();
    t.maker_ata_b = holder(key(1), key(11), u64::MAX - 499);
    let r = take::handler(&mut ledger, 0, &t);
    assert_eq!(r, Err(EscrowError::BalanceOverflow));
    assert_eq!(ledger.live_count(), 1);
}

#[test]
fn fulfill_moves_both_balances_and_destroys() {
    let mut ledger = Ledger::new();
    make::handler(&mut ledger, &plain_make(1000), 1, 500, 1000).expect("create");
    let o = take::handler(&mut ledger, 0, &plain_take()).expect("valid fulfill");
    assert_eq!(o.taker_ata_a.amount, 1000);
    assert_eq!(o.taker_ata_b.amount, 300);
    assert_eq!(o.maker_ata_b.amount, 505);
    assert_eq!(ledger.live_count(), 0);
    let again = take::handler(&mut ledger, 0, &plain_take());
    assert_eq!(again, Err(EscrowError::RecordMissing));
}

#[test]
fn cancel_returns_full_deposit_and_destroys() {
    let mut ledger = Ledger::new();
    make::handler(&mut ledger, &plain_make(1000), 1, 500, 1000).expect("create");
    let ata = refund::handler(&mut ledger, 0, &plain_refund(3)).expect("valid cancel");
    assert_eq!(ata.amount, 1003);
    assert_eq!(ata.owner, key(1));
    assert_eq!(ata.mint, key(10));
    assert_eq!(ledger.live_count(), 0);
    let again = refund::handler(&mut ledger, 0, &plain_refund(3));
    assert_eq!(again, Err(EscrowError::RecordMissing));
}

#[test]
fn cancel_wrong_maker_rejected() {
    let mut ledger = Ledger::new();
    make::handler(&mut ledger, &plain_make(1000), 1, 500, 1000).expect("create");
    let mut rf = plain_refund(0);
    rf.maker = key(9);
    let r = refund::handler(&mut ledger, 0, &rf);
    assert_eq!(r, Err(EscrowError::InvalidMaker));
    assert_eq!(ledger.live_count(), 1);
}

#[test]
fn cancel_wrong_mint_rejected() {
    let mut ledger = Ledger::new();
    make::handler(&mut ledger, &plain_make(1000), 1, 500, 1000).expect("create");
    let mut rf = plain_refund(0);
    rf.mint_a = key(12);
    let r = refund::handler(&mut ledger, 0, &rf);
    assert_eq!(r, Err(EscrowError::InvalidMintA));
    assert_eq!(ledger.live_count(), 1);
}

#[test]
fn cancel_overflowing_balance_rejected() {
    let mut ledger = Ledger::new();
    make::handler(&mut ledger, &plain_make(1000), 1, 500, 1000).expect("create");
    let r = refund::handler(&mut ledger, 0, &plain_refund(u64::MAX));
    assert_eq!(r, Err(EscrowError::BalanceOverflow));
    assert_eq!(ledger.live_count(), 1);
}

#[test]
fn end_to_end_fulfill_path() {
    let mut ledger = Ledger::new();
    let m = plain_make(1000);
    let maker_ata_a = make::handler(&mut ledger, &m, 1, 500, 1000).expect("create");
    assert_eq!(maker_ata_a.amount, 0);
    assert_eq!(ledger.escrows[0].vault_amount, 1000);
    let o = take::handler(&mut ledger, 0, &plain_take()).expect("fulfill");
    assert_eq!(o.taker_ata_a.amount, 1000);
    assert_eq!(o.taker_ata_b.amount, 800 - 500);
    assert_eq!(o.maker_ata_b.amount, 5 + 500);
    assert_eq!(ledger.live_count(), 0);
}

#[test]
fn end_to_end_cancel_path() {
    let mut ledger = Ledger::new();
    let m = plain_make(1000);
    let maker_ata_a = make::handler(&mut ledger, &m, 1, 500, 1000).expect("create");
    assert_eq!(maker_ata_a.amount, 0);
    assert_eq!(ledger.escrows[0].vault_amount, 1000);
    let rf = Refund { maker: key(1), mint_a: key(10), maker_ata_a };
    let back = refund::handler(&mut ledger, 0, &rf).expect("cancel");
    assert_eq!(back.amount, 1000);
    assert_eq!(ledger.live_count(), 0);
}

#[test]
fn invariant_check_accepts_built_ledgers() {
    let mut ledger = Ledger::new();
    assert!(ledger.wf_check());
    make::handler(&mut ledger, &plain_make(2000), 7, 500, 1000).expect("first create");
    make::handler(&mut ledger, &plain_make(1000), 8, 600, 900).expect("second create");
    assert!(ledger.wf_check());
}

#[test]
fn invariant_check_rejects_colliding_pairs() {
    let mut ledger = Ledger::new();
    make::handler(&mut ledger, &plain_make(2000), 7, 500, 1000).expect("create");
    let copy = ledger.escrows[0];
    ledger.escrows.push(copy);
    assert!(!ledger.wf_check());
}

#[test]
fn invariant_check_rejects_zero_demand() {
    let mut ledger = Ledger::new();
    make::handler(&mut ledger, &plain_make(2000), 7, 500, 1000).expect("create");
    ledger.escrows[0].record.receive = 0;
    assert!(!ledger.wf_check());
}

#[test]
fn fulfill_wrong_holder_rejected() {
    let mut ledger = Ledger::new();
    make::handler(&mut ledger, &plain_make(1000), 1, 500, 1000).expect("create");
    let mut t = plain_take();
    t.taker_ata_b = holder(key(9), key(11), 800);
    let r = take::handler(&mut ledger, 0, &t);
    assert_eq!(r, Err(EscrowError::AccountMismatch));
    assert_eq!(ledger.live_count(), 1);
}

#[test]
fn cancel_wrong_holder_rejected() {
    let mut ledger = Ledger::new();
    make::handler(&mut ledger, &plain_make(1000), 1, 500, 1000).expect("create");
    let mut rf = plain_refund(0);
    rf.maker_ata_a = holder(key(9), key(10), 0);
    let r = refund::handler(&mut ledger, 0, &rf);
    assert_eq!(r, Err(EscrowError::AccountMismatch));
    assert_eq!(ledger.live_count(), 1);
}
