use anchor_lang::prelude::Pubkey;
use lotto::{
    admin_close, claim_payout, claim_refund, initialize_round, join_round, open_round,
    settle_round, AdminClose, ClaimPayout, ClaimRefund, Entry, InitializeRound,
    InitializeRoundArgs, JoinRound, JoinRoundArgs, Key, LamportAccount, LottoError, Round,
    RoundStatus, SettleRound, Treasury,
};

fn key(b: u8) -> Key {
    Key { bytes: [b; 32] }
}

fn empty_round() -> Round {
    Round {
        authority: Key::zeroed(),
        round_id: 0,
        round_seed: [0; 8],
        ticket_price_lamports: 0,
        max_entries: 0,
        start_slot: 0,
        end_slot: 0,
        pot_lamports: 0,
        treasury_cut_lamports: 0,
        winner: None,
        status: RoundStatus::default(),
        entry_count: 0,
        bump: 0,
    }
}

fn empty_treasury() -> Treasury {
    Treasury {
        authority: Key::zeroed(),
        retained_bps: 0,
        vault_bump: 0,
        bump: 0,
        last_withdraw_slot: 0,
    }
}

fn empty_entry() -> Entry {
    Entry {
        round: Key::zeroed(),
        entrant: Key::zeroed(),
        tickets: 0,
        lamports_paid: 0,
        claimed: false,
        created_slot: 0,
        bump: 0,
        nonce: 0,
    }
}

fn operator() -> Key {
    key(7)
}

fn open_ctx(treasury: Treasury, vault: Key) -> InitializeRound {
    InitializeRound {
        program_id: key(9),
        authority: operator(),
        round_address: key(1),
        round: empty_round(),
        round_bump: 254,
        treasury,
        treasury_bump: 253,
        treasury_vault: vault,
        vault_bump: 252,
    }
}

fn args(price: u64, max: u32, duration: u64, bps: u16) -> InitializeRoundArgs {
    InitializeRoundArgs {
        round_id: 0x0102,
        ticket_price_lamports: price,
        max_entries: max,
        duration_slots: duration,
        retained_bps: bps,
    }
}

fn treasury(bps: u16) -> Treasury {
    Treasury { authority: operator(), retained_bps: bps, vault_bump: 252, bump: 253, last_withdraw_slot: 0 }
}

fn open_round_at(address: Key, price: u64, max: u32, now: u64, duration: u64, bps: u16) -> Round {
    let mut ctx = open_ctx(empty_treasury(), key(5));
    ctx.round_address = address;
    open_round(&mut ctx, args(price, max, duration, bps), now, Some(key(5))).unwrap();
    ctx.round
}

fn join_ctx(round: Round, bps: u16, wallet: u64) -> JoinRound {
    JoinRound {
        entrant: LamportAccount { key: key(20), lamports: wallet },
        round_address: key(1),
        round,
        treasury: treasury(bps),
        treasury_vault: LamportAccount { key: key(5), lamports: 0 },
        entry: empty_entry(),
        entry_bump: 250,
    }
}

fn join(ctx: &mut JoinRound, tickets: u16, now: u64) -> Result<(), LottoError> {
    join_round(ctx, JoinRoundArgs { tickets, nonce: 0 }, now).map(|_| ())
}

fn settle_ctx(round: Round, bps: u16, entry_round: Key, entrant: Key) -> SettleRound {
    let mut entry = empty_entry();
    entry.round = entry_round;
    entry.entrant = entrant;
    SettleRound { authority: operator(), round_address: key(1), round, treasury: treasury(bps), winning_entry: entry }
}

fn payout_ctx(round: Round, bps: u16, winner: Key, vault: u64) -> ClaimPayout {
    ClaimPayout {
        winner: LamportAccount { key: winner, lamports: 0 },
        round_address: key(1),
        round,
        treasury: treasury(bps),
        treasury_vault: LamportAccount { key: key(5), lamports: vault },
    }
}

fn refund_ctx(round: Round, paid: u64, vault: u64) -> ClaimRefund {
    let mut entry = empty_entry();
    entry.round = key(1);
    entry.entrant = key(20);
    entry.lamports_paid = paid;
    ClaimRefund {
        entrant: LamportAccount { key: key(20), lamports: 0 },
        round_address: key(1),
        round,
        treasury: treasury(500),
        treasury_vault: LamportAccount { key: key(5), lamports: vault },
        entry,
    }
}

fn settled_round(pot: u64, bps: u16) -> Round {
    let mut round = open_round_at(key(1), 10, 0, 100, 50, bps);
    round.pot_lamports = pot;
    let mut ctx = settle_ctx(round, bps, key(1), key(20));
    settle_round(&mut ctx, 150).unwrap();
    ctx.round
}

fn cancelled(round: Round) -> Round {
    let mut ctx = AdminClose { authority: operator(), round_address: key(1), round };
    admin_close(&mut ctx, 3).unwrap();
    ctx.round
}

#[test]
fn open_round_writes_fresh_round_and_treasury() {
    let mut ctx = open_ctx(empty_treasury(), key(5));
    let ev = open_round(&mut ctx, args(10, 5, 50, 500), 100, Some(key(5))).unwrap();
    assert_eq!(ctx.round.start_slot, 100);
    assert_eq!(ctx.round.end_slot, 150);
    assert_eq!(ctx.round.status, RoundStatus::Open);
    assert_eq!(ctx.round.round_seed, 0x0102u64.to_le_bytes());
    assert_eq!(ctx.round.bump, 254);
    assert_eq!(ctx.round.authority, operator());
    assert_eq!(ctx.treasury, treasury(500));
    assert_eq!(ev.round, key(1));
    assert_eq!(ev.duration_slots, 50);
}

#[test]
fn open_round_rejects_bad_inputs() {
    let mut ctx = open_ctx(empty_treasury(), key(5));
    let before = ctx;
    assert_eq!(open_round(&mut ctx, args(0, 5, 50, 500), 100, Some(key(5))), Err(LottoError::InvalidTicketPrice));
    assert_eq!(open_round(&mut ctx, args(10, 5, 50, 10_001), 100, Some(key(5))), Err(LottoError::InvalidRetainedBps));
    assert_eq!(open_round(&mut ctx, args(10, 5, u64::MAX, 500), 1, Some(key(5))), Err(LottoError::MathOverflow));
    assert_eq!(open_round(&mut ctx, args(10, 5, 50, 500), 100, Some(key(6))), Err(LottoError::InvalidTreasuryVault));
    assert_eq!(open_round(&mut ctx, args(10, 5, 50, 500), 100, None), Err(LottoError::InvalidTreasuryVault));
    assert_eq!(ctx, before);
}

#[test]
fn open_round_checks_existing_treasury() {
    let mut other = treasury(500);
    other.authority = key(8);
    let mut ctx = open_ctx(other, key(5));
    assert_eq!(open_round(&mut ctx, args(10, 0, 50, 500), 1, Some(key(5))), Err(LottoError::InvalidAuthority));
    let mut ctx = open_ctx(treasury(500), key(5));
    assert_eq!(open_round(&mut ctx, args(10, 0, 50, 400), 1, Some(key(5))), Err(LottoError::RetainedBpsMismatch));
    let mut t = treasury(500);
    t.bump = 1;
    let mut ctx = open_ctx(t, key(5));
    assert_eq!(open_round(&mut ctx, args(10, 0, 50, 500), 1, Some(key(5))), Err(LottoError::InvalidTreasuryBump));
    let mut t = treasury(500);
    t.vault_bump = 1;
    let mut ctx = open_ctx(t, key(5));
    assert_eq!(open_round(&mut ctx, args(10, 0, 50, 500), 1, Some(key(5))), Err(LottoError::InvalidTreasuryVault));
    let mut t = treasury(500);
    t.last_withdraw_slot = 77;
    let mut ctx = open_ctx(t, key(5));
    assert!(open_round(&mut ctx, args(10, 0, 50, 500), 1, Some(key(5))).is_ok());
    assert_eq!(ctx.treasury, t);
}

#[test]
fn initialize_round_derives_the_vault_address() {
    let program = Pubkey::new_from_array([9; 32]);
    let authority = Pubkey::new_from_array([7; 32]);
    let (vault, bump) = Pubkey::find_program_address(&[b"treasury_vault", authority.as_ref()], &program);
    let mut ctx = open_ctx(empty_treasury(), Key { bytes: vault.to_bytes() });
    ctx.vault_bump = bump;
    assert!(initialize_round(&mut ctx, args(10, 0, 50, 500), 100).is_ok());
    assert_eq!(ctx.treasury.vault_bump, bump);
    assert_eq!(ctx.treasury.authority, operator());
}

#[test]
fn initialize_round_rejects_a_foreign_vault() {
    let program = Pubkey::new_from_array([9; 32]);
    let authority = Pubkey::new_from_array([7; 32]);
    let (_, bump) = Pubkey::find_program_address(&[b"treasury_vault", authority.as_ref()], &program);
    let mut ctx = open_ctx(empty_treasury(), key(9));
    ctx.vault_bump = bump;
    let before = ctx;
    assert_eq!(initialize_round(&mut ctx, args(10, 0, 50, 500), 100), Err(LottoError::InvalidTreasuryVault));
    assert_eq!(ctx, before);
}

#[test]
fn pot_is_sum_of_join_costs() {
    let round = open_round_at(key(1), 25, 0, 100, 50, 500);
    let mut ctx = join_ctx(round, 500, 10_000);
    for (i, t) in [1u16, 3, 2].iter().enumerate() {
        let ev = join_round(&mut ctx, JoinRoundArgs { tickets: *t, nonce: i as u8 }, 110).unwrap();
        assert_eq!(ev.lamports_paid, 25 * (*t as u64));
        assert_eq!(ctx.entry.lamports_paid, 25 * (*t as u64));
        assert_eq!(ctx.entry.nonce, i as u8);
        assert_eq!(ctx.entry.round, key(1));
        assert!(!ctx.entry.claimed);
    }
    assert_eq!(ctx.round.pot_lamports, 150);
    assert_eq!(ctx.round.entry_count, 6);
    assert_eq!(ctx.entrant.lamports, 10_000 - 150);
    assert_eq!(ctx.treasury_vault.lamports, 150);
}

#[test]
fn capacity_rejects_the_ticket_past_it() {
    let round = open_round_at(key(1), 10, 3, 100, 50, 500);
    let mut ctx = join_ctx(round, 500, 10_000);
    assert_eq!(join(&mut ctx, 2, 100), Ok(()));
    let before = ctx;
    assert_eq!(join(&mut ctx, 2, 100), Err(LottoError::MaxEntriesReached));
    assert_eq!(ctx, before);
    assert_eq!(join(&mut ctx, 1, 100), Ok(()));
    assert_eq!(join(&mut ctx, 1, 100), Err(LottoError::MaxEntriesReached));
    assert_eq!(ctx.round.entry_count, 3);
}

#[test]
fn no_capacity_accepts_many_tickets() {
    let round = open_round_at(key(1), 1, 0, 100, 50, 500);
    let mut ctx = join_ctx(round, 500, u64::MAX);
    for _ in 0..20 {
        assert_eq!(join(&mut ctx, u16::MAX, 120), Ok(()));
    }
    assert_eq!(ctx.round.entry_count, 20 * u16::MAX as u32);
}

#[test]
fn joins_are_gated_by_time_and_status() {
    let round = open_round_at(key(1), 10, 0, 100, 50, 500);
    let mut ctx = join_ctx(round, 500, 10_000);
    assert_eq!(join(&mut ctx, 1, 99), Err(LottoError::RoundNotOpen));
    assert_eq!(join(&mut ctx, 1, 151), Err(LottoError::RoundClosed));
    assert_eq!(join(&mut ctx, 0, 120), Err(LottoError::InvalidTicketCount));
    assert_eq!(join(&mut ctx, 1, 150), Ok(()));
    let mut closed = join_ctx(cancelled(round), 500, 10_000);
    assert_eq!(join(&mut closed, 1, 120), Err(LottoError::RoundNotOpen));
    let mut foreign = join_ctx(round, 500, 10_000);
    foreign.treasury.authority = key(8);
    assert_eq!(join(&mut foreign, 1, 120), Err(LottoError::InvalidAuthority));
}

#[test]
fn join_cost_overflow_is_rejected_unchanged() {
    let round = open_round_at(key(1), u64::MAX / 2, 0, 100, 50, 500);
    let mut ctx = join_ctx(round, 500, u64::MAX);
    let before = ctx;
    assert_eq!(join(&mut ctx, 3, 120), Err(LottoError::MathOverflow));
    assert_eq!(ctx, before);
}

#[test]
fn join_count_and_pot_overflow_are_rejected() {
    let mut round = open_round_at(key(1), 10, 0, 100, 50, 500);
    round.entry_count = u32::MAX;
    let mut ctx = join_ctx(round, 500, 10_000);
    assert_eq!(join(&mut ctx, 1, 120), Err(LottoError::MathOverflow));
    let mut round = open_round_at(key(1), 10, 0, 100, 50, 500);
    round.pot_lamports = u64::MAX - 5;
    let mut ctx = join_ctx(round, 500, 10_000);
    assert_eq!(join(&mut ctx, 1, 120), Err(LottoError::MathOverflow));
}

#[test]
fn join_without_funds_is_rejected() {
    let round = open_round_at(key(1), 10, 0, 100, 50, 500);
    let mut ctx = join_ctx(round, 500, 9);
    let before = ctx;
    assert_eq!(join(&mut ctx, 1, 120), Err(LottoError::InsufficientFunds));
    assert_eq!(ctx, before);
}

#[test]
fn settle_is_gated_and_happens_once() {
    let mut round = open_round_at(key(1), 10, 0, 100, 50, 500);
    let mut ctx = settle_ctx(round, 500, key(1), key(20));
    assert_eq!(settle_round(&mut ctx, 120), Err(LottoError::RoundStillRunning));
    assert_eq!(settle_round(&mut ctx, 150), Err(LottoError::EmptyPot));
    round.pot_lamports = 100;
    let mut ctx = settle_ctx(round, 500, key(1), key(20));
    assert_eq!(settle_round(&mut ctx, 149), Err(LottoError::RoundStillRunning));
    let ev = settle_round(&mut ctx, 150).unwrap();
    assert_eq!(ev.winner, key(20));
    assert_eq!(ctx.round.status, RoundStatus::Settled);
    assert_eq!(ctx.round.winner, Some(key(20)));
    assert_eq!(ctx.round.treasury_cut_lamports, 5);
    assert_eq!(settle_round(&mut ctx, 200), Err(LottoError::RoundNotReadyToSettle));
}

#[test]
fn settle_checks_linkage_and_authority() {
    let mut round = open_round_at(key(1), 10, 0, 100, 50, 500);
    round.pot_lamports = 100;
    let mut ctx = settle_ctx(round, 500, key(2), key(20));
    assert_eq!(settle_round(&mut ctx, 150), Err(LottoError::EntryRoundMismatch));
    let mut ctx = settle_ctx(round, 500, key(1), key(20));
    ctx.authority = key(8);
    assert_eq!(settle_round(&mut ctx, 150), Err(LottoError::InvalidAuthority));
    let mut with_winner = round;
    with_winner.winner = Some(key(3));
    let mut ctx = settle_ctx(with_winner, 500, key(1), key(20));
    assert_eq!(settle_round(&mut ctx, 150), Err(LottoError::RoundAlreadySettled));
    let mut big = round;
    big.pot_lamports = u64::MAX;
    let mut ctx = settle_ctx(big, 500, key(1), key(20));
    assert_eq!(settle_round(&mut ctx, 150), Err(LottoError::MathOverflow));
}

#[test]
fn fee_is_five_percent_of_a_million() {
    let round = settled_round(1_000_000, 500);
    assert_eq!(round.treasury_cut_lamports, 50_000);
    let mut ctx = payout_ctx(round, 500, key(20), 1_000_000);
    let ev = claim_payout(&mut ctx).unwrap();
    assert_eq!(ev.amount, 950_000);
    assert_eq!(ctx.winner.lamports, 950_000);
    assert_eq!(ctx.treasury_vault.lamports, 50_000);
    assert_eq!(ctx.round.pot_lamports, 50_000);
    assert_eq!(ctx.round.status, RoundStatus::ClosedOut);
}

#[test]
fn fee_rounds_down() {
    let round = settled_round(999, 333);
    assert_eq!(round.treasury_cut_lamports, 33);
}

#[test]
fn payout_succeeds_once() {
    let round = settled_round(1_000, 500);
    let mut ctx = payout_ctx(round, 500, key(20), 1_000);
    assert!(claim_payout(&mut ctx).is_ok());
    let before = ctx;
    assert_eq!(claim_payout(&mut ctx), Err(LottoError::RoundNotSettled));
    assert_eq!(ctx, before);
}

#[test]
fn payout_errors() {
    let round = settled_round(1_000, 500);
    let mut ctx = payout_ctx(round, 500, key(21), 1_000);
    assert_eq!(claim_payout(&mut ctx), Err(LottoError::InvalidWinner));
    let mut ctx = payout_ctx(round, 500, key(20), 10);
    assert_eq!(claim_payout(&mut ctx), Err(LottoError::InsufficientFunds));
    let mut ctx = payout_ctx(open_round_at(key(1), 10, 0, 100, 50, 500), 500, key(20), 1_000);
    assert_eq!(claim_payout(&mut ctx), Err(LottoError::RoundNotSettled));
    let mut no_winner = round;
    no_winner.winner = None;
    let mut ctx = payout_ctx(no_winner, 500, key(20), 1_000);
    assert_eq!(claim_payout(&mut ctx), Err(LottoError::WinnerNotSet));
    let mut under = round;
    under.treasury_cut_lamports = 2_000;
    let mut ctx = payout_ctx(under, 500, key(20), 1_000);
    assert_eq!(claim_payout(&mut ctx), Err(LottoError::MathOverflow));
    let whole = settled_round(1_000, 10_000);
    let mut ctx = payout_ctx(whole, 10_000, key(20), 1_000);
    assert_eq!(claim_payout(&mut ctx), Err(LottoError::EmptyPot));
    let mut ctx = payout_ctx(round, 500, key(20), 1_000);
    ctx.treasury.authority = key(8);
    assert_eq!(claim_payout(&mut ctx), Err(LottoError::InvalidAuthority));
}

#[test]
fn refunds_reduce_the_pot_by_each_amount() {
    let mut round = open_round_at(key(1), 100, 0, 100, 50, 500);
    round.pot_lamports = 600;
    let mut round = cancelled(round);
    let mut vault: u64 = 600;
    let mut pot: u64 = 600;
    for paid in [100u64, 200, 300] {
        let mut ctx = refund_ctx(round, paid, vault);
        let ev = claim_refund(&mut ctx).unwrap();
        assert_eq!(ev.amount, paid);
        pot -= paid;
        vault -= paid;
        assert_eq!(ctx.round.pot_lamports, pot);
        assert_eq!(ctx.treasury_vault.lamports, vault);
        assert_eq!(ctx.entrant.lamports, paid);
        assert!(ctx.entry.claimed);
        round = ctx.round;
    }
    assert_eq!(round.pot_lamports, 0);
}

#[test]
fn refund_succeeds_once() {
    let mut round = open_round_at(key(1), 100, 0, 100, 50, 500);
    round.pot_lamports = 100;
    let mut ctx = refund_ctx(cancelled(round), 100, 100);
    assert!(claim_refund(&mut ctx).is_ok());
    let before = ctx;
    assert_eq!(claim_refund(&mut ctx), Err(LottoError::EntryAlreadyClaimed));
    assert_eq!(ctx, before);
}

#[test]
fn refund_errors() {
    let mut round = open_round_at(key(1), 100, 0, 100, 50, 500);
    round.pot_lamports = 100;
    let mut ctx = refund_ctx(round, 100, 100);
    assert_eq!(claim_refund(&mut ctx), Err(LottoError::RefundUnavailable));
    let round = cancelled(round);
    let mut ctx = refund_ctx(round, 100, 100);
    ctx.entry.round = key(2);
    assert_eq!(claim_refund(&mut ctx), Err(LottoError::EntryRoundMismatch));
    let mut ctx = refund_ctx(round, 100, 100);
    ctx.entrant.key = key(21);
    assert_eq!(claim_refund(&mut ctx), Err(LottoError::InvalidEntrant));
    let mut ctx = refund_ctx(round, 101, 200);
    assert_eq!(claim_refund(&mut ctx), Err(LottoError::MathOverflow));
    let mut ctx = refund_ctx(round, 100, 50);
    assert_eq!(claim_refund(&mut ctx), Err(LottoError::InsufficientFunds));
    let mut ctx = refund_ctx(round, 100, 100);
    ctx.treasury.authority = key(8);
    assert_eq!(claim_refund(&mut ctx), Err(LottoError::InvalidAuthority));
}

#[test]
fn admin_close_cancels_until_settled() {
    let round = open_round_at(key(1), 10, 0, 100, 50, 500);
    let mut ctx = AdminClose { authority: operator(), round_address: key(1), round };
    let ev = admin_close(&mut ctx, 9).unwrap();
    assert_eq!(ev.reason, 9);
    assert_eq!(ctx.round.status, RoundStatus::Cancelled);
    let mut ctx = AdminClose { authority: key(8), round_address: key(1), round };
    assert_eq!(admin_close(&mut ctx, 9), Err(LottoError::InvalidAuthority));
    let mut ctx = AdminClose { authority: operator(), round_address: key(1), round: settled_round(100, 500) };
    assert_eq!(admin_close(&mut ctx, 9), Err(LottoError::RoundNotCancellable));
}

#[test]
fn rounds_of_one_operator_stay_apart() {
    let mut a = open_round_at(key(1), 10, 0, 100, 50, 500);
    let mut b = open_round_at(key(2), 10, 0, 100, 50, 500);
    let mut ja = join_ctx(a, 500, 10_000);
    assert_eq!(join(&mut ja, 4, 120), Ok(()));
    a = ja.round;
    let mut jb = join_ctx(b, 500, 10_000);
    jb.round_address = key(2);
    jb.treasury_vault = ja.treasury_vault;
    assert_eq!(join(&mut jb, 2, 120), Ok(()));
    b = jb.round;
    let b_before = b;
    let mut sa = settle_ctx(a, 500, key(1), key(20));
    settle_round(&mut sa, 150).unwrap();
    let mut pa = payout_ctx(sa.round, 500, key(20), jb.treasury_vault.lamports);
    claim_payout(&mut pa).unwrap();
    assert_eq!(b, b_before);
    assert_eq!(pa.treasury_vault.lamports, 60 - 38);
    let mut sb = settle_ctx(b, 500, key(1), key(20));
    sb.round_address = key(2);
    assert_eq!(settle_round(&mut sb, 150), Err(LottoError::EntryRoundMismatch));
    assert_eq!(b.pot_lamports, 20);
    assert_eq!(b.entry_count, 2);
    assert_eq!(b.status, RoundStatus::Open);
}

#[test]
fn error_messages() {
    assert_eq!(LottoError::EmptyPot.message(), "Pot is empty");
    assert_eq!(LottoError::MissingBump.message(), "Missing PDA bump");
}
