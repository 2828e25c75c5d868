use crate::program::{
    join_error, joined, paid_out, paid_to_winner, payout_error, refund_error, refunded,
    settle_error, settled, settlement_fee, ticket_cost, transfer_error,
};
use crate::state::{
    ClaimPayout, ClaimRefund, JoinRound, JoinRoundArgs, LottoError, Round, RoundStatus,
    SettleRound,
};
use vstd::prelude::*;

verus! {

/// The total of a list of ticket counts.
pub open spec fn total_tickets(ts: Seq<u16>) -> int
    decreases ts.len(),
{
    if ts.len() == 0 {
        0
    } else {
        ts[0] + total_tickets(ts.drop_first())
    }
}

/// The round after successful purchases of `ts[0]`, `ts[1]`, ... tickets.
pub open spec fn joined_all(round: Round, ts: Seq<u16>) -> Round
    decreases ts.len(),
{
    if ts.len() == 0 {
        round
    } else {
        joined_all(joined(round, ts[0]), ts.drop_first())
    }
}

/// After any run of successful purchases the pot has grown by the sum of
/// their costs and the ticket count by the sum of their ticket counts.
pub proof fn lemma_pot_is_sum_of_costs(round: Round, ts: Seq<u16>)
    requires
        round.pot_lamports + round.ticket_price_lamports * total_tickets(ts) <= u64::MAX,
        round.entry_count + total_tickets(ts) <= u32::MAX,
    ensures
        joined_all(round, ts).pot_lamports == round.pot_lamports + round.ticket_price_lamports
            * total_tickets(ts),
        joined_all(round, ts).entry_count == round.entry_count + total_tickets(ts),
        joined_all(round, ts).ticket_price_lamports == round.ticket_price_lamports,
    decreases ts.len(),
{
    if ts.len() > 0 {
        let rest = ts.drop_first();
        let price = round.ticket_price_lamports as int;
        lemma_total_tickets_nonneg(rest);
        assert(price * total_tickets(ts) == price * ts[0] + price * total_tickets(rest))
            by (nonlinear_arith)
            requires
                total_tickets(ts) == ts[0] + total_tickets(rest),
        ;
        assert(price * total_tickets(rest) >= 0) by (nonlinear_arith)
            requires
                price >= 0,
                total_tickets(rest) >= 0,
        ;
        assert(price * ts[0] >= 0) by (nonlinear_arith)
            requires
                price >= 0,
                ts[0] >= 0,
        ;
        let next = joined(round, ts[0]);
        assert(next.pot_lamports == round.pot_lamports + price * ts[0]);
        lemma_pot_is_sum_of_costs(next, rest);
    }
}

proof fn lemma_total_tickets_nonneg(ts: Seq<u16>)
    ensures
        total_tickets(ts) >= 0,
    decreases ts.len(),
{
    if ts.len() > 0 {
        lemma_total_tickets_nonneg(ts.drop_first());
    }
}

/// With a capacity set, a purchase that would take the ticket count past it
/// is rejected; with none set, no purchase is rejected for capacity, and a
/// successful purchase keeps the ticket count within the capacity.
pub proof fn lemma_capacity(ctx: JoinRound, args: JoinRoundArgs, now: u64)
    ensures
        ctx.round.max_entries > 0 && ctx.round.entry_count + args.tickets > ctx.round.max_entries
            ==> join_error(ctx, args, now) is Some,
        ctx.round.max_entries == 0 ==> join_error(ctx, args, now) != Some(
            LottoError::MaxEntriesReached,
        ),
        join_error(ctx, args, now) is None && ctx.round.max_entries > 0 ==> joined(
            ctx.round,
            args.tickets,
        ).entry_count <= ctx.round.max_entries,
{
    if join_error(ctx, args, now) is None {
        let cost = ticket_cost(ctx.round, args.tickets);
        assert(cost >= 0) by (nonlinear_arith)
            requires
                cost == ctx.round.ticket_price_lamports * args.tickets,
        ;
    }
}

/// Purchases outside the round's window are rejected, as is settlement
/// before the window ends.
pub proof fn lemma_time_gating(join: JoinRound, args: JoinRoundArgs, settle: SettleRound, now: u64)
    ensures
        now < join.round.start_slot || now > join.round.end_slot ==> join_error(
            join,
            args,
            now,
        ) is Some,
        now < settle.round.end_slot ==> settle_error(settle, now) is Some,
{
}

/// Settlement of an open round whose window has ended, whose pot is not
/// empty and whose fee fits, by its operator with a receipt of the round,
/// succeeds; once settled, the round is never settled again.
pub proof fn lemma_settle_exactly_once(ctx: SettleRound, now: u64, later: u64)
    ensures
        ctx.round.authority@ == ctx.authority@ && ctx.treasury.authority@ == ctx.authority@
            && ctx.winning_entry.round@ == ctx.round_address@ && ctx.round.status
            == RoundStatus::Open && ctx.round.winner is None && now >= ctx.round.end_slot
            && ctx.round.pot_lamports > 0 && ctx.round.pot_lamports * ctx.treasury.retained_bps
            <= u64::MAX ==> settle_error(ctx, now) is None,
        settle_error(ctx, now) is None ==> settle_error(
            SettleRound {
                round: settled(
                    ctx.round,
                    ctx.winning_entry.entrant,
                    ctx.treasury.retained_bps,
                ),
                ..ctx
            },
            later,
        ) is Some,
{
}

/// A payout succeeds at most once: after it, the same claim is rejected as
/// the round is no longer settled.
pub proof fn lemma_payout_once(before: ClaimPayout, after: ClaimPayout)
    requires
        payout_error(before) is None,
        paid_to_winner(before, after),
    ensures
        payout_error(after) == Some(LottoError::RoundNotSettled),
{
}

/// A receipt is refunded at most once: after its refund, the same claim is
/// rejected as already claimed.
pub proof fn lemma_refund_once(before: ClaimRefund, after: ClaimRefund)
    requires
        refund_error(before) is None,
        refunded(before, after),
    ensures
        refund_error(after) == Some(LottoError::EntryAlreadyClaimed),
{
}

/// The total paid by the first `k` receipts of a run of refunds.
pub open spec fn refunded_total(claims: Seq<ClaimRefund>, k: int) -> int
    decreases k,
{
    if k <= 0 {
        0
    } else {
        refunded_total(claims, k - 1) + claims[k - 1].entry.lamports_paid
    }
}

/// Over a run of successful refunds on one round, each taking up the round
/// that the one before left, the pot after the `k`-th is the starting pot less
/// what the first `k` receipts paid.
pub proof fn lemma_refund_conservation(before: Seq<ClaimRefund>, after: Seq<ClaimRefund>)
    requires
        before.len() == after.len(),
        forall|i: int|
            0 <= i < before.len() ==> refund_error(#[trigger] before[i]) is None && refunded(
                before[i],
                after[i],
            ),
        forall|i: int| 0 <= i < before.len() - 1 ==> #[trigger] before[i + 1].round == after[i].round,
    ensures
        forall|k: int|
            0 <= k < before.len() ==> #[trigger] after[k].round.pot_lamports == before[0].round.pot_lamports
                - refunded_total(before, k + 1),
{
    assert forall|k: int| 0 <= k < before.len() implies #[trigger] after[k].round.pot_lamports
        == before[0].round.pot_lamports - refunded_total(before, k + 1) by {
        lemma_refund_prefix(before, after, k);
    }
}

proof fn lemma_refund_prefix(before: Seq<ClaimRefund>, after: Seq<ClaimRefund>, k: int)
    requires
        0 <= k < before.len(),
        before.len() == after.len(),
        forall|i: int|
            0 <= i < before.len() ==> refund_error(#[trigger] before[i]) is None && refunded(
                before[i],
                after[i],
            ),
        forall|i: int| 0 <= i < before.len() - 1 ==> #[trigger] before[i + 1].round == after[i].round,
    ensures
        after[k].round.pot_lamports == before[0].round.pot_lamports - refunded_total(before, k + 1),
    decreases k,
{
    assert(refund_error(before[k]) is None && refunded(before[k], after[k]));
    assert(before[k].round.pot_lamports >= before[k].entry.lamports_paid);
    assert(refunded_total(before, k + 1) == refunded_total(before, k)
        + before[k].entry.lamports_paid);
    if k == 0 {
        assert(refunded_total(before, 0) == 0);
    } else {
        lemma_refund_prefix(before, after, k - 1);
        assert(before[k].round == after[k - 1].round);
    }
}

/// A purchase whose cost overflows is rejected with an arithmetic error when
/// it passes every earlier check.
pub proof fn lemma_cost_overflow_rejected(ctx: JoinRound, args: JoinRoundArgs, now: u64)
    requires
        args.tickets > 0,
        ctx.round.status == RoundStatus::Open,
        ctx.treasury.authority@ == ctx.round.authority@,
        ctx.round.start_slot <= now <= ctx.round.end_slot,
        ctx.round.entry_count + args.tickets <= u32::MAX,
        ctx.round.max_entries == 0 || ctx.round.entry_count + args.tickets
            <= ctx.round.max_entries,
        ticket_cost(ctx.round, args.tickets) > u64::MAX,
    ensures
        join_error(ctx, args, now) == Some(LottoError::MathOverflow),
{
}

/// The fee never exceeds the pot when the rate is at most a whole.
pub proof fn lemma_fee_within_pot(pot: u64, bps: u16)
    requires
        bps <= 10_000,
    ensures
        0 <= settlement_fee(pot, bps) <= pot,
{
    assert(0 <= pot * bps <= pot * 10_000) by (nonlinear_arith)
        requires
            bps <= 10_000,
    ;
}

/// Settling or paying out one round of an operator writes only that round
/// and the lamport accounts of the payout: the treasury shared by all of the
/// operator's rounds is kept, so another round's purchases, settlement and
/// payout are judged exactly as before.
pub proof fn lemma_cross_round_isolation(
    a: SettleRound,
    pay_before: ClaimPayout,
    pay_after: ClaimPayout,
    b_join: JoinRound,
    args: JoinRoundArgs,
    b_settle: SettleRound,
    b_pay: ClaimPayout,
    now: u64,
)
    requires
        paid_to_winner(pay_before, pay_after),
    ensures
        (SettleRound {
            round: settled(a.round, a.winning_entry.entrant, a.treasury.retained_bps),
            ..a
        }).treasury == a.treasury,
        pay_after.treasury == pay_before.treasury,
        b_join.treasury == pay_before.treasury ==> join_error(b_join, args, now) == join_error(
            JoinRound { treasury: pay_after.treasury, ..b_join },
            args,
            now,
        ),
        b_settle.treasury == pay_before.treasury ==> settle_error(b_settle, now) == settle_error(
            SettleRound { treasury: pay_after.treasury, ..b_settle },
            now,
        ),
        b_pay.treasury == pay_before.treasury ==> payout_error(b_pay) == payout_error(
            ClaimPayout { treasury: pay_after.treasury, ..b_pay },
        ),
{
}

} // verus!
