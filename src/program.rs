use crate::address::{create_program_address, program_address, seeds_view};
use crate::key::{zero_key, Key};
use crate::state::{
    AdminClose, ClaimPayout, ClaimRefund, Entry, InitializeRound, InitializeRoundArgs, JoinRound,
    JoinRoundArgs, LamportAccount, LottoError, PayoutClaimed, RefundClaimed, Round, RoundClosed,
    RoundInitialized, RoundJoined, RoundSettled, RoundStatus, SettleRound, Treasury,
    BASIS_POINTS_DIVISOR, MAX_BPS,
};
use vstd::prelude::*;

verus! {

/// Why moving `amount` from `from` to `to` fails, if it does.
pub open spec fn transfer_error(from: LamportAccount, to: LamportAccount, amount: u64) -> Option<
    LottoError,
> {
    if from.lamports < amount {
        Some(LottoError::InsufficientFunds)
    } else if to.lamports + amount > u64::MAX {
        Some(LottoError::MathOverflow)
    } else {
        None
    }
}

/// Moves `amount` lamports from one account to another: both sides change or
/// neither does.
fn transfer_lamports(from: &mut LamportAccount, to: &mut LamportAccount, amount: u64) -> (r: Result<
    (),
    LottoError,
>)
    ensures
        (match r {
            Ok(_) => transfer_error(*old(from), *old(to), amount) is None
                && final(from).key == old(from).key
                && final(from).lamports == old(from).lamports - amount
                && final(to).key == old(to).key
                && final(to).lamports == old(to).lamports + amount,
            Err(e) => transfer_error(*old(from), *old(to), amount) == Some(e)
                && *final(from) == *old(from)
                && *final(to) == *old(to),
        }),
{
    if from.lamports < amount {
        return Err(LottoError::InsufficientFunds);
    }
    let credited = match to.lamports.checked_add(amount) {
        Some(v) => v,
        None => return Err(LottoError::MathOverflow),
    };
    from.lamports = from.lamports - amount;
    to.lamports = credited;
    Ok(())
}

/// The lamports that `tickets` tickets of `round` cost.
pub open spec fn ticket_cost(round: Round, tickets: u16) -> int {
    round.ticket_price_lamports * tickets
}

/// Why a purchase of `args.tickets` tickets at slot `now` is rejected, if it is.
pub open spec fn join_error(ctx: JoinRound, args: JoinRoundArgs, now: u64) -> Option<LottoError> {
    let round = ctx.round;
    let new_count = round.entry_count + args.tickets;
    let cost = ticket_cost(round, args.tickets);
    if args.tickets == 0 {
        Some(LottoError::InvalidTicketCount)
    } else if round.status != RoundStatus::Open {
        Some(LottoError::RoundNotOpen)
    } else if ctx.treasury.authority@ != round.authority@ {
        Some(LottoError::InvalidAuthority)
    } else if now < round.start_slot {
        Some(LottoError::RoundNotOpen)
    } else if now > round.end_slot {
        Some(LottoError::RoundClosed)
    } else if new_count > u32::MAX {
        Some(LottoError::MathOverflow)
    } else if round.max_entries != 0 && new_count > round.max_entries {
        Some(LottoError::MaxEntriesReached)
    } else if cost > u64::MAX {
        Some(LottoError::MathOverflow)
    } else if round.pot_lamports + cost > u64::MAX {
        Some(LottoError::MathOverflow)
    } else {
        transfer_error(ctx.entrant, ctx.treasury_vault, cost as u64)
    }
}

/// The round after a successful purchase of `tickets` tickets.
pub open spec fn joined(round: Round, tickets: u16) -> Round {
    Round {
        entry_count: (round.entry_count + tickets) as u32,
        pot_lamports: (round.pot_lamports + ticket_cost(round, tickets)) as u64,
        ..round
    }
}

/// Buys `args.tickets` tickets at slot `now`: the cost moves from the entrant
/// to the vault, the receipt is written, and the round's pot and ticket count
/// grow by the cost and the ticket count. On rejection nothing changes.
pub fn join_round(ctx: &mut JoinRound, args: JoinRoundArgs, now: u64) -> (r: Result<
    RoundJoined,
    LottoError,
>)
    ensures
        (match r {
            Ok(ev) => {
                let cost = ticket_cost(old(ctx).round, args.tickets) as u64;
                &&& join_error(*old(ctx), args, now) is None
                &&& final(ctx).round == joined(old(ctx).round, args.tickets)
                &&& final(ctx).entrant.key == old(ctx).entrant.key
                &&& final(ctx).entrant.lamports == old(ctx).entrant.lamports - cost
                &&& final(ctx).treasury_vault.key == old(ctx).treasury_vault.key
                &&& final(ctx).treasury_vault.lamports == old(ctx).treasury_vault.lamports + cost
                &&& final(ctx).entry.round == old(ctx).round_address
                &&& final(ctx).entry.entrant == old(ctx).entrant.key
                &&& final(ctx).entry.tickets == args.tickets
                &&& final(ctx).entry.lamports_paid == cost
                &&& !final(ctx).entry.claimed
                &&& final(ctx).entry.created_slot == now
                &&& final(ctx).entry.bump == old(ctx).entry_bump
                &&& final(ctx).entry.nonce == args.nonce
                &&& final(ctx).round_address == old(ctx).round_address
                &&& final(ctx).treasury == old(ctx).treasury
                &&& final(ctx).entry_bump == old(ctx).entry_bump
                &&& ev == (RoundJoined {
                    round: old(ctx).round_address,
                    entrant: old(ctx).entrant.key,
                    tickets: args.tickets,
                    lamports_paid: cost,
                })
            },
            Err(e) => join_error(*old(ctx), args, now) == Some(e) && *final(ctx) == *old(ctx),
        }),
{
    if args.tickets == 0 {
        return Err(LottoError::InvalidTicketCount);
    }
    if ctx.round.status != RoundStatus::Open {
        return Err(LottoError::RoundNotOpen);
    }
    if !ctx.treasury.authority.same_as(&ctx.round.authority) {
        return Err(LottoError::InvalidAuthority);
    }
    if now < ctx.round.start_slot {
        return Err(LottoError::RoundNotOpen);
    }
    if now > ctx.round.end_slot {
        return Err(LottoError::RoundClosed);
    }
    let new_count = match ctx.round.entry_count.checked_add(args.tickets as u32) {
        Some(c) => c,
        None => return Err(LottoError::MathOverflow),
    };
    if ctx.round.max_entries != 0 && new_count > ctx.round.max_entries {
        return Err(LottoError::MaxEntriesReached);
    }
    let cost = match ctx.round.ticket_price_lamports.checked_mul(args.tickets as u64) {
        Some(c) => c,
        None => return Err(LottoError::MathOverflow),
    };
    let new_pot = match ctx.round.pot_lamports.checked_add(cost) {
        Some(p) => p,
        None => return Err(LottoError::MathOverflow),
    };
    transfer_lamports(&mut ctx.entrant, &mut ctx.treasury_vault, cost)?;
    ctx.round.entry_count = new_count;
    ctx.round.pot_lamports = new_pot;
    ctx.entry = Entry {
        round: ctx.round_address,
        entrant: ctx.entrant.key,
        tickets: args.tickets,
        lamports_paid: cost,
        claimed: false,
        created_slot: now,
        bump: ctx.entry_bump,
        nonce: args.nonce,
    };
    Ok(
        RoundJoined {
            round: ctx.round_address,
            entrant: ctx.entrant.key,
            tickets: args.tickets,
            lamports_paid: cost,
        },
    )
}


/// The tag that starts the seeds of an operator's vault address.
pub open spec fn treasury_vault_tag() -> Seq<u8> {
    seq![116u8, 114, 101, 97, 115, 117, 114, 121, 95, 118, 97, 117, 108, 116]
}

/// The seeds of the vault address of `authority` with derivation proof `bump`.
pub open spec fn vault_seeds(authority: Key, bump: u8) -> Seq<Seq<u8>> {
    seq![treasury_vault_tag(), authority@, seq![bump]]
}

fn treasury_vault_seeds(authority: &Key, bump: u8) -> (r: Vec<Vec<u8>>)
    ensures
        seeds_view(r@) == vault_seeds(*authority, bump),
{
    let tag: Vec<u8> = vec![116u8, 114, 101, 97, 115, 117, 114, 121, 95, 118, 97, 117, 108, 116];
    let mut key_bytes: Vec<u8> = Vec::new();
    let mut i: usize = 0;
    while i < 32
        invariant
            0 <= i <= 32,
            authority@.len() == 32,
            key_bytes@ == authority@.subrange(0, i as int),
        decreases 32 - i,
    {
        key_bytes.push(authority.bytes[i]);
        i = i + 1;
        assert(key_bytes@ =~= authority@.subrange(0, i as int));
    }
    assert(key_bytes@ =~= authority@);
    let bump_bytes: Vec<u8> = vec![bump];
    let r: Vec<Vec<u8>> = vec![tag, key_bytes, bump_bytes];
    assert(tag@ =~= treasury_vault_tag());
    assert(bump_bytes@ =~= seq![bump]);
    assert(seeds_view(r@) =~= vault_seeds(*authority, bump));
    r
}

/// The eight little-endian bytes of `x`.
pub open spec fn le_bytes(x: u64) -> Seq<u8> {
    seq![
        (x % 0x100) as u8,
        ((x / 0x100) % 0x100) as u8,
        ((x / 0x1_0000) % 0x100) as u8,
        ((x / 0x100_0000) % 0x100) as u8,
        ((x / 0x1_0000_0000) % 0x100) as u8,
        ((x / 0x100_0000_0000) % 0x100) as u8,
        ((x / 0x1_0000_0000_0000) % 0x100) as u8,
        ((x / 0x100_0000_0000_0000) % 0x100) as u8,
    ]
}

fn to_le_bytes(x: u64) -> (r: [u8; 8])
    ensures
        r@ == le_bytes(x),
{
    let r: [u8; 8] = [
        (x % 0x100) as u8,
        ((x / 0x100) % 0x100) as u8,
        ((x / 0x1_0000) % 0x100) as u8,
        ((x / 0x100_0000) % 0x100) as u8,
        ((x / 0x1_0000_0000) % 0x100) as u8,
        ((x / 0x100_0000_0000) % 0x100) as u8,
        ((x / 0x1_0000_0000_0000) % 0x100) as u8,
        ((x / 0x100_0000_0000_0000) % 0x100) as u8,
    ];
    assert(r@ =~= le_bytes(x));
    r
}

/// Why opening a round is rejected, if it is, given the vault address that
/// the operator's seeds derive (`None` where derivation fails).
pub open spec fn init_error(
    ctx: InitializeRound,
    args: InitializeRoundArgs,
    now: u64,
    derived_vault: Option<Seq<u8>>,
) -> Option<LottoError> {
    let t = ctx.treasury;
    if args.ticket_price_lamports == 0 {
        Some(LottoError::InvalidTicketPrice)
    } else if args.retained_bps > MAX_BPS {
        Some(LottoError::InvalidRetainedBps)
    } else if now + args.duration_slots > u64::MAX {
        Some(LottoError::MathOverflow)
    } else if t.authority@ != zero_key() && t.authority@ != ctx.authority@ {
        Some(LottoError::InvalidAuthority)
    } else if t.authority@ != zero_key() && t.retained_bps != args.retained_bps {
        Some(LottoError::RetainedBpsMismatch)
    } else if t.authority@ != zero_key() && t.bump != ctx.treasury_bump {
        Some(LottoError::InvalidTreasuryBump)
    } else if t.authority@ != zero_key() && t.vault_bump != ctx.vault_bump {
        Some(LottoError::InvalidTreasuryVault)
    } else if derived_vault != Some(ctx.treasury_vault@) {
        Some(LottoError::InvalidTreasuryVault)
    } else {
        None
    }
}

/// Whether `round` is the fresh record that opening with `args` at `now` writes.
pub open spec fn is_opened(round: Round, ctx: InitializeRound, args: InitializeRoundArgs, now: u64) -> bool {
    &&& round.authority == ctx.authority
    &&& round.round_id == args.round_id
    &&& round.round_seed@ == le_bytes(args.round_id)
    &&& round.ticket_price_lamports == args.ticket_price_lamports
    &&& round.max_entries == args.max_entries
    &&& round.start_slot == now
    &&& round.end_slot == now + args.duration_slots
    &&& round.pot_lamports == 0
    &&& round.treasury_cut_lamports == 0
    &&& round.winner is None
    &&& round.status == RoundStatus::Open
    &&& round.entry_count == 0
    &&& round.bump == ctx.round_bump
}

/// The operator's treasury after opening: created on first use, else kept.
pub open spec fn opened_treasury(ctx: InitializeRound, args: InitializeRoundArgs) -> Treasury {
    if ctx.treasury.authority@ == zero_key() {
        Treasury {
            authority: ctx.authority,
            retained_bps: args.retained_bps,
            vault_bump: ctx.vault_bump,
            bump: ctx.treasury_bump,
            last_withdraw_slot: 0,
        }
    } else {
        ctx.treasury
    }
}

/// What opening a round at `now` does to the records, given the vault
/// address that the operator's seeds derive, and what it returns.
pub open spec fn init_outcome(
    ctx: InitializeRound,
    args: InitializeRoundArgs,
    now: u64,
    derived_vault: Option<Seq<u8>>,
    new_ctx: InitializeRound,
    r: Result<RoundInitialized, LottoError>,
) -> bool {
    match r {
        Ok(ev) => {
            &&& init_error(ctx, args, now, derived_vault) is None
            &&& is_opened(new_ctx.round, ctx, args, now)
            &&& new_ctx.treasury == opened_treasury(ctx, args)
            &&& new_ctx == (InitializeRound { round: new_ctx.round, treasury: new_ctx.treasury, ..ctx })
            &&& ev == (RoundInitialized {
                round: ctx.round_address,
                authority: ctx.authority,
                round_id: args.round_id,
                ticket_price_lamports: args.ticket_price_lamports,
                max_entries: args.max_entries,
                duration_slots: args.duration_slots,
            })
        },
        Err(e) => init_error(ctx, args, now, derived_vault) == Some(e) && new_ctx == ctx,
    }
}

/// Opens a round at slot `now`, given the vault address `derived_vault` that
/// the operator's vault seeds derive: writes the round record, and creates the
/// operator's treasury on first use or checks that it matches.
pub fn open_round(
    ctx: &mut InitializeRound,
    args: InitializeRoundArgs,
    now: u64,
    derived_vault: Option<Key>,
) -> (r: Result<RoundInitialized, LottoError>)
    ensures
        init_outcome(
            *old(ctx),
            args,
            now,
            (match derived_vault {
                Some(k) => Some(k@),
                None => None,
            }),
            *final(ctx),
            r,
        ),
{
    if args.ticket_price_lamports == 0 {
        return Err(LottoError::InvalidTicketPrice);
    }
    if args.retained_bps > MAX_BPS {
        return Err(LottoError::InvalidRetainedBps);
    }
    let end_slot = match now.checked_add(args.duration_slots) {
        Some(e) => e,
        None => return Err(LottoError::MathOverflow),
    };
    let fresh = ctx.treasury.authority.is_zero();
    if !fresh {
        if !ctx.treasury.authority.same_as(&ctx.authority) {
            return Err(LottoError::InvalidAuthority);
        }
        if ctx.treasury.retained_bps != args.retained_bps {
            return Err(LottoError::RetainedBpsMismatch);
        }
        if ctx.treasury.bump != ctx.treasury_bump {
            return Err(LottoError::InvalidTreasuryBump);
        }
        if ctx.treasury.vault_bump != ctx.vault_bump {
            return Err(LottoError::InvalidTreasuryVault);
        }
    }
    match derived_vault {
        Some(k) => {
            if !k.same_as(&ctx.treasury_vault) {
                return Err(LottoError::InvalidTreasuryVault);
            }
        },
        None => return Err(LottoError::InvalidTreasuryVault),
    }
    ctx.round = Round {
        authority: ctx.authority,
        round_id: args.round_id,
        round_seed: to_le_bytes(args.round_id),
        ticket_price_lamports: args.ticket_price_lamports,
        max_entries: args.max_entries,
        start_slot: now,
        end_slot,
        pot_lamports: 0,
        treasury_cut_lamports: 0,
        winner: None,
        status: RoundStatus::Open,
        entry_count: 0,
        bump: ctx.round_bump,
    };
    if fresh {
        ctx.treasury = Treasury {
            authority: ctx.authority,
            retained_bps: args.retained_bps,
            vault_bump: ctx.vault_bump,
            bump: ctx.treasury_bump,
            last_withdraw_slot: 0,
        };
    }
    Ok(
        RoundInitialized {
            round: ctx.round_address,
            authority: ctx.authority,
            round_id: args.round_id,
            ticket_price_lamports: args.ticket_price_lamports,
            max_entries: args.max_entries,
            duration_slots: args.duration_slots,
        },
    )
}

/// Opens a round at slot `now`: derives the operator's vault address from its
/// seeds and proof, then does what `open_round` does with it.
pub fn initialize_round(ctx: &mut InitializeRound, args: InitializeRoundArgs, now: u64) -> (r: Result<
    RoundInitialized,
    LottoError,
>)
    ensures
        init_outcome(
            *old(ctx),
            args,
            now,
            program_address(vault_seeds(old(ctx).authority, old(ctx).vault_bump), old(ctx).program_id@),
            *final(ctx),
            r,
        ),
{
    let seeds = treasury_vault_seeds(&ctx.authority, ctx.vault_bump);
    let derived = create_program_address(&seeds, &ctx.program_id);
    open_round(ctx, args, now, derived)
}


/// The operator's fee on a pot of `pot` lamports at `bps` basis points,
/// rounded down.
pub open spec fn settlement_fee(pot: u64, bps: u16) -> int {
    (pot * bps) / 10_000
}

/// Why settling at slot `now` is rejected, if it is.
pub open spec fn settle_error(ctx: SettleRound, now: u64) -> Option<LottoError> {
    let round = ctx.round;
    if round.authority@ != ctx.authority@ || ctx.treasury.authority@ != ctx.authority@ {
        Some(LottoError::InvalidAuthority)
    } else if ctx.winning_entry.round@ != ctx.round_address@ {
        Some(LottoError::EntryRoundMismatch)
    } else if round.status != RoundStatus::Open && round.status != RoundStatus::Closed {
        Some(LottoError::RoundNotReadyToSettle)
    } else if round.winner is Some {
        Some(LottoError::RoundAlreadySettled)
    } else if now < round.end_slot {
        Some(LottoError::RoundStillRunning)
    } else if round.pot_lamports == 0 {
        Some(LottoError::EmptyPot)
    } else if round.pot_lamports * ctx.treasury.retained_bps > u64::MAX {
        Some(LottoError::MathOverflow)
    } else {
        None
    }
}

/// The round after settling in favour of `winner` with fee rate `bps`.
pub open spec fn settled(round: Round, winner: Key, bps: u16) -> Round {
    Round {
        status: RoundStatus::Settled,
        winner: Some(winner),
        treasury_cut_lamports: settlement_fee(round.pot_lamports, bps) as u64,
        ..round
    }
}

/// Settles the round at slot `now` in favour of the buyer of the supplied
/// receipt, recording the operator's fee. No lamports move.
pub fn settle_round(ctx: &mut SettleRound, now: u64) -> (r: Result<RoundSettled, LottoError>)
    ensures
        (match r {
            Ok(ev) => {
                &&& settle_error(*old(ctx), now) is None
                &&& *final(ctx) == (SettleRound {
                    round: settled(old(ctx).round, old(ctx).winning_entry.entrant, old(ctx).treasury.retained_bps),
                    ..*old(ctx)
                })
                &&& ev == (RoundSettled {
                    round: old(ctx).round_address,
                    winner: old(ctx).winning_entry.entrant,
                    pot_lamports: old(ctx).round.pot_lamports,
                    treasury_cut_lamports: settlement_fee(old(ctx).round.pot_lamports, old(ctx).treasury.retained_bps) as u64,
                })
            },
            Err(e) => settle_error(*old(ctx), now) == Some(e) && *final(ctx) == *old(ctx),
        }),
{
    if !ctx.round.authority.same_as(&ctx.authority) || !ctx.treasury.authority.same_as(&ctx.authority) {
        return Err(LottoError::InvalidAuthority);
    }
    if !ctx.winning_entry.round.same_as(&ctx.round_address) {
        return Err(LottoError::EntryRoundMismatch);
    }
    if ctx.round.status != RoundStatus::Open && ctx.round.status != RoundStatus::Closed {
        return Err(LottoError::RoundNotReadyToSettle);
    }
    if ctx.round.winner.is_some() {
        return Err(LottoError::RoundAlreadySettled);
    }
    if now < ctx.round.end_slot {
        return Err(LottoError::RoundStillRunning);
    }
    if ctx.round.pot_lamports == 0 {
        return Err(LottoError::EmptyPot);
    }
    let scaled = match ctx.round.pot_lamports.checked_mul(ctx.treasury.retained_bps as u64) {
        Some(v) => v,
        None => return Err(LottoError::MathOverflow),
    };
    let treasury_cut = scaled / BASIS_POINTS_DIVISOR;
    ctx.round.status = RoundStatus::Settled;
    ctx.round.winner = Some(ctx.winning_entry.entrant);
    ctx.round.treasury_cut_lamports = treasury_cut;
    Ok(
        RoundSettled {
            round: ctx.round_address,
            winner: ctx.winning_entry.entrant,
            pot_lamports: ctx.round.pot_lamports,
            treasury_cut_lamports: treasury_cut,
        },
    )
}

/// What the winner of a settled round is paid: the pot less the fee.
pub open spec fn payout_amount(round: Round) -> int {
    round.pot_lamports - round.treasury_cut_lamports
}

/// Why a payout claim is rejected, if it is.
pub open spec fn payout_error(ctx: ClaimPayout) -> Option<LottoError> {
    let round = ctx.round;
    if ctx.treasury.authority@ != round.authority@ {
        Some(LottoError::InvalidAuthority)
    } else if round.status != RoundStatus::Settled {
        Some(LottoError::RoundNotSettled)
    } else if round.winner is None {
        Some(LottoError::WinnerNotSet)
    } else if round.winner.unwrap()@ != ctx.winner.key@ {
        Some(LottoError::InvalidWinner)
    } else if payout_amount(round) < 0 {
        Some(LottoError::MathOverflow)
    } else if payout_amount(round) == 0 {
        Some(LottoError::EmptyPot)
    } else {
        transfer_error(ctx.treasury_vault, ctx.winner, payout_amount(round) as u64)
    }
}

/// The round after its payout: the fee stays behind as the pot.
pub open spec fn paid_out(round: Round) -> Round {
    Round { pot_lamports: round.treasury_cut_lamports, status: RoundStatus::ClosedOut, ..round }
}

/// Whether `after` is `before` after its payout: the round is closed out, and the
/// pot less the fee has moved from the vault to the winner.
pub open spec fn paid_to_winner(before: ClaimPayout, after: ClaimPayout) -> bool {
    let amount = payout_amount(before.round) as u64;
    &&& after.round == paid_out(before.round)
    &&& after.treasury_vault.key == before.treasury_vault.key
    &&& after.treasury_vault.lamports == before.treasury_vault.lamports - amount
    &&& after.winner.key == before.winner.key
    &&& after.winner.lamports == before.winner.lamports + amount
    &&& after.treasury == before.treasury
    &&& after.round_address == before.round_address
}

/// Pays the winner of a settled round the pot less the fee, out of the vault,
/// and closes the round out.
pub fn claim_payout(ctx: &mut ClaimPayout) -> (r: Result<PayoutClaimed, LottoError>)
    ensures
        (match r {
            Ok(ev) => {
                let amount = payout_amount(old(ctx).round) as u64;
                &&& payout_error(*old(ctx)) is None
                &&& paid_to_winner(*old(ctx), *final(ctx))
                &&& ev == (PayoutClaimed {
                    round: old(ctx).round_address,
                    winner: old(ctx).winner.key,
                    amount,
                })
            },
            Err(e) => payout_error(*old(ctx)) == Some(e) && *final(ctx) == *old(ctx),
        }),
{
    if !ctx.treasury.authority.same_as(&ctx.round.authority) {
        return Err(LottoError::InvalidAuthority);
    }
    if ctx.round.status != RoundStatus::Settled {
        return Err(LottoError::RoundNotSettled);
    }
    let winner_key = match ctx.round.winner {
        Some(k) => k,
        None => return Err(LottoError::WinnerNotSet),
    };
    if !winner_key.same_as(&ctx.winner.key) {
        return Err(LottoError::InvalidWinner);
    }
    let payout = match ctx.round.pot_lamports.checked_sub(ctx.round.treasury_cut_lamports) {
        Some(p) => p,
        None => return Err(LottoError::MathOverflow),
    };
    if payout == 0 {
        return Err(LottoError::EmptyPot);
    }
    transfer_lamports(&mut ctx.treasury_vault, &mut ctx.winner, payout)?;
    ctx.round.pot_lamports = ctx.round.treasury_cut_lamports;
    ctx.round.status = RoundStatus::ClosedOut;
    Ok(PayoutClaimed { round: ctx.round_address, winner: ctx.winner.key, amount: payout })
}

/// Why a refund claim is rejected, if it is.
pub open spec fn refund_error(ctx: ClaimRefund) -> Option<LottoError> {
    let round = ctx.round;
    let entry = ctx.entry;
    if ctx.treasury.authority@ != round.authority@ {
        Some(LottoError::InvalidAuthority)
    } else if entry.round@ != ctx.round_address@ {
        Some(LottoError::EntryRoundMismatch)
    } else if entry.entrant@ != ctx.entrant.key@ {
        Some(LottoError::InvalidEntrant)
    } else if round.status != RoundStatus::Cancelled {
        Some(LottoError::RefundUnavailable)
    } else if entry.claimed {
        Some(LottoError::EntryAlreadyClaimed)
    } else if round.pot_lamports < entry.lamports_paid {
        Some(LottoError::MathOverflow)
    } else {
        transfer_error(ctx.treasury_vault, ctx.entrant, entry.lamports_paid)
    }
}

/// Whether `after` is `before` after its receipt was refunded: the pot shrinks by
/// the amount paid, which moves from the vault to the buyer, and the receipt
/// is marked claimed.
pub open spec fn refunded(before: ClaimRefund, after: ClaimRefund) -> bool {
    let amount = before.entry.lamports_paid;
    &&& after.round == (Round { pot_lamports: (before.round.pot_lamports - amount) as u64, ..before.round })
    &&& after.entry == (Entry { claimed: true, ..before.entry })
    &&& after.treasury_vault.key == before.treasury_vault.key
    &&& after.treasury_vault.lamports == before.treasury_vault.lamports - amount
    &&& after.entrant.key == before.entrant.key
    &&& after.entrant.lamports == before.entrant.lamports + amount
    &&& after.treasury == before.treasury
    &&& after.round_address == before.round_address
}

/// Refunds one receipt of a cancelled round to its buyer, out of the vault;
/// the pot shrinks by the same amount and the receipt is marked claimed.
pub fn claim_refund(ctx: &mut ClaimRefund) -> (r: Result<RefundClaimed, LottoError>)
    ensures
        (match r {
            Ok(ev) => {
                let amount = old(ctx).entry.lamports_paid;
                &&& refund_error(*old(ctx)) is None
                &&& refunded(*old(ctx), *final(ctx))
                &&& ev == (RefundClaimed {
                    round: old(ctx).round_address,
                    entrant: old(ctx).entry.entrant,
                    amount,
                })
            },
            Err(e) => refund_error(*old(ctx)) == Some(e) && *final(ctx) == *old(ctx),
        }),
{
    if !ctx.treasury.authority.same_as(&ctx.round.authority) {
        return Err(LottoError::InvalidAuthority);
    }
    if !ctx.entry.round.same_as(&ctx.round_address) {
        return Err(LottoError::EntryRoundMismatch);
    }
    if !ctx.entry.entrant.same_as(&ctx.entrant.key) {
        return Err(LottoError::InvalidEntrant);
    }
    if ctx.round.status != RoundStatus::Cancelled {
        return Err(LottoError::RefundUnavailable);
    }
    if ctx.entry.claimed {
        return Err(LottoError::EntryAlreadyClaimed);
    }
    let amount = ctx.entry.lamports_paid;
    let new_pot = match ctx.round.pot_lamports.checked_sub(amount) {
        Some(p) => p,
        None => return Err(LottoError::MathOverflow),
    };
    transfer_lamports(&mut ctx.treasury_vault, &mut ctx.entrant, amount)?;
    ctx.round.pot_lamports = new_pot;
    ctx.entry.claimed = true;
    Ok(RefundClaimed { round: ctx.round_address, entrant: ctx.entry.entrant, amount })
}

/// Why a cancellation is rejected, if it is.
pub open spec fn close_error(ctx: AdminClose) -> Option<LottoError> {
    if ctx.round.authority@ != ctx.authority@ {
        Some(LottoError::InvalidAuthority)
    } else if ctx.round.status == RoundStatus::Settled || ctx.round.status == RoundStatus::ClosedOut {
        Some(LottoError::RoundNotCancellable)
    } else {
        None
    }
}

/// Cancels a round on its operator's word, which opens refunds. No lamports
/// move.
pub fn admin_close(ctx: &mut AdminClose, reason: u8) -> (r: Result<RoundClosed, LottoError>)
    ensures
        (match r {
            Ok(ev) => {
                &&& close_error(*old(ctx)) is None
                &&& *final(ctx) == (AdminClose {
                    round: Round { status: RoundStatus::Cancelled, ..old(ctx).round },
                    ..*old(ctx)
                })
                &&& ev == (RoundClosed {
                    round: old(ctx).round_address,
                    authority: old(ctx).authority,
                    reason,
                })
            },
            Err(e) => close_error(*old(ctx)) == Some(e) && *final(ctx) == *old(ctx),
        }),
{
    if !ctx.round.authority.same_as(&ctx.authority) {
        return Err(LottoError::InvalidAuthority);
    }
    if ctx.round.status == RoundStatus::Settled || ctx.round.status == RoundStatus::ClosedOut {
        return Err(LottoError::RoundNotCancellable);
    }
    ctx.round.status = RoundStatus::Cancelled;
    Ok(RoundClosed { round: ctx.round_address, authority: ctx.authority, reason })
}

} // verus!
