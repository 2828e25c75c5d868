//! A single-round ticket lottery with custody of funds: the lifecycle of a
//! round, ticket purchase, settlement, payout and refund, each a checked
//! transition over the records it touches.

mod address;
mod key;
mod laws;
mod program;
mod state;

pub use address::{program_address, seeds_view};
pub use key::{zero_key, Key};
pub use state::{
    AdminClose, ClaimPayout, ClaimRefund, Entry, InitializeRound, InitializeRoundArgs, JoinRound,
    JoinRoundArgs, LamportAccount, LottoError, PayoutClaimed, RefundClaimed, Round,
    RoundClosed, RoundInitialized, RoundJoined, RoundSettled, RoundStatus, SettleRound, Treasury,
    BASIS_POINTS_DIVISOR, MAX_BPS,
};
pub use program::{
    admin_close, claim_payout, claim_refund, close_error, init_error, init_outcome,
    initialize_round, is_opened, join_error, join_round, joined, le_bytes, open_round,
    opened_treasury, paid_out, paid_to_winner, payout_amount, payout_error, refund_error,
    refunded, settle_error, settle_round, settled, settlement_fee, ticket_cost, transfer_error,
    treasury_vault_tag, vault_seeds,
};
pub use laws::{
    joined_all, lemma_capacity, lemma_cross_round_isolation, lemma_cost_overflow_rejected, lemma_fee_within_pot,
    lemma_payout_once, lemma_pot_is_sum_of_costs, lemma_refund_conservation, lemma_refund_once,
    lemma_settle_exactly_once, lemma_time_gating, refunded_total, total_tickets,
};
