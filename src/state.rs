use crate::key::Key;
use vstd::prelude::*;

verus! {

/// Basis points in a whole.
pub const BASIS_POINTS_DIVISOR: u64 = 10_000;
/// Largest fee rate an operator may configure.
pub const MAX_BPS: u16 = 10_000;

/// Lifecycle of a round.
#[derive(Clone, Copy, Debug, PartialEq, Eq, Structural)]
pub enum RoundStatus {
    Pending,
    Open,
    Closed,
    Settled,
    ClosedOut,
    Cancelled,
}

impl Default for RoundStatus {
    fn default() -> (r: Self)
        ensures
            r == RoundStatus::Pending,
    {
        RoundStatus::Pending
    }
}

/// The ledger of one lottery instance.
#[derive(Clone, Copy, Debug, PartialEq, Eq)]
pub struct Round {
    pub authority: Key,
    pub round_id: u64,
    pub round_seed: [u8; 8],
    pub ticket_price_lamports: u64,
    pub max_entries: u32,
    pub start_slot: u64,
    pub end_slot: u64,
    pub pot_lamports: u64,
    pub treasury_cut_lamports: u64,
    pub winner: Option<Key>,
    pub status: RoundStatus,
    pub entry_count: u32,
    pub bump: u8,
}

/// A receipt for one ticket purchase.
#[derive(Clone, Copy, Debug, PartialEq, Eq)]
pub struct Entry {
    pub round: Key,
    pub entrant: Key,
    pub tickets: u16,
    pub lamports_paid: u64,
    pub claimed: bool,
    pub created_slot: u64,
    pub bump: u8,
    pub nonce: u8,
}

/// Per-operator fee configuration, shared by all of its rounds.
#[derive(Clone, Copy, Debug, PartialEq, Eq)]
pub struct Treasury {
    pub authority: Key,
    pub retained_bps: u16,
    pub vault_bump: u8,
    pub bump: u8,
    pub last_withdraw_slot: u64,
}

/// An account that holds lamports: a buyer's wallet, a winner, a vault.
#[derive(Clone, Copy, Debug, PartialEq, Eq)]
pub struct LamportAccount {
    pub key: Key,
    pub lamports: u64,
}

#[derive(Clone, Copy, Debug, PartialEq, Eq)]
pub struct InitializeRoundArgs {
    pub round_id: u64,
    pub ticket_price_lamports: u64,
    pub max_entries: u32,
    pub duration_slots: u64,
    pub retained_bps: u16,
}

#[derive(Clone, Copy, Debug, PartialEq, Eq)]
pub struct JoinRoundArgs {
    pub tickets: u16,
    pub nonce: u8,
}

/// Records that opening a round reads and writes. `round` is the freshly
/// created record at `round_address`; `treasury` is the operator's record,
/// zeroed when it does not exist yet; the bumps are the derivation proofs
/// found for the round, treasury and vault addresses.
#[derive(Clone, Copy, Debug, PartialEq, Eq)]
pub struct InitializeRound {
    pub program_id: Key,
    pub authority: Key,
    pub round_address: Key,
    pub round: Round,
    pub round_bump: u8,
    pub treasury: Treasury,
    pub treasury_bump: u8,
    pub treasury_vault: Key,
    pub vault_bump: u8,
}

/// Records that a ticket purchase reads and writes. `entry` is the freshly
/// created receipt and `entry_bump` its derivation proof.
#[derive(Clone, Copy, Debug, PartialEq, Eq)]
pub struct JoinRound {
    pub entrant: LamportAccount,
    pub round_address: Key,
    pub round: Round,
    pub treasury: Treasury,
    pub treasury_vault: LamportAccount,
    pub entry: Entry,
    pub entry_bump: u8,
}

/// Records that settlement reads and writes.
#[derive(Clone, Copy, Debug, PartialEq, Eq)]
pub struct SettleRound {
    pub authority: Key,
    pub round_address: Key,
    pub round: Round,
    pub treasury: Treasury,
    pub winning_entry: Entry,
}

/// Records that a payout claim reads and writes.
#[derive(Clone, Copy, Debug, PartialEq, Eq)]
pub struct ClaimPayout {
    pub winner: LamportAccount,
    pub round_address: Key,
    pub round: Round,
    pub treasury: Treasury,
    pub treasury_vault: LamportAccount,
}

/// Records that a refund claim reads and writes.
#[derive(Clone, Copy, Debug, PartialEq, Eq)]
pub struct ClaimRefund {
    pub entrant: LamportAccount,
    pub round_address: Key,
    pub round: Round,
    pub treasury: Treasury,
    pub treasury_vault: LamportAccount,
    pub entry: Entry,
}

/// Records that a cancellation reads and writes.
#[derive(Clone, Copy, Debug, PartialEq, Eq)]
pub struct AdminClose {
    pub authority: Key,
    pub round_address: Key,
    pub round: Round,
}

#[derive(Clone, Copy, Debug, PartialEq, Eq)]
pub struct RoundInitialized {
    pub round: Key,
    pub authority: Key,
    pub round_id: u64,
    pub ticket_price_lamports: u64,
    pub max_entries: u32,
    pub duration_slots: u64,
}

#[derive(Clone, Copy, Debug, PartialEq, Eq)]
pub struct RoundJoined {
    pub round: Key,
    pub entrant: Key,
    pub tickets: u16,
    pub lamports_paid: u64,
}

#[derive(Clone, Copy, Debug, PartialEq, Eq)]
pub struct RoundSettled {
    pub round: Key,
    pub winner: Key,
    pub pot_lamports: u64,
    pub treasury_cut_lamports: u64,
}

#[derive(Clone, Copy, Debug, PartialEq, Eq)]
pub struct PayoutClaimed {
    pub round: Key,
    pub winner: Key,
    pub amount: u64,
}

#[derive(Clone, Copy, Debug, PartialEq, Eq)]
pub struct RefundClaimed {
    pub round: Key,
    pub entrant: Key,
    pub amount: u64,
}

#[derive(Clone, Copy, Debug, PartialEq, Eq)]
pub struct RoundClosed {
    pub round: Key,
    pub authority: Key,
    pub reason: u8,
}

/// Why an operation was rejected.
#[derive(Clone, Copy, Debug, PartialEq, Eq, Structural)]
pub enum LottoError {
    InvalidTicketPrice,
    InvalidRetainedBps,
    MissingBump,
    InvalidAuthority,
    InvalidTreasuryBump,
    InvalidTreasuryVault,
    RetainedBpsMismatch,
    RoundNotOpen,
    RoundClosed,
    MaxEntriesReached,
    MathOverflow,
    RoundNotReadyToSettle,
    RoundAlreadySettled,
    RoundStillRunning,
    RoundNotSettled,
    EmptyPot,
    EntryRoundMismatch,
    WinnerNotSet,
    InvalidWinner,
    InvalidEntrant,
    EntryAlreadyClaimed,
    RefundUnavailable,
    RoundNotCancellable,
    InvalidTicketCount,
    InsufficientFunds,
}

impl LottoError {
    /// The human-readable message of this error.
    pub fn message(&self) -> (r: &'static str) {
        match self {
            LottoError::InvalidTicketPrice => "Invalid ticket price",
            LottoError::InvalidRetainedBps => "Invalid retained basis points",
            LottoError::MissingBump => "Missing PDA bump",
            LottoError::InvalidAuthority => "Invalid authority for this operation",
            LottoError::InvalidTreasuryBump => "Stored treasury bump does not match",
            LottoError::InvalidTreasuryVault => "Invalid treasury vault",
            LottoError::RetainedBpsMismatch => "Retained basis points mismatch",
            LottoError::RoundNotOpen => "Round is not open",
            LottoError::RoundClosed => "Round entry window closed",
            LottoError::MaxEntriesReached => "Too many entries for this round",
            LottoError::MathOverflow => "Arithmetic overflow",
            LottoError::RoundNotReadyToSettle => "Round not ready to settle",
            LottoError::RoundAlreadySettled => "Round already settled",
            LottoError::RoundStillRunning => "Round is still running",
            LottoError::RoundNotSettled => "Round is not settled",
            LottoError::EmptyPot => "Pot is empty",
            LottoError::EntryRoundMismatch => "Entry does not belong to round",
            LottoError::WinnerNotSet => "Winner not set",
            LottoError::InvalidWinner => "Invalid winner signer",
            LottoError::InvalidEntrant => "Invalid entrant signer",
            LottoError::EntryAlreadyClaimed => "Entry already claimed",
            LottoError::RefundUnavailable => "Refund not available",
            LottoError::RoundNotCancellable => "Round cannot be cancelled",
            LottoError::InvalidTicketCount => "Invalid ticket count",
            LottoError::InsufficientFunds => "Insufficient funds",
        }
    }
}

} // verus!
