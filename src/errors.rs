use vstd::prelude::*;

verus! {

/// Every way an operation on a round or on its randomness client can be
/// refused. A refused operation changes nothing.
#[derive(Debug, Clone, Copy, PartialEq, Eq, Structural)]
pub enum ErrorCode {
    /// The identity is already enrolled in the round.
    ParticipantAlreadyAdded,
    /// The identity is not enrolled, or has already settled.
    ParticipantNotFound,
    /// The round already holds `max_participants` identities.
    ListFull,
    /// A referenced oracle account is not owned by the oracle program.
    InvalidSwitchboardAccount,
    /// A requested bound does not fit the randomness client's range.
    MaxResultExceedsMaximum,
    /// The randomness client holds no result to draw from.
    EmptyCurrentRoundResult,
    /// An account's recorded authority is not the expected one.
    InvalidAuthorityError,
    /// The oracle account is not the one the client is bound to.
    InvalidVrfAccount,
    /// A stored status byte names no lifecycle state.
    InvalidStatus,
    /// The round's winner has already been chosen.
    WinnerAlreadySelected,
    /// The round has no winner yet, so nobody can settle.
    LotteryStillOn,
    /// The randomness result does not index an enrolled participant.
    WinnerIndexOutOfRange,
    /// Payout arithmetic would overflow or go negative: the vault holds less
    /// than the principal owed to the other participants.
    AccountingError,
}

impl ErrorCode {
    /// A human-readable description of the error.
    pub fn message(&self) -> (r: String) {
        match self {
            ErrorCode::ParticipantAlreadyAdded => String::from_str("Participant already added"),
            ErrorCode::ParticipantNotFound => String::from_str(
                "Participant Not found or has already withdrawn",
            ),
            ErrorCode::ListFull => String::from_str("List Full: Participant can't be added"),
            ErrorCode::InvalidSwitchboardAccount => String::from_str(
                "Not a valid Switchboard account",
            ),
            ErrorCode::MaxResultExceedsMaximum => String::from_str(
                "The max result must not exceed u64",
            ),
            ErrorCode::EmptyCurrentRoundResult => String::from_str(
                "Current round result is empty",
            ),
            ErrorCode::InvalidAuthorityError => String::from_str(
                "Invalid authority account provided.",
            ),
            ErrorCode::InvalidVrfAccount => String::from_str("Invalid VRF account provided."),
            ErrorCode::InvalidStatus => String::from_str("Invalid Lottery status"),
            ErrorCode::WinnerAlreadySelected => String::from_str(
                "Winner has been already selected",
            ),
            ErrorCode::LotteryStillOn => String::from_str(
                "Lottery still on and winner has not been selected yet",
            ),
            ErrorCode::WinnerIndexOutOfRange => String::from_str(
                "Randomness result does not index a participant",
            ),
            ErrorCode::AccountingError => String::from_str(
                "Vault balance does not cover the principal owed",
            ),
        }
    }
}

} // verus!
