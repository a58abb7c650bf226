use vstd::prelude::*;

verus! {

/// Every way in which an instruction of the lottery is refused.
#[derive(Clone, Copy, Debug, PartialEq, Eq, Structural)]
pub enum CustomErrors {
    OutOfTime,
    UnauthorizedAction,
    RandomnessAlreadyRevealed,
    RandomnessNotResolved,
    IncorrectRandomness,
    WinnerChosen,
    WinnerNotChosen,
    TokenNotVerified,
    IncorrectTicket,
    NoTicket,
}

/// The first code of the program's own errors: codes below it belong to the
/// framework.
pub const ERROR_CODE_OFFSET: u32 = 6000;

/// Position of an error in the declaration of `CustomErrors`.
pub open spec fn error_index(e: CustomErrors) -> nat {
    match e {
        CustomErrors::OutOfTime => 0,
        CustomErrors::UnauthorizedAction => 1,
        CustomErrors::RandomnessAlreadyRevealed => 2,
        CustomErrors::RandomnessNotResolved => 3,
        CustomErrors::IncorrectRandomness => 4,
        CustomErrors::WinnerChosen => 5,
        CustomErrors::WinnerNotChosen => 6,
        CustomErrors::TokenNotVerified => 7,
        CustomErrors::IncorrectTicket => 8,
        CustomErrors::NoTicket => 9,
    }
}

impl CustomErrors {
    /// The error code that the program reports: the offset plus the
    /// position of the variant.
    pub fn code(&self) -> (c: u32)
        ensures
            c == ERROR_CODE_OFFSET + error_index(*self),
    {
        let index: u32 = match self {
            CustomErrors::OutOfTime => 0,
            CustomErrors::UnauthorizedAction => 1,
            CustomErrors::RandomnessAlreadyRevealed => 2,
            CustomErrors::RandomnessNotResolved => 3,
            CustomErrors::IncorrectRandomness => 4,
            CustomErrors::WinnerChosen => 5,
            CustomErrors::WinnerNotChosen => 6,
            CustomErrors::TokenNotVerified => 7,
            CustomErrors::IncorrectTicket => 8,
            CustomErrors::NoTicket => 9,
        };
        ERROR_CODE_OFFSET + index
    }

    /// The message that goes with the error.
    pub fn message(&self) -> (m: &'static str)
        ensures
            *self == CustomErrors::OutOfTime ==> m@ == "Out of time to buy the ticket."@,
            *self == CustomErrors::UnauthorizedAction ==> m@ == "Unauthorized action."@,
            *self == CustomErrors::RandomnessAlreadyRevealed ==> m@ == "Randomness already revealed."@,
            *self == CustomErrors::RandomnessNotResolved ==> m@ == "Randomness not resolved."@,
            *self == CustomErrors::IncorrectRandomness ==> m@ == "Incorrect randomness account."@,
            *self == CustomErrors::WinnerChosen ==> m@ == "Winner already chosen."@,
            *self == CustomErrors::WinnerNotChosen ==> m@ == "Winner not chosen yet."@,
            *self == CustomErrors::TokenNotVerified ==> m@ == "Token not verified."@,
            *self == CustomErrors::IncorrectTicket ==> m@ == "Incorrect ticket."@,
            *self == CustomErrors::NoTicket ==> m@ == "No tickets yet."@,
    {
        match self {
            CustomErrors::OutOfTime => "Out of time to buy the ticket.",
            CustomErrors::UnauthorizedAction => "Unauthorized action.",
            CustomErrors::RandomnessAlreadyRevealed => "Randomness already revealed.",
            CustomErrors::RandomnessNotResolved => "Randomness not resolved.",
            CustomErrors::IncorrectRandomness => "Incorrect randomness account.",
            CustomErrors::WinnerChosen => "Winner already chosen.",
            CustomErrors::WinnerNotChosen => "Winner not chosen yet.",
            CustomErrors::TokenNotVerified => "Token not verified.",
            CustomErrors::IncorrectTicket => "Incorrect ticket.",
            CustomErrors::NoTicket => "No tickets yet.",
        }
    }
}

} // verus!
