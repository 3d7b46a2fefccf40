//! Error types.

use vstd::prelude::*;
use vstd::std_specs::convert::FromSpecImpl;

verus! {

/// Failures that the exchange itself defines.
///
/// The host sees each of them as [`ProgramError::Custom`] with the number that
/// [`SimpleDexError::code`] gives.
#[derive(Clone, Copy, Debug, PartialEq, Eq, Structural)]
pub enum SimpleDexError {
    /// A state that the engine's own rules exclude was reached, or a ratio was
    /// asked of a zero denominator.
    InternalError,
    /// A packed value was cut short or carried an unknown tag.
    PackunError,
    /// The escrow account is not the one derived for the offer.
    InvalidHoldingAccount,
    /// A token account is bound to another asset than the one declared.
    IncorrectMint,
    /// A token account is frozen.
    TokenAccountFrozen,
    /// A refund was directed at the offer's own record or escrow.
    RefundingToOfferAccounts,
    /// The price ranges of two offers do not cross.
    OffersDontMatch,
    /// Checked arithmetic left the range of its type.
    NumericalError,
    /// The caller is not the owner that the offer records.
    IncorrectOwner,
    /// The account is not the refund target that the offer records.
    IncorrectRefundTo,
    /// The account is not the rent refund target that the offer records.
    IncorrectRefundRentTo,
    /// The account is not the credit target that the offer records.
    IncorrectCreditTo,
    /// The declared record address is not the derived one.
    InvalidOfferAccount,
    /// The declared bump is not the derived one.
    InvalidOfferBump,
    /// The record does not sit at the address derived from its own fields.
    IncorrectOfferAccount,
}

impl SimpleDexError {
    /// The number under which the host reports this error.
    pub open spec fn code_spec(self) -> u32 {
        match self {
            SimpleDexError::InternalError => 0,
            SimpleDexError::PackunError => 1,
            SimpleDexError::InvalidHoldingAccount => 2,
            SimpleDexError::IncorrectMint => 3,
            SimpleDexError::TokenAccountFrozen => 4,
            SimpleDexError::RefundingToOfferAccounts => 5,
            SimpleDexError::OffersDontMatch => 6,
            SimpleDexError::NumericalError => 7,
            SimpleDexError::IncorrectOwner => 8,
            SimpleDexError::IncorrectRefundTo => 9,
            SimpleDexError::IncorrectRefundRentTo => 10,
            SimpleDexError::IncorrectCreditTo => 11,
            SimpleDexError::InvalidOfferAccount => 12,
            SimpleDexError::InvalidOfferBump => 13,
            SimpleDexError::IncorrectOfferAccount => 14,
        }
    }

    /// The number under which the host reports this error: the variant's
    /// position in the declaration, from zero.
    #[verifier::when_used_as_spec(code_spec)]
    pub fn code(self) -> (c: u32)
        ensures
            c == self.code_spec(),
    {
        match self {
            SimpleDexError::InternalError => 0,
            SimpleDexError::PackunError => 1,
            SimpleDexError::InvalidHoldingAccount => 2,
            SimpleDexError::IncorrectMint => 3,
            SimpleDexError::TokenAccountFrozen => 4,
            SimpleDexError::RefundingToOfferAccounts => 5,
            SimpleDexError::OffersDontMatch => 6,
            SimpleDexError::NumericalError => 7,
            SimpleDexError::IncorrectOwner => 8,
            SimpleDexError::IncorrectRefundTo => 9,
            SimpleDexError::IncorrectRefundRentTo => 10,
            SimpleDexError::IncorrectCreditTo => 11,
            SimpleDexError::InvalidOfferAccount => 12,
            SimpleDexError::InvalidOfferBump => 13,
            SimpleDexError::IncorrectOfferAccount => 14,
        }
    }

    /// The text that goes into the host's log for this error.
    pub open spec fn message_spec(self) -> Seq<char> {
        match self {
            SimpleDexError::InternalError => "unknown"@,
            SimpleDexError::PackunError => "(de)serialization error"@,
            SimpleDexError::InvalidHoldingAccount => {
                "provided account is not a valid holding account"@
            },
            SimpleDexError::IncorrectMint => "given mint does not match token account's"@,
            SimpleDexError::TokenAccountFrozen => "provided token account is frozen"@,
            SimpleDexError::RefundingToOfferAccounts => {
                "attempting to refund tokens/lamports to offer accounts"@
            },
            SimpleDexError::OffersDontMatch => "offers do not match"@,
            SimpleDexError::NumericalError => "numerical overflow"@,
            SimpleDexError::IncorrectOwner => "provided owner is not the offer's"@,
            SimpleDexError::IncorrectRefundTo => {
                "provided account is not the offer's refund target"@
            },
            SimpleDexError::IncorrectRefundRentTo => {
                "provided account is not the offer's rent refund target"@
            },
            SimpleDexError::IncorrectCreditTo => {
                "provided account is not the offer's credit target"@
            },
            SimpleDexError::InvalidOfferAccount => {
                "provided account is not the derived offer account"@
            },
            SimpleDexError::InvalidOfferBump => "provided bump is not the derived one"@,
            SimpleDexError::IncorrectOfferAccount => {
                "offer account does not sit at its derived address"@
            },
        }
    }

    /// The text that goes into the host's log for this error.
    pub fn message(&self) -> (text: &'static str)
        ensures
            text@ == self.message_spec(),
    {
        match self {
            SimpleDexError::InternalError => "unknown",
            SimpleDexError::PackunError => "(de)serialization error",
            SimpleDexError::InvalidHoldingAccount => {
                "provided account is not a valid holding account"
            },
            SimpleDexError::IncorrectMint => "given mint does not match token account's",
            SimpleDexError::TokenAccountFrozen => "provided token account is frozen",
            SimpleDexError::RefundingToOfferAccounts => {
                "attempting to refund tokens/lamports to offer accounts"
            },
            SimpleDexError::OffersDontMatch => "offers do not match",
            SimpleDexError::NumericalError => "numerical overflow",
            SimpleDexError::IncorrectOwner => "provided owner is not the offer's",
            SimpleDexError::IncorrectRefundTo => {
                "provided account is not the offer's refund target"
            },
            SimpleDexError::IncorrectRefundRentTo => {
                "provided account is not the offer's rent refund target"
            },
            SimpleDexError::IncorrectCreditTo => {
                "provided account is not the offer's credit target"
            },
            SimpleDexError::InvalidOfferAccount => {
                "provided account is not the derived offer account"
            },
            SimpleDexError::InvalidOfferBump => "provided bump is not the derived one",
            SimpleDexError::IncorrectOfferAccount => {
                "offer account does not sit at its derived address"
            },
        }
    }
}

/// Failures as the host defines them, as far as the engine raises them.
#[derive(Clone, Copy, Debug, PartialEq, Eq, Structural)]
pub enum ProgramError {
    /// One of the exchange's own errors, by its number.
    Custom(u32),
    /// An account holds bytes that are no record of the expected kind.
    InvalidAccountData,
    /// An account that had to sign did not.
    MissingRequiredSignature,
    /// An account holds a record that was never written, or was wiped.
    UninitializedAccount,
    /// The instruction names fewer accounts than it needs.
    NotEnoughAccountKeys,
    /// A program account is not the program expected in its place.
    IncorrectProgramId,
    /// The seeds of a derived address give no valid address.
    InvalidSeeds,
    /// An account belongs to another program than the one expected.
    IllegalOwner,
}

impl From<SimpleDexError> for ProgramError {
    fn from(e: SimpleDexError) -> (r: ProgramError) {
        ProgramError::Custom(e.code())
    }
}

impl FromSpecImpl<SimpleDexError> for ProgramError {
    open spec fn obeys_from_spec() -> bool {
        true
    }

    open spec fn from_spec(e: SimpleDexError) -> ProgramError {
        ProgramError::Custom(e.code_spec())
    }
}

/// The host-level error that stands for an error of the exchange.
pub open spec fn custom(e: SimpleDexError) -> ProgramError {
    ProgramError::Custom(e.code_spec())
}

/// The host's form of a result: what succeeded stays as it is, and an error
/// of the exchange becomes the host's error for it.
pub fn host_error<T>(r: Result<T, SimpleDexError>) -> (out: Result<T, ProgramError>)
    ensures
        r is Ok ==> out == Ok::<T, ProgramError>(r->Ok_0),
        r is Err ==> out == Err::<T, ProgramError>(custom(r->Err_0)),
{
    match r {
        Ok(value) => Ok(value),
        Err(e) => Err(ProgramError::from(e)),
    }
}

} // verus!
