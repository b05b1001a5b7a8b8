use vstd::prelude::*;

verus! {

/// The ways a mint or burn request can fail. Every error is surfaced to the
/// caller verbatim, and no error leaves a partial state change behind.
#[derive(Clone, Copy, Debug, PartialEq, Eq, Structural)]
pub enum Error {
    /// The rate configuration was read before setup saved it.
    NotInitialized,
    /// More than one native fund entry was attached to a mint request.
    MultiDenomFunds,
    /// The attached native funds differ from the rate-derived requirement.
    InvalidDenomAmount,
    /// A rate multiplication exceeds the representable range.
    ArithmeticOverflow,
    /// A rate multiplication does not land on a whole number of base units.
    NonIntegralProduct,
    /// The caller is not the configured minter.
    Unauthorized,
    /// Minting would push total supply above the configured cap.
    CannotExceedCap,
    /// The burned amount exceeds the holder's balance.
    InsufficientBalance,
}

impl Error {
    /// A short description of the error, matching what the host reports.
    pub fn message(&self) -> (m: &'static str)
        ensures
            *self is NotInitialized ==> m@ == "Configuration not initialized"@,
            *self is MultiDenomFunds ==> m@ == "Cannot receive several denoms"@,
            *self is InvalidDenomAmount ==> m@ == "Invalid denom amount"@,
            *self is ArithmeticOverflow ==> m@ == "Arithmetic overflow"@,
            *self is NonIntegralProduct ==> m@ == "Non-integral collateral amount"@,
            *self is Unauthorized ==> m@ == "Unauthorized"@,
            *self is CannotExceedCap ==> m@ == "Cannot exceed cap"@,
            *self is InsufficientBalance ==> m@ == "Insufficient balance"@,
    {
        match self {
            Error::NotInitialized => "Configuration not initialized",
            Error::MultiDenomFunds => "Cannot receive several denoms",
            Error::InvalidDenomAmount => "Invalid denom amount",
            Error::ArithmeticOverflow => "Arithmetic overflow",
            Error::NonIntegralProduct => "Non-integral collateral amount",
            Error::Unauthorized => "Unauthorized",
            Error::CannotExceedCap => "Cannot exceed cap",
            Error::InsufficientBalance => "Insufficient balance",
        }
    }
}

} // verus!
