//! The errors of the registry and their numeric codes.

use vstd::prelude::*;

verus! {

/// The ways in which an operation on the registry can fail.
#[derive(Clone, Copy, Debug, PartialEq, Eq, PartialOrd, Ord, Structural)]
pub enum ContractError {
    /// Registration was attempted for an identifier that is already taken.
    ProductAlreadyExists,
    /// No product is registered under the identifier.
    ProductNotFound,
    /// The acting address is not the recorded owner.
    NotAuthorized,
}

impl ContractError {
    /// The number by which callers know the error.
    pub open spec fn spec_code(self) -> u32 {
        match self {
            ContractError::ProductAlreadyExists => 100,
            ContractError::ProductNotFound => 101,
            ContractError::NotAuthorized => 102,
        }
    }

    /// The error that a code stands for, if any.
    pub open spec fn spec_from_code(code: u32) -> Option<ContractError> {
        if code == 100 {
            Some(ContractError::ProductAlreadyExists)
        } else if code == 101 {
            Some(ContractError::ProductNotFound)
        } else if code == 102 {
            Some(ContractError::NotAuthorized)
        } else {
            None
        }
    }

    /// The number by which callers know the error.
    #[verifier::when_used_as_spec(spec_code)]
    pub fn code(self) -> (code: u32)
        ensures
            code == self.spec_code(),
    {
        match self {
            ContractError::ProductAlreadyExists => 100,
            ContractError::ProductNotFound => 101,
            ContractError::NotAuthorized => 102,
        }
    }

    /// The error that a code stands for; `None` for a number that is no code.
    pub fn from_code(code: u32) -> (error: Option<ContractError>)
        ensures
            error == Self::spec_from_code(code),
    {
        if code == 100 {
            Some(ContractError::ProductAlreadyExists)
        } else if code == 101 {
            Some(ContractError::ProductNotFound)
        } else if code == 102 {
            Some(ContractError::NotAuthorized)
        } else {
            None
        }
    }

    /// Codes and errors correspond one to one.
    pub proof fn lemma_code_round_trip(self)
        ensures
            Self::spec_from_code(self.spec_code()) == Some(self),
    {
    }

    /// A number is the code of at most one error.
    pub proof fn lemma_from_code_is_inverse(code: u32)
        ensures
            Self::spec_from_code(code) matches Some(e) ==> e.spec_code() == code,
    {
    }
}

} // verus!
