//! The library's error taxonomy. Every failure is local to the operation
//! that raised it and carries a human-readable description.

use vstd::prelude::*;

verus! {

/// What can go wrong around the relay and its collaborators.
#[derive(Debug)]
pub enum PortoError {
    /// Failed to connect to a wallet.
    WalletConnectionError(String),
    /// Failed to create an account.
    AccountCreationError(String),
    /// Failed to onramp funds.
    OnrampError(String),
    /// Failed to initialize an account.
    InitializationError(String),
    /// A cryptographic operation failed.
    CryptoError(String),
    /// Dialog communication failed.
    DialogError(String),
}

impl PortoError {
    /// The description carried by the error.
    pub open spec fn spec_message(&self) -> Seq<char> {
        match self {
            PortoError::WalletConnectionError(s) => s@,
            PortoError::AccountCreationError(s) => s@,
            PortoError::OnrampError(s) => s@,
            PortoError::InitializationError(s) => s@,
            PortoError::CryptoError(s) => s@,
            PortoError::DialogError(s) => s@,
        }
    }

    /// The description carried by the error.
    pub fn message(&self) -> (r: &str)
        ensures
            r@ == self.spec_message(),
    {
        match self {
            PortoError::WalletConnectionError(s) => s.as_str(),
            PortoError::AccountCreationError(s) => s.as_str(),
            PortoError::OnrampError(s) => s.as_str(),
            PortoError::InitializationError(s) => s.as_str(),
            PortoError::CryptoError(s) => s.as_str(),
            PortoError::DialogError(s) => s.as_str(),
        }
    }
}

} // verus!
