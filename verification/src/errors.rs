//! The error taxonomy of the wallet: every fallible operation surfaces one of
//! these to its direct caller; none is retried or recovered locally.

use vstd::prelude::*;

verus! {

/// What can go wrong across the keypair lifecycle, transaction
/// construction/signing, and the backup protocol.
#[derive(Clone, Copy, Debug, PartialEq, Eq, Structural)]
pub enum WalletError {
    /// The random source for key generation could not be used.
    EntropyError,
    /// The recipient is not a well-formed address for the target chain.
    InvalidAddressError,
    /// The secret key is malformed, so no signature could be produced.
    SigningError,
    /// The broadcast endpoint rejected the signed payload or was unreachable.
    SubmissionError,
    /// The backup endpoint was unreachable, returned a non-success status,
    /// or the payload it received was malformed.
    TransmissionError,
    /// An upload during a registry flush failed.
    FlushError,
}

impl WalletError {
    /// A short, stable description for operator-visible reporting.
    pub fn describe(&self) -> (r: &'static str)
        ensures
            r@ == self.describe_spec(),
    {
        proof {
            reveal_strlit("entropy source unavailable");
            reveal_strlit("invalid recipient address");
            reveal_strlit("malformed secret key");
            reveal_strlit("submission rejected or unreachable");
            reveal_strlit("backup transmission failed");
            reveal_strlit("flush upload failed");
        }
        match self {
            WalletError::EntropyError => "entropy source unavailable",
            WalletError::InvalidAddressError => "invalid recipient address",
            WalletError::SigningError => "malformed secret key",
            WalletError::SubmissionError => "submission rejected or unreachable",
            WalletError::TransmissionError => "backup transmission failed",
            WalletError::FlushError => "flush upload failed",
        }
    }

    pub open spec fn describe_spec(self) -> Seq<char> {
        match self {
            WalletError::EntropyError => "entropy source unavailable"@,
            WalletError::InvalidAddressError => "invalid recipient address"@,
            WalletError::SigningError => "malformed secret key"@,
            WalletError::SubmissionError => "submission rejected or unreachable"@,
            WalletError::TransmissionError => "backup transmission failed"@,
            WalletError::FlushError => "flush upload failed"@,
        }
    }
}

} // verus!
