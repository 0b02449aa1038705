use vstd::prelude::*;

verus! {

/// Every failure the library reports, one variant per failure kind.
#[derive(Clone, Copy, Debug, PartialEq, Eq, Structural)]
pub enum WalletError {
    /// A secret given as hex is malformed or outside the curve's scalar range.
    InvalidKeyFormat,
    /// A persisted secret record whose stored address does not match the key.
    CorruptRecord,
    /// A destination address that is not 20 bytes of hex.
    InvalidDestination,
    /// A value string that is not an unsigned 256-bit decimal number.
    InvalidAmount,
    /// Two contract records in one registry share a name.
    DuplicateName,
    /// A contract record whose interface document could not be parsed.
    MalformedInterface,
    /// The node refused a submitted transaction.
    SubmissionRejected,
    /// A mined receipt reported failure status.
    ExecutionReverted,
    /// No receipt appeared within the configured number of polls.
    ConfirmationTimeout,
    /// The transport to the node failed.
    TransportFailure,
}

impl WalletError {
    /// The human-readable cause each failure kind reports.
    pub open spec fn spec_describe(self) -> Seq<char> {
        match self {
            WalletError::InvalidKeyFormat => "the secret is not a valid key in hex"@,
            WalletError::CorruptRecord => "the stored address does not match the stored key"@,
            WalletError::InvalidDestination => "the destination is not a 20-byte hex address"@,
            WalletError::InvalidAmount => "the amount is not an unsigned 256-bit decimal number"@,
            WalletError::DuplicateName => "two contract records share a name"@,
            WalletError::MalformedInterface => "a contract interface document could not be parsed"@,
            WalletError::SubmissionRejected => "the node refused the transaction"@,
            WalletError::ExecutionReverted => "the transaction was mined but reverted"@,
            WalletError::ConfirmationTimeout => "no receipt appeared within the polling bound"@,
            WalletError::TransportFailure => "the connection to the node failed"@,
        }
    }

    /// Spell this failure out for the caller's report.
    pub fn describe(&self) -> (r: String)
        ensures
            r@ == self.spec_describe(),
    {
        match self {
            WalletError::InvalidKeyFormat => "the secret is not a valid key in hex".to_owned(),
            WalletError::CorruptRecord => "the stored address does not match the stored key".to_owned(),
            WalletError::InvalidDestination => "the destination is not a 20-byte hex address".to_owned(),
            WalletError::InvalidAmount => "the amount is not an unsigned 256-bit decimal number".to_owned(),
            WalletError::DuplicateName => "two contract records share a name".to_owned(),
            WalletError::MalformedInterface => "a contract interface document could not be parsed".to_owned(),
            WalletError::SubmissionRejected => "the node refused the transaction".to_owned(),
            WalletError::ExecutionReverted => "the transaction was mined but reverted".to_owned(),
            WalletError::ConfirmationTimeout => "no receipt appeared within the polling bound".to_owned(),
            WalletError::TransportFailure => "the connection to the node failed".to_owned(),
        }
    }
}

} // verus!
