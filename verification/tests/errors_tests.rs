use crypto_wallet::WalletError;

#[test]
fn every_failure_kind_has_a_readable_cause() {
    let kinds = [
        WalletError::InvalidKeyFormat,
        WalletError::CorruptRecord,
        WalletError::InvalidDestination,
        WalletError::InvalidAmount,
        WalletError::DuplicateName,
        WalletError::MalformedInterface,
        WalletError::SubmissionRejected,
        WalletError::ExecutionReverted,
        WalletError::ConfirmationTimeout,
        WalletError::TransportFailure,
    ];
    for kind in kinds {
        assert!(!kind.describe().is_empty());
    }
}

#[test]
fn causes_name_the_failure() {
    assert_eq!(
        WalletError::ConfirmationTimeout.describe(),
        "no receipt appeared within the polling bound"
    );
    assert_eq!(
        WalletError::ExecutionReverted.describe(),
        "the transaction was mined but reverted"
    );
}
