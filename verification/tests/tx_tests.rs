use crypto_wallet::tx::{
    build_call, build_invocation, build_transfer, parse_amount, Amount, TxKind,
};
use crypto_wallet::{AbiEntry, SmartContract, WalletError};

const DEST: &str = "11f4d0a3c12e86b4b5f39b213f7e19d048276dae";

fn counter_contract() -> SmartContract {
    SmartContract::new(
        "Counter".to_string(),
        DEST.to_string(),
        Some(vec![
            AbiEntry { entry_type: "function".to_string(), name: "getCount".to_string() },
            AbiEntry { entry_type: "function".to_string(), name: "increment".to_string() },
        ]),
    )
}

#[test]
fn parse_amount_reads_decimal() {
    let a = parse_amount("0").unwrap();
    assert_eq!(a, Amount { l0: 0, l1: 0, l2: 0, l3: 0 });
    let a = parse_amount("1000000000000000000").unwrap();
    assert_eq!(a.l0, 1_000_000_000_000_000_000);
    assert_eq!((a.l1, a.l2, a.l3), (0, 0, 0));
}

#[test]
fn parse_amount_carries_into_upper_limbs() {
    // 2^64 lands exactly in the second limb.
    let a = parse_amount("18446744073709551616").unwrap();
    assert_eq!((a.l0, a.l1, a.l2, a.l3), (0, 1, 0, 0));
}

#[test]
fn parse_amount_accepts_largest_value() {
    let max =
        "115792089237316195423570985008687907853269984665640564039457584007913129639935";
    let a = parse_amount(max).unwrap();
    assert_eq!((a.l0, a.l1, a.l2, a.l3), (u64::MAX, u64::MAX, u64::MAX, u64::MAX));
}

#[test]
fn parse_amount_rejects_overflow() {
    let too_big =
        "115792089237316195423570985008687907853269984665640564039457584007913129639936";
    assert_eq!(parse_amount(too_big).unwrap_err(), WalletError::InvalidAmount);
}

#[test]
fn parse_amount_rejects_empty_and_non_digits() {
    assert_eq!(parse_amount("").unwrap_err(), WalletError::InvalidAmount);
    assert_eq!(parse_amount("12a").unwrap_err(), WalletError::InvalidAmount);
    assert_eq!(parse_amount("-5").unwrap_err(), WalletError::InvalidAmount);
}

#[test]
fn build_transfer_fills_all_fields() {
    let intent = build_transfer(DEST, "42", 7).unwrap();
    assert_eq!(intent.kind, TxKind::Transfer);
    assert_eq!(intent.destination, hex::decode(DEST).unwrap());
    assert_eq!(intent.value, Amount { l0: 42, l1: 0, l2: 0, l3: 0 });
    assert!(intent.payload.is_empty());
    assert_eq!(intent.gas_limit, 21000);
    assert_eq!(intent.nonce, 7);
}

#[test]
fn build_transfer_rejects_malformed_destination() {
    // Wrong length.
    assert_eq!(
        build_transfer("11f4d0", "42", 0).unwrap_err(),
        WalletError::InvalidDestination
    );
    // Not hex.
    let bad = "zz".repeat(20);
    assert_eq!(
        build_transfer(&bad, "42", 0).unwrap_err(),
        WalletError::InvalidDestination
    );
}

#[test]
fn build_transfer_rejects_bad_amount_after_destination() {
    assert_eq!(
        build_transfer(DEST, "ten", 0).unwrap_err(),
        WalletError::InvalidAmount
    );
    // A bad destination is reported first even when the amount is bad too.
    assert_eq!(
        build_transfer("nope", "ten", 0).unwrap_err(),
        WalletError::InvalidDestination
    );
}

#[test]
fn build_call_resolves_selector() {
    let call = build_call(&counter_contract(), "increment").unwrap();
    assert_eq!(call.destination, hex::decode(DEST).unwrap());
    // The well-known selector of increment().
    assert_eq!(call.selector, vec![0xd0, 0x9d, 0xe0, 0x8a]);
}

#[test]
fn build_call_selector_matches_digest() {
    let call = build_call(&counter_contract(), "getCount").unwrap();
    let digest = web3::signing::keccak256(b"getCount()");
    assert_eq!(call.selector, digest[..4].to_vec());
}

#[test]
fn build_call_rejects_unlisted_function() {
    assert_eq!(
        build_call(&counter_contract(), "selfdestruct").unwrap_err(),
        WalletError::MalformedInterface
    );
}

#[test]
fn build_call_rejects_bad_contract_address() {
    let broken = SmartContract::new(
        "Broken".to_string(),
        "123".to_string(),
        Some(vec![AbiEntry {
            entry_type: "function".to_string(),
            name: "getCount".to_string(),
        }]),
    );
    assert_eq!(
        build_call(&broken, "getCount").unwrap_err(),
        WalletError::InvalidDestination
    );
}

#[test]
fn build_invocation_fills_all_fields() {
    let intent = build_invocation(&counter_contract(), "increment", 100_000, 3).unwrap();
    assert_eq!(intent.kind, TxKind::Invocation);
    assert_eq!(intent.destination, hex::decode(DEST).unwrap());
    assert_eq!(intent.value, Amount { l0: 0, l1: 0, l2: 0, l3: 0 });
    assert_eq!(intent.payload, vec![0xd0, 0x9d, 0xe0, 0x8a]);
    assert_eq!(intent.gas_limit, 100_000);
    assert_eq!(intent.nonce, 3);
}
