use crypto_wallet::{KeyStorage, Wallet, WalletError};

// The account everyone derives for the secret scalar 1: the generator
// point's Keccak-derived address.
const ADDR_OF_ONE: &str = "7e5f4552091a69125d5dfcb7b8c2659029395bdf";
const SECRET_ONE: &str = "0000000000000000000000000000000000000000000000000000000000000001";

#[test]
fn generated_wallet_has_stable_address() {
    let w = Wallet::new();
    let a1 = w.get_address();
    let a2 = w.get_address();
    assert_eq!(a1, a2);
    assert_eq!(a1.len(), 40);
}

#[test]
fn restore_is_deterministic_across_calls() {
    let w1 = Wallet::restore(SECRET_ONE).unwrap();
    let w2 = Wallet::restore(SECRET_ONE).unwrap();
    assert_eq!(w1.get_address(), w2.get_address());
}

#[test]
fn restore_matches_known_address() {
    let w = Wallet::restore(SECRET_ONE).unwrap();
    assert_eq!(w.get_address(), ADDR_OF_ONE);
}

#[test]
fn restore_accepts_uppercase_hex() {
    let upper = SECRET_ONE.to_uppercase();
    let w = Wallet::restore(&upper).unwrap();
    assert_eq!(w.get_address(), ADDR_OF_ONE);
}

#[test]
fn restore_rejects_wrong_length() {
    assert_eq!(Wallet::restore("abcd").err().unwrap(), WalletError::InvalidKeyFormat);
    let long = "00".repeat(33);
    assert_eq!(Wallet::restore(&long).err().unwrap(), WalletError::InvalidKeyFormat);
}

#[test]
fn restore_rejects_non_hex() {
    let bad = "zz".repeat(32);
    assert_eq!(Wallet::restore(&bad).err().unwrap(), WalletError::InvalidKeyFormat);
}

#[test]
fn restore_rejects_zero_scalar() {
    let zero = "00".repeat(32);
    assert_eq!(Wallet::restore(&zero).err().unwrap(), WalletError::InvalidKeyFormat);
}

#[test]
fn restore_rejects_scalar_at_or_above_order() {
    let order = "fffffffffffffffffffffffffffffffebaaedce6af48a03bbfd25e8cd0364141";
    assert_eq!(Wallet::restore(order).err().unwrap(), WalletError::InvalidKeyFormat);
    let high = "ff".repeat(32);
    assert_eq!(Wallet::restore(&high).err().unwrap(), WalletError::InvalidKeyFormat);
}

#[test]
fn restore_accepts_scalar_just_below_order() {
    let below = "fffffffffffffffffffffffffffffffebaaedce6af48a03bbfd25e8cd0364140";
    assert!(Wallet::restore(below).is_ok());
}

#[test]
fn export_import_roundtrip_keeps_address() {
    let w = Wallet::new();
    let record = w.export();
    let restored = Wallet::import(&record).unwrap();
    assert_eq!(restored.get_address(), w.get_address());
}

#[test]
fn export_spells_secret_in_lowercase_hex() {
    let upper = SECRET_ONE.to_uppercase();
    let w = Wallet::restore(&upper).unwrap();
    let record = w.export();
    assert_eq!(record.private_key, SECRET_ONE);
    assert_eq!(record.address, ADDR_OF_ONE);
}

#[test]
fn import_rejects_mismatched_address() {
    let record = KeyStorage {
        private_key: SECRET_ONE.to_string(),
        address: "0".repeat(40),
    };
    assert_eq!(Wallet::import(&record).err().unwrap(), WalletError::CorruptRecord);
}

#[test]
fn import_rejects_malformed_secret() {
    let record = KeyStorage {
        private_key: "not hex at all".to_string(),
        address: ADDR_OF_ONE.to_string(),
    };
    assert_eq!(Wallet::import(&record).err().unwrap(), WalletError::InvalidKeyFormat);
}

#[test]
fn two_generated_wallets_differ() {
    let w1 = Wallet::new();
    let w2 = Wallet::new();
    assert_ne!(w1.get_address(), w2.get_address());
}
