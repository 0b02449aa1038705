//! Keypair lifecycle: generation from a secure random source, restoration
//! from a hex-spelled secret, and the persisted secret record with its
//! integrity check.

use vstd::prelude::*;

use crate::addr::{account_id_of, derive_account_id};
use crate::errors::WalletError;
use crate::hexstr::{
    hex_decode, hex_decode_seq, hex_encode, hex_encode_seq, lemma_hex_encode_valid,
    lemma_hex_roundtrip, valid_hex,
};

verus! {

/// The order of the secp256k1 group: a secret scalar is valid exactly when
/// it is nonzero and below this bound.
pub open spec fn curve_order() -> nat {
    0xFFFFFFFFFFFFFFFFFFFFFFFFFFFFFFFEBAAEDCE6AF48A03BBFD25E8CD0364141nat
}

/// A byte string read as a big-endian natural number.
pub open spec fn be_bytes_nat(s: Seq<u8>) -> nat
    decreases s.len(),
{
    if s.len() == 0 {
        0
    } else {
        (be_bytes_nat(s.drop_last()) * 256 + s.last()) as nat
    }
}

/// A well-formed secret scalar: 32 bytes spelling a number in `1..curve_order()`.
pub open spec fn valid_scalar(s: Seq<u8>) -> bool {
    s.len() == 32 && 0 < be_bytes_nat(s) < curve_order()
}

/// The uncompressed 65-byte serialization of the public point obtained by
/// multiplying the curve generator with a secret scalar. The scalar
/// multiplication itself is not restated here; the point depends on the
/// scalar alone.
pub uninterp spec fn pubkey_of(secret: Seq<u8>) -> Seq<u8>;

/// Relies on `rand::rngs::OsRng` together with
/// `secp256k1::Secp256k1::generate_keypair`, which draws fresh 32-byte
/// strings until one verifies as a scalar in `1..curve_order()` and pairs it
/// with its public point; `SecretKey::secret_bytes` and
/// `PublicKey::serialize_uncompressed` hand both out as plain bytes.
/// Nothing is claimed about which scalar comes back, only that every
/// outcome is a valid, matching pair.
#[verifier::external_body]
fn secp_generate_keypair() -> (r: (Vec<u8>, Vec<u8>))
    ensures
        valid_scalar(r.0@),
        r.1@ == pubkey_of(r.0@),
        r.1@.len() == 65,
{
    let secp = secp256k1::Secp256k1::new();
    let mut rng = rand::rngs::OsRng::default();
    let (sk, pk) = secp.generate_keypair(&mut rng);
    (sk.secret_bytes().to_vec(), pk.serialize_uncompressed().to_vec())
}

/// Relies on `secp256k1::SecretKey::from_slice`, which accepts exactly the
/// 32-byte strings spelling a number in `1..curve_order()`, and on
/// `secp256k1::PublicKey::from_secret_key` with
/// `PublicKey::serialize_uncompressed`, which compute the matching public
/// point and serialize it to 65 bytes.
#[verifier::external_body]
fn secp_public_of_secret(secret: &[u8]) -> (r: Option<Vec<u8>>)
    ensures
        r is Some <==> valid_scalar(secret@),
        r is Some ==> r->0@ == pubkey_of(secret@) && r->0@.len() == 65,
{
    match secp256k1::SecretKey::from_slice(secret) {
        Ok(sk) => {
            let secp = secp256k1::Secp256k1::new();
            Some(secp256k1::PublicKey::from_secret_key(&secp, &sk).serialize_uncompressed().to_vec())
        },
        Err(_) => None,
    }
}

/// The only durable representation of a keypair: the secret and the derived
/// account identifier, both spelled in hex without a prefix.
pub struct KeyStorage {
    pub private_key: String,
    pub address: String,
}

/// A keypair held in memory: the secret scalar and the public point derived
/// from it. The two are only ever built together, so the public key can
/// never drift away from the secret.
pub struct Wallet {
    pub secret: Vec<u8>,
    pub public: Vec<u8>,
}

impl Wallet {
    /// The invariant every constructor establishes: a valid scalar, paired
    /// with exactly the public point it derives to.
    pub open spec fn wf(self) -> bool {
        &&& valid_scalar(self.secret@)
        &&& self.public@ == pubkey_of(self.secret@)
        &&& self.public@.len() == 65
    }

    /// The account identifier this keypair answers to, as the address
    /// string spells it.
    pub open spec fn spec_address(self) -> Seq<char> {
        hex_encode_seq(account_id_of(self.public@))
    }

    /// Generate a fresh keypair from the operating system's entropy source.
    pub fn new() -> (w: Wallet)
        ensures
            w.wf(),
    {
        let (secret, public) = secp_generate_keypair();
        Wallet { secret, public }
    }

    /// Restore a keypair from a hex-spelled secret. Fails with
    /// `InvalidKeyFormat` exactly when the string is not 64 hex digits or
    /// spells zero or a number at or above the curve order.
    pub fn restore(secret_hex: &str) -> (r: Result<Wallet, WalletError>)
        ensures
            r is Ok <==> valid_hex(secret_hex@) && valid_scalar(hex_decode_seq(secret_hex@)),
            r is Ok ==> r->Ok_0.wf() && r->Ok_0.secret@ == hex_decode_seq(secret_hex@),
            r is Err ==> r->Err_0 == WalletError::InvalidKeyFormat,
    {
        match hex_decode(secret_hex) {
            Some(secret) => match secp_public_of_secret(secret.as_slice()) {
                Some(public) => Ok(Wallet { secret, public }),
                None => Err(WalletError::InvalidKeyFormat),
            },
            None => Err(WalletError::InvalidKeyFormat),
        }
    }

    /// The account identifier, spelled as 40 lowercase hex digits. Always
    /// recomputed from the public key, never stored.
    pub fn get_address(&self) -> (r: String)
        requires
            self.wf(),
        ensures
            r@ == self.spec_address(),
    {
        let id = derive_account_id(self.public.as_slice());
        hex_encode(id.as_slice())
    }

    /// Export the keypair to its persisted record: the secret in hex and
    /// the derived account identifier beside it.
    pub fn export(&self) -> (r: KeyStorage)
        requires
            self.wf(),
        ensures
            r.private_key@ == hex_encode_seq(self.secret@),
            r.address@ == self.spec_address(),
    {
        KeyStorage { private_key: hex_encode(self.secret.as_slice()), address: self.get_address() }
    }

    /// Rebuild a keypair from a persisted record. Fails with
    /// `InvalidKeyFormat` when the stored secret is no valid scalar in hex,
    /// and with `CorruptRecord` when the stored address is not the one the
    /// secret derives to.
    pub fn import(record: &KeyStorage) -> (r: Result<Wallet, WalletError>)
        ensures
            r is Ok <==> valid_hex(record.private_key@) && valid_scalar(
                hex_decode_seq(record.private_key@),
            ) && record.address@ == hex_encode_seq(
                account_id_of(pubkey_of(hex_decode_seq(record.private_key@))),
            ),
            r is Ok ==> r->Ok_0.wf() && r->Ok_0.secret@ == hex_decode_seq(record.private_key@),
            r is Err ==> (r->Err_0 == WalletError::InvalidKeyFormat || r->Err_0
                == WalletError::CorruptRecord),
            r is Err && valid_hex(record.private_key@) && valid_scalar(
                hex_decode_seq(record.private_key@),
            ) ==> r->Err_0 == WalletError::CorruptRecord,
            r is Err && !(valid_hex(record.private_key@) && valid_scalar(
                hex_decode_seq(record.private_key@),
            )) ==> r->Err_0 == WalletError::InvalidKeyFormat,
    {
        match Self::restore(record.private_key.as_str()) {
            Ok(wallet) => {
                let derived = wallet.get_address();
                if derived == record.address {
                    Ok(wallet)
                } else {
                    Err(WalletError::CorruptRecord)
                }
            },
            Err(_) => Err(WalletError::InvalidKeyFormat),
        }
    }
}

/// Address derivation is deterministic: two keypairs built from the same
/// secret answer to the same account identifier.
pub proof fn lemma_address_deterministic(w1: Wallet, w2: Wallet)
    requires
        w1.wf(),
        w2.wf(),
        w1.secret@ == w2.secret@,
    ensures
        w1.spec_address() == w2.spec_address(),
{
}

/// Importing an exported record succeeds, and the keypair it yields answers
/// to the same account identifier as the one exported: the record meets
/// `import`'s success condition, and the secret it spells is the original.
pub proof fn lemma_export_import_roundtrip(w: Wallet)
    requires
        w.wf(),
    ensures
        valid_hex(hex_encode_seq(w.secret@)),
        hex_decode_seq(hex_encode_seq(w.secret@)) == w.secret@,
        valid_scalar(hex_decode_seq(hex_encode_seq(w.secret@))),
        w.spec_address() == hex_encode_seq(
            account_id_of(pubkey_of(hex_decode_seq(hex_encode_seq(w.secret@)))),
        ),
{
    lemma_hex_encode_valid(w.secret@);
    lemma_hex_roundtrip(w.secret@);
}

} // verus!
