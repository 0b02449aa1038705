//! Transaction construction: validated transfer and invocation intents,
//! the 256-bit wei amount with its decimal parser, call-data selectors, and
//! the bounded confirmation state machine that classifies receipts.

use vstd::prelude::*;

use vstd::arithmetic::div_mod::lemma_fundamental_div_mod;
use vstd::slice::{slice_subrange, slice_to_vec};
use vstd::string::StrSliceExecFns;
use crate::addr::{keccak256, keccak256_of};
use crate::errors::WalletError;
use crate::hexstr::{hex_decode_seq, parse_destination, valid_hex};
use crate::registry::{function_names, SmartContract};

verus! {

/// An unsigned 256-bit wei amount, held as four 64-bit limbs, least
/// significant first.
#[derive(Clone, Copy, PartialEq, Eq, Structural, Debug)]
pub struct Amount {
    pub l0: u64,
    pub l1: u64,
    pub l2: u64,
    pub l3: u64,
}

/// The bound an `Amount` always stays under.
pub open spec fn amount_limit() -> nat {
    0x10000000000000000000000000000000000000000000000000000000000000000nat
}

impl Amount {
    /// The number this amount holds.
    pub open spec fn value(self) -> nat {
        (self.l0 + self.l1 * 0x10000000000000000nat + self.l2
            * 0x100000000000000000000000000000000nat + self.l3
            * 0x1000000000000000000000000000000000000000000000000nat) as nat
    }

    /// The zero amount, the value of a pure invocation.
    pub fn zero() -> (r: Amount)
        ensures
            r.value() == 0,
    {
        Amount { l0: 0, l1: 0, l2: 0, l3: 0 }
    }
}

/// True of the ten decimal digit characters.
pub open spec fn is_dec_digit(c: char) -> bool {
    48 <= c as u32 <= 57
}

/// The numeric value of one decimal digit, zero for any other character.
pub open spec fn dec_digit_val(c: char) -> nat {
    if 48 <= c as u32 <= 57 {
        (c as u32 - 48) as nat
    } else {
        0
    }
}

/// The number a decimal string spells, most significant digit first.
pub open spec fn dec_value(s: Seq<char>) -> nat
    decreases s.len(),
{
    if s.len() == 0 {
        0
    } else {
        (dec_value(s.drop_last()) * 10 + dec_digit_val(s.last())) as nat
    }
}

/// A string `parse_amount` accepts: nonempty, decimal digits throughout,
/// spelling a number below 2^256.
pub open spec fn valid_amount_str(s: Seq<char>) -> bool {
    &&& s.len() > 0
    &&& forall|i: int| 0 <= i < s.len() ==> is_dec_digit(#[trigger] s[i])
    &&& dec_value(s) < amount_limit()
}

/// The number a prefix spells never exceeds the number the whole string
/// spells.
proof fn lemma_dec_value_prefix_le(s: Seq<char>, i: int)
    requires
        0 <= i <= s.len(),
    ensures
        dec_value(s.subrange(0, i)) <= dec_value(s),
    decreases s.len() - i,
{
    if i < s.len() {
        assert(s.subrange(0, i + 1).drop_last() =~= s.subrange(0, i));
        assert(s.subrange(0, i + 1).last() == s[i]);
        lemma_dec_value_prefix_le(s, i + 1);
    } else {
        assert(s.subrange(0, i) =~= s);
    }
}

/// Parse a decimal wei amount. Fails with `InvalidAmount` exactly when the
/// string is empty, holds a non-digit, or spells a number of 2^256 or more.
pub fn parse_amount(s: &str) -> (r: Result<Amount, WalletError>)
    ensures
        r is Ok <==> valid_amount_str(s@),
        r is Ok ==> r->Ok_0.value() == dec_value(s@),
        r is Err ==> r->Err_0 == WalletError::InvalidAmount,
{
    let len = s.unicode_len();
    if len == 0 {
        return Err(WalletError::InvalidAmount);
    }
    let mut a = Amount { l0: 0, l1: 0, l2: 0, l3: 0 };
    let mut i: usize = 0;
    while i < len
        invariant
            i <= len,
            len == s@.len(),
            forall|j: int| 0 <= j < i ==> is_dec_digit(#[trigger] s@[j]),
            a.value() == dec_value(s@.subrange(0, i as int)),
        decreases len - i,
    {
        let c = s.get_char(i);
        let v = c as u32;
        if !(48 <= v && v <= 57) {
            return Err(WalletError::InvalidAmount);
        }
        let d: u64 = (v - 48) as u64;
        proof {
            assert(s@.subrange(0, i + 1).drop_last() =~= s@.subrange(0, i as int));
            assert(s@.subrange(0, i + 1).last() == s@[i as int]);
        }
        let b: u128 = 0x10000000000000000;
        let t0: u128 = a.l0 as u128 * 10 + d as u128;
        proof {
            lemma_fundamental_div_mod(t0 as int, b as int);
            assert(t0 / b < 16) by {
                assert(t0 < 16 * (b as int));
            }
        }
        let c1: u128 = t0 / b;
        let t1: u128 = a.l1 as u128 * 10 + c1;
        proof {
            lemma_fundamental_div_mod(t1 as int, b as int);
            assert(t1 / b < 16) by {
                assert(t1 < 16 * (b as int));
            }
        }
        let c2: u128 = t1 / b;
        let t2: u128 = a.l2 as u128 * 10 + c2;
        proof {
            lemma_fundamental_div_mod(t2 as int, b as int);
            assert(t2 / b < 16) by {
                assert(t2 < 16 * (b as int));
            }
        }
        let c3: u128 = t2 / b;
        let t3: u128 = a.l3 as u128 * 10 + c3;
        proof {
            lemma_fundamental_div_mod(t3 as int, b as int);
            assert(t3 / b < 16) by {
                assert(t3 < 16 * (b as int));
            }
        }
        let c4: u128 = t3 / b;
        let next = Amount {
            l0: (t0 % b) as u64,
            l1: (t1 % b) as u64,
            l2: (t2 % b) as u64,
            l3: (t3 % b) as u64,
        };
        proof {
            assert(next.value() + c4 * amount_limit() == a.value() * 10 + d);
        }
        if c4 != 0 {
            proof {
                assert(dec_value(s@.subrange(0, i + 1)) >= amount_limit());
                lemma_dec_value_prefix_le(s@, i + 1);
            }
            return Err(WalletError::InvalidAmount);
        }
        a = next;
        i = i + 1;
    }
    proof {
        assert(s@.subrange(0, len as int) =~= s@);
    }
    Ok(a)
}

/// What a transaction means to do: move value, or invoke a contract
/// function.
#[derive(Clone, Copy, PartialEq, Eq, Structural, Debug)]
pub enum TxKind {
    Transfer,
    Invocation,
}

/// A transaction ready to be signed: built fresh per operation, never
/// reused across submissions.
#[derive(Debug)]
pub struct TransactionIntent {
    pub kind: TxKind,
    pub destination: Vec<u8>,
    pub value: Amount,
    pub payload: Vec<u8>,
    pub gas_limit: u64,
    pub nonce: u64,
}

/// The gas limit of a plain transfer.
pub fn transfer_gas_limit() -> (r: u64)
    ensures
        r == 21000,
{
    21000
}

/// Build a transfer intent from a bare-hex destination, a decimal wei
/// amount, and the network-supplied nonce. Rejects a malformed destination
/// with `InvalidDestination` and a malformed amount with `InvalidAmount`,
/// in that order, before anything touches the network.
pub fn build_transfer(to: &str, amount: &str, nonce: u64) -> (r: Result<
    TransactionIntent,
    WalletError,
>)
    ensures
        r is Ok <==> (valid_hex(to@) && to@.len() == 40 && valid_amount_str(amount@)),
        r is Ok ==> r->Ok_0.kind == TxKind::Transfer && r->Ok_0.destination@ == hex_decode_seq(to@)
            && r->Ok_0.value.value() == dec_value(amount@) && r->Ok_0.payload@.len() == 0
            && r->Ok_0.gas_limit == 21000 && r->Ok_0.nonce == nonce,
        !(valid_hex(to@) && to@.len() == 40) ==> r is Err && r->Err_0
            == WalletError::InvalidDestination,
        (valid_hex(to@) && to@.len() == 40 && !valid_amount_str(amount@)) ==> r is Err && r->Err_0
            == WalletError::InvalidAmount,
{
    let destination = match parse_destination(to) {
        Ok(d) => d,
        Err(e) => {
            return Err(e);
        },
    };
    let value = match parse_amount(amount) {
        Ok(v) => v,
        Err(e) => {
            return Err(e);
        },
    };
    Ok(
        TransactionIntent {
            kind: TxKind::Transfer,
            destination,
            value,
            payload: Vec::new(),
            gas_limit: transfer_gas_limit(),
            nonce,
        },
    )
}

/// The call-data bytes of a zero-argument function's signature: the
/// function name followed by an empty parameter list.
pub open spec fn signature_bytes(name: Seq<char>) -> Seq<u8> {
    vstd::utf8::encode_utf8(name) + seq![40u8, 41u8]
}

/// The four-byte selector of a function signature: the leading bytes of
/// its Keccak-256 digest.
pub open spec fn selector_of(signature: Seq<u8>) -> Seq<u8> {
    keccak256_of(signature).subrange(0, 4)
}

/// True when a descriptor's interface document lists a callable function
/// of the given name.
pub open spec fn lists_function(c: SmartContract, name: Seq<char>) -> bool {
    c.abi is Some && function_names(c.abi->0@).contains(name)
}

/// A resolved stateless contract call: where to send it and the call data
/// that selects the function.
#[derive(Debug)]
pub struct CallRequest {
    pub destination: Vec<u8>,
    pub selector: Vec<u8>,
}

/// Resolve a zero-argument function call against a contract descriptor:
/// the descriptor's address must be 20 bytes of hex, else
/// `InvalidDestination`, and its interface document must list the function
/// as callable, else `MalformedInterface`.
pub fn build_call(contract: &SmartContract, function_name: &str) -> (r: Result<
    CallRequest,
    WalletError,
>)
    ensures
        r is Ok <==> (valid_hex(contract.address@) && contract.address@.len() == 40
            && lists_function(*contract, function_name@)),
        r is Ok ==> r->Ok_0.destination@ == hex_decode_seq(contract.address@)
            && r->Ok_0.selector@ == selector_of(signature_bytes(function_name@)),
        !(valid_hex(contract.address@) && contract.address@.len() == 40) ==> r is Err && r->Err_0
            == WalletError::InvalidDestination,
        (valid_hex(contract.address@) && contract.address@.len() == 40 && !lists_function(
            *contract,
            function_name@,
        )) ==> r is Err && r->Err_0 == WalletError::MalformedInterface,
{
    let destination = match parse_destination(contract.address.as_str()) {
        Ok(d) => d,
        Err(e) => {
            return Err(e);
        },
    };
    let funcs = contract.get_functions();
    let wanted: String = function_name.to_owned();
    let n = funcs.len();
    let mut i: usize = 0;
    let mut found = false;
    while i < n
        invariant
            i <= n,
            n == funcs@.len(),
            wanted@ == function_name@,
            found <==> exists|j: int| 0 <= j < i && funcs.deep_view()[j] == function_name@,
        decreases n - i,
    {
        if funcs[i] == wanted {
            proof {
                assert(funcs.deep_view()[i as int] == function_name@);
            }
            found = true;
        }
        i = i + 1;
    }
    if !found {
        proof {
            if lists_function(*contract, function_name@) {
                let names = function_names(contract.abi->0@);
                let k = choose|k: int| 0 <= k < names.len() && names[k] == function_name@;
                assert(funcs.deep_view()[k] == function_name@);
            }
        }
        return Err(WalletError::MalformedInterface);
    }
    proof {
        let j = choose|j: int| 0 <= j < n && funcs.deep_view()[j] == function_name@;
        assert(function_names(contract.abi->0@).contains(function_name@)) by {
            assert(function_names(contract.abi->0@)[j] == function_name@);
        }
    }
    let mut signature = function_name.as_bytes_vec();
    signature.push(40);
    signature.push(41);
    proof {
        assert(signature@ =~= signature_bytes(function_name@));
    }
    let digest = keccak256(signature.as_slice());
    let selector = slice_to_vec(slice_subrange(digest.as_slice(), 0, 4));
    Ok(CallRequest { destination, selector })
}

/// Build an invocation intent for a zero-argument, non-payable function of
/// a known contract: the call data is the function's selector, the value
/// zero, the gas and nonce as the network supplied them.
pub fn build_invocation(
    contract: &SmartContract,
    function_name: &str,
    gas_limit: u64,
    nonce: u64,
) -> (r: Result<TransactionIntent, WalletError>)
    ensures
        r is Ok <==> (valid_hex(contract.address@) && contract.address@.len() == 40
            && lists_function(*contract, function_name@)),
        r is Ok ==> r->Ok_0.kind == TxKind::Invocation && r->Ok_0.destination@ == hex_decode_seq(
            contract.address@,
        ) && r->Ok_0.value.value() == 0 && r->Ok_0.payload@ == selector_of(
            signature_bytes(function_name@),
        ) && r->Ok_0.gas_limit == gas_limit && r->Ok_0.nonce == nonce,
        !(valid_hex(contract.address@) && contract.address@.len() == 40) ==> r is Err && r->Err_0
            == WalletError::InvalidDestination,
        (valid_hex(contract.address@) && contract.address@.len() == 40 && !lists_function(
            *contract,
            function_name@,
        )) ==> r is Err && r->Err_0 == WalletError::MalformedInterface,
{
    match build_call(contract, function_name) {
        Ok(call) => Ok(
            TransactionIntent {
                kind: TxKind::Invocation,
                destination: call.destination,
                value: Amount::zero(),
                payload: call.selector,
                gas_limit,
                nonce,
            },
        ),
        Err(e) => Err(e),
    }
}

} // verus!
