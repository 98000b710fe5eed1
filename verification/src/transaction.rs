//! Transaction construction: recipient addresses, unsigned transfer
//! requests, and their canonical byte encoding.

use vstd::prelude::*;

use crate::errors::WalletError;
use crate::hex::{hex_val, hex_val_exec, is_hex_digit};
use vstd::string::StringSliceAdditionalSpecFns;

verus! {

/// A well-formed recipient address for the target chain, written as text:
/// `0x` followed by exactly 40 hexadecimal digits.
pub open spec fn valid_address_text(s: Seq<u8>) -> bool {
    &&& s.len() == 42
    &&& s[0] == 0x30u8  // '0'
    &&& s[1] == 0x78u8  // 'x'
    &&& forall|i: int| 2 <= i < 42 ==> is_hex_digit(#[trigger] s[i])
}

/// The 20 address bytes denoted by a well-formed address text.
pub open spec fn address_bytes_of(s: Seq<u8>) -> Seq<u8> {
    Seq::new(20, |i: int| (hex_val(s[2 + 2 * i]) * 16 + hex_val(s[3 + 2 * i])) as u8)
}

/// A recipient address: 20 raw bytes.
#[derive(Debug)]
pub struct Address {
    pub bytes: Vec<u8>,
}

impl Address {
    pub open spec fn wf(self) -> bool {
        self.bytes@.len() == 20
    }
}

/// An unsigned description of a value transfer: recipient and amount in the
/// smallest chain unit. Created per transfer and consumed once by signing.
#[derive(Debug)]
pub struct TransactionRequest {
    pub recipient: Address,
    pub value: u128,
}

/// Parses a recipient address, accepting exactly the well-formed texts:
/// `0x` followed by 40 hexadecimal digits (either letter case).
pub fn parse_address(s: &str) -> (r: Result<Address, WalletError>)
    ensures
        r is Ok <==> valid_address_text(s.spec_bytes()),
        r matches Ok(a) ==> a.wf() && a.bytes@ == address_bytes_of(s.spec_bytes()),
        r matches Err(e) ==> e == WalletError::InvalidAddressError,
{
    let b = s.as_bytes();
    if b.len() != 42 {
        return Err(WalletError::InvalidAddressError);
    }
    if b[0] != 0x30 || b[1] != 0x78 {
        return Err(WalletError::InvalidAddressError);
    }
    let mut out: Vec<u8> = Vec::new();
    let mut i: usize = 0;
    while i < 20
        invariant
            b@ == s.spec_bytes(),
            b@.len() == 42,
            i <= 20,
            out@.len() == i,
            forall|j: int| 2 <= j < 2 + 2 * i ==> is_hex_digit(#[trigger] b@[j]),
            forall|k: int| 0 <= k < i ==> out@[k] == address_bytes_of(b@)[k],
        decreases 20 - i,
    {
        let hi = match hex_val_exec(b[2 + 2 * i]) {
            Some(v) => v,
            None => {
                proof {
                    assert(!is_hex_digit(b@[2 + 2 * (i as int)]));
                    assert(!valid_address_text(b@));
                }
                return Err(WalletError::InvalidAddressError);
            },
        };
        let lo = match hex_val_exec(b[3 + 2 * i]) {
            Some(v) => v,
            None => {
                proof {
                    assert(!is_hex_digit(b@[3 + 2 * (i as int)]));
                    assert(!valid_address_text(b@));
                }
                return Err(WalletError::InvalidAddressError);
            },
        };
        out.push(hi * 16 + lo);
        i += 1;
    }
    proof {
        assert(out@ =~= address_bytes_of(b@));
    }
    Ok(Address { bytes: out })
}

/// Builds a transfer request whose fields exactly match the inputs: the
/// parsed form of `recipient` and `value_wei` unchanged. Rejects exactly the
/// recipients that are not well-formed address texts.
pub fn build_transaction(recipient: &str, value_wei: u128) -> (r: Result<
    TransactionRequest,
    WalletError,
>)
    ensures
        r is Ok <==> valid_address_text(recipient.spec_bytes()),
        r matches Ok(t) ==> t.recipient.bytes@ == address_bytes_of(recipient.spec_bytes())
            && t.recipient.wf() && t.value == value_wei,
        r matches Err(e) ==> e == WalletError::InvalidAddressError,
{
    let recipient = parse_address(recipient)?;
    Ok(TransactionRequest { recipient, value: value_wei })
}

/// Builds a transfer request from an already well-formed recipient address:
/// its fields exactly match the inputs, with no mutation or rounding. Any
/// denomination conversion is the caller's, made before the value is handed
/// in.
pub fn create_txn_object(to: Address, value: u128) -> (r: Result<TransactionRequest, WalletError>)
    ensures
        r matches Ok(t) && t.recipient == to && t.value == value,
{
    Ok(TransactionRequest { recipient: to, value })
}

/// The canonical encoding a transaction is signed over: the 20 recipient
/// bytes followed by the value in 16 big-endian bytes.
pub open spec fn tx_encoding(t: TransactionRequest) -> Seq<u8> {
    t.recipient.bytes@ + u128_be_bytes(t.value)
}

/// The 16-byte big-endian encoding of a 128-bit value.
pub open spec fn u128_be_bytes(v: u128) -> Seq<u8> {
    Seq::new(16, |i: int| (v >> (((15 - i) * 8) as u128)) as u8)
}

/// The canonical byte encoding of a transaction request.
pub fn encode_transaction(t: &TransactionRequest) -> (r: Vec<u8>)
    ensures
        r@ == tx_encoding(*t),
{
    let mut out: Vec<u8> = Vec::new();
    crate::hex::append_bytes(&mut out, &t.recipient.bytes);
    let mut k: usize = 0;
    while k < 16
        invariant
            k <= 16,
            out@.len() == t.recipient.bytes@.len() + k,
            out@.subrange(0, t.recipient.bytes@.len() as int) == t.recipient.bytes@,
            forall|j: int|
                0 <= j < k ==> out@[t.recipient.bytes@.len() + j] == #[trigger] u128_be_bytes(
                    t.value,
                )[j],
        decreases 16 - k,
    {
        let shift: u128 = ((15 - k) * 8) as u128;
        out.push((t.value >> shift) as u8);
        k += 1;
    }
    proof {
        assert(out@ =~= tx_encoding(*t));
    }
    out
}

} // verus!
