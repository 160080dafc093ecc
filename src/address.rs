//! Twenty-byte account addresses and their text form.
use vstd::prelude::*;
use vstd::slice::slice_subrange;
use vstd::string::StringSliceAdditionalSpecFns;
use crate::encoding::{decode_hex, hex_decoded, is_hex_text, prefixed_hex, prefixed_hex_text};
use crate::error::VaultError;

verus! {

/// Number of bytes in an address.
pub const ADDRESS_BYTES: usize = 20;

/// An account identifier derived from a public key.
#[derive(Debug, Clone)]
pub struct Address {
    pub bytes: Vec<u8>,
}

impl Address {
    pub open spec fn wf(&self) -> bool {
        self.bytes@.len() == ADDRESS_BYTES
    }

    /// The address as text: `0x` and forty lower-case hex digits.
    pub fn to_text(&self) -> (r: String)
        ensures
            r@ == address_text(self.bytes@),
    {
        prefixed_hex(self.bytes.as_slice())
    }
}

/// The text form of an address.
pub open spec fn address_text(b: Seq<u8>) -> Seq<char> {
    prefixed_hex_text(b)
}

/// Address text with an optional leading `0x` removed.
pub open spec fn hex_body(s: Seq<u8>) -> Seq<u8> {
    if s.len() >= 2 && s[0] == 48 && s[1] == 120 {
        s.subrange(2, s.len() as int)
    } else {
        s
    }
}

/// Text that names an address: forty hex digits, optionally after `0x`.
pub open spec fn is_address_text(s: Seq<u8>) -> bool {
    hex_body(s).len() == 2 * ADDRESS_BYTES && is_hex_text(hex_body(s))
}

/// The address that address text names.
pub open spec fn address_of_text(s: Seq<u8>) -> Seq<u8> {
    hex_decoded(hex_body(s))
}

/// Reads an address from its text form.
pub fn parse_address(s: &str) -> (r: Result<Address, VaultError>)
    ensures
        r is Ok <==> is_address_text(s.spec_bytes()),
        r matches Ok(a) ==> a.wf() && a.bytes@ == address_of_text(s.spec_bytes()),
        r matches Err(e) ==> e == VaultError::InvalidAddress,
{
    let b = s.as_bytes();
    let body = if b.len() >= 2 && b[0] == 48 && b[1] == 120 {
        slice_subrange(b, 2, b.len())
    } else {
        b
    };
    assert(body@ == hex_body(s.spec_bytes()));
    if body.len() != 2 * ADDRESS_BYTES {
        return Err(VaultError::InvalidAddress);
    }
    match decode_hex(body) {
        Some(v) => Ok(Address { bytes: v }),
        None => Err(VaultError::InvalidAddress),
    }
}

} // verus!
