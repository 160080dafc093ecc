//! The checks in front of signing, and the text form of a signed transaction.
use vstd::prelude::*;
use crate::address::{address_of_text, is_address_text};
use crate::encoding::{prefixed_hex, prefixed_hex_text};
use crate::error::VaultError;
use crate::keyfile::{CoreCrypto, Crypto};
use crate::vault::Vault;
use vstd::string::StringSliceAdditionalSpecFns;

verus! {

/// Whether a keyfile's secret can be opened with a password and so be signed with.
pub open spec fn is_password_based(c: Crypto) -> bool {
    c is Core
}

/// The encrypted key of the account that is to sign, found from the
/// transaction's `from` address. Only a password-based key can sign: any
/// other kind is refused before any attempt at a signature.
pub fn signing_key<'a>(vault: &'a Vault, from: &str) -> (r: Result<&'a CoreCrypto, VaultError>)
    requires
        vault.wf(),
    ensures
        !is_address_text(from.spec_bytes()) ==> r == Err::<&CoreCrypto, VaultError>(
            VaultError::InvalidAddress,
        ),
        is_address_text(from.spec_bytes()) && !vault@.contains_key(
            address_of_text(from.spec_bytes()),
        ) ==> r == Err::<&CoreCrypto, VaultError>(VaultError::NotFound),
        is_address_text(from.spec_bytes()) && vault@.contains_key(
            address_of_text(from.spec_bytes()),
        ) && !is_password_based(vault@[address_of_text(from.spec_bytes())].crypto) ==> r
            == Err::<&CoreCrypto, VaultError>(VaultError::UnsupportedCrypto),
        r is Ok <==> is_address_text(from.spec_bytes()) && vault@.contains_key(
            address_of_text(from.spec_bytes()),
        ) && is_password_based(vault@[address_of_text(from.spec_bytes())].crypto),
        r matches Ok(c) ==> vault@[address_of_text(from.spec_bytes())].crypto == Crypto::Core(
            *c,
        ),
{
    let kf = vault.export_account(from)?;
    match &kf.crypto {
        Crypto::Core(c) => Ok(c),
        Crypto::HdWallet(_) => Err(VaultError::UnsupportedCrypto),
    }
}

/// The outcome of signing, as `0x` and the hex of the raw signed bytes; a
/// signature that could not be made is a signing failure.
pub fn signed_output(raw: Option<Vec<u8>>) -> (r: Result<String, VaultError>)
    ensures
        raw is None ==> r == Err::<String, VaultError>(VaultError::SignFailed),
        raw matches Some(b) ==> (r matches Ok(s) && s@ == prefixed_hex_text(b@)),
{
    match raw {
        Some(b) => Ok(prefixed_hex(b.as_slice())),
        None => Err(VaultError::SignFailed),
    }
}

} // verus!
