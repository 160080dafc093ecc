//! The checks in front of creating an account from a mnemonic phrase.
use vstd::prelude::*;
use crate::error::{kind_of, ErrorKind, VaultError};

verus! {

/// A request to create an account from a mnemonic phrase and derivation path.
#[derive(Debug, Clone)]
pub struct NewMnemonicAccount {
    pub name: String,
    pub description: String,
    pub password: String,
    pub mnemonic: String,
    pub hd_path: String,
}

/// Which password-stretching function protects a new keyfile.
#[derive(Debug, Clone, Copy, PartialEq, Eq, Structural)]
pub enum KdfChoice {
    /// The memory-hard function at its normal depth.
    Normal,
    /// The PBKDF2 fallback, for platforms without the memory-hard function.
    /// It resists brute force less well.
    Pbkdf2,
}

/// The function a platform uses: the weaker fallback only where the
/// memory-hard one is unavailable.
pub open spec fn kdf_for(constrained: bool) -> KdfChoice {
    if constrained {
        KdfChoice::Pbkdf2
    } else {
        KdfChoice::Normal
    }
}

/// Chooses the password-stretching function for a platform.
pub fn kdf_for_platform(constrained: bool) -> (r: KdfChoice)
    ensures
        r == kdf_for(constrained),
{
    if constrained {
        KdfChoice::Pbkdf2
    } else {
        KdfChoice::Normal
    }
}

/// Whether a mnemonic account may be created: never with an empty password,
/// whatever the phrase. On success, the function that protects the new key.
pub fn check_mnemonic_import(req: &NewMnemonicAccount, constrained: bool) -> (r: Result<
    KdfChoice,
    VaultError,
>)
    ensures
        req.password@.len() == 0 ==> r == Err::<KdfChoice, VaultError>(VaultError::EmptyPassword),
        req.password@.len() == 0 ==> (r matches Err(e) && kind_of(e) == ErrorKind::Input),
        req.password@.len() > 0 ==> r == Ok::<KdfChoice, VaultError>(kdf_for(constrained)),
{
    if req.password.as_str().is_empty() {
        return Err(VaultError::EmptyPassword);
    }
    Ok(kdf_for_platform(constrained))
}

} // verus!
