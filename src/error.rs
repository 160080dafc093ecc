//! Typed failures of vault operations.
use vstd::prelude::*;

verus! {

/// The broad class a failure belongs to.
#[derive(Debug, Clone, Copy, PartialEq, Eq, Structural)]
pub enum ErrorKind {
    Input,
    NotFound,
    Crypto,
    Storage,
    Sign,
}

/// A failure of one vault operation; no operation recovers from one locally.
#[derive(Debug, Clone, Copy, PartialEq, Eq, Structural)]
pub enum VaultError {
    InvalidJson,
    InvalidAddress,
    InvalidMnemonic,
    InvalidPath,
    EmptyPassword,
    NotFound,
    WrongPassword,
    UnsupportedCrypto,
    KeyGeneration,
    Storage,
    SignFailed,
}

/// The class of each failure.
pub open spec fn kind_of(e: VaultError) -> ErrorKind {
    match e {
        VaultError::InvalidJson | VaultError::InvalidAddress | VaultError::InvalidMnemonic
        | VaultError::InvalidPath | VaultError::EmptyPassword => ErrorKind::Input,
        VaultError::NotFound => ErrorKind::NotFound,
        VaultError::WrongPassword | VaultError::UnsupportedCrypto
        | VaultError::KeyGeneration => ErrorKind::Crypto,
        VaultError::Storage => ErrorKind::Storage,
        VaultError::SignFailed => ErrorKind::Sign,
    }
}

impl VaultError {
    pub fn kind(&self) -> (r: ErrorKind)
        ensures
            r == kind_of(*self),
    {
        match self {
            VaultError::InvalidJson | VaultError::InvalidAddress | VaultError::InvalidMnemonic
            | VaultError::InvalidPath | VaultError::EmptyPassword => ErrorKind::Input,
            VaultError::NotFound => ErrorKind::NotFound,
            VaultError::WrongPassword | VaultError::UnsupportedCrypto
            | VaultError::KeyGeneration => ErrorKind::Crypto,
            VaultError::Storage => ErrorKind::Storage,
            VaultError::SignFailed => ErrorKind::Sign,
        }
    }
}

} // verus!
