//! An encrypted keystore vault: address-indexed keyfiles, account metadata
//! updates, and the checks that guard signing and mnemonic import.
pub mod address;
pub mod chain;
pub mod encoding;
pub mod error;
pub mod keyfile;
pub mod mnemonic;
pub mod signer;
pub mod vault;
