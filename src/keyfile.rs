//! The keyfile record, its public projection and its metadata updates.
use vstd::prelude::*;
use crate::address::{address_text, Address};
use crate::encoding::hex_text;

verus! {

/// Number of bytes in a keyfile identifier.
pub const UUID_BYTES: usize = 16;

/// Parameters of a password-stretching function.
#[derive(Debug, Clone)]
pub enum Kdf {
    Pbkdf2 { prf: String, c: u32 },
    Scrypt { n: u32, r: u32, p: u32 },
}

/// The key-derivation descriptor stored with an encrypted key.
#[derive(Debug, Clone)]
pub struct KdfParams {
    pub kdf: Kdf,
    pub dklen: u32,
    pub salt: Vec<u8>,
}

/// A private key encrypted under a password-derived key.
#[derive(Debug, Clone)]
pub struct CoreCrypto {
    pub cipher: String,
    pub cipher_text: Vec<u8>,
    pub iv: Vec<u8>,
    pub kdf_params: KdfParams,
    pub mac: Vec<u8>,
}

/// A key held by a hardware wallet, reached through a derivation path.
#[derive(Debug, Clone)]
pub struct HdWalletCrypto {
    pub cipher: String,
    pub hardware: String,
    pub hd_path: String,
}

/// The secret part of a keyfile.
#[derive(Debug, Clone)]
pub enum Crypto {
    Core(CoreCrypto),
    HdWallet(HdWalletCrypto),
}

/// One account's encrypted key and its metadata.
#[derive(Debug, Clone)]
pub struct Keyfile {
    pub uuid: Vec<u8>,
    pub address: Address,
    pub crypto: Crypto,
    pub name: Option<String>,
    pub description: Option<String>,
    pub visible: Option<bool>,
}

impl Keyfile {
    pub open spec fn wf(&self) -> bool {
        self.uuid@.len() == UUID_BYTES && self.address.wf()
    }

    /// The identifier as text.
    pub fn id_text(&self) -> (r: String)
        requires
            self.wf(),
        ensures
            r@ == uuid_text(self.uuid@),
    {
        uuid_string(self.uuid.as_slice())
    }
}

/// An identifier written in groups of 8, 4, 4, 4 and 12 lower-case hex digits.
pub open spec fn uuid_text(b: Seq<u8>) -> Seq<char> {
    hex_text(b.subrange(0, 4)) + seq!['-'] + hex_text(b.subrange(4, 6)) + seq!['-'] + hex_text(
        b.subrange(6, 8),
    ) + seq!['-'] + hex_text(b.subrange(8, 10)) + seq!['-'] + hex_text(b.subrange(10, 16))
}

/// Relies on uuid::Uuid::from_slice, which takes sixteen bytes as they stand,
/// and on its Display, which writes the hyphenated lower-case form.
#[verifier::external_body]
fn uuid_string(b: &[u8]) -> (r: String)
    requires
        b@.len() == UUID_BYTES,
    ensures
        r@ == uuid_text(b@),
{
    match uuid::Uuid::from_slice(b) {
        Ok(u) => u.to_string(),
        Err(_) => String::new(),
    }
}

/// The public part of a keyfile: everything but its key.
#[derive(Debug, Clone)]
pub struct AccountData {
    pub id: String,
    pub address: String,
    pub name: Option<String>,
    pub description: Option<String>,
}

/// Projects a keyfile onto what may be shown without its key.
pub fn account_data(kf: &Keyfile) -> (r: AccountData)
    requires
        kf.wf(),
    ensures
        r.id@ == uuid_text(kf.uuid@),
        r.address@ == address_text(kf.address.bytes@),
        r.name == kf.name,
        r.description == kf.description,
{
    AccountData {
        id: kf.id_text(),
        address: kf.address.to_text(),
        name: copy_text(&kf.name),
        description: copy_text(&kf.description),
    }
}

fn copy_text(t: &Option<String>) -> (r: Option<String>)
    ensures
        r == *t,
{
    match t {
        Some(s) => Some(s.clone()),
        None => None,
    }
}

/// New metadata for an account; an absent field keeps its old value.
#[derive(Debug, Clone)]
pub struct AccountUpdate {
    pub name: Option<String>,
    pub description: Option<String>,
}

/// The first value when present, else the second.
pub open spec fn or_else<T>(first: Option<T>, second: Option<T>) -> Option<T> {
    if first is Some {
        first
    } else {
        second
    }
}

/// A keyfile with the update's present fields written over its metadata.
pub open spec fn patched(kf: Keyfile, u: AccountUpdate) -> Keyfile {
    Keyfile {
        uuid: kf.uuid,
        address: kf.address,
        crypto: kf.crypto,
        name: or_else(u.name, kf.name),
        description: or_else(u.description, kf.description),
        visible: kf.visible,
    }
}

/// Writes the present fields of an update over a keyfile's metadata; the
/// identifier, address and key stay as they were.
pub fn apply_update(kf: Keyfile, u: AccountUpdate) -> (r: Keyfile)
    ensures
        r == patched(kf, u),
{
    let mut kf = kf;
    match u.name {
        Some(n) => {
            kf.name = Some(n);
        },
        None => {},
    }
    match u.description {
        Some(d) => {
            kf.description = Some(d);
        },
        None => {},
    }
    kf
}

} // verus!
