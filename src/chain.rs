//! The chain a configuration names, and the numeric identifier that binds a
//! signature to it.
use vstd::prelude::*;
use vstd::string::StringSliceAdditionalSpecFns;
use crate::encoding::same_bytes;

verus! {

/// `mainnet`, as bytes.
pub open spec fn mainnet_word() -> Seq<u8> {
    seq![109u8, 97, 105, 110, 110, 101, 116]
}

/// `testnet`, as bytes.
pub open spec fn testnet_word() -> Seq<u8> {
    seq![116u8, 101, 115, 116, 110, 101, 116]
}

/// `morden`, the older name of the test network, as bytes.
pub open spec fn morden_word() -> Seq<u8> {
    seq![109u8, 111, 114, 100, 101, 110]
}

/// The chain identifier for a chain name: 61 for the main network, 62 for
/// the test network.
pub open spec fn chain_id_for(name: Seq<u8>) -> Option<u8> {
    if name == mainnet_word() {
        Some(61u8)
    } else if name == testnet_word() || name == morden_word() {
        Some(62u8)
    } else {
        None
    }
}

/// Resolves a configured chain name to the identifier used in signing.
pub fn chain_id(name: &str) -> (r: Option<u8>)
    ensures
        r == chain_id_for(name.spec_bytes()),
{
    let b = name.as_bytes();
    let mainnet: Vec<u8> = vec![109u8, 97, 105, 110, 110, 101, 116];
    let testnet: Vec<u8> = vec![116u8, 101, 115, 116, 110, 101, 116];
    let morden: Vec<u8> = vec![109u8, 111, 114, 100, 101, 110];
    assert(mainnet@ =~= mainnet_word());
    assert(testnet@ =~= testnet_word());
    assert(morden@ =~= morden_word());
    if same_bytes(b, mainnet.as_slice()) {
        Some(61)
    } else if same_bytes(b, testnet.as_slice()) || same_bytes(b, morden.as_slice()) {
        Some(62)
    } else {
        None
    }
}

} // verus!
