use emerald_vault::address::{parse_address, Address};
use emerald_vault::chain::chain_id;
use emerald_vault::encoding::prefixed_hex;
use emerald_vault::error::{ErrorKind, VaultError};
use emerald_vault::keyfile::{
    account_data, apply_update, AccountUpdate, CoreCrypto, Crypto, HdWalletCrypto, Kdf,
    KdfParams, Keyfile,
};
use emerald_vault::mnemonic::{check_mnemonic_import, kdf_for_platform, KdfChoice, NewMnemonicAccount};
use emerald_vault::signer::{signed_output, signing_key};
use emerald_vault::vault::Vault;

const ADDR: &str = "0x0e7c045110b8dbf29765047380898919c5cb56f4";
const OTHER: &str = "0x3eaf0b987b49c4d782ee134fdac1166b5e8b7777";

fn core_crypto() -> Crypto {
    Crypto::Core(CoreCrypto {
        cipher: "aes-128-ctr".to_string(),
        cipher_text: vec![1, 2, 3, 4],
        iv: vec![7; 16],
        kdf_params: KdfParams {
            kdf: Kdf::Scrypt { n: 1024, r: 8, p: 1 },
            dklen: 32,
            salt: vec![9; 32],
        },
        mac: vec![5; 32],
    })
}

fn keyfile(addr: &str, name: Option<&str>, crypto: Crypto) -> Keyfile {
    Keyfile {
        uuid: (0u8..16).collect(),
        address: parse_address(addr).unwrap(),
        crypto,
        name: name.map(|s| s.to_string()),
        description: Some("desc".to_string()),
        visible: None,
    }
}

#[test]
fn parses_address_with_and_without_prefix() {
    let a = parse_address(ADDR).unwrap();
    assert_eq!(a.bytes.len(), 20);
    assert_eq!(a.bytes[0], 0x0e);
    assert_eq!(a.bytes[19], 0xf4);
    let b = parse_address(&ADDR[2..]).unwrap();
    assert_eq!(a.bytes, b.bytes);
    assert_eq!(a.to_text(), ADDR);
}

#[test]
fn accepts_upper_case_address() {
    let a = parse_address("0x0E7C045110B8DBF29765047380898919C5CB56F4").unwrap();
    assert_eq!(a.to_text(), ADDR);
}

#[test]
fn rejects_bad_addresses() {
    assert_eq!(parse_address("").unwrap_err(), VaultError::InvalidAddress);
    assert_eq!(parse_address("0x1234").unwrap_err(), VaultError::InvalidAddress);
    assert_eq!(
        parse_address("0x0e7c045110b8dbf29765047380898919c5cb56fz").unwrap_err(),
        VaultError::InvalidAddress
    );
    assert_eq!(
        parse_address("0x0e7c045110b8dbf29765047380898919c5cb56f4aa").unwrap_err(),
        VaultError::InvalidAddress
    );
    assert_eq!(parse_address("0e7c").unwrap_err().kind(), ErrorKind::Input);
}

#[test]
fn prefixed_hex_writes_lower_case_digits() {
    assert_eq!(prefixed_hex(&[0x0a, 0xff, 0x00]), "0x0aff00");
    assert_eq!(prefixed_hex(&[]), "0x");
}

#[test]
fn id_text_is_hyphenated() {
    let kf = keyfile(ADDR, Some("a"), core_crypto());
    assert_eq!(kf.id_text(), "00010203-0405-0607-0809-0a0b0c0d0e0f");
}

#[test]
fn account_data_omits_key() {
    let kf = keyfile(ADDR, Some("main"), core_crypto());
    let d = account_data(&kf);
    assert_eq!(d.id, "00010203-0405-0607-0809-0a0b0c0d0e0f");
    assert_eq!(d.address, ADDR);
    assert_eq!(d.name.as_deref(), Some("main"));
    assert_eq!(d.description.as_deref(), Some("desc"));
}

#[test]
fn put_then_get_returns_record() {
    let mut v = Vault::new();
    let id = v.import_account(keyfile(ADDR, Some("first"), core_crypto()));
    assert_eq!(id, "00010203-0405-0607-0809-0a0b0c0d0e0f");
    let a = parse_address(ADDR).unwrap();
    let got = v.get(&a).unwrap();
    assert_eq!(got.name.as_deref(), Some("first"));
    assert_eq!(got.address.bytes, a.bytes);
}

#[test]
fn second_put_replaces_whole_record() {
    let mut v = Vault::new();
    v.put(keyfile(ADDR, Some("first"), core_crypto()));
    let mut second = keyfile(ADDR, None, core_crypto());
    second.description = None;
    v.put(second);
    assert_eq!(v.list().len(), 1);
    let got = v.export_account(ADDR).unwrap();
    assert_eq!(got.name, None);
    assert_eq!(got.description, None);
}

#[test]
fn get_missing_is_not_found() {
    let mut v = Vault::new();
    v.put(keyfile(ADDR, Some("first"), core_crypto()));
    let e = v.export_account(OTHER).unwrap_err();
    assert_eq!(e, VaultError::NotFound);
    assert_eq!(e.kind(), ErrorKind::NotFound);
    assert_eq!(v.export_account("nope").unwrap_err(), VaultError::InvalidAddress);
}

#[test]
fn list_accounts_projects_every_record() {
    let mut v = Vault::new();
    v.put(keyfile(ADDR, Some("first"), core_crypto()));
    v.put(keyfile(OTHER, Some("second"), core_crypto()));
    let list = v.list_accounts();
    assert_eq!(list.len(), 2);
    let mut addrs: Vec<String> = list.iter().map(|d| d.address.clone()).collect();
    addrs.sort();
    assert_eq!(addrs, vec![ADDR.to_string(), OTHER.to_string()]);
}

#[test]
fn update_keeps_absent_fields() {
    let mut v = Vault::new();
    v.put(keyfile(ADDR, Some("first"), core_crypto()));
    let u = AccountUpdate { name: Some("renamed".to_string()), description: None };
    v.update_account(ADDR, u).unwrap();
    let got = v.export_account(ADDR).unwrap();
    assert_eq!(got.name.as_deref(), Some("renamed"));
    assert_eq!(got.description.as_deref(), Some("desc"));
    assert_eq!(got.uuid, (0u8..16).collect::<Vec<u8>>());
}

#[test]
fn update_missing_account_fails() {
    let mut v = Vault::new();
    let u = AccountUpdate { name: Some("x".to_string()), description: None };
    assert_eq!(v.update_account(ADDR, u.clone()).unwrap_err(), VaultError::NotFound);
    assert_eq!(v.update_account("0x12", u).unwrap_err(), VaultError::InvalidAddress);
    assert_eq!(v.list().len(), 0);
}

#[test]
fn apply_update_overwrites_present_fields() {
    let kf = keyfile(ADDR, Some("old"), core_crypto());
    let u = AccountUpdate { name: None, description: Some("new".to_string()) };
    let r = apply_update(kf, u);
    assert_eq!(r.name.as_deref(), Some("old"));
    assert_eq!(r.description.as_deref(), Some("new"));
}

#[test]
fn signing_key_for_password_based_account() {
    let mut v = Vault::new();
    v.put(keyfile(ADDR, Some("first"), core_crypto()));
    let c = signing_key(&v, ADDR).unwrap();
    assert_eq!(c.cipher, "aes-128-ctr");
    assert_eq!(c.cipher_text, vec![1, 2, 3, 4]);
}

#[test]
fn signing_hardware_account_is_unsupported() {
    let mut v = Vault::new();
    let hd = Crypto::HdWallet(HdWalletCrypto {
        cipher: "hardware".to_string(),
        hardware: "ledger".to_string(),
        hd_path: "m/44'/60'/0'/0".to_string(),
    });
    v.put(keyfile(ADDR, Some("ledger"), hd));
    let e = signing_key(&v, ADDR).unwrap_err();
    assert_eq!(e, VaultError::UnsupportedCrypto);
    assert_eq!(e.kind(), ErrorKind::Crypto);
}

#[test]
fn signing_unknown_or_bad_address_fails() {
    let v = Vault::new();
    assert_eq!(signing_key(&v, ADDR).unwrap_err(), VaultError::NotFound);
    assert_eq!(signing_key(&v, "0xzz").unwrap_err(), VaultError::InvalidAddress);
}

#[test]
fn signed_output_is_prefixed_hex() {
    assert_eq!(signed_output(Some(vec![0xf8, 0x6c, 0x01])).unwrap(), "0xf86c01");
    let e = signed_output(None).unwrap_err();
    assert_eq!(e, VaultError::SignFailed);
    assert_eq!(e.kind(), ErrorKind::Sign);
}

fn request(password: &str, mnemonic: &str) -> NewMnemonicAccount {
    NewMnemonicAccount {
        name: "n".to_string(),
        description: "d".to_string(),
        password: password.to_string(),
        mnemonic: mnemonic.to_string(),
        hd_path: "m/44'/60'/0'/0".to_string(),
    }
}

#[test]
fn empty_password_is_rejected_for_any_mnemonic() {
    let valid = "abandon abandon abandon abandon abandon abandon abandon abandon abandon abandon abandon about";
    for m in [valid, "not a phrase", ""] {
        let e = check_mnemonic_import(&request("", m), false).unwrap_err();
        assert_eq!(e, VaultError::EmptyPassword);
        assert_eq!(e.kind(), ErrorKind::Input);
    }
}

#[test]
fn mnemonic_import_picks_kdf_by_platform() {
    let r = request("p@ss", "abandon about");
    assert_eq!(check_mnemonic_import(&r, false).unwrap(), KdfChoice::Normal);
    assert_eq!(check_mnemonic_import(&r, true).unwrap(), KdfChoice::Pbkdf2);
    assert_eq!(kdf_for_platform(true), KdfChoice::Pbkdf2);
}

#[test]
fn address_equality_by_bytes() {
    let a: Address = parse_address(ADDR).unwrap();
    assert!(emerald_vault::encoding::same_bytes(&a.bytes, &a.bytes.clone()));
    let b = parse_address(OTHER).unwrap();
    assert!(!emerald_vault::encoding::same_bytes(&a.bytes, &b.bytes));
}

#[test]
fn chain_names_resolve_to_ids() {
    assert_eq!(chain_id("mainnet"), Some(61));
    assert_eq!(chain_id("testnet"), Some(62));
    assert_eq!(chain_id("morden"), Some(62));
    assert_eq!(chain_id("Mainnet"), None);
    assert_eq!(chain_id(""), None);
}
