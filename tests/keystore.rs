use ballot_keys::hex::encode_hex;
use ballot_keys::keystore::{
    check_overwrite, parse_contract_address, try_wallet, FheDecoded, FheKeyPair, FilesPresent, KeyFile, KeyFiles,
    KeyStore, KeyStoreError, StoredFiles,
};
use ballot_keys::network::NetworkOption;
use ballot_keys::votes::{encode_votes, vote_bytes};

const ANVIL_KEY: &str = "0xac0974bec39a17e36ba4a6b4d238ff944bacb478cbed5efcae784d7bf4f2ff80";
const ANVIL_ADDRESS: &str = "f39fd6e51aad88f6f4ce6ab8827279cfffb92266";

fn none_present() -> FilesPresent {
    FilesPresent { wallet: false, private_key: false, public_key: false }
}

fn decoded() -> FheDecoded {
    FheDecoded { public_key: true, private_key: true }
}

fn fhe_pair() -> FheKeyPair {
    FheKeyPair { public_key: "{\"pk\":[1,2,3]}".to_string(), private_key: "{\"sk\":[4,5]}".to_string() }
}

fn generated() -> (KeyStore, KeyFiles) {
    match KeyStore::generate(none_present(), false, fhe_pair()) {
        Ok(r) => r,
        Err(e) => panic!("generation failed: {:?}", e),
    }
}

fn stored_from(files: &KeyFiles) -> StoredFiles {
    StoredFiles {
        wallet: Some(files.wallet.clone()),
        private_key: Some(files.private_key.clone()),
        public_key: Some(files.public_key.clone()),
    }
}

#[test]
fn file_names_are_fixed() {
    assert_eq!(KeyFile::Wallet.file_name(), "wallet.sk");
    assert_eq!(KeyFile::PrivateKey.file_name(), "fhe.pri");
    assert_eq!(KeyFile::PublicKey.file_name(), "fhe.pub");
}

#[test]
fn generate_in_empty_directory_succeeds() {
    let (ks, files) = generated();
    assert_eq!(files.wallet.len(), 64);
    assert!(files.wallet.chars().all(|c| c.is_ascii_hexdigit() && !c.is_ascii_uppercase()));
    assert_eq!(files.wallet, encode_hex(ks.signing_key()));
    assert_eq!(files.public_key, "{\"pk\":[1,2,3]}");
    assert_eq!(files.private_key, "{\"sk\":[4,5]}");
    assert_eq!(ks.public_key(), "{\"pk\":[1,2,3]}");
    assert_eq!(ks.private_key(), "{\"sk\":[4,5]}");
}

#[test]
fn generate_twice_needs_force() {
    let all = FilesPresent { wallet: true, private_key: true, public_key: true };
    match KeyStore::generate(all, false, fhe_pair()) {
        Err(e) => assert_eq!(e, KeyStoreError::AlreadyExists(KeyFile::Wallet)),
        Ok(_) => panic!("overwrote without force"),
    }
    assert!(KeyStore::generate(all, true, fhe_pair()).is_ok());
}

#[test]
fn overwrite_check_names_first_present_file() {
    let only_public = FilesPresent { wallet: false, private_key: false, public_key: true };
    let only_private = FilesPresent { wallet: false, private_key: true, public_key: false };
    assert_eq!(check_overwrite(none_present(), false), Ok(()));
    assert_eq!(
        check_overwrite(only_public, false),
        Err(KeyStoreError::AlreadyExists(KeyFile::PublicKey))
    );
    assert_eq!(
        check_overwrite(only_private, false),
        Err(KeyStoreError::AlreadyExists(KeyFile::PrivateKey))
    );
    assert_eq!(check_overwrite(only_public, true), Ok(()));
}

#[test]
fn init_reproduces_generated_keys() {
    let (ks, files) = generated();
    let loaded = KeyStore::init_from_files(stored_from(&files), None, decoded()).unwrap();
    assert_eq!(loaded.signing_key(), ks.signing_key());
    assert_eq!(loaded.public_key(), ks.public_key());
    assert_eq!(loaded.private_key(), ks.private_key());
    assert_eq!(loaded.address(), ks.address());
}

#[test]
fn init_with_missing_file_is_not_found() {
    let (_, files) = generated();
    let mut s = stored_from(&files);
    s.wallet = None;
    assert_eq!(
        KeyStore::init_from_files(s, None, decoded()).err(),
        Some(KeyStoreError::NotFound(KeyFile::Wallet))
    );
    let mut s = stored_from(&files);
    s.private_key = None;
    assert_eq!(
        KeyStore::init_from_files(s, None, decoded()).err(),
        Some(KeyStoreError::NotFound(KeyFile::PrivateKey))
    );
    let mut s = stored_from(&files);
    s.public_key = None;
    assert_eq!(
        KeyStore::init_from_files(s, None, FheDecoded { public_key: false, private_key: false })
            .err(),
        Some(KeyStoreError::NotFound(KeyFile::PublicKey))
    );
}

#[test]
fn override_replaces_wallet_file() {
    let (_, files) = generated();
    let mut s = stored_from(&files);
    s.wallet = None;
    let ks = KeyStore::init_from_files(s, Some(ANVIL_KEY.to_string()), decoded()).unwrap();
    assert_eq!(encode_hex(&ks.address()), ANVIL_ADDRESS);
    let s = stored_from(&files);
    assert_eq!(
        KeyStore::init_from_files(s, Some("0x1234".to_string()), decoded()).err(),
        Some(KeyStoreError::InvalidKey)
    );
}

#[test]
fn corrupted_wallet_file_is_parse_error() {
    let (_, files) = generated();
    let mut s = stored_from(&files);
    s.wallet = Some(files.wallet[..40].to_string());
    assert_eq!(
        KeyStore::init_from_files(s, None, decoded()).err(),
        Some(KeyStoreError::ParseError(KeyFile::Wallet))
    );
}

#[test]
fn init_from_material_accepts_generated_texts() {
    let pair = fhe_pair();
    let ks = KeyStore::init_from_material(pair.public_key, pair.private_key, ANVIL_KEY, decoded())
        .unwrap();
    assert_eq!(encode_hex(ks.signing_key()), &ANVIL_KEY[2..]);
    assert_eq!(ks.public_key(), "{\"pk\":[1,2,3]}");
}

#[test]
fn init_from_material_rejects_corrupted_public_key() {
    let pair = fhe_pair();
    let r = KeyStore::init_from_material(
        pair.public_key[..5].to_string(),
        pair.private_key,
        ANVIL_KEY,
        FheDecoded { public_key: false, private_key: true },
    );
    assert_eq!(r.err(), Some(KeyStoreError::ParseError(KeyFile::PublicKey)));
    let pair = fhe_pair();
    let r = KeyStore::init_from_material(
        pair.public_key,
        pair.private_key,
        ANVIL_KEY,
        FheDecoded { public_key: true, private_key: false },
    );
    assert_eq!(r.err(), Some(KeyStoreError::ParseError(KeyFile::PrivateKey)));
}

#[test]
fn signing_key_forms() {
    let bare = &ANVIL_KEY[2..];
    let upper = format!("0X{}", bare.to_uppercase());
    let double = format!("0X0x{}", bare);
    for text in [ANVIL_KEY, bare, upper.as_str(), double.as_str()] {
        assert_eq!(encode_hex(&try_wallet(text).unwrap()), ANVIL_ADDRESS);
    }
    let zero = "0".repeat(64);
    let order = "fffffffffffffffffffffffffffffffebaaedce6af48a03bbfd25e8cd0364141";
    let short = &bare[..62];
    let bad_digit = format!("g{}", &bare[1..]);
    for text in [zero.as_str(), order, short, bad_digit.as_str(), ""] {
        assert_eq!(try_wallet(text), Err(KeyStoreError::InvalidKey));
    }
    let below_order = "fffffffffffffffffffffffffffffffebaaedce6af48a03bbfd25e8cd0364140";
    assert!(try_wallet(below_order).is_ok());
}

#[test]
fn address_is_deterministic() {
    let first = try_wallet(ANVIL_KEY).unwrap();
    let second = try_wallet(ANVIL_KEY).unwrap();
    assert_eq!(first, second);
    let other = try_wallet("0x59c6995e998f97a5a0044966f0945389dc9e86dae88c7a8412f4603b6b78690d")
        .unwrap();
    assert_eq!(encode_hex(&other), "70997970c51812dc3a010c7d01b50e0d17dc79c8");
    assert_ne!(first, other);
}

#[test]
fn local_client_from_generated_store() {
    let (_, files) = generated();
    let ks = KeyStore::init_from_files(stored_from(&files), None, decoded()).unwrap();
    let client = ks.client(NetworkOption::Local).unwrap();
    assert_eq!(client.chain_id, 31337);
    assert_eq!(client.endpoint, "http://localhost:8545");
    assert_eq!(&client.signing_key, ks.signing_key());
}

#[test]
fn parasol_contract_handle() {
    let ks = KeyStore::init_from_material("p".to_string(), "q".to_string(), ANVIL_KEY, decoded())
        .unwrap();
    let address = [7u8; 20];
    let handle = ks.contract(NetworkOption::Parasol, address).unwrap();
    assert_eq!(handle.address, address);
    assert_eq!(handle.client.chain_id, 574);
    assert_eq!(handle.client.endpoint, "https://rpc.parasol.sunscreen.tech");
}

#[test]
fn network_profiles() {
    let local = NetworkOption::Local.profile();
    assert_eq!(local.endpoint, "http://localhost:8545");
    assert_eq!(local.chain_id, 31337);
    assert_eq!(local.faucet_url, "");
    let parasol = NetworkOption::Parasol.profile();
    assert_eq!(parasol.chain_id, 574);
    assert_eq!(parasol.faucet_url, "https://faucet.sunscreen.tech");
}

#[test]
fn hex_encoding() {
    assert_eq!(encode_hex(&[]), "");
    assert_eq!(encode_hex(&[0x00, 0x0f, 0xab, 0xff]), "000fabff");
}

#[test]
fn votes_are_big_endian() {
    assert_eq!(vote_bytes(1), vec![0, 0, 0, 0, 0, 0, 0, 1]);
    assert_eq!(vote_bytes(0x0102030405060708), vec![1, 2, 3, 4, 5, 6, 7, 8]);
    let encoded = encode_votes(&vec![0, 258, u64::MAX]);
    assert_eq!(
        encoded,
        vec![vec![0u8; 8], vec![0, 0, 0, 0, 0, 0, 1, 2], vec![0xffu8; 8]]
    );
    assert!(encode_votes(&vec![]).is_empty());
}

#[test]
fn contract_addresses() {
    let mut expected = [0u8; 20];
    expected[0] = 0xf3;
    expected[1] = 0x9f;
    expected[19] = 0x66;
    let text = "f39f0000000000000000000000000000000000066";
    assert_eq!(text.len(), 41);
    assert_eq!(parse_contract_address(text), Err(KeyStoreError::InvalidAddress));
    assert!(parse_contract_address(&text[..40]).is_ok());
    let exact = "0xF39F000000000000000000000000000000000066";
    assert_eq!(parse_contract_address(exact), Ok(expected));
    assert_eq!(parse_contract_address(&exact[2..]), Ok(expected));
    assert_eq!(
        parse_contract_address("0xf39f 0000000000000000000000000000000000066"),
        Err(KeyStoreError::InvalidAddress)
    );
    assert_eq!(
        parse_contract_address("0xf39f 000000000000000000000000000000000066"),
        Ok(expected)
    );
    assert_eq!(parse_contract_address("0x1234"), Err(KeyStoreError::InvalidAddress));
    assert_eq!(
        parse_contract_address("0xz39f000000000000000000000000000000000066"),
        Err(KeyStoreError::InvalidAddress)
    );
}
