use crate::hex::{decode_hex, encode_hex, is_hex_digit, lemma_hex_round_trip, lower_hex};
use crate::network::{chain_id_of, endpoint_of, NetworkOption};
use crate::signer::{
    address_digits, address_of_key, parse_address, valid_address_text, http_provider, key_address, key_digits, parse_signing_key, random_signing_key,
    signing_key_bytes, strip_hex_prefix, url_parses, valid_scalar, valid_signing_key,
};
use ethers::providers::{Http, Provider};
use vstd::prelude::*;

verus! {

/// One of the three files of a key store directory.
#[derive(Clone, Copy, Debug, PartialEq, Eq, Structural)]
pub enum KeyFile {
    Wallet,
    PrivateKey,
    PublicKey,
}

pub open spec fn file_name_of(f: KeyFile) -> Seq<char> {
    match f {
        KeyFile::Wallet => "wallet.sk"@,
        KeyFile::PrivateKey => "fhe.pri"@,
        KeyFile::PublicKey => "fhe.pub"@,
    }
}

impl KeyFile {
    /// The fixed name of this file inside a key store directory.
    pub fn file_name(&self) -> (r: &'static str)
        ensures
            r@ == file_name_of(*self),
    {
        match self {
            KeyFile::Wallet => "wallet.sk",
            KeyFile::PrivateKey => "fhe.pri",
            KeyFile::PublicKey => "fhe.pub",
        }
    }
}

/// Why a key store could not be made or used.
#[derive(Clone, Copy, Debug, PartialEq, Eq, Structural)]
pub enum KeyStoreError {
    /// Generation would overwrite this file without being forced to.
    AlreadyExists(KeyFile),
    /// This file is missing from the directory.
    NotFound(KeyFile),
    /// The contents of this file, or the text given for it, do not decode.
    ParseError(KeyFile),
    /// The signing key given in place of the wallet file is malformed.
    InvalidKey,
    /// The network's endpoint is not a valid URL.
    InvalidEndpoint,
    /// A contract address is not forty hex digits.
    InvalidAddress,
}

/// Which of the three files a directory already holds.
#[derive(Clone, Copy, Debug, PartialEq, Eq, Structural)]
pub struct FilesPresent {
    pub wallet: bool,
    pub private_key: bool,
    pub public_key: bool,
}

/// Whether each FHE key text decodes as a key of its kind.
#[derive(Clone, Copy, Debug, PartialEq, Eq, Structural)]
pub struct FheDecoded {
    pub public_key: bool,
    pub private_key: bool,
}

/// A serialized FHE key pair.
#[derive(Debug)]
pub struct FheKeyPair {
    pub public_key: String,
    pub private_key: String,
}

/// The contents to write to the three files of a key store.
#[derive(Debug)]
pub struct KeyFiles {
    pub wallet: String,
    pub private_key: String,
    pub public_key: String,
}

/// The contents read from a key store directory; `None` where a file is missing.
#[derive(Debug)]
pub struct StoredFiles {
    pub wallet: Option<String>,
    pub private_key: Option<String>,
    pub public_key: Option<String>,
}

/// The three secrets of a key store, as values.
pub struct KeyMaterial {
    /// The signing key's scalar, big-endian.
    pub signing_key: Seq<u8>,
    /// The serialized FHE public key.
    pub public_key: Seq<char>,
    /// The serialized FHE private key.
    pub private_key: Seq<char>,
}

/// A signing key and an FHE key pair, held together for one operation.
pub struct KeyStore {
    signing_key: Vec<u8>,
    public_key: String,
    private_key: String,
}

impl View for KeyStore {
    type V = KeyMaterial;

    closed spec fn view(&self) -> KeyMaterial {
        KeyMaterial {
            signing_key: self.signing_key@,
            public_key: self.public_key@,
            private_key: self.private_key@,
        }
    }
}

/// A client for one network, signing with a key store's key. Making one opens no connection.
pub struct Client {
    pub provider: Provider<Http>,
    pub endpoint: String,
    pub chain_id: u64,
    pub signing_key: Vec<u8>,
}

/// A client together with the address of the ballot contract it calls.
pub struct ContractHandle {
    pub client: Client,
    pub address: [u8; 20],
}

pub open spec fn text_of(o: Option<String>) -> Option<Seq<char>> {
    match o {
        Some(s) => Some(s@),
        None => None,
    }
}

/// What generation does given the files already present: it goes ahead when forced or when
/// none is there, else names the first present of wallet, private key, public key.
pub open spec fn overwrite_check(present: FilesPresent, force: bool) -> Result<(), KeyStoreError> {
    if force {
        Ok(())
    } else if present.wallet {
        Err(KeyStoreError::AlreadyExists(KeyFile::Wallet))
    } else if present.private_key {
        Err(KeyStoreError::AlreadyExists(KeyFile::PrivateKey))
    } else if present.public_key {
        Err(KeyStoreError::AlreadyExists(KeyFile::PublicKey))
    } else {
        Ok(())
    }
}

/// What loading gives from the two FHE key texts and a signing-key text: the first failure
/// of public key, private key, signing key (reported as `wallet_err`), else the material.
pub open spec fn material_result(
    public_key: Seq<char>,
    private_key: Seq<char>,
    wallet: Seq<char>,
    decoded: FheDecoded,
    wallet_err: KeyStoreError,
) -> Result<KeyMaterial, KeyStoreError> {
    if !decoded.public_key {
        Err(KeyStoreError::ParseError(KeyFile::PublicKey))
    } else if !decoded.private_key {
        Err(KeyStoreError::ParseError(KeyFile::PrivateKey))
    } else if !valid_signing_key(wallet) {
        Err(wallet_err)
    } else {
        Ok(
            KeyMaterial {
                signing_key: signing_key_bytes(wallet),
                public_key,
                private_key,
            },
        )
    }
}

/// What loading a directory gives: a missing file first (public key, private key, then the
/// wallet where no signing key overrides it), then `material_result`.
pub open spec fn init_result(
    public_key: Option<Seq<char>>,
    private_key: Option<Seq<char>>,
    wallet: Option<Seq<char>>,
    wallet_override: Option<Seq<char>>,
    decoded: FheDecoded,
) -> Result<KeyMaterial, KeyStoreError> {
    if public_key is None {
        Err(KeyStoreError::NotFound(KeyFile::PublicKey))
    } else if private_key is None {
        Err(KeyStoreError::NotFound(KeyFile::PrivateKey))
    } else if wallet_override is None && wallet is None {
        Err(KeyStoreError::NotFound(KeyFile::Wallet))
    } else {
        match wallet_override {
            Some(w) => material_result(
                public_key->Some_0,
                private_key->Some_0,
                w,
                decoded,
                KeyStoreError::InvalidKey,
            ),
            None => material_result(
                public_key->Some_0,
                private_key->Some_0,
                wallet->Some_0,
                decoded,
                KeyStoreError::ParseError(KeyFile::Wallet),
            ),
        }
    }
}

/// The address of the account that a signing-key text controls, or why there is none.
pub open spec fn derived_address(wallet_key: Seq<char>) -> Result<Seq<u8>, KeyStoreError> {
    if valid_signing_key(wallet_key) {
        Ok(key_address(signing_key_bytes(wallet_key)))
    } else {
        Err(KeyStoreError::InvalidKey)
    }
}

/// The files hold the material: the wallet as lower-case hex of the scalar.
pub open spec fn holds_material(files: KeyFiles, m: KeyMaterial) -> bool {
    &&& files.wallet@ == lower_hex(m.signing_key)
    &&& files.private_key@ == m.private_key
    &&& files.public_key@ == m.public_key
}

/// The store is `Ok` exactly when the spec is, with the spec's material or error.
pub open spec fn store_matches(
    r: Result<KeyStore, KeyStoreError>,
    s: Result<KeyMaterial, KeyStoreError>,
) -> bool {
    match r {
        Ok(ks) => ks.wf() && s is Ok && ks@ == s->Ok_0,
        Err(e) => s == Err::<KeyMaterial, KeyStoreError>(e),
    }
}

/// Goes ahead with generation unless that would overwrite a file without `force`.
pub fn check_overwrite(present: FilesPresent, force: bool) -> (r: Result<(), KeyStoreError>)
    ensures
        r == overwrite_check(present, force),
{
    if force {
        Ok(())
    } else if present.wallet {
        Err(KeyStoreError::AlreadyExists(KeyFile::Wallet))
    } else if present.private_key {
        Err(KeyStoreError::AlreadyExists(KeyFile::PrivateKey))
    } else if present.public_key {
        Err(KeyStoreError::AlreadyExists(KeyFile::PublicKey))
    } else {
        Ok(())
    }
}

/// Lower-case hex of a valid scalar is a well-formed signing key that spells it.
pub proof fn lemma_wallet_text_round_trip(b: Seq<u8>)
    requires
        valid_scalar(b),
    ensures
        key_digits(lower_hex(b)) == lower_hex(b),
        valid_signing_key(lower_hex(b)),
        signing_key_bytes(lower_hex(b)) == b,
{
    let s = lower_hex(b);
    lemma_hex_round_trip(b);
    assert(is_hex_digit(s[1]));
    assert(s[1] != 'X' && s[1] != 'x');
    assert(strip_hex_prefix(s, true) == s);
    assert(strip_hex_prefix(s, false) == s);
}

/// Parses a signing key in place of a wallet file; `err` is what a malformed one gives.
fn signing_key_from(wallet: &str, err: KeyStoreError) -> (r: Result<Vec<u8>, KeyStoreError>)
    ensures
        r is Ok == valid_signing_key(wallet@),
        r matches Ok(b) ==> b@ == signing_key_bytes(wallet@),
        r matches Err(e) ==> e == err,
{
    match parse_signing_key(wallet) {
        Some(b) => Ok(b),
        None => Err(err),
    }
}

impl KeyStore {
    /// The signing key is a valid scalar.
    pub open spec fn wf(&self) -> bool {
        valid_scalar(self@.signing_key)
    }

    /// Makes a store from a fresh FHE key pair and a fresh signing key, and the contents to
    /// write, unless the directory already holds a key file and `force` is false.
    pub fn generate(present: FilesPresent, force: bool, fhe_keys: FheKeyPair) -> (r: Result<
        (KeyStore, KeyFiles),
        KeyStoreError,
    >)
        ensures
            r is Ok == overwrite_check(present, force) is Ok,
            r matches Err(e) ==> overwrite_check(present, force) == Err::<(), KeyStoreError>(e),
            r matches Ok((ks, files)) ==> {
                &&& ks.wf()
                &&& ks@.public_key == fhe_keys.public_key@
                &&& ks@.private_key == fhe_keys.private_key@
                &&& holds_material(files, ks@)
                &&& valid_signing_key(files.wallet@)
                &&& signing_key_bytes(files.wallet@) == ks@.signing_key
            },
    {
        match check_overwrite(present, force) {
            Err(e) => Err(e),
            Ok(()) => {
                let signing_key = random_signing_key();
                Ok(KeyStore::from_parts(signing_key, fhe_keys))
            },
        }
    }

    /// Makes a store from a signing key and an FHE key pair, and the contents to write.
    pub fn from_parts(signing_key: Vec<u8>, fhe_keys: FheKeyPair) -> (r: (KeyStore, KeyFiles))
        requires
            valid_scalar(signing_key@),
        ensures
            r.0.wf(),
            r.0@.signing_key == signing_key@,
            r.0@.public_key == fhe_keys.public_key@,
            r.0@.private_key == fhe_keys.private_key@,
            holds_material(r.1, r.0@),
            valid_signing_key(r.1.wallet@),
            signing_key_bytes(r.1.wallet@) == signing_key@,
    {
        let wallet = encode_hex(signing_key.as_slice());
        let files = KeyFiles {
            wallet,
            private_key: fhe_keys.private_key.clone(),
            public_key: fhe_keys.public_key.clone(),
        };
        proof {
            lemma_wallet_text_round_trip(signing_key@);
        }
        let ks = KeyStore {
            signing_key,
            public_key: fhe_keys.public_key,
            private_key: fhe_keys.private_key,
        };
        (ks, files)
    }

    /// Loads a store from two serialized FHE keys and a signing-key text; `decoded` says which
    /// FHE texts decode as keys.
    pub fn init_from_material(
        public_key: String,
        private_key: String,
        wallet_key: &str,
        decoded: FheDecoded,
    ) -> (r: Result<KeyStore, KeyStoreError>)
        ensures
            store_matches(
                r,
                material_result(
                    public_key@,
                    private_key@,
                    wallet_key@,
                    decoded,
                    KeyStoreError::InvalidKey,
                ),
            ),
    {
        KeyStore::assemble(public_key, private_key, wallet_key, decoded, KeyStoreError::InvalidKey)
    }

    fn assemble(
        public_key: String,
        private_key: String,
        wallet: &str,
        decoded: FheDecoded,
        wallet_err: KeyStoreError,
    ) -> (r: Result<KeyStore, KeyStoreError>)
        ensures
            store_matches(
                r,
                material_result(public_key@, private_key@, wallet@, decoded, wallet_err),
            ),
    {
        if !decoded.public_key {
            return Err(KeyStoreError::ParseError(KeyFile::PublicKey));
        }
        if !decoded.private_key {
            return Err(KeyStoreError::ParseError(KeyFile::PrivateKey));
        }
        match signing_key_from(wallet, wallet_err) {
            Err(e) => Err(e),
            Ok(signing_key) => Ok(KeyStore { signing_key, public_key, private_key }),
        }
    }

    /// Loads a store from what a key store directory holds; a signing key given in
    /// `wallet_override` takes the place of the wallet file.
    pub fn init_from_files(
        stored: StoredFiles,
        wallet_override: Option<String>,
        decoded: FheDecoded,
    ) -> (r: Result<KeyStore, KeyStoreError>)
        ensures
            store_matches(
                r,
                init_result(
                    text_of(stored.public_key),
                    text_of(stored.private_key),
                    text_of(stored.wallet),
                    text_of(wallet_override),
                    decoded,
                ),
            ),
    {
        let public_key = match stored.public_key {
            Some(p) => p,
            None => return Err(KeyStoreError::NotFound(KeyFile::PublicKey)),
        };
        let private_key = match stored.private_key {
            Some(p) => p,
            None => return Err(KeyStoreError::NotFound(KeyFile::PrivateKey)),
        };
        match wallet_override {
            Some(w) => KeyStore::assemble(
                public_key,
                private_key,
                w.as_str(),
                decoded,
                KeyStoreError::InvalidKey,
            ),
            None => match stored.wallet {
                Some(w) => KeyStore::assemble(
                    public_key,
                    private_key,
                    w.as_str(),
                    decoded,
                    KeyStoreError::ParseError(KeyFile::Wallet),
                ),
                None => Err(KeyStoreError::NotFound(KeyFile::Wallet)),
            },
        }
    }

    /// The signing key's scalar, big-endian.
    pub fn signing_key(&self) -> (r: &Vec<u8>)
        ensures
            r@ == self@.signing_key,
    {
        &self.signing_key
    }

    /// The serialized FHE public key.
    pub fn public_key(&self) -> (r: &str)
        ensures
            r@ == self@.public_key,
    {
        self.public_key.as_str()
    }

    /// The serialized FHE private key.
    pub fn private_key(&self) -> (r: &str)
        ensures
            r@ == self@.private_key,
    {
        self.private_key.as_str()
    }

    /// The address of the account that the signing key controls.
    pub fn address(&self) -> (r: Vec<u8>)
        requires
            self.wf(),
        ensures
            r@ == key_address(self@.signing_key),
            r@.len() == 20,
    {
        match address_of_key(self.signing_key.as_slice()) {
            Some(a) => a,
            None => Vec::new(),
        }
    }

    /// A client for `network` that signs with this store's key; fails only where the
    /// network's endpoint is not a URL.
    pub fn client(&self, network: NetworkOption) -> (r: Result<Client, KeyStoreError>)
        ensures
            r is Ok == url_parses(endpoint_of(network)),
            r matches Err(e) ==> e == KeyStoreError::InvalidEndpoint,
            r matches Ok(c) ==> {
                &&& c.endpoint@ == endpoint_of(network)
                &&& c.chain_id == chain_id_of(network)
                &&& c.signing_key@ == self@.signing_key
            },
    {
        let profile = network.profile();
        match http_provider(profile.endpoint.as_str()) {
            None => Err(KeyStoreError::InvalidEndpoint),
            Some(provider) => {
                let signing_key = self.signing_key.clone();
                assert(signing_key@ =~= self.signing_key@);
                Ok(
                    Client {
                        provider,
                        endpoint: profile.endpoint,
                        chain_id: profile.chain_id,
                        signing_key,
                    },
                )
            },
        }
    }

    /// A client for `network` bound to the ballot contract at `address`.
    pub fn contract(&self, network: NetworkOption, address: [u8; 20]) -> (r: Result<
        ContractHandle,
        KeyStoreError,
    >)
        ensures
            r is Ok == url_parses(endpoint_of(network)),
            r matches Err(e) ==> e == KeyStoreError::InvalidEndpoint,
            r matches Ok(h) ==> {
                &&& h.address@ == address@
                &&& h.client.endpoint@ == endpoint_of(network)
                &&& h.client.chain_id == chain_id_of(network)
                &&& h.client.signing_key@ == self@.signing_key
            },
    {
        match self.client(network) {
            Err(e) => Err(e),
            Ok(client) => Ok(ContractHandle { client, address }),
        }
    }
}

/// The address of the account that a signing-key text controls.
pub fn try_wallet(wallet_key: &str) -> (r: Result<Vec<u8>, KeyStoreError>)
    ensures
        r is Ok == derived_address(wallet_key@) is Ok,
        r matches Ok(a) ==> a@ == derived_address(wallet_key@)->Ok_0,
        r matches Err(e) ==> derived_address(wallet_key@) == Err::<Seq<u8>, KeyStoreError>(e),
{
    match parse_signing_key(wallet_key) {
        None => Err(KeyStoreError::InvalidKey),
        Some(key) => match address_of_key(key.as_slice()) {
            Some(a) => Ok(a),
            None => Err(KeyStoreError::InvalidKey),
        },
    }
}

/// Reads a contract address: forty hex digits, optionally after `0x`.
pub fn parse_contract_address(s: &str) -> (r: Result<[u8; 20], KeyStoreError>)
    ensures
        r is Ok == valid_address_text(s@),
        r matches Ok(a) ==> a@ == decode_hex(address_digits(s@)),
        r matches Err(e) ==> e == KeyStoreError::InvalidAddress,
{
    match parse_address(s) {
        Some(a) => Ok(a),
        None => Err(KeyStoreError::InvalidAddress),
    }
}

/// Generation goes ahead in a directory that holds none of the key files. Once it has
/// written all three, a second run without `force` fails naming a file that exists, and a
/// forced run goes ahead whatever the directory holds.
pub proof fn lemma_generate_guard(present: FilesPresent)
    ensures
        overwrite_check(FilesPresent { wallet: false, private_key: false, public_key: false }, false)
            is Ok,
        overwrite_check(FilesPresent { wallet: true, private_key: true, public_key: true }, false)
            == Err::<(), KeyStoreError>(KeyStoreError::AlreadyExists(KeyFile::Wallet)),
        overwrite_check(present, true) is Ok,
        overwrite_check(present, false) is Err <==> (present.wallet || present.private_key
            || present.public_key),
        overwrite_check(present, false) matches Err(KeyStoreError::AlreadyExists(f)) ==> {
            ||| f == KeyFile::Wallet && present.wallet
            ||| f == KeyFile::PrivateKey && present.private_key
            ||| f == KeyFile::PublicKey && present.public_key
        },
{
}

/// Loading, without an override, the files that generation wrote for some material gives
/// that same material back, byte for byte, when the FHE library decodes its own key texts.
pub proof fn lemma_init_after_generate(files: KeyFiles, m: KeyMaterial)
    requires
        valid_scalar(m.signing_key),
        holds_material(files, m),
    ensures
        init_result(
            Some(files.public_key@),
            Some(files.private_key@),
            Some(files.wallet@),
            None,
            FheDecoded { public_key: true, private_key: true },
        ) == Ok::<KeyMaterial, KeyStoreError>(m),
{
    lemma_wallet_text_round_trip(m.signing_key);
}

/// Loading a directory that lacks one of the three files (with no override) fails with
/// `NotFound`, naming a file that is missing, whatever the other files hold.
pub proof fn lemma_missing_file_not_found(
    public_key: Option<Seq<char>>,
    private_key: Option<Seq<char>>,
    wallet: Option<Seq<char>>,
    decoded: FheDecoded,
)
    requires
        public_key is None || private_key is None || wallet is None,
    ensures
        init_result(public_key, private_key, wallet, None, decoded) matches Err(
            KeyStoreError::NotFound(f),
        ) && {
            ||| f == KeyFile::PublicKey && public_key is None
            ||| f == KeyFile::PrivateKey && private_key is None
            ||| f == KeyFile::Wallet && wallet is None
        },
{
}

/// Loading from two FHE key texts that decode and a well-formed signing key succeeds and
/// holds exactly those secrets; a public-key text that does not decode fails with
/// `ParseError` for the public key.
pub proof fn lemma_material_accepted(
    public_key: Seq<char>,
    private_key: Seq<char>,
    wallet_key: Seq<char>,
    private_decodes: bool,
)
    ensures
        valid_signing_key(wallet_key) ==> material_result(
            public_key,
            private_key,
            wallet_key,
            FheDecoded { public_key: true, private_key: true },
            KeyStoreError::InvalidKey,
        ) == Ok::<KeyMaterial, KeyStoreError>(
            KeyMaterial { signing_key: signing_key_bytes(wallet_key), public_key, private_key },
        ),
        material_result(
            public_key,
            private_key,
            wallet_key,
            FheDecoded { public_key: false, private_key: private_decodes },
            KeyStoreError::InvalidKey,
        ) == Err::<KeyMaterial, KeyStoreError>(KeyStoreError::ParseError(KeyFile::PublicKey)),
{
}

/// Two signing-key texts that spell the same key (the same text twice, or one with a `0x`
/// prefix or other letter case) give the same address.
pub proof fn lemma_address_deterministic(a: Seq<char>, b: Seq<char>)
    requires
        a == b || (valid_signing_key(a) && valid_signing_key(b) && signing_key_bytes(a)
            == signing_key_bytes(b)),
    ensures
        derived_address(a) == derived_address(b),
{
}

} // verus!
