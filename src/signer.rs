use crate::hex::{all_hex, decode_hex};
use ethers::providers::{Http, Provider};
use ethers::signers::{LocalWallet, Signer};
use ethers::types::Address;
use vstd::prelude::*;

verus! {

/// The order of the secp256k1 group: a signing key is a scalar below it.
pub open spec fn secp256k1_order() -> int {
    let w: int = 0x10000000000000000;
    ((0xFFFFFFFFFFFFFFFF * w + 0xFFFFFFFFFFFFFFFE) * w + 0xBAAEDCE6AF48A03B) * w
        + 0xBFD25E8CD0364141
}

/// The number that bytes spell in big-endian order.
pub open spec fn be_value(b: Seq<u8>) -> nat
    decreases b.len(),
{
    if b.len() == 0 {
        0
    } else {
        be_value(b.drop_last()) * 256 + b.last() as nat
    }
}

/// Thirty-two bytes that spell a non-zero scalar below the group order.
pub open spec fn valid_scalar(b: Seq<u8>) -> bool {
    &&& b.len() == 32
    &&& 0 < be_value(b) < secp256k1_order()
}

/// Drops one leading `0x` or `0X` when `upper_only` is false, one leading `0X` when it is true.
pub open spec fn strip_hex_prefix(s: Seq<char>, upper_only: bool) -> Seq<char> {
    if s.len() >= 2 && s[0] == '0' && (s[1] == 'X' || (!upper_only && s[1] == 'x')) {
        s.subrange(2, s.len() as int)
    } else {
        s
    }
}

/// The digits of a signing-key text: the wallet drops a leading `0X`, then the hex decoder a
/// leading `0x` or `0X`.
pub open spec fn key_digits(s: Seq<char>) -> Seq<char> {
    strip_hex_prefix(strip_hex_prefix(s, true), false)
}

/// Whether `s` is a well-formed signing key: sixty-four hex digits of a valid scalar.
pub open spec fn valid_signing_key(s: Seq<char>) -> bool {
    &&& key_digits(s).len() == 64
    &&& all_hex(key_digits(s))
    &&& valid_scalar(decode_hex(key_digits(s)))
}

/// The scalar that a well-formed signing-key text spells.
pub open spec fn signing_key_bytes(s: Seq<char>) -> Seq<u8> {
    decode_hex(key_digits(s))
}

/// The hex digits of an address text: a leading `0x` dropped, and spaces, tabs, carriage
/// returns and line feeds skipped.
pub open spec fn address_digits(s: Seq<char>) -> Seq<char> {
    let t = if s.len() >= 2 && s[0] == '0' && s[1] == 'x' {
        s.subrange(2, s.len() as int)
    } else {
        s
    };
    t.filter(|c: char| !(c == ' ' || c == '\r' || c == '\n' || c == '\t'))
}

/// Whether `s` spells a twenty-byte address in hexadecimal.
pub open spec fn valid_address_text(s: Seq<char>) -> bool {
    address_digits(s).len() == 40 && all_hex(address_digits(s))
}

/// The twenty-byte account address of the signing key `key`.
pub uninterp spec fn key_address(key: Seq<u8>) -> Seq<u8>;

/// Whether `s` parses as an absolute URL.
pub uninterp spec fn url_parses(s: Seq<char>) -> bool;

#[verifier::external_type_specification]
#[verifier::external_body]
#[verifier::reject_recursive_types(P)]
pub struct ExProvider<P>(Provider<P>);

#[verifier::external_type_specification]
#[verifier::external_body]
pub struct ExHttp(Http);

/// Relies on `Wallet<SigningKey>::from_str`: it drops a leading `0X`, hex-decodes the rest
/// (which drops a leading `0x` or `0X`), wants thirty-two bytes, and accepts them when
/// `SigningKey::from_bytes` does: a non-zero scalar below the group order. `to_bytes` gives
/// that scalar back, big-endian.
#[verifier::external_body]
pub(crate) fn parse_signing_key(s: &str) -> (r: Option<Vec<u8>>)
    ensures
        r.is_some() == valid_signing_key(s@),
        r matches Some(b) ==> b@ == signing_key_bytes(s@),
{
    <LocalWallet as std::str::FromStr>::from_str(s).ok().map(|w| w.signer().to_bytes().to_vec())
}

/// Relies on `Wallet<SigningKey>::new`, which draws a random non-zero scalar below the group
/// order; `to_bytes` gives it big-endian.
#[verifier::external_body]
pub(crate) fn random_signing_key() -> (r: Vec<u8>)
    ensures
        valid_scalar(r@),
{
    LocalWallet::new(&mut ethers::core::rand::thread_rng()).signer().to_bytes().to_vec()
}

/// Relies on `Wallet<SigningKey>::from_bytes`, which accepts thirty-two bytes of a valid
/// scalar, and on its `address`, a function of the key alone.
#[verifier::external_body]
pub(crate) fn address_of_key(key: &[u8]) -> (r: Option<Vec<u8>>)
    requires
        key@.len() == 32,
    ensures
        r.is_some() == valid_scalar(key@),
        r matches Some(a) ==> a@ == key_address(key@) && a@.len() == 20,
{
    LocalWallet::from_bytes(key).ok().map(|w| w.address().as_bytes().to_vec())
}

/// Relies on `Provider<Http>::try_from(&str)`: it fails exactly when `Url::parse` does, and
/// otherwise sets up an HTTP client without opening a connection.
#[verifier::external_body]
pub(crate) fn http_provider(endpoint: &str) -> (r: Option<Provider<Http>>)
    ensures
        r.is_some() == url_parses(endpoint@),
{
    Provider::<Http>::try_from(endpoint).ok()
}

/// Relies on `H160::from_str`: it drops a leading `0x`, skips whitespace between digits, and
/// reads exactly forty hex digits of either case, big-endian.
#[verifier::external_body]
pub(crate) fn parse_address(s: &str) -> (r: Option<[u8; 20]>)
    ensures
        r.is_some() == valid_address_text(s@),
        r matches Some(a) ==> a@ == decode_hex(address_digits(s@)),
{
    <Address as std::str::FromStr>::from_str(s).ok().map(|a| a.0)
}

} // verus!
