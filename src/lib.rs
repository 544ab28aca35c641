pub mod hex;
pub mod votes;
pub mod network;
pub mod signer;
pub mod keystore;
