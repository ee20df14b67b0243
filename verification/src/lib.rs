//! Account and transaction core of a layer-2 ledger: the account entity
//! with its balance and nonce contracts, address derivation from a
//! signing key, transaction signing and signature recovery, and the
//! canonical list-framed wire encoding of accounts, transactions and
//! transaction bundles.
//!
//! The encoding, hashing and curve primitives come from outside crates
//! and are consumed through narrow trusted wrappers; everything built on
//! top of them — field orders, item counts, the empty-account sentinel,
//! ledger mutations, digest construction and sender authentication — is
//! specified and verified here.

pub mod account;
pub mod addr;
pub mod codec;
pub mod crypto;
pub mod tx;
pub mod txdata;

pub use account::{Account, AccountError};
pub use addr::Address;
pub use codec::DecodeError;
pub use crypto::{derive_address, CryptoError};
pub use tx::Tx;
pub use txdata::TxData;
