use vstd::prelude::*;

use crate::account::Account;
use crate::addr::{nibbles_of, Address};
use crate::codec::AccountView;

verus! {

/// Error raised when the signing primitive rejects its input; there is
/// no safe fallback, the caller must treat the key as unusable.
#[derive(Debug, PartialEq, Eq, Structural, Clone, Copy)]
pub enum CryptoError {
    /// The 32 bytes are not a valid secret scalar.
    InvalidSecretKey,
}

// ---------------------------------------------------------------------
// Names for what the cryptographic primitives return. Every primitive
// used here is a pure function of its byte inputs.
// ---------------------------------------------------------------------

/// The 32-byte digest of a byte string.
pub uninterp spec fn keccak_of(b: Seq<u8>) -> Seq<u8>;

/// True when the 32 bytes parse as a secret key.
pub uninterp spec fn valid_sk(key: Seq<u8>) -> bool;

/// The 65-byte recoverable signature (64 signature bytes, then the
/// recovery byte) of a 32-byte digest under a key.
pub uninterp spec fn sig_of(msg: Seq<u8>, key: Seq<u8>) -> Seq<u8>;

/// The 65-byte serialized public key of a secret key.
pub uninterp spec fn pk_of(key: Seq<u8>) -> Seq<u8>;

/// The public key recovered from a digest and a 65-byte recoverable
/// signature; None where parsing or recovery fails.
pub uninterp spec fn pubkey_of(msg: Seq<u8>, sig65: Seq<u8>) -> Option<Seq<u8>>;

/// The verification verdict on a digest, a 64-byte signature and a
/// serialized public key; false where any of them fails to parse.
pub uninterp spec fn verify_of(msg: Seq<u8>, sig64: Seq<u8>, pk: Seq<u8>) -> bool;

/// The address a public key hashes to: the first 20 digest bytes,
/// expanded to nibbles.
pub open spec fn addr_of_pk(pk: Seq<u8>) -> Seq<u8> {
    nibbles_of(keccak_of(pk).take(20))
}

/// The address a secret key derives.
pub open spec fn addr_of_key(key: Seq<u8>) -> Seq<u8> {
    addr_of_pk(pk_of(key))
}

// ---------------------------------------------------------------------
// Trusted wrappers around sha3 and libsecp256k1.
// ---------------------------------------------------------------------

/// Relies on sha3::Keccak256: a 32-byte digest, a function of the input
/// bytes alone.
#[verifier::external_body]
pub(crate) fn keccak(b: &Vec<u8>) -> (r: Vec<u8>)
    ensures
        r@ == keccak_of(b@),
        r@.len() == 32,
{
    <sha3::Keccak256 as sha3::Digest>::digest(b.as_slice()).to_vec()
}

/// Relies on libsecp256k1::sign, whose RFC 6979 nonce makes the
/// signature a function of digest and key alone, on SecretKey::parse and
/// Message::parse_slice for input validation, and on the crate's
/// guarantee that recover and verify accept what sign produced.
#[verifier::external_body]
pub(crate) fn ec_sign(msg: &Vec<u8>, key: &[u8; 32]) -> (r: Option<Vec<u8>>)
    ensures
        r is Some <==> (msg@.len() == 32 && valid_sk(key@)),
        r is Some ==> (r->Some_0@ == sig_of(msg@, key@) && r->Some_0@.len() == 65
            && r->Some_0@[64] < 4),
        r is Some ==> (pubkey_of(msg@, sig_of(msg@, key@)) == Some(pk_of(key@)) && pk_of(
            key@,
        ).len() == 65),
        r is Some ==> verify_of(msg@, sig_of(msg@, key@).take(64), pk_of(key@)),
{
    let sk = libsecp256k1::SecretKey::parse(key).ok()?;
    let m = libsecp256k1::Message::parse_slice(msg.as_slice()).ok()?;
    let (sig, recid) = libsecp256k1::sign(&m, &sk);
    let mut out = sig.serialize().to_vec();
    out.push(recid.serialize());
    Some(out)
}

/// Relies on libsecp256k1::recover (with Message::parse_slice,
/// Signature::parse_standard_slice, RecoveryId::parse and
/// PublicKey::serialize): the recovered key is a function of digest,
/// signature and recovery byte alone, and recovering a signature that
/// sign produced yields the signer's public key.
#[verifier::external_body]
pub(crate) fn ec_recover(msg: &Vec<u8>, sig64: &Vec<u8>, recid: u8) -> (r: Option<Vec<u8>>)
    ensures
        (msg@.len() == 32 && sig64@.len() == 64) ==> ((r is Some <==> pubkey_of(
            msg@,
            sig64@.push(recid),
        ) is Some) && (r is Some ==> r->Some_0@ == pubkey_of(msg@, sig64@.push(recid))->Some_0)),
        (msg@.len() != 32 || sig64@.len() != 64) ==> r is None,
        r is Some ==> r->Some_0@.len() == 65,
        forall|k: Seq<u8>|
            valid_sk(k) && msg@.len() == 32 && sig64@.push(recid) == #[trigger] sig_of(msg@, k)
                ==> (r is Some && r->Some_0@ == pk_of(k)),
{
    let m = libsecp256k1::Message::parse_slice(msg.as_slice()).ok()?;
    let s = libsecp256k1::Signature::parse_standard_slice(sig64.as_slice()).ok()?;
    let rid = libsecp256k1::RecoveryId::parse(recid).ok()?;
    let pk = libsecp256k1::recover(&m, &s, &rid).ok()?;
    Some(pk.serialize().to_vec())
}

/// Relies on libsecp256k1::verify (with the parse functions above): a
/// pure function of digest, signature and key, true of every signature
/// that sign produced for that key.
#[verifier::external_body]
pub(crate) fn ec_verify(msg: &Vec<u8>, sig64: &Vec<u8>, pk: &Vec<u8>) -> (r: bool)
    ensures
        r == verify_of(msg@, sig64@, pk@),
        forall|k: Seq<u8>|
            valid_sk(k) && msg@.len() == 32 && sig64@ == #[trigger] sig_of(msg@, k).take(64)
                && pk@ == pk_of(k) ==> r,
{
    let m = libsecp256k1::Message::parse_slice(msg.as_slice());
    let s = libsecp256k1::Signature::parse_standard_slice(sig64.as_slice());
    let p = libsecp256k1::PublicKey::parse_slice(pk.as_slice(), None);
    match (m, s, p) {
        (Ok(m), Ok(s), Ok(p)) => libsecp256k1::verify(&m, &s, &p),
        _ => false,
    }
}

/// The fixed, publicly known 32-byte message whose self-signature seeds
/// address derivation.
pub(crate) fn derivation_message() -> (r: Vec<u8>)
    ensures
        r@.len() == 32,
{
    let mut v: Vec<u8> = Vec::new();
    let mut i: usize = 0;
    while i < 32
        invariant
            i <= 32,
            v@.len() == i,
        decreases 32 - i,
    {
        v.push(0x55u8);
        i = i + 1;
    }
    v
}

/// Hashes a serialized public key and expands the first 20 digest
/// bytes into the 40-nibble address it owns.
pub(crate) fn hash_to_address(pk: &Vec<u8>) -> (r: Address)
    ensures
        r@ == addr_of_pk(pk@),
        r.wf(),
{
    let h = keccak(pk);
    let addr20 = crate::codec::vec_take(&h, 20);
    Address::from_bytes(&addr20)
}

/// Derives the 40-nibble address of a secret key: sign the fixed
/// message, recover the public key from that signature (checking the
/// sign/recover round trip in passing), hash it and keep the first 20
/// digest bytes. None exactly when the key does not parse.
pub fn derive_address(key: &[u8; 32]) -> (r: Option<Address>)
    ensures
        r is Some <==> valid_sk(key@),
        r is Some ==> (r->Some_0@ == addr_of_key(key@) && r->Some_0.wf()),
{
    let msg = derivation_message();
    let sg = match ec_sign(&msg, key) {
        Some(s) => s,
        None => {
            return None;
        },
    };
    let sig64 = crate::codec::vec_take(&sg, 64);
    let recid = sg[64];
    proof {
        assert(sig64@.push(recid) =~= sg@);
    }
    let pk = match ec_recover(&msg, &sig64, recid) {
        Some(p) => p,
        None => {
            // unreachable: recovery of a fresh self-signature cannot
            // fail, but the caller is shielded either way
            return None;
        },
    };
    Some(hash_to_address(&pk))
}

impl Account {
    /// A fresh populated account for a secret key: the derived address
    /// with zero nonce, zero balance, no code and no state.
    pub fn from_key(key: &[u8; 32]) -> (r: Option<Account>)
        ensures
            r is Some <==> valid_sk(key@),
            r is Some ==> (r->Some_0@ == AccountView::Existing {
                addr: addr_of_key(key@),
                nonce: 0u64,
                balance: 0u64,
                code: Seq::empty(),
                extra: Seq::empty(),
            } && r->Some_0.wf()),
    {
        match derive_address(key) {
            Some(addr) => Some(Account::Existing(addr, 0, 0, Vec::new(), Vec::new())),
            None => None,
        }
    }
}

/// Address derivation is deterministic: any two results obtained for
/// the same key agree.
pub proof fn lemma_derive_address_deterministic(key: Seq<u8>, a1: Seq<u8>, a2: Seq<u8>)
    requires
        a1 == addr_of_key(key),
        a2 == addr_of_key(key),
    ensures
        a1 == a2,
{
}

} // verus!
