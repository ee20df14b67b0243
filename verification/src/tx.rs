use vstd::prelude::*;

use crate::addr::{nibble_key_ok, nibbles_of, vecs_equal, Address};
use crate::codec::{
    rlp_bytes_at, rlp_count_of, rlp_encode_bytes, rlp_encode_u32, rlp_encode_u64, rlp_is_list,
    rlp_item, rlp_item_count, rlp_u32, rlp_u32_at, rlp_u64, rlp_u64_at, rlp_wrap_list,
    tx_enc, tx_payload, tx_wf, vec_take, DecodeError, TxView, MAX_BLOB,
};
use crate::crypto::{
    addr_of_key, addr_of_pk, ec_recover, ec_sign, ec_verify, hash_to_address, keccak, keccak_of,
    pubkey_of, sig_of, valid_sk, verify_of, CryptoError,
};

verus! {

/// A single transfer-and-call instruction. It is built unsigned (the
/// signature field holds 65 zero bytes), signed in place exactly once
/// before transmission, and immutable afterwards.
#[derive(Debug)]
pub struct Tx {
    pub from: Address,
    pub to: Address,
    pub nonce: u64,
    pub value: u64,
    pub call: u32,
    pub data: Vec<u8>,
    pub signature: Vec<u8>,
}

impl View for Tx {
    type V = TxView;

    open spec fn view(&self) -> TxView {
        TxView {
            from: self.from@,
            to: self.to@,
            nonce: self.nonce,
            value: self.value,
            call: self.call,
            data: self.data@,
            signature: self.signature@,
        }
    }
}

/// The bytes that are hashed into the signing digest: the ordered
/// non-signature fields, each individually encoded, laid end to end.
pub open spec fn digest_input(t: TxView) -> Seq<u8> {
    rlp_item(t.from) + rlp_item(t.to) + rlp_u64(t.nonce) + rlp_u64(t.value) + rlp_u32(t.call)
        + rlp_item(t.data)
}

/// The signing digest of a transaction.
pub open spec fn spec_digest(t: TxView) -> Seq<u8> {
    keccak_of(digest_input(t))
}

/// The transaction with its signature field replaced.
pub open spec fn with_signature(t: TxView, sg: Seq<u8>) -> TxView {
    TxView {
        from: t.from,
        to: t.to,
        nonce: t.nonce,
        value: t.value,
        call: t.call,
        data: t.data,
        signature: sg,
    }
}

/// What a signature check returns: whether the recovered signer matches
/// the claimed sender, and the recovered address itself (the sentinel
/// empty address where recovery or verification fails).
pub open spec fn spec_sig_check(t: TxView) -> (bool, Seq<u8>) {
    if t.signature.len() != 65 {
        (false, Seq::<u8>::empty())
    } else {
        let d = spec_digest(t);
        match pubkey_of(d, t.signature) {
            Option::None => (false, Seq::<u8>::empty()),
            Option::Some(pk) => {
                if !verify_of(d, t.signature.take(64), pk) {
                    (false, Seq::<u8>::empty())
                } else {
                    (addr_of_pk(pk) == t.from, addr_of_pk(pk))
                }
            },
        }
    }
}

impl Tx {
    pub open spec fn wf(&self) -> bool {
        tx_wf(self@)
    }

    /// A fresh unsigned transaction between two 20-byte addresses: zero
    /// value, zero call selector, no payload, zero-filled signature.
    pub fn new(from: Vec<u8>, to: Vec<u8>, nonce: u64) -> (r: Tx)
        requires
            from@.len() == 20,
            to@.len() == 20,
        ensures
            r@ == (TxView {
                from: nibbles_of(from@),
                to: nibbles_of(to@),
                nonce: nonce,
                value: 0u64,
                call: 0u32,
                data: Seq::empty(),
                signature: Seq::new(65, |i: int| 0u8),
            }),
            r.wf(),
    {
        let mut signature: Vec<u8> = Vec::new();
        let mut i: usize = 0;
        while i < 65
            invariant
                i <= 65,
                signature@ == Seq::new(i as nat, |j: int| 0u8),
            decreases 65 - i,
        {
            signature.push(0u8);
            proof {
                assert(signature@ =~= Seq::new((i + 1) as nat, |j: int| 0u8));
            }
            i = i + 1;
        }
        let r = Tx {
            from: Address::from_bytes(&from),
            to: Address::from_bytes(&to),
            nonce,
            value: 0,
            call: 0,
            data: Vec::new(),
            signature,
        };
        proof {
            assert(r@.data =~= Seq::<u8>::empty());
        }
        r
    }

    /// The signing digest: the hash of the ordered non-signature fields,
    /// each individually encoded.
    pub fn signing_digest(&self) -> (r: Vec<u8>)
        ensures
            r@ == spec_digest(self@),
            r@.len() == 32,
    {
        let mut input = rlp_encode_bytes(&self.from.nibbles);
        let mut part = rlp_encode_bytes(&self.to.nibbles);
        input.append(&mut part);
        let mut part = rlp_encode_u64(self.nonce);
        input.append(&mut part);
        let mut part = rlp_encode_u64(self.value);
        input.append(&mut part);
        let mut part = rlp_encode_u32(self.call);
        input.append(&mut part);
        let mut part = rlp_encode_bytes(&self.data);
        input.append(&mut part);
        proof {
            assert(input@ =~= digest_input(self@));
        }
        keccak(&input)
    }

    /// Signs the transaction in place: the 64 signature bytes and the
    /// recovery byte of the digest's signature replace the signature
    /// field. Fails, leaving the transaction untouched, exactly when the
    /// key does not parse.
    pub fn sign(&mut self, skey: &[u8; 32]) -> (r: Result<(), CryptoError>)
        ensures
            r is Ok <==> valid_sk(skey@),
            r is Ok ==> final(self)@ == with_signature(
                old(self)@,
                sig_of(spec_digest(old(self)@), skey@),
            ),
            r is Ok && old(self).wf() ==> final(self).wf(),
            r is Err ==> (final(self)@ == old(self)@ && r->Err_0 == CryptoError::InvalidSecretKey),
    {
        let digest = self.signing_digest();
        match ec_sign(&digest, skey) {
            Some(sg) => {
                self.signature = sg;
                Ok(())
            },
            None => Err(CryptoError::InvalidSecretKey),
        }
    }

    /// Recomputes the digest, recovers the signer's public key from the
    /// stored signature, verifies it, and compares the recovered address
    /// with the claimed sender. Never fails: a signature that cannot be
    /// parsed, recovered or verified yields false and the sentinel empty
    /// address. The quantified clause is the authentication law: on a
    /// transaction carrying the signature of its own digest under a key,
    /// the check recovers exactly that key's address and accepts exactly
    /// when the sender field holds it.
    pub fn sig_check(&self) -> (r: (bool, Address))
        ensures
            r.0 == spec_sig_check(self@).0,
            r.1@ == spec_sig_check(self@).1,
            forall|k: Seq<u8>|
                valid_sk(k) && self.signature@.len() == 65 && self.signature@ == #[trigger] sig_of(
                    spec_digest(self@),
                    k,
                ) ==> (r.1@ == addr_of_key(k) && r.0 == (self.from@ == addr_of_key(k))),
    {
        if self.signature.len() != 65 {
            return (false, Address::empty());
        }
        let digest = self.signing_digest();
        let sig64 = vec_take(&self.signature, 64);
        let recid = self.signature[64];
        proof {
            assert(sig64@.push(recid) =~= self.signature@);
        }
        let pk = match ec_recover(&digest, &sig64, recid) {
            Some(p) => p,
            None => {
                return (false, Address::empty());
            },
        };
        if !ec_verify(&digest, &sig64, &pk) {
            return (false, Address::empty());
        }
        let addr = hash_to_address(&pk);
        let same = vecs_equal(&addr.nibbles, &self.from.nibbles);
        (same, addr)
    }

    /// The canonical encoding: the seven fields as a list.
    pub fn encode(&self) -> (r: Vec<u8>)
        requires
            self.wf(),
        ensures
            r@ == tx_enc(self@),
            r@.len() <= 2 * MAX_BLOB,
    {
        let mut payload = rlp_encode_bytes(&self.from.nibbles);
        let mut part = rlp_encode_bytes(&self.to.nibbles);
        payload.append(&mut part);
        let mut part = rlp_encode_u64(self.nonce);
        payload.append(&mut part);
        let mut part = rlp_encode_u64(self.value);
        payload.append(&mut part);
        let mut part = rlp_encode_u32(self.call);
        payload.append(&mut part);
        let mut part = rlp_encode_bytes(&self.data);
        payload.append(&mut part);
        let mut part = rlp_encode_bytes(&self.signature);
        payload.append(&mut part);
        proof {
            assert(payload@ =~= tx_payload(self@));
        }
        rlp_wrap_list(&payload)
    }

    /// Decodes the canonical encoding. A list of seven items is a
    /// transaction; a list of any other count is refused as
    /// `BadItemCount`, anything else as `Malformed`.
    pub fn decode(bytes: &Vec<u8>) -> (r: Result<Tx, DecodeError>)
        ensures
            forall|t: TxView|
                tx_wf(t) && bytes@ == #[trigger] tx_enc(t) ==> (r is Ok && r->Ok_0@ == t),
            (bytes@.len() == 0 || bytes@[0] < 0xc0) ==> r == Err::<Tx, DecodeError>(
                DecodeError::Malformed,
            ),
            (bytes@.len() > 0 && bytes@[0] >= 0xc0 && rlp_count_of(bytes@) is Some && rlp_count_of(
                bytes@,
            )->Some_0 != 7) ==> r == Err::<Tx, DecodeError>(DecodeError::BadItemCount),
            (bytes@.len() > 0 && bytes@[0] >= 0xc0 && rlp_count_of(bytes@) is None) ==> r == Err::<
                Tx,
                DecodeError,
            >(DecodeError::Malformed),
            r is Ok ==> r->Ok_0.wf(),
    {
        if !rlp_is_list(bytes) {
            return Err(DecodeError::Malformed);
        }
        let count = match rlp_item_count(bytes) {
            Ok(c) => c,
            Err(e) => {
                return Err(e);
            },
        };
        if count != 7 {
            return Err(DecodeError::BadItemCount);
        }
        let f = match rlp_bytes_at(bytes, 0) {
            Ok(v) => v,
            Err(e) => {
                return Err(e);
            },
        };
        let t = match rlp_bytes_at(bytes, 1) {
            Ok(v) => v,
            Err(e) => {
                return Err(e);
            },
        };
        let n = match rlp_u64_at(bytes, 2) {
            Ok(v) => v,
            Err(e) => {
                return Err(e);
            },
        };
        let vl = match rlp_u64_at(bytes, 3) {
            Ok(v) => v,
            Err(e) => {
                return Err(e);
            },
        };
        let cl = match rlp_u32_at(bytes, 4) {
            Ok(v) => v,
            Err(e) => {
                return Err(e);
            },
        };
        let d = match rlp_bytes_at(bytes, 5) {
            Ok(v) => v,
            Err(e) => {
                return Err(e);
            },
        };
        let sg = match rlp_bytes_at(bytes, 6) {
            Ok(v) => v,
            Err(e) => {
                return Err(e);
            },
        };
        if !nibble_key_ok(&f) || !nibble_key_ok(&t) || d.len() > MAX_BLOB || sg.len() != 65 {
            return Err(DecodeError::Malformed);
        }
        Ok(
            Tx {
                from: Address { nibbles: f },
                to: Address { nibbles: t },
                nonce: n,
                value: vl,
                call: cl,
                data: d,
                signature: sg,
            },
        )
    }
}

impl PartialEq for Tx {
    /// Structural equality over all seven fields.
    fn eq(&self, other: &Tx) -> (r: bool) {
        vecs_equal(&self.from.nibbles, &other.from.nibbles) && vecs_equal(
            &self.to.nibbles,
            &other.to.nibbles,
        ) && self.nonce == other.nonce && self.value == other.value && self.call == other.call
            && vecs_equal(&self.data, &other.data) && vecs_equal(&self.signature, &other.signature)
    }
}

impl vstd::std_specs::cmp::PartialEqSpecImpl for Tx {
    open spec fn obeys_eq_spec() -> bool {
        true
    }

    open spec fn eq_spec(&self, other: &Tx) -> bool {
        self@ == other@
    }
}

} // verus!
