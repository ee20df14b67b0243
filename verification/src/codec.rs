use vstd::prelude::*;

verus! {

/// Error returned when wire bytes cannot be decoded into an entity.
#[derive(Debug, PartialEq, Eq, Structural, Clone, Copy)]
pub enum DecodeError {
    /// The outer list carries a number of items that no entity of this
    /// format uses.
    BadItemCount,
    /// The framing or one of the fields could not be read.
    Malformed,
}

/// Largest opaque byte field (contract code, state blob, call payload,
/// proof blob) the codec accepts; keeps every frame far below the
/// encoder's 32-bit length limit.
pub const MAX_BLOB: usize = 65535;

/// Largest number of transactions one bundle may carry.
pub const MAX_TXS: usize = 1024;

/// Mathematical model of an account: either absent from the ledger or a
/// populated entry.
pub enum AccountView {
    Empty,
    Existing {
        addr: Seq<u8>,
        nonce: u64,
        balance: u64,
        code: Seq<u8>,
        extra: Seq<u8>,
    },
}

/// Mathematical model of a transaction; `from` and `to` are nibble keys,
/// `signature` is 64 signature bytes followed by one recovery byte.
pub struct TxView {
    pub from: Seq<u8>,
    pub to: Seq<u8>,
    pub nonce: u64,
    pub value: u64,
    pub call: u32,
    pub data: Seq<u8>,
    pub signature: Seq<u8>,
}

/// Mathematical model of a transaction bundle: an opaque proof blob and
/// an ordered transaction list.
pub struct TxDataView {
    pub proof_blob: Seq<u8>,
    pub txs: Seq<TxView>,
}

/// A nibble key is empty (the sentinel address) or exactly 40 half-byte
/// units, each below 16.
pub open spec fn addr_ok(s: Seq<u8>) -> bool {
    &&& s.len() == 0 || s.len() == 40
    &&& forall|i: int| 0 <= i < s.len() ==> s[i] < 16
}

pub open spec fn blob_fits(s: Seq<u8>) -> bool {
    s.len() <= MAX_BLOB
}

pub open spec fn account_wf(v: AccountView) -> bool {
    match v {
        AccountView::Empty => true,
        AccountView::Existing { addr, code, extra, .. } => {
            addr_ok(addr) && blob_fits(code) && blob_fits(extra)
        },
    }
}

pub open spec fn tx_wf(t: TxView) -> bool {
    &&& addr_ok(t.from)
    &&& addr_ok(t.to)
    &&& blob_fits(t.data)
    &&& t.signature.len() == 65
}

pub open spec fn txs_wf(ts: Seq<TxView>) -> bool {
    forall|i: int| 0 <= i < ts.len() ==> tx_wf(#[trigger] ts[i])
}

pub open spec fn txdata_wf(d: TxDataView) -> bool {
    &&& blob_fits(d.proof_blob)
    &&& d.txs.len() <= MAX_TXS
    &&& txs_wf(d.txs)
}

// ---------------------------------------------------------------------
// Names for what the rlp primitives return. Each is applied by the
// contracts of the wrappers below; the library never restates the
// byte-level encoding rules itself.
// ---------------------------------------------------------------------

/// The encoding of a byte string.
pub uninterp spec fn rlp_item(s: Seq<u8>) -> Seq<u8>;

/// The encoding of an unsigned 64-bit scalar.
pub uninterp spec fn rlp_u64(v: u64) -> Seq<u8>;

/// The encoding of an unsigned 32-bit scalar.
pub uninterp spec fn rlp_u32(v: u32) -> Seq<u8>;

/// The list framing placed around an already-encoded payload.
pub uninterp spec fn rlp_list(payload: Seq<u8>) -> Seq<u8>;

/// The item count of a list, `None` where the bytes are not a list or
/// their payload cannot be walked.
pub uninterp spec fn rlp_count_of(bytes: Seq<u8>) -> Option<usize>;

// ---------------------------------------------------------------------
// The fixed field orders of the wire format.
// ---------------------------------------------------------------------

/// Payload of a populated account: [address, nonce, balance, code, extra].
pub open spec fn account_payload(
    addr: Seq<u8>,
    nonce: u64,
    balance: u64,
    code: Seq<u8>,
    extra: Seq<u8>,
) -> Seq<u8> {
    rlp_item(addr) + rlp_u64(nonce) + rlp_u64(balance) + rlp_item(code) + rlp_item(extra)
}

/// Payload of a transaction:
/// [from, to, nonce, value, call, data, signature].
pub open spec fn tx_payload(t: TxView) -> Seq<u8> {
    rlp_item(t.from) + rlp_item(t.to) + rlp_u64(t.nonce) + rlp_u64(t.value) + rlp_u32(t.call)
        + rlp_item(t.data) + rlp_item(t.signature)
}

/// The complete encoding of one transaction.
pub open spec fn tx_enc(t: TxView) -> Seq<u8> {
    rlp_list(tx_payload(t))
}

/// The transaction list payload: the encodings of the transactions, in
/// order, laid end to end.
pub open spec fn txs_payload(ts: Seq<TxView>) -> Seq<u8>
    decreases ts.len(),
{
    if ts.len() == 0 {
        Seq::empty()
    } else {
        tx_enc(ts[0]) + txs_payload(ts.drop_first())
    }
}

/// Payload of a bundle: [proof blob, transaction list].
pub open spec fn txdata_payload(proof_blob: Seq<u8>, txs: Seq<u8>) -> Seq<u8> {
    rlp_item(proof_blob) + rlp_list(txs)
}

/// The complete encoding of an account. An absent account is the
/// empty-payload marker, a single 0x80 byte.
pub open spec fn account_enc(v: AccountView) -> Seq<u8> {
    match v {
        AccountView::Empty => seq![0x80u8],
        AccountView::Existing { addr, nonce, balance, code, extra } => {
            rlp_list(account_payload(addr, nonce, balance, code, extra))
        },
    }
}

/// The complete encoding of a bundle.
pub open spec fn txdata_enc(d: TxDataView) -> Seq<u8> {
    rlp_list(txdata_payload(d.proof_blob, txs_payload(d.txs)))
}

/// The first `n` bytes of a vector, as a fresh vector.
pub fn vec_take(v: &Vec<u8>, n: usize) -> (r: Vec<u8>)
    requires
        n <= v@.len(),
    ensures
        r@ == v@.take(n as int),
{
    let mut r: Vec<u8> = Vec::new();
    let mut i: usize = 0;
    while i < n
        invariant
            i <= n,
            n <= v@.len(),
            r@ == v@.take(i as int),
        decreases n - i,
    {
        r.push(v[i]);
        i = i + 1;
    }
    r
}

// ---------------------------------------------------------------------
// Trusted wrappers around the rlp crate.
// ---------------------------------------------------------------------

/// Relies on rlp::encode for byte strings: a length-prefixed string item
/// whose header is at most 9 bytes and starts below 0xc0; the empty
/// string encodes as the single byte 0x80.
#[verifier::external_body]
pub(crate) fn rlp_encode_bytes(b: &Vec<u8>) -> (r: Vec<u8>)
    ensures
        r@ == rlp_item(b@),
        1 <= r@.len() <= b@.len() + 9,
        r@[0] < 0xc0,
        b@.len() == 0 ==> r@ == seq![0x80u8],
{
    rlp::encode(b).to_vec()
}

/// Relies on rlp::encode for u64: a big-endian minimal-length string
/// item of at most 9 bytes, starting below 0xc0.
#[verifier::external_body]
pub(crate) fn rlp_encode_u64(v: u64) -> (r: Vec<u8>)
    ensures
        r@ == rlp_u64(v),
        1 <= r@.len() <= 9,
        r@[0] < 0xc0,
{
    rlp::encode(&v).to_vec()
}

/// Relies on rlp::encode for u32: a big-endian minimal-length string
/// item of at most 5 bytes, starting below 0xc0.
#[verifier::external_body]
pub(crate) fn rlp_encode_u32(v: u32) -> (r: Vec<u8>)
    ensures
        r@ == rlp_u32(v),
        1 <= r@.len() <= 5,
        r@[0] < 0xc0,
{
    rlp::encode(&v).to_vec()
}

/// Relies on rlp::RlpStream (begin_unbounded_list, append_raw,
/// finalize_unbounded_list, out): places a list header of 1 to 5 bytes,
/// starting at 0xc0 or above, in front of an already-encoded payload.
#[verifier::external_body]
pub(crate) fn rlp_wrap_list(payload: &Vec<u8>) -> (r: Vec<u8>)
    requires
        payload@.len() <= 0xffff_ffff,
    ensures
        r@ == rlp_list(payload@),
        payload@.len() + 1 <= r@.len() <= payload@.len() + 5,
        r@[0] >= 0xc0,
{
    let mut s = rlp::RlpStream::new();
    s.begin_unbounded_list();
    s.append_raw(payload.as_slice(), 1);
    s.finalize_unbounded_list();
    s.out().to_vec()
}

/// Relies on rlp::Rlp::is_list: true exactly for non-empty input whose
/// first byte is a list header (0xc0 or above). String items always
/// start below 0xc0, list framings at 0xc0 or above.
#[verifier::external_body]
pub(crate) fn rlp_is_list(bytes: &Vec<u8>) -> (r: bool)
    ensures
        r == (bytes@.len() > 0 && bytes@[0] >= 0xc0),
        forall|p: Seq<u8>| bytes@ == #[trigger] rlp_list(p) ==> r,
        forall|s: Seq<u8>| bytes@ == #[trigger] rlp_item(s) ==> !r,
{
    rlp::Rlp::new(bytes.as_slice()).is_list()
}

/// Relies on rlp::Rlp::item_count: the number of items of a list, an
/// error for anything that is not a list. The quantified clauses record
/// what the count is on the frames this library writes.
#[verifier::external_body]
pub(crate) fn rlp_item_count(bytes: &Vec<u8>) -> (r: Result<usize, DecodeError>)
    ensures
        r is Ok ==> rlp_count_of(bytes@) == Some(r->Ok_0),
        r is Err ==> (rlp_count_of(bytes@) is None && r->Err_0 == DecodeError::Malformed),
        forall|a: Seq<u8>, n: u64, bl: u64, c: Seq<u8>, s: Seq<u8>|
            a.len() <= MAX_BLOB && c.len() <= MAX_BLOB && s.len() <= MAX_BLOB
                && bytes@ == rlp_list(#[trigger] account_payload(a, n, bl, c, s))
                ==> (r is Ok && r->Ok_0 == 5),
        forall|t: TxView| tx_wf(t) && bytes@ == #[trigger] tx_enc(t)
            ==> (r is Ok && r->Ok_0 == 7),
        forall|p: Seq<u8>, ts: Seq<TxView>|
            p.len() <= MAX_BLOB && txs_wf(ts) && ts.len() <= MAX_TXS
                && bytes@ == rlp_list(#[trigger] txdata_payload(p, txs_payload(ts)))
                ==> (r is Ok && r->Ok_0 == 2),
        forall|ts: Seq<TxView>|
            txs_wf(ts) && ts.len() <= MAX_TXS && bytes@ == rlp_list(#[trigger] txs_payload(ts))
                ==> (r is Ok && r->Ok_0 == ts.len()),
{
    rlp::Rlp::new(bytes.as_slice()).item_count().map_err(|_| DecodeError::Malformed)
}

/// Relies on rlp::Rlp::val_at for byte strings: reads back the string
/// item at the given index of a list. The clauses record the byte-string
/// positions of the frames this library writes.
#[verifier::external_body]
pub(crate) fn rlp_bytes_at(bytes: &Vec<u8>, i: usize) -> (r: Result<Vec<u8>, DecodeError>)
    ensures
        forall|a: Seq<u8>, n: u64, bl: u64, c: Seq<u8>, s: Seq<u8>|
            a.len() <= MAX_BLOB && c.len() <= MAX_BLOB && s.len() <= MAX_BLOB
                && bytes@ == rlp_list(#[trigger] account_payload(a, n, bl, c, s))
                ==> (i == 0 ==> r is Ok && r->Ok_0@ == a)
                    && (i == 3 ==> r is Ok && r->Ok_0@ == c)
                    && (i == 4 ==> r is Ok && r->Ok_0@ == s),
        forall|t: TxView| tx_wf(t) && bytes@ == #[trigger] tx_enc(t)
            ==> (i == 0 ==> r is Ok && r->Ok_0@ == t.from)
                && (i == 1 ==> r is Ok && r->Ok_0@ == t.to)
                && (i == 5 ==> r is Ok && r->Ok_0@ == t.data)
                && (i == 6 ==> r is Ok && r->Ok_0@ == t.signature),
        forall|p: Seq<u8>, ts: Seq<TxView>|
            p.len() <= MAX_BLOB && txs_wf(ts) && ts.len() <= MAX_TXS
                && bytes@ == rlp_list(#[trigger] txdata_payload(p, txs_payload(ts)))
                ==> (i == 0 ==> r is Ok && r->Ok_0@ == p),
{
    rlp::Rlp::new(bytes.as_slice()).val_at::<Vec<u8>>(i).map_err(|_| DecodeError::Malformed)
}

/// Relies on rlp::Rlp::val_at for u64: reads back the scalar at the
/// given index of a list.
#[verifier::external_body]
pub(crate) fn rlp_u64_at(bytes: &Vec<u8>, i: usize) -> (r: Result<u64, DecodeError>)
    ensures
        forall|a: Seq<u8>, n: u64, bl: u64, c: Seq<u8>, s: Seq<u8>|
            a.len() <= MAX_BLOB && c.len() <= MAX_BLOB && s.len() <= MAX_BLOB
                && bytes@ == rlp_list(#[trigger] account_payload(a, n, bl, c, s))
                ==> (i == 1 ==> r == Result::<u64, DecodeError>::Ok(n))
                    && (i == 2 ==> r == Result::<u64, DecodeError>::Ok(bl)),
        forall|t: TxView| tx_wf(t) && bytes@ == #[trigger] tx_enc(t)
            ==> (i == 2 ==> r == Result::<u64, DecodeError>::Ok(t.nonce))
                && (i == 3 ==> r == Result::<u64, DecodeError>::Ok(t.value)),
{
    rlp::Rlp::new(bytes.as_slice()).val_at::<u64>(i).map_err(|_| DecodeError::Malformed)
}

/// Relies on rlp::Rlp::val_at for u32: reads back the scalar at the
/// given index of a list.
#[verifier::external_body]
pub(crate) fn rlp_u32_at(bytes: &Vec<u8>, i: usize) -> (r: Result<u32, DecodeError>)
    ensures
        forall|t: TxView| tx_wf(t) && bytes@ == #[trigger] tx_enc(t)
            ==> (i == 4 ==> r == Result::<u32, DecodeError>::Ok(t.call)),
{
    rlp::Rlp::new(bytes.as_slice()).val_at::<u32>(i).map_err(|_| DecodeError::Malformed)
}

/// Relies on rlp::Rlp::at and as_raw: hands back, unparsed, the complete
/// encoding of the item at the given index of a list.
#[verifier::external_body]
pub(crate) fn rlp_raw_at(bytes: &Vec<u8>, i: usize) -> (r: Result<Vec<u8>, DecodeError>)
    ensures
        forall|p: Seq<u8>, ts: Seq<TxView>|
            p.len() <= MAX_BLOB && txs_wf(ts) && ts.len() <= MAX_TXS
                && bytes@ == rlp_list(#[trigger] txdata_payload(p, txs_payload(ts)))
                ==> (i == 1 ==> r is Ok && r->Ok_0@ == rlp_list(txs_payload(ts))),
        forall|ts: Seq<TxView>|
            txs_wf(ts) && ts.len() <= MAX_TXS && bytes@ == rlp_list(#[trigger] txs_payload(ts))
                && i < ts.len()
                ==> r is Ok && r->Ok_0@ == tx_enc(ts[i as int]),
{
    match rlp::Rlp::new(bytes.as_slice()).at(i) {
        Ok(item) => Ok(item.as_raw().to_vec()),
        Err(_) => Err(DecodeError::Malformed),
    }
}

} // verus!
