use vstd::prelude::*;

use crate::addr::vecs_equal;
use crate::codec::{
    rlp_bytes_at, rlp_count_of, rlp_encode_bytes, rlp_is_list, rlp_item_count, rlp_list,
    rlp_raw_at, rlp_wrap_list, tx_enc, tx_wf, txdata_enc, txdata_payload, txdata_wf, txs_payload,
    txs_wf, DecodeError, TxDataView, TxView, MAX_BLOB, MAX_TXS,
};
use crate::tx::Tx;

verus! {

/// The views of a transaction vector, in order.
pub open spec fn txs_views(s: Seq<Tx>) -> Seq<TxView> {
    s.map_values(|t: Tx| t@)
}

/// Splitting off the last transaction splits the list payload.
pub proof fn lemma_txs_payload_snoc(ts: Seq<TxView>)
    requires
        ts.len() > 0,
    ensures
        txs_payload(ts) == txs_payload(ts.drop_last()) + tx_enc(ts.last()),
    decreases ts.len(),
{
    if ts.len() == 1 {
        assert(ts.drop_last() =~= Seq::<TxView>::empty());
        assert(ts.drop_first() =~= Seq::<TxView>::empty());
        assert(txs_payload(ts.drop_last()) + tx_enc(ts.last()) =~= tx_enc(ts[0]) + txs_payload(
            ts.drop_first(),
        ));
    } else {
        lemma_txs_payload_snoc(ts.drop_first());
        assert(ts.drop_first().drop_last() =~= ts.drop_last().drop_first());
        assert(ts.drop_first().last() == ts.last());
        assert(ts.drop_last()[0] == ts[0]);
        assert(tx_enc(ts[0]) + (txs_payload(ts.drop_last().drop_first()) + tx_enc(ts.last()))
            =~= (tx_enc(ts[0]) + txs_payload(ts.drop_last().drop_first())) + tx_enc(ts.last()));
    }
}

/// A bundle, the unit a batch submitter posts: an opaque, already
/// serialized multiproof covering the accounts the batch touches, and
/// the ordered transactions themselves. Each transaction carries its own
/// recoverable signature; the bundle itself is unsigned.
#[derive(Debug)]
pub struct TxData {
    pub proof_blob: Vec<u8>,
    pub txs: Vec<Tx>,
}

impl View for TxData {
    type V = TxDataView;

    open spec fn view(&self) -> TxDataView {
        TxDataView { proof_blob: self.proof_blob@, txs: txs_views(self.txs@) }
    }
}

impl TxData {
    pub open spec fn wf(&self) -> bool {
        txdata_wf(self@)
    }

    /// The canonical encoding: a two-item list holding the proof blob
    /// and the transaction list.
    #[verifier::loop_isolation(false)]
    pub fn encode(&self) -> (r: Vec<u8>)
        requires
            self.wf(),
        ensures
            r@ == txdata_enc(self@),
    {
        let mut txp: Vec<u8> = Vec::new();
        let mut i: usize = 0;
        while i < self.txs.len()
            invariant
                i <= self.txs@.len(),
                txp@ == txs_payload(txs_views(self.txs@).take(i as int)),
                txp@.len() <= (i as int) * 131070,
            decreases self.txs@.len() - i,
        {
            proof {
                assert(txs_views(self.txs@)[i as int] == self.txs@[i as int]@);
            }
            let mut e = self.txs[i].encode();
            txp.append(&mut e);
            proof {
                let vs = txs_views(self.txs@);
                assert(vs.take(i + 1).drop_last() =~= vs.take(i as int));
                assert(vs.take(i + 1).last() == self.txs@[i as int]@);
                lemma_txs_payload_snoc(vs.take(i + 1));
            }
            i = i + 1;
        }
        proof {
            assert(txs_views(self.txs@).take(self.txs@.len() as int) =~= txs_views(self.txs@));
        }
        let inner = rlp_wrap_list(&txp);
        let mut payload = rlp_encode_bytes(&self.proof_blob);
        let mut part = inner;
        payload.append(&mut part);
        proof {
            assert(payload@ =~= txdata_payload(self@.proof_blob, txs_payload(self@.txs)));
        }
        rlp_wrap_list(&payload)
    }

    /// Decodes the canonical encoding. A two-item list is a bundle; a
    /// list of any other count is refused as `BadItemCount`, anything
    /// else as `Malformed`.
    #[verifier::loop_isolation(false)]
    pub fn decode(bytes: &Vec<u8>) -> (r: Result<TxData, DecodeError>)
        ensures
            forall|d: TxDataView|
                txdata_wf(d) && bytes@ == #[trigger] txdata_enc(d) ==> (r is Ok && r->Ok_0@ == d),
            (bytes@.len() == 0 || bytes@[0] < 0xc0) ==> r == Err::<TxData, DecodeError>(
                DecodeError::Malformed,
            ),
            (bytes@.len() > 0 && bytes@[0] >= 0xc0 && rlp_count_of(bytes@) is Some && rlp_count_of(
                bytes@,
            )->Some_0 != 2) ==> r == Err::<TxData, DecodeError>(DecodeError::BadItemCount),
            (bytes@.len() > 0 && bytes@[0] >= 0xc0 && rlp_count_of(bytes@) is None) ==> r == Err::<
                TxData,
                DecodeError,
            >(DecodeError::Malformed),
            r is Ok ==> r->Ok_0.wf(),
    {
        if !rlp_is_list(bytes) {
            return Err(DecodeError::Malformed);
        }
        let count = match rlp_item_count(bytes) {
            Ok(c) => c,
            Err(e) => {
                return Err(e);
            },
        };
        if count != 2 {
            return Err(DecodeError::BadItemCount);
        }
        let pf = match rlp_bytes_at(bytes, 0) {
            Ok(v) => v,
            Err(e) => {
                return Err(e);
            },
        };
        if pf.len() > MAX_BLOB {
            return Err(DecodeError::Malformed);
        }
        let lb = match rlp_raw_at(bytes, 1) {
            Ok(v) => v,
            Err(e) => {
                return Err(e);
            },
        };
        let tcount = match rlp_item_count(&lb) {
            Ok(c) => c,
            Err(e) => {
                return Err(e);
            },
        };
        if tcount > MAX_TXS {
            return Err(DecodeError::Malformed);
        }
        let mut txs: Vec<Tx> = Vec::new();
        let mut j: usize = 0;
        while j < tcount
            invariant
                j <= tcount,
                txs@.len() == j,
                txs_wf(txs_views(txs@)),
                forall|ts: Seq<TxView>|
                    txs_wf(ts) && ts.len() <= MAX_TXS && ts.len() == tcount && lb@ == rlp_list(
                        #[trigger] txs_payload(ts),
                    ) ==> txs_views(txs@) == ts.take(j as int),
            decreases tcount - j,
        {
            let item = match rlp_raw_at(&lb, j) {
                Ok(v) => v,
                Err(e) => {
                    return Err(e);
                },
            };
            let tx = match Tx::decode(&item) {
                Ok(v) => v,
                Err(e) => {
                    return Err(e);
                },
            };
            let ghost pre = txs@;
            txs.push(tx);
            proof {
                assert(txs_views(txs@) =~= txs_views(pre).push(tx@));
                assert forall|x: int| 0 <= x < txs_views(txs@).len() implies tx_wf(
                    #[trigger] txs_views(txs@)[x],
                ) by {
                    if x < pre.len() {
                        assert(txs_views(txs@)[x] == txs_views(pre)[x]);
                    }
                };
                assert forall|ts: Seq<TxView>|
                    txs_wf(ts) && ts.len() <= MAX_TXS && ts.len() == tcount && lb@ == rlp_list(
                        #[trigger] txs_payload(ts),
                    ) implies txs_views(txs@) == ts.take(j + 1) by {
                    assert(txs_views(pre) == ts.take(j as int));
                    assert(tx@ == ts[j as int]);
                    assert(ts.take(j as int).push(ts[j as int]) =~= ts.take(j + 1));
                };
            }
            j = j + 1;
        }
        let r = TxData { proof_blob: pf, txs };
        proof {
            assert forall|d: TxDataView| txdata_wf(d) && bytes@ == #[trigger] txdata_enc(d)
                implies r@ == d by {
                assert(txs_views(txs@) == d.txs.take(tcount as int));
                assert(d.txs.take(tcount as int) =~= d.txs);
            };
        }
        Ok(r)
    }
}

impl PartialEq for TxData {
    /// Structural equality: equal proof blobs and pairwise equal
    /// transactions.
    fn eq(&self, other: &TxData) -> (r: bool) {
        if !vecs_equal(&self.proof_blob, &other.proof_blob) {
            return false;
        }
        if self.txs.len() != other.txs.len() {
            proof {
                assert(txs_views(self.txs@).len() == self.txs@.len());
                assert(txs_views(other.txs@).len() == other.txs@.len());
            }
            return false;
        }
        let mut i: usize = 0;
        while i < self.txs.len()
            invariant
                self.txs@.len() == other.txs@.len(),
                i <= self.txs@.len(),
                self.proof_blob@ == other.proof_blob@,
                forall|x: int| 0 <= x < i ==> txs_views(self.txs@)[x] == txs_views(other.txs@)[x],
            decreases self.txs@.len() - i,
        {
            if !(&self.txs[i] == &other.txs[i]) {
                proof {
                    assert(txs_views(self.txs@)[i as int] == self.txs@[i as int]@);
                    assert(txs_views(other.txs@)[i as int] == other.txs@[i as int]@);
                }
                return false;
            }
            proof {
                assert(txs_views(self.txs@)[i as int] == self.txs@[i as int]@);
                assert(txs_views(other.txs@)[i as int] == other.txs@[i as int]@);
            }
            i = i + 1;
        }
        proof {
            assert(txs_views(self.txs@) =~= txs_views(other.txs@));
        }
        true
    }
}

impl vstd::std_specs::cmp::PartialEqSpecImpl for TxData {
    open spec fn obeys_eq_spec() -> bool {
        true
    }

    open spec fn eq_spec(&self, other: &TxData) -> bool {
        self@ == other@
    }
}

} // verus!
