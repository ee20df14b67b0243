use vstd::prelude::*;

use crate::codec::addr_ok;

verus! {

/// The nibble sequence that a byte sequence expands to: every byte
/// becomes its high half followed by its low half.
pub open spec fn nibbles_of(b: Seq<u8>) -> Seq<u8> {
    Seq::new(b.len() * 2, |i: int| if i % 2 == 0 { b[i / 2] / 16 } else { (b[i / 2] % 16) as u8 })
}

/// A trie-path key over half-byte units, the address form every entity
/// of this ledger stores.
#[derive(Debug, Clone)]
pub struct Address {
    pub nibbles: Vec<u8>,
}

impl View for Address {
    type V = Seq<u8>;

    open spec fn view(&self) -> Seq<u8> {
        self.nibbles@
    }
}

impl Address {
    /// Empty or exactly 40 nibbles, each below 16.
    pub open spec fn wf(&self) -> bool {
        addr_ok(self@)
    }

    /// The sentinel address of an absent or unverified party.
    pub fn empty() -> (r: Address)
        ensures
            r@ == Seq::<u8>::empty(),
            r.wf(),
    {
        Address { nibbles: Vec::new() }
    }

    /// Expands a 20-byte hash prefix into its 40-nibble key.
    pub fn from_bytes(b: &Vec<u8>) -> (r: Address)
        requires
            b@.len() == 20,
        ensures
            r@ == nibbles_of(b@),
            r.wf(),
    {
        let mut nibbles: Vec<u8> = Vec::new();
        let mut i: usize = 0;
        while i < b.len()
            invariant
                b@.len() == 20,
                i <= 20,
                nibbles@ == nibbles_of(b@).take(2 * i),
            decreases b@.len() - i,
        {
            let hi: u8 = b[i] / 16;
            let lo: u8 = b[i] % 16;
            nibbles.push(hi);
            nibbles.push(lo);
            proof {
                assert(nibbles@ =~= nibbles_of(b@).take(2 * (i + 1)));
            }
            i = i + 1;
        }
        proof {
            assert(nibbles@ =~= nibbles_of(b@));
        }
        Address { nibbles }
    }
}

/// True exactly when the two byte vectors hold the same bytes.
pub fn vecs_equal(a: &Vec<u8>, b: &Vec<u8>) -> (r: bool)
    ensures
        r == (a@ == b@),
{
    if a.len() != b.len() {
        proof {
            assert(a@ != b@);
        }
        return false;
    }
    let mut i: usize = 0;
    while i < a.len()
        invariant
            a@.len() == b@.len(),
            i <= a@.len(),
            forall|j: int| 0 <= j < i ==> a@[j] == b@[j],
        decreases a@.len() - i,
    {
        if a[i] != b[i] {
            proof {
                assert(a@ != b@);
            }
            return false;
        }
        i = i + 1;
    }
    proof {
        assert(a@ =~= b@);
    }
    true
}

/// True exactly when the bytes form a well-formed nibble key: empty or
/// forty units, each below sixteen.
pub fn nibble_key_ok(v: &Vec<u8>) -> (r: bool)
    ensures
        r == addr_ok(v@),
{
    if !(v.len() == 0 || v.len() == 40) {
        return false;
    }
    let mut i: usize = 0;
    while i < v.len()
        invariant
            i <= v@.len(),
            v@.len() == 0 || v@.len() == 40,
            forall|j: int| 0 <= j < i ==> v@[j] < 16,
        decreases v@.len() - i,
    {
        if v[i] >= 16 {
            return false;
        }
        i = i + 1;
    }
    true
}

impl PartialEq for Address {
    /// Two addresses are equal exactly when their nibble sequences are.
    fn eq(&self, other: &Address) -> (r: bool) {
        vecs_equal(&self.nibbles, &other.nibbles)
    }
}

impl vstd::std_specs::cmp::PartialEqSpecImpl for Address {
    open spec fn obeys_eq_spec() -> bool {
        true
    }

    open spec fn eq_spec(&self, other: &Address) -> bool {
        self@ == other@
    }
}

} // verus!
