use vstd::prelude::*;

use crate::addr::{nibble_key_ok, vecs_equal, Address};
use crate::codec::{
    account_enc, account_payload, account_wf, addr_ok, rlp_bytes_at, rlp_count_of,
    rlp_encode_bytes, rlp_encode_u64, rlp_is_list, rlp_item_count, rlp_u64_at, rlp_wrap_list,
    AccountView, DecodeError, MAX_BLOB,
};

verus! {

/// Errors raised by balance and nonce mutations on an account.
#[derive(Debug, PartialEq, Eq, Structural, Clone, Copy)]
pub enum AccountError {
    /// A mutation was attempted on an account with no ledger presence.
    InvalidAccountState,
    /// A withdrawal asked for more than the account holds.
    InsufficientBalance,
    /// A deposit would push the balance past the 64-bit maximum.
    BalanceOverflow,
}

/// A ledger account: absent, or populated with address, nonce, balance,
/// contract code and an opaque state blob, in that order.
#[derive(Debug)]
pub enum Account {
    Existing(Address, u64, u64, Vec<u8>, Vec<u8>),
    Empty,
}

impl View for Account {
    type V = AccountView;

    open spec fn view(&self) -> AccountView {
        match self {
            Account::Empty => AccountView::Empty,
            Account::Existing(addr, nonce, balance, code, extra) => AccountView::Existing {
                addr: addr@,
                nonce: *nonce,
                balance: *balance,
                code: code@,
                extra: extra@,
            },
        }
    }
}

/// The balance an account reports: zero for an absent account.
pub open spec fn balance_of(v: AccountView) -> u64 {
    match v {
        AccountView::Empty => 0u64,
        AccountView::Existing { balance, .. } => balance,
    }
}

/// The nonce an account reports: zero for an absent account.
pub open spec fn nonce_of(v: AccountView) -> u64 {
    match v {
        AccountView::Empty => 0u64,
        AccountView::Existing { nonce, .. } => nonce,
    }
}

/// The same account with its nonce replaced; absent accounts are left
/// untouched.
pub open spec fn with_nonce(v: AccountView, nn: u64) -> AccountView {
    match v {
        AccountView::Empty => AccountView::Empty,
        AccountView::Existing { addr, nonce, balance, code, extra } => AccountView::Existing {
            addr,
            nonce: nn,
            balance,
            code,
            extra,
        },
    }
}

/// The same account with its balance replaced; absent accounts are left
/// untouched.
pub open spec fn with_balance(v: AccountView, nb: u64) -> AccountView {
    match v {
        AccountView::Empty => AccountView::Empty,
        AccountView::Existing { addr, nonce, balance, code, extra } => AccountView::Existing {
            addr,
            nonce,
            balance: nb,
            code,
            extra,
        },
    }
}

impl Account {
    pub open spec fn wf(&self) -> bool {
        account_wf(self@)
    }

    /// The stored balance, or zero for an absent account.
    pub fn balance(&self) -> (r: u64)
        ensures
            r == balance_of(self@),
    {
        match self {
            Account::Existing(_, _, balance, _, _) => *balance,
            _ => 0u64,
        }
    }

    /// The stored nonce, or zero for an absent account.
    pub fn nonce(&self) -> (r: u64)
        ensures
            r == nonce_of(self@),
    {
        match self {
            Account::Existing(_, nonce, _, _, _) => *nonce,
            _ => 0u64,
        }
    }

    /// A mutable borrow of the stored balance, absent for an absent
    /// account: writing through it is the only effect the borrow has.
    pub fn balance_mut(&mut self) -> (r: Option<&mut u64>)
        ensures
            r is Some <==> old(self)@ is Existing,
            r matches Some(b) ==> (*b == balance_of(old(self)@) && final(self)@ == with_balance(
                old(self)@,
                *final(b),
            )),
            r is None ==> final(self)@ == old(self)@,
    {
        match self {
            Account::Existing(_, _, balance, _, _) => Some(balance),
            _ => None,
        }
    }

    /// A mutable borrow of the stored nonce, absent for an absent
    /// account: writing through it is the only effect the borrow has.
    pub fn nonce_mut(&mut self) -> (r: Option<&mut u64>)
        ensures
            r is Some <==> old(self)@ is Existing,
            r matches Some(n) ==> (*n == nonce_of(old(self)@) && final(self)@ == with_nonce(
                old(self)@,
                *final(n),
            )),
            r is None ==> final(self)@ == old(self)@,
    {
        match self {
            Account::Existing(_, nonce, _, _, _) => Some(nonce),
            _ => None,
        }
    }

    /// Adds `amount` to the balance of a populated account. Fails on an
    /// absent account and, with a checked addition, on overflow.
    pub fn deposit(&mut self, amount: u64) -> (r: Result<(), AccountError>)
        ensures
            r is Ok <==> (old(self)@ is Existing && balance_of(old(self)@) + amount <= u64::MAX),
            r is Ok ==> final(self)@ == with_balance(
                old(self)@,
                (balance_of(old(self)@) + amount) as u64,
            ),
            old(self)@ is Empty ==> r == Err::<(), AccountError>(AccountError::InvalidAccountState),
            (old(self)@ is Existing && balance_of(old(self)@) + amount > u64::MAX) ==> r == Err::<
                (),
                AccountError,
            >(AccountError::BalanceOverflow),
            r is Err ==> final(self)@ == old(self)@,
    {
        match self {
            Account::Existing(_, _, balance, _, _) => {
                if *balance <= u64::MAX - amount {
                    *balance = *balance + amount;
                    Ok(())
                } else {
                    Err(AccountError::BalanceOverflow)
                }
            },
            _ => Err(AccountError::InvalidAccountState),
        }
    }

    /// Subtracts `amount` from the balance of a populated account. Fails
    /// on an absent account and when the balance does not cover the
    /// amount.
    pub fn withdraw(&mut self, amount: u64) -> (r: Result<(), AccountError>)
        ensures
            r is Ok <==> (old(self)@ is Existing && amount <= balance_of(old(self)@)),
            r is Ok ==> final(self)@ == with_balance(
                old(self)@,
                (balance_of(old(self)@) - amount) as u64,
            ),
            old(self)@ is Empty ==> r == Err::<(), AccountError>(AccountError::InvalidAccountState),
            (old(self)@ is Existing && amount > balance_of(old(self)@)) ==> r == Err::<
                (),
                AccountError,
            >(AccountError::InsufficientBalance),
            r is Err ==> final(self)@ == old(self)@,
    {
        match self {
            Account::Existing(_, _, balance, _, _) => {
                if *balance >= amount {
                    *balance = *balance - amount;
                    Ok(())
                } else {
                    Err(AccountError::InsufficientBalance)
                }
            },
            _ => Err(AccountError::InvalidAccountState),
        }
    }

    /// The canonical encoding: the five fields as a list for a populated
    /// account, the empty-payload marker for an absent one.
    pub fn encode(&self) -> (r: Vec<u8>)
        requires
            self.wf(),
        ensures
            r@ == account_enc(self@),
            r@.len() <= 3 * MAX_BLOB,
    {
        match self {
            Account::Empty => {
                let none: Vec<u8> = Vec::new();
                rlp_encode_bytes(&none)
            },
            Account::Existing(addr, nonce, balance, code, extra) => {
                let mut payload = rlp_encode_bytes(&addr.nibbles);
                let mut part = rlp_encode_u64(*nonce);
                payload.append(&mut part);
                let mut part = rlp_encode_u64(*balance);
                payload.append(&mut part);
                let mut part = rlp_encode_bytes(code);
                payload.append(&mut part);
                let mut part = rlp_encode_bytes(extra);
                payload.append(&mut part);
                proof {
                    assert(payload@ =~= account_payload(addr@, *nonce, *balance, code@, extra@));
                }
                rlp_wrap_list(&payload)
            },
        }
    }

    /// Decodes the canonical encoding. An empty-payload marker or a list
    /// of zero items is the absent account; a list of five items is a
    /// populated account; a list of any other item count is refused as
    /// `BadItemCount`, and unreadable framing or fields as `Malformed`.
    pub fn decode(bytes: &Vec<u8>) -> (r: Result<Account, DecodeError>)
        ensures
            forall|a: Seq<u8>, n: u64, bl: u64, c: Seq<u8>, s: Seq<u8>|
                addr_ok(a) && c.len() <= MAX_BLOB && s.len() <= MAX_BLOB && bytes@ == crate::codec::rlp_list(
                    #[trigger] account_payload(a, n, bl, c, s),
                ) ==> (r is Ok && r->Ok_0@ == AccountView::Existing {
                    addr: a,
                    nonce: n,
                    balance: bl,
                    code: c,
                    extra: s,
                }),
            bytes@ == seq![0x80u8] ==> (r is Ok && r->Ok_0@ == AccountView::Empty),
            (bytes@.len() > 0 && bytes@[0] >= 0xc0 && rlp_count_of(bytes@) == Some(0usize)) ==> (r
                is Ok && r->Ok_0@ == AccountView::Empty),
            (bytes@.len() > 0 && bytes@[0] >= 0xc0 && rlp_count_of(bytes@) is Some && rlp_count_of(
                bytes@,
            )->Some_0 != 0 && rlp_count_of(bytes@)->Some_0 != 5) ==> r == Err::<
                Account,
                DecodeError,
            >(DecodeError::BadItemCount),
            ((bytes@.len() == 0 || bytes@[0] < 0xc0) && bytes@ != seq![0x80u8]) ==> r == Err::<
                Account,
                DecodeError,
            >(DecodeError::Malformed),
            (bytes@.len() > 0 && bytes@[0] >= 0xc0 && rlp_count_of(bytes@) is None) ==> r == Err::<
                Account,
                DecodeError,
            >(DecodeError::Malformed),
            r is Ok ==> r->Ok_0.wf(),
    {
        if !rlp_is_list(bytes) {
            if bytes.len() == 1 && bytes[0] == 0x80 {
                proof {
                    assert(bytes@ =~= seq![0x80u8]);
                }
                Ok(Account::Empty)
            } else {
                proof {
                    assert(bytes@ != seq![0x80u8]);
                }
                Err(DecodeError::Malformed)
            }
        } else {
            let count = match rlp_item_count(bytes) {
                Ok(c) => c,
                Err(e) => {
                    return Err(e);
                },
            };
            if count == 0 {
                Ok(Account::Empty)
            } else if count == 5 {
                let a = match rlp_bytes_at(bytes, 0) {
                    Ok(v) => v,
                    Err(e) => {
                        return Err(e);
                    },
                };
                let n = match rlp_u64_at(bytes, 1) {
                    Ok(v) => v,
                    Err(e) => {
                        return Err(e);
                    },
                };
                let bl = match rlp_u64_at(bytes, 2) {
                    Ok(v) => v,
                    Err(e) => {
                        return Err(e);
                    },
                };
                let c = match rlp_bytes_at(bytes, 3) {
                    Ok(v) => v,
                    Err(e) => {
                        return Err(e);
                    },
                };
                let s = match rlp_bytes_at(bytes, 4) {
                    Ok(v) => v,
                    Err(e) => {
                        return Err(e);
                    },
                };
                if !nibble_key_ok(&a) || c.len() > MAX_BLOB || s.len() > MAX_BLOB {
                    return Err(DecodeError::Malformed);
                }
                Ok(Account::Existing(Address { nibbles: a }, n, bl, c, s))
            } else {
                Err(DecodeError::BadItemCount)
            }
        }
    }
}

impl PartialEq for Account {
    /// Structural equality: same variant and, for populated accounts,
    /// equal fields.
    fn eq(&self, other: &Account) -> (r: bool) {
        match (self, other) {
            (Account::Empty, Account::Empty) => true,
            (
                Account::Existing(a1, n1, b1, c1, s1),
                Account::Existing(a2, n2, b2, c2, s2),
            ) => {
                vecs_equal(&a1.nibbles, &a2.nibbles) && *n1 == *n2 && *b1 == *b2 && vecs_equal(
                    c1,
                    c2,
                ) && vecs_equal(s1, s2)
            },
            _ => false,
        }
    }
}

impl vstd::std_specs::cmp::PartialEqSpecImpl for Account {
    open spec fn obeys_eq_spec() -> bool {
        true
    }

    open spec fn eq_spec(&self, other: &Account) -> bool {
        self@ == other@
    }
}

} // verus!
