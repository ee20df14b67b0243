use ledger_core::account::AccountError;
use ledger_core::addr::Address;
use ledger_core::codec::DecodeError;
use ledger_core::crypto::derive_address;
use ledger_core::{Account, Tx, TxData};

fn nibbles(bytes: &[u8]) -> Vec<u8> {
    let mut out = Vec::new();
    for b in bytes {
        out.push(b / 16);
        out.push(b % 16);
    }
    out
}

const FROM_BYTES: [u8; 20] = [
    181, 154, 35, 232, 170, 166, 228, 13, 59, 214, 229, 236, 205, 9, 152, 122, 184, 20, 30, 197,
];

#[test]
fn test_sign() {
    let skey = [1u8; 32];
    let mut tx = Tx::new(FROM_BYTES.to_vec(), vec![6u8; 20], 1);

    tx.sign(&skey).unwrap();

    let (valid, _addr) = tx.sig_check();
    assert!(valid);
}

#[test]
fn derive_address_is_deterministic() {
    let skey = [1u8; 32];
    let a1 = derive_address(&skey).unwrap();
    let a2 = derive_address(&skey).unwrap();
    assert_eq!(a1, a2);
    let other = derive_address(&[2u8; 32]).unwrap();
    assert!(!(a1 == other));
}

#[test]
fn derive_address_matches_known_key() {
    // The key of 32 bytes of 0x01 owns the fixed sender address.
    let skey = [1u8; 32];
    let addr = derive_address(&skey).unwrap();
    assert_eq!(addr.nibbles, nibbles(&FROM_BYTES));
}

#[test]
fn derive_address_rejects_invalid_key() {
    // All zeros is not a valid secret scalar.
    assert!(derive_address(&[0u8; 32]).is_none());
}

#[test]
fn sign_then_check_recovers_signer() {
    let skey = [1u8; 32];
    let mut tx = Tx::new(FROM_BYTES.to_vec(), vec![6u8; 20], 1);
    tx.sign(&skey).unwrap();
    let (valid, addr) = tx.sig_check();
    assert!(valid);
    assert_eq!(addr, derive_address(&skey).unwrap());
    assert_eq!(addr.nibbles, tx.from.nibbles);
}

#[test]
fn sign_with_wrong_sender_is_detected() {
    let skey = [1u8; 32];
    let mut tx = Tx::new(vec![7u8; 20], vec![6u8; 20], 1);
    tx.sign(&skey).unwrap();
    let (valid, addr) = tx.sig_check();
    assert!(!valid);
    assert_eq!(addr, derive_address(&skey).unwrap());
}

#[test]
fn sign_rejects_invalid_key() {
    let mut tx = Tx::new(FROM_BYTES.to_vec(), vec![6u8; 20], 1);
    assert!(tx.sign(&[0u8; 32]).is_err());
    // The signature is left zero-filled.
    assert_eq!(tx.signature, vec![0u8; 65]);
}

#[test]
fn corrupted_signature_never_validates() {
    let skey = [1u8; 32];
    let mut tx = Tx::new(FROM_BYTES.to_vec(), vec![6u8; 20], 1);
    tx.sign(&skey).unwrap();
    for i in 0..65 {
        tx.signature[i] ^= 0x01;
        let (valid, _addr) = tx.sig_check();
        assert!(!valid, "flipped signature byte {} was accepted", i);
        tx.signature[i] ^= 0x01;
    }
    // Untouched again, the signature still validates.
    let (valid, _addr) = tx.sig_check();
    assert!(valid);
}

#[test]
fn account_round_trip_existing() {
    let acc = Account::Existing(
        Address { nibbles: nibbles(&FROM_BYTES) },
        7,
        1000,
        vec![1, 2, 3],
        vec![9, 8],
    );
    let bytes = acc.encode();
    let back = Account::decode(&bytes).unwrap();
    assert_eq!(back, acc);
}

#[test]
fn account_round_trip_empty() {
    let acc = Account::Empty;
    let bytes = acc.encode();
    assert_eq!(bytes, vec![0x80u8]);
    let back = Account::decode(&bytes).unwrap();
    assert_eq!(back, Account::Empty);
}

#[test]
fn tx_round_trip() {
    let skey = [1u8; 32];
    let mut tx = Tx::new(FROM_BYTES.to_vec(), vec![6u8; 20], 3);
    tx.sign(&skey).unwrap();
    let bytes = tx.encode();
    let back = Tx::decode(&bytes).unwrap();
    assert_eq!(back, tx);
    // The decoded copy still authenticates.
    let (valid, _addr) = back.sig_check();
    assert!(valid);
}

#[test]
fn txdata_round_trip() {
    let skey = [1u8; 32];
    let mut t1 = Tx::new(FROM_BYTES.to_vec(), vec![6u8; 20], 1);
    t1.sign(&skey).unwrap();
    let mut t2 = Tx::new(FROM_BYTES.to_vec(), vec![9u8; 20], 2);
    t2.sign(&skey).unwrap();
    let bundle = TxData { proof_blob: vec![0xde, 0xad, 0xbe, 0xef], txs: vec![t1, t2] };
    let bytes = bundle.encode();
    let back = TxData::decode(&bytes).unwrap();
    assert_eq!(back, bundle);
}

#[test]
fn txdata_round_trip_no_txs() {
    let bundle = TxData { proof_blob: vec![], txs: vec![] };
    let bytes = bundle.encode();
    let back = TxData::decode(&bytes).unwrap();
    assert_eq!(back, bundle);
}

#[test]
fn account_decode_rejects_bad_item_count() {
    // A two-item list is not an account frame.
    let mut s = rlp::RlpStream::new_list(2);
    s.append(&5u64);
    s.append(&6u64);
    let bytes = s.out().to_vec();
    assert_eq!(Account::decode(&bytes), Err(DecodeError::BadItemCount));

    // Neither is a three-item list.
    let mut s = rlp::RlpStream::new_list(3);
    s.append(&1u64);
    s.append(&2u64);
    s.append(&3u64);
    let bytes = s.out().to_vec();
    assert_eq!(Account::decode(&bytes), Err(DecodeError::BadItemCount));
}

#[test]
fn account_decode_rejects_garbage() {
    assert_eq!(Account::decode(&vec![]), Err(DecodeError::Malformed));
    assert_eq!(Account::decode(&vec![0x81u8]), Err(DecodeError::Malformed));
}

#[test]
fn account_decode_empty_list_is_empty() {
    // A zero-item list also decodes to the absent account.
    let bytes = vec![0xc0u8];
    assert_eq!(Account::decode(&bytes), Ok(Account::Empty));
}

#[test]
fn tx_decode_rejects_bad_item_count() {
    let mut s = rlp::RlpStream::new_list(2);
    s.append(&5u64);
    s.append(&6u64);
    let bytes = s.out().to_vec();
    assert_eq!(Tx::decode(&bytes).unwrap_err(), DecodeError::BadItemCount);
}

#[test]
fn txdata_decode_rejects_bad_item_count() {
    let mut s = rlp::RlpStream::new_list(3);
    s.append(&1u64);
    s.append(&2u64);
    s.append(&3u64);
    let bytes = s.out().to_vec();
    assert_eq!(TxData::decode(&bytes).unwrap_err(), DecodeError::BadItemCount);
}

#[test]
fn withdraw_subtracts() {
    let mut acc = Account::Existing(Address::empty(), 0, 100, vec![], vec![]);
    acc.withdraw(40).unwrap();
    assert_eq!(acc.balance(), 60);
    acc.withdraw(60).unwrap();
    assert_eq!(acc.balance(), 0);
}

#[test]
fn withdraw_rejects_overdraft() {
    let mut acc = Account::Existing(Address::empty(), 0, 100, vec![], vec![]);
    assert_eq!(acc.withdraw(101), Err(AccountError::InsufficientBalance));
    assert_eq!(acc.balance(), 100);
}

#[test]
fn withdraw_rejects_empty_account() {
    let mut acc = Account::Empty;
    assert_eq!(acc.withdraw(1), Err(AccountError::InvalidAccountState));
}

#[test]
fn deposit_adds() {
    let mut acc = Account::Existing(Address::empty(), 0, 100, vec![], vec![]);
    acc.deposit(23).unwrap();
    assert_eq!(acc.balance(), 123);
}

#[test]
fn deposit_rejects_empty_account() {
    let mut acc = Account::Empty;
    assert_eq!(acc.deposit(1), Err(AccountError::InvalidAccountState));
}

#[test]
fn deposit_rejects_overflow() {
    let mut acc = Account::Existing(Address::empty(), 0, u64::MAX - 1, vec![], vec![]);
    assert_eq!(acc.deposit(2), Err(AccountError::BalanceOverflow));
    assert_eq!(acc.balance(), u64::MAX - 1);
    acc.deposit(1).unwrap();
    assert_eq!(acc.balance(), u64::MAX);
}

#[test]
fn accessors_on_empty_are_zero() {
    let acc = Account::Empty;
    assert_eq!(acc.balance(), 0);
    assert_eq!(acc.nonce(), 0);
}

#[test]
fn mutable_accessors() {
    let mut acc = Account::Existing(Address::empty(), 5, 10, vec![], vec![]);
    *acc.balance_mut().unwrap() = 42;
    assert_eq!(acc.balance(), 42);
    *acc.nonce_mut().unwrap() = 6;
    assert_eq!(acc.nonce(), 6);

    let mut empty = Account::Empty;
    assert!(empty.balance_mut().is_none());
    assert!(empty.nonce_mut().is_none());
}

#[test]
fn account_from_key() {
    let skey = [1u8; 32];
    let acc = Account::from_key(&skey).unwrap();
    assert_eq!(acc.balance(), 0);
    assert_eq!(acc.nonce(), 0);
    let expected = Account::Existing(
        Address { nibbles: nibbles(&FROM_BYTES) },
        0,
        0,
        vec![],
        vec![],
    );
    assert_eq!(acc, expected);
    assert!(Account::from_key(&[0u8; 32]).is_none());
}

#[test]
fn tx_new_is_unsigned() {
    let tx = Tx::new(FROM_BYTES.to_vec(), vec![6u8; 20], 9);
    assert_eq!(tx.signature, vec![0u8; 65]);
    assert_eq!(tx.nonce, 9);
    assert_eq!(tx.value, 0);
    assert_eq!(tx.call, 0);
    assert!(tx.data.is_empty());
    assert_eq!(tx.from.nibbles, nibbles(&FROM_BYTES));
    assert_eq!(tx.to.nibbles, nibbles(&[6u8; 20]));
}
