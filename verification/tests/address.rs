use stellar_xdr::curr::AccountId;
use stellar_xdr::curr::Limits;
use stellar_xdr::curr::PublicKey;
use stellar_xdr::curr::ScAddress;
use stellar_xdr::curr::ScVal;
use stellar_xdr::curr::Uint256;
use stellar_xdr::curr::WriteXdr;
use zk_payroll::address::Address;
use zk_payroll::auth::AuthorizationContext;
use zk_payroll::store::copy_items;
use zk_payroll::store::Table;

#[test]
fn the_xdr_of_an_account_is_what_the_ledger_writes() {
    let mut key = [0u8; 32];
    for (i, b) in key.iter_mut().enumerate() {
        *b = i as u8;
    }
    let theirs = ScVal::Address(ScAddress::Account(AccountId(PublicKey::PublicKeyTypeEd25519(Uint256(key)))))
        .to_xdr(Limits::none())
        .unwrap();
    assert_eq!(Address::Account(key).to_xdr(), theirs);
    assert_eq!(theirs.len(), 44);
}

#[test]
fn the_xdr_of_a_contract_is_what_the_ledger_writes() {
    let key = [0xC3u8; 32];
    let theirs = ScVal::Address(ScAddress::Contract(stellar_xdr::curr::Hash(key))).to_xdr(Limits::none()).unwrap();
    assert_eq!(Address::Contract(key).to_xdr(), theirs);
    assert_eq!(theirs.len(), 40);
}

#[test]
fn a_context_knows_who_signed() {
    let alice = Address::Account([1u8; 32]);
    let bob = Address::Account([2u8; 32]);
    let mut auth = AuthorizationContext::new();
    assert!(!auth.has_authorized(&alice));
    auth.authorize(alice);
    assert!(auth.has_authorized(&alice));
    assert!(!auth.has_authorized(&bob));
    assert!(!auth.has_authorized(&Address::Contract([1u8; 32])));
    auth.authorize(bob);
    auth.authorize(alice);
    assert!(auth.has_authorized(&alice));
    assert!(auth.has_authorized(&bob));
}

#[test]
fn a_table_is_a_map() {
    let mut table: Table<u64, i128> = Table::new();
    assert_eq!(table.len(), 0);
    assert_eq!(table.get(&1), None);
    assert!(!table.remove(&1));
    table.insert(1, 10);
    table.insert(2, 20);
    table.insert(1, 11);
    assert_eq!(table.len(), 2);
    assert_eq!(table.get(&1), Some(11));
    assert_eq!(table.get(&2), Some(20));
    assert!(table.contains(&2));
    assert!(table.remove(&1));
    assert!(!table.contains(&1));
    assert_eq!(table.get(&2), Some(20));
    assert_eq!(table.len(), 1);
}

#[test]
fn a_duplicated_table_goes_its_own_way() {
    let mut table: Table<u64, i128> = Table::new();
    table.insert(1, 10);
    table.insert(2, 20);
    let mut copy = table.duplicate();
    assert_eq!(copy.len(), 2);
    assert_eq!(copy.get(&1), Some(10));
    assert_eq!(copy.get(&2), Some(20));
    copy.insert(1, 11);
    copy.insert(3, 30);
    assert!(copy.remove(&2));
    assert_eq!(table.get(&1), Some(10));
    assert_eq!(table.get(&2), Some(20));
    assert_eq!(table.get(&3), None);
    assert_eq!(table.len(), 2);
    assert_eq!(copy_items(&vec![3u8, 1, 2]), vec![3u8, 1, 2]);
    assert_eq!(copy_items(&Vec::<u64>::new()), Vec::<u64>::new());
}
