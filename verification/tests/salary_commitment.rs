use zk_payroll::address::Address;
use zk_payroll::commitment::commitment_matches;
use zk_payroll::commitment::CommitmentError;
use zk_payroll::commitment::SalaryCommitment;
use zk_payroll::commitment::SalaryCommitmentContract;
use zk_payroll::crypto::poseidon_commitment;

fn employee(tag: u8) -> Address {
    Address::Account([tag; 32])
}

#[test]
fn test_store_commitment() {
    let mut contract = SalaryCommitmentContract::new();

    let employee = employee(1);
    let commitment = [42u8; 32];

    let result = contract.store_commitment(0, employee, commitment);

    assert_eq!(result.commitment, commitment);
    assert_eq!(result.version, 1);
}

#[test]
fn test_update_commitment() {
    let mut contract = SalaryCommitmentContract::new();

    let employee = employee(1);
    let initial = [1u8; 32];
    let updated = [2u8; 32];

    contract.store_commitment(0, employee, initial);
    let result = contract.update_commitment(0, employee, updated).unwrap();

    assert_eq!(result.commitment, updated);
    assert_eq!(result.version, 2);
}

#[test]
fn test_batch_update_commitments() {
    let mut contract = SalaryCommitmentContract::new();

    let emp1 = employee(1);
    let emp2 = employee(2);

    let initial1 = [1u8; 32];
    let initial2 = [2u8; 32];

    contract.store_commitment(0, emp1, initial1);
    contract.store_commitment(0, emp2, initial2);

    let updated1 = [10u8; 32];
    let updated2 = [20u8; 32];

    let updates = vec![(emp1, updated1), (emp2, updated2)];

    contract.batch_update_commitments(0, &updates).unwrap();

    let res1 = contract.get_commitment(&emp1).unwrap();
    assert_eq!(res1.commitment, updated1);
    assert_eq!(res1.version, 2);

    let res2 = contract.get_commitment(&emp2).unwrap();
    assert_eq!(res2.commitment, updated2);
    assert_eq!(res2.version, 2);
}

#[test]
fn test_nullifier() {
    let mut contract = SalaryCommitmentContract::new();

    let nullifier = [99u8; 32];

    assert!(!contract.is_nullifier_used(&nullifier));

    contract.record_nullifier(0, nullifier).unwrap();

    assert!(contract.is_nullifier_used(&nullifier));
}

#[test]
fn batch_update_fails_if_an_employee_is_missing() {
    let mut contract = SalaryCommitmentContract::new();
    let emp_valid = employee(1);
    let emp_missing = employee(2);
    contract.store_commitment(5, emp_valid, [1u8; 32]);

    let updates = vec![(emp_valid, [10u8; 32]), (emp_missing, [20u8; 32]), (emp_valid, [30u8; 32])];
    assert_eq!(
        contract.batch_update_commitments(9, &updates),
        Err(CommitmentError::CommitmentNotFound)
    );
    // The update before the failing one stays applied; the one after it is not.
    assert_eq!(
        contract.get_commitment(&emp_valid),
        Ok(SalaryCommitment { commitment: [10u8; 32], created_at: 5, updated_at: 9, version: 2 })
    );
    assert!(!contract.has_commitment(&emp_missing));
}

#[test]
fn a_nullifier_is_recorded_exactly_once() {
    let mut contract = SalaryCommitmentContract::new();
    let nullifier = [99u8; 32];
    assert_eq!(contract.record_nullifier(1, nullifier), Ok(()));
    assert_eq!(contract.record_nullifier(1, nullifier), Err(CommitmentError::NullifierAlreadyUsed));
    assert_eq!(contract.record_nullifier(2, nullifier), Err(CommitmentError::NullifierAlreadyUsed));
    // Other operations do not take it off the record.
    contract.store_commitment(3, employee(1), [1u8; 32]);
    contract.update_commitment(4, employee(1), [2u8; 32]).unwrap();
    assert_eq!(contract.record_nullifier(5, [98u8; 32]), Ok(()));
    assert!(contract.is_nullifier_used(&nullifier));
    assert_eq!(contract.record_nullifier(6, nullifier), Err(CommitmentError::NullifierAlreadyUsed));
}

#[test]
fn store_resets_the_version_and_update_keeps_the_history() {
    let mut contract = SalaryCommitmentContract::new();
    let alice = employee(1);
    assert_eq!(contract.get_commitment(&alice), Err(CommitmentError::CommitmentNotFound));
    assert_eq!(
        contract.update_commitment(1, alice, [2u8; 32]),
        Err(CommitmentError::CommitmentNotFound)
    );
    assert!(!contract.has_commitment(&alice));

    let first = contract.store_commitment(10, alice, [1u8; 32]);
    assert_eq!(first, SalaryCommitment { commitment: [1u8; 32], created_at: 10, updated_at: 10, version: 1 });
    let second = contract.update_commitment(20, alice, [2u8; 32]).unwrap();
    assert_eq!(second, SalaryCommitment { commitment: [2u8; 32], created_at: 10, updated_at: 20, version: 2 });
    let third = contract.update_commitment(30, alice, [3u8; 32]).unwrap();
    assert_eq!(third.version, 3);
    assert_eq!(contract.get_commitment(&alice), Ok(third));

    let again = contract.store_commitment(40, alice, [4u8; 32]);
    assert_eq!(again, SalaryCommitment { commitment: [4u8; 32], created_at: 40, updated_at: 40, version: 1 });

    // An account and a contract with the same bytes are different principals.
    assert!(!contract.has_commitment(&Address::Contract([1u8; 32])));
}

#[test]
fn verify_commitment_recomputes_and_compares() {
    let mut contract = SalaryCommitmentContract::new();
    let alice = employee(1);
    let mut blinding = [0u8; 32];
    blinding[0] = 123;
    let commitment = SalaryCommitmentContract::compute_commitment(5000, &blinding);
    assert_eq!(commitment, poseidon_commitment(5000, &blinding).unwrap());
    assert_ne!(commitment, blinding);

    assert_eq!(
        contract.verify_commitment(&alice, 5000, &blinding),
        Err(CommitmentError::CommitmentNotFound)
    );
    let record = contract.store_commitment(0, alice, commitment);
    assert_eq!(contract.verify_commitment(&alice, 5000, &blinding), Ok(true));
    assert_eq!(contract.verify_commitment(&alice, 5001, &blinding), Ok(false));
    let mut other = blinding;
    other[0] = 124;
    assert_eq!(contract.verify_commitment(&alice, 5000, &other), Ok(false));

    assert!(commitment_matches(&record, &commitment));
    assert!(!commitment_matches(&record, &[0u8; 32]));
}

#[test]
fn a_duplicated_store_goes_its_own_way() {
    let mut store = SalaryCommitmentContract::new();
    store.store_commitment(5, employee(1), [1u8; 32]);
    assert_eq!(store.record_nullifier(6, [7u8; 32]), Ok(()));
    let mut copy = store.duplicate();
    assert_eq!(copy.get_commitment(&employee(1)), store.get_commitment(&employee(1)));
    assert!(copy.is_nullifier_used(&[7u8; 32]));
    assert!(copy.update_commitment(9, employee(1), [2u8; 32]).is_ok());
    assert_eq!(copy.record_nullifier(9, [8u8; 32]), Ok(()));
    assert_eq!(copy.get_commitment(&employee(1)).unwrap().version, 2);
    assert_eq!(store.get_commitment(&employee(1)).unwrap().version, 1);
    assert_eq!(store.get_commitment(&employee(1)).unwrap().commitment, [1u8; 32]);
    assert!(!store.is_nullifier_used(&[8u8; 32]));
}
