use zk_payroll::address::Address;
use zk_payroll::auth::AuthorizationContext;
use zk_payroll::commitment::SalaryCommitmentContract;
use zk_payroll::payroll::recipient_hash;
use zk_payroll::payroll::PaymentProcessed;
use zk_payroll::payroll::PaymentRecord;
use zk_payroll::payroll::Payroll;
use zk_payroll::payroll::PayrollError;
use zk_payroll::payroll::MAX_BATCH;
use zk_payroll::proof_verifier::Groth16Proof;
use zk_payroll::proof_verifier::ProofVerifier;
use zk_payroll::proof_verifier::ShapeOnlyBackend;
use zk_payroll::proof_verifier::VerificationKey;
use zk_payroll::registry::PayrollRegistry;
use zk_payroll::token::Token;
use zk_payroll::token::TokenError;

/// Build a mock Groth16 verification key (all-zero curve points).
fn mock_vk() -> VerificationKey {
    VerificationKey {
        alpha: [0u8; 64],
        beta: [0u8; 128],
        gamma: [0u8; 128],
        delta: [0u8; 128],
        ic: vec![[0u8; 64], [0u8; 64], [0u8; 64], [0u8; 64]],
    }
}

/// Build a mock Groth16 proof (distinguishable byte patterns per point).
fn mock_proof() -> Groth16Proof {
    Groth16Proof { a: [1u8; 64], b: [2u8; 128], c: [3u8; 64] }
}

/// Alice's commitment: Poseidon(salary = 5000, blinding = 123).
fn alice_salary_commitment() -> [u8; 32] {
    let mut blinding_bytes = [0u8; 32];
    blinding_bytes[0] = 123u8;
    SalaryCommitmentContract::compute_commitment(5000u64, &blinding_bytes)
}

struct TestContext {
    admin: Address,
    treasury: Address,
    alice: Address,
    company_id: u64,
    auth: AuthorizationContext,
    token: Token,
    registry: PayrollRegistry,
    commitments: SalaryCommitmentContract,
    verifier: ProofVerifier,
    payroll: Payroll,
}

fn setup() -> TestContext {
    let admin = Address::Account([1u8; 32]);
    let treasury = Address::Account([2u8; 32]);
    let alice = Address::Account([3u8; 32]);
    let mut auth = AuthorizationContext::new();
    auth.authorize(admin);

    let mut verifier = ProofVerifier::new();
    verifier.initialize(mock_vk()).unwrap();

    let mut payroll = Payroll::new();
    payroll
        .initialize(
            admin,
            Address::Contract([10u8; 32]),
            Address::Contract([11u8; 32]),
            Address::Contract([12u8; 32]),
            treasury,
        )
        .unwrap();

    let mut registry = PayrollRegistry::new();
    // Register a company up-front; first ID is always 0.
    let company_id = registry.register_company(&auth, admin, treasury).unwrap();

    TestContext {
        admin,
        treasury,
        alice,
        company_id,
        auth,
        token: Token::new(),
        registry,
        commitments: SalaryCommitmentContract::new(),
        verifier,
        payroll,
    }
}

fn run_batch(
    ctx: &mut TestContext,
    period: u32,
    proofs: &Vec<Groth16Proof>,
    amounts: &Vec<i128>,
    employees: &Vec<Address>,
    nullifiers: &Vec<[u8; 32]>,
) -> Result<Vec<PaymentRecord>, PayrollError> {
    ctx.payroll.batch_process_payroll(
        &mut ctx.commitments,
        &mut ctx.token,
        &ctx.verifier,
        &ShapeOnlyBackend,
        1_700_000_000,
        ctx.company_id,
        period,
        proofs,
        amounts,
        employees,
        nullifiers,
    )
}

fn onboard_alice(ctx: &mut TestContext) {
    let commitment = alice_salary_commitment();
    ctx.commitments.store_commitment(0, ctx.alice, commitment);
    ctx.registry.add_employee(&ctx.auth, ctx.company_id, ctx.alice, commitment).unwrap();
}

/// Full happy-path: Setup → Onboarding → Execution → Assertions.
#[test]
fn test_e2e_full_payroll_flow() {
    let mut ctx = setup();
    assert_eq!(ctx.company_id, 0);
    assert_eq!(ctx.registry.get_company(0).unwrap().admin, ctx.admin);

    // Compute Alice's commitment: Poseidon_Hash(salary=5000, blinding=123).
    let commitment = alice_salary_commitment();

    // Store the commitment so the payroll executor can retrieve it.
    ctx.commitments.store_commitment(0, ctx.alice, commitment);
    assert!(ctx.commitments.has_commitment(&ctx.alice));

    // Register Alice in the registry with the same commitment.
    ctx.registry.add_employee(&ctx.auth, ctx.company_id, ctx.alice, commitment).unwrap();

    // Mint tokens into the company treasury.
    let initial_treasury: i128 = 10_000;
    ctx.token.mint(ctx.treasury, initial_treasury).unwrap();
    assert_eq!(ctx.token.balance(&ctx.treasury), initial_treasury);
    assert_eq!(ctx.token.balance(&ctx.alice), 0);

    // Build payroll batch for Alice (salary = 5000, single entry).
    let payment_amount: i128 = 5_000;
    let proofs = vec![mock_proof()];
    let amounts = vec![payment_amount];
    let employees = vec![ctx.alice];
    let nullifier = [0u8; 32];
    let nullifiers = vec![nullifier];

    let records = run_batch(&mut ctx, 1, &proofs, &amounts, &employees, &nullifiers).unwrap();

    // 1. Treasury decreased by exactly the payment amount.
    assert_eq!(
        ctx.token.balance(&ctx.treasury),
        initial_treasury - payment_amount,
        "Treasury must decrease by payment amount"
    );

    // 2. Alice's balance increased by exactly the payment amount.
    assert_eq!(
        ctx.token.balance(&ctx.alice),
        payment_amount,
        "Alice's balance must increase by payment amount"
    );

    // 3. The nullifier of the entry is now marked as used (double-payment guard).
    assert!(
        ctx.commitments.is_nullifier_used(&nullifier),
        "Payment nullifier must be recorded after execution"
    );

    // 4. One event was published for Alice's payment.
    let events = ctx.payroll.events();
    assert_eq!(
        events.len(),
        1,
        "Exactly one payment_executed event must be emitted for a single-employee batch"
    );
    assert_eq!(
        events[0],
        PaymentProcessed { company_id: 0, employee: ctx.alice, amount: 5_000, period: 1 }
    );

    let expected = PaymentRecord {
        company_id: 0,
        employee: ctx.alice,
        proof_hash: nullifier,
        timestamp: 1_700_000_000,
        period: 1,
    };
    assert_eq!(records, vec![expected]);
    assert_eq!(ctx.payroll.get_payment(ctx.alice, 1), Ok(expected));
    assert!(ctx.payroll.is_paid(ctx.alice, 1));
    assert!(!ctx.payroll.is_paid(ctx.alice, 2));
    assert_eq!(ctx.payroll.get_total_paid(0), 5_000);
    assert_eq!(ctx.payroll.get_total_paid(1), 0);
}

#[test]
fn benchmark_50_batch_validations() {
    let mut ctx = setup();
    ctx.token.mint(ctx.treasury, 1_000_000).unwrap();

    // prepare 50 proofs/amounts/employees
    let mut proofs = Vec::new();
    let mut amounts = Vec::new();
    let mut employees = Vec::new();
    let mut nullifiers = Vec::new();

    for i in 0..50u32 {
        proofs.push(Groth16Proof { a: [0u8; 64], b: [0u8; 128], c: [0u8; 64] });
        amounts.push(100i128 + i as i128);
        let mut key = [0u8; 32];
        key[0] = 100;
        key[1] = i as u8;
        let emp = Address::Account(key);
        // store a dummy commitment for each employee so the lookup succeeds
        ctx.commitments.store_commitment(0, emp, [0u8; 32]);
        employees.push(emp);
        let mut nullifier_arr = [0u8; 32];
        nullifier_arr[0] = (i % 256) as u8;
        nullifier_arr[1] = (i / 256) as u8;
        nullifiers.push(nullifier_arr);
    }

    // Execute batch - should succeed with MAX_BATCH == 50
    let records = run_batch(&mut ctx, 1, &proofs, &amounts, &employees, &nullifiers).unwrap();
    assert_eq!(records.len(), 50);
    assert_eq!(MAX_BATCH, 50);
    assert_eq!(ctx.payroll.events().len(), 50);
    let total: i128 = (0..50).map(|i| 100 + i as i128).sum();
    assert_eq!(ctx.payroll.get_total_paid(ctx.company_id), total);
    assert_eq!(ctx.token.balance(&ctx.treasury), 1_000_000 - total);
    assert_eq!(ctx.token.balance(&employees[49]), 149);
}

/// Paying an employee who has no commitment on record fails and moves nothing.
#[test]
fn unregistered_employee_is_not_paid() {
    let mut ctx = setup();
    ctx.token.mint(ctx.treasury, 10_000).unwrap();

    let employees = vec![ctx.alice];
    let result = run_batch(&mut ctx, 1, &vec![mock_proof()], &vec![5_000], &employees, &vec![[0u8; 32]]);
    assert_eq!(result, Err(PayrollError::CommitmentNotFound));
    assert_eq!(ctx.token.balance(&ctx.treasury), 10_000);
    assert_eq!(ctx.token.balance(&ctx.alice), 0);
    assert!(!ctx.commitments.is_nullifier_used(&[0u8; 32]));
    assert!(!ctx.payroll.is_paid(ctx.alice, 1));
    assert_eq!(ctx.payroll.events().len(), 0);
    assert_eq!(ctx.payroll.get_payment(ctx.alice, 1), Err(PayrollError::PaymentNotFound));
}

/// Running payroll twice with the same nullifier fails the second time.
#[test]
fn double_payment_is_rejected() {
    let mut ctx = setup();
    onboard_alice(&mut ctx);
    ctx.token.mint(ctx.treasury, 20_000).unwrap();

    let proofs = vec![mock_proof()];
    let amounts = vec![5_000i128];
    let employees = vec![ctx.alice];
    let nullifiers = vec![[0u8; 32]];

    assert!(run_batch(&mut ctx, 1, &proofs, &amounts, &employees, &nullifiers).is_ok());
    assert_eq!(
        run_batch(&mut ctx, 1, &proofs, &amounts, &employees, &nullifiers),
        Err(PayrollError::NullifierAlreadyUsed)
    );
    assert_eq!(ctx.token.balance(&ctx.treasury), 15_000);
    assert_eq!(ctx.token.balance(&ctx.alice), 5_000);
    assert_eq!(ctx.payroll.events().len(), 1);
    assert_eq!(ctx.payroll.get_total_paid(ctx.company_id), 5_000);

    // A fresh nullifier does not help for the same period.
    assert_eq!(
        run_batch(&mut ctx, 1, &proofs, &amounts, &employees, &vec![[7u8; 32]]),
        Err(PayrollError::AlreadyPaid)
    );
    assert!(!ctx.commitments.is_nullifier_used(&[7u8; 32]));
    assert_eq!(ctx.token.balance(&ctx.alice), 5_000);

    // The next period is paid with a fresh nullifier.
    assert!(run_batch(&mut ctx, 2, &proofs, &amounts, &employees, &vec![[7u8; 32]]).is_ok());
    assert_eq!(ctx.token.balance(&ctx.alice), 10_000);
    assert_eq!(ctx.payroll.get_total_paid(ctx.company_id), 10_000);
}

/// Array length mismatches are rejected before anything changes, whichever array is short.
#[test]
fn mismatched_arrays_are_rejected() {
    let mut ctx = setup();
    onboard_alice(&mut ctx);
    ctx.token.mint(ctx.treasury, 20_000).unwrap();
    let two_proofs = vec![mock_proof(), mock_proof()];
    let two_amounts = vec![5_000i128, 5_000];
    let two_employees = vec![ctx.alice, ctx.alice];
    let two_nullifiers = vec![[0u8; 32], [1u8; 32]];
    let one_proof = vec![mock_proof()];
    let one_amount = vec![5_000i128];
    let one_employee = vec![ctx.alice];
    let one_nullifier = vec![[0u8; 32]];

    let cases = [
        (&one_proof, &two_amounts, &two_employees, &two_nullifiers),
        (&two_proofs, &one_amount, &two_employees, &two_nullifiers),
        (&two_proofs, &two_amounts, &one_employee, &two_nullifiers),
        (&two_proofs, &two_amounts, &two_employees, &one_nullifier),
    ];
    for (proofs, amounts, employees, nullifiers) in cases {
        assert_eq!(
            run_batch(&mut ctx, 1, proofs, amounts, employees, nullifiers),
            Err(PayrollError::ArrayLengthMismatch)
        );
        assert_eq!(ctx.token.balance(&ctx.treasury), 20_000);
        assert_eq!(ctx.token.balance(&ctx.alice), 0);
        assert!(!ctx.commitments.is_nullifier_used(&[0u8; 32]));
        assert!(!ctx.commitments.is_nullifier_used(&[1u8; 32]));
        assert!(!ctx.payroll.is_paid(ctx.alice, 1));
        assert_eq!(ctx.payroll.events().len(), 0);
    }
}

#[test]
fn a_batch_of_more_than_fifty_is_rejected() {
    let mut ctx = setup();
    onboard_alice(&mut ctx);
    ctx.token.mint(ctx.treasury, 20_000).unwrap();
    let proofs = vec![mock_proof(); 51];
    let amounts = vec![1i128; 51];
    let employees = vec![ctx.alice; 51];
    let nullifiers: Vec<[u8; 32]> = (0..51u8).map(|i| [i; 32]).collect();
    assert_eq!(
        run_batch(&mut ctx, 1, &proofs, &amounts, &employees, &nullifiers),
        Err(PayrollError::BatchTooLarge)
    );
    assert_eq!(ctx.token.balance(&ctx.treasury), 20_000);
    assert!(!ctx.commitments.is_nullifier_used(&[0u8; 32]));
}

#[test]
fn a_failing_entry_undoes_the_whole_batch() {
    let mut ctx = setup();
    onboard_alice(&mut ctx);
    let bob = Address::Account([4u8; 32]);
    let carol = Address::Account([5u8; 32]);
    ctx.commitments.store_commitment(0, carol, [9u8; 32]);
    ctx.token.mint(ctx.treasury, 20_000).unwrap();

    // Bob has no commitment: nobody is paid, Alice before him included.
    let employees = vec![ctx.alice, bob, carol];
    let result = run_batch(
        &mut ctx,
        1,
        &vec![mock_proof(); 3],
        &vec![5_000, 6_000, 7_000],
        &employees,
        &vec![[0u8; 32], [1u8; 32], [2u8; 32]],
    );
    assert_eq!(result, Err(PayrollError::CommitmentNotFound));
    assert_eq!(ctx.token.balance(&ctx.alice), 0);
    assert_eq!(ctx.token.balance(&bob), 0);
    assert_eq!(ctx.token.balance(&carol), 0);
    assert_eq!(ctx.token.balance(&ctx.treasury), 20_000);
    assert!(!ctx.commitments.is_nullifier_used(&[0u8; 32]));
    assert!(!ctx.commitments.is_nullifier_used(&[1u8; 32]));
    assert!(!ctx.commitments.is_nullifier_used(&[2u8; 32]));
    assert!(!ctx.payroll.is_paid(ctx.alice, 1));
    assert_eq!(ctx.payroll.get_total_paid(ctx.company_id), 0);
    assert_eq!(ctx.payroll.events().len(), 0);

    // The same holds where the one without commitment comes last.
    let employees = vec![ctx.alice, carol, bob];
    let result = run_batch(
        &mut ctx,
        1,
        &vec![mock_proof(); 3],
        &vec![5_000, 6_000, 7_000],
        &employees,
        &vec![[0u8; 32], [1u8; 32], [2u8; 32]],
    );
    assert_eq!(result, Err(PayrollError::CommitmentNotFound));
    assert_eq!(ctx.token.balance(&ctx.alice), 0);
    assert_eq!(ctx.token.balance(&carol), 0);
    assert_eq!(ctx.token.balance(&ctx.treasury), 20_000);
    assert!(!ctx.commitments.is_nullifier_used(&[0u8; 32]));
    assert!(!ctx.commitments.is_nullifier_used(&[1u8; 32]));
    assert!(!ctx.payroll.is_paid(carol, 1));
    assert_eq!(ctx.payroll.events().len(), 0);

    // Once Bob has a commitment the very same batch settles in full.
    ctx.commitments.store_commitment(0, bob, [8u8; 32]);
    let records = run_batch(
        &mut ctx,
        1,
        &vec![mock_proof(); 3],
        &vec![5_000, 6_000, 7_000],
        &employees,
        &vec![[0u8; 32], [1u8; 32], [2u8; 32]],
    )
    .unwrap();
    assert_eq!(records.len(), 3);
    assert_eq!(ctx.token.balance(&ctx.alice), 5_000);
    assert_eq!(ctx.token.balance(&carol), 6_000);
    assert_eq!(ctx.token.balance(&bob), 7_000);
    assert_eq!(ctx.token.balance(&ctx.treasury), 2_000);
    assert_eq!(ctx.payroll.get_total_paid(ctx.company_id), 18_000);
    assert_eq!(ctx.payroll.events().len(), 3);
    assert!(ctx.commitments.is_nullifier_used(&[2u8; 32]));
}

#[test]
fn a_batch_fails_as_a_whole_whatever_the_reason() {
    let mut ctx = setup();
    onboard_alice(&mut ctx);
    let bob = Address::Account([4u8; 32]);
    ctx.commitments.store_commitment(0, bob, [9u8; 32]);
    ctx.token.mint(ctx.treasury, 8_000).unwrap();
    let employees = vec![ctx.alice, bob];
    let proofs = vec![mock_proof(); 2];

    // The treasury covers the first payment and not the second.
    assert_eq!(
        run_batch(&mut ctx, 1, &proofs, &vec![5_000, 4_000], &employees, &vec![[0u8; 32], [1u8; 32]]),
        Err(PayrollError::TransferFailed(TokenError::InsufficientBalance))
    );
    assert_eq!(ctx.token.balance(&ctx.treasury), 8_000);
    assert_eq!(ctx.token.balance(&ctx.alice), 0);
    assert!(!ctx.commitments.is_nullifier_used(&[0u8; 32]));
    assert!(!ctx.payroll.is_paid(ctx.alice, 1));

    // Two entries with one nullifier: the second finds it consumed.
    assert_eq!(
        run_batch(&mut ctx, 1, &proofs, &vec![1_000, 1_000], &employees, &vec![[6u8; 32], [6u8; 32]]),
        Err(PayrollError::NullifierAlreadyUsed)
    );
    assert_eq!(ctx.token.balance(&ctx.treasury), 8_000);
    assert_eq!(ctx.token.balance(&ctx.alice), 0);
    assert!(!ctx.commitments.is_nullifier_used(&[6u8; 32]));

    // One employee twice in one period.
    let twice = vec![bob, bob];
    assert_eq!(
        run_batch(&mut ctx, 1, &proofs, &vec![1_000, 1_000], &twice, &vec![[6u8; 32], [7u8; 32]]),
        Err(PayrollError::AlreadyPaid)
    );
    assert_eq!(ctx.token.balance(&bob), 0);
    assert!(!ctx.payroll.is_paid(bob, 1));
    assert!(!ctx.commitments.is_nullifier_used(&[6u8; 32]));
    assert_eq!(ctx.payroll.get_total_paid(ctx.company_id), 0);
    assert_eq!(ctx.payroll.events().len(), 0);

    // Nothing of the failed runs is in the way of a good one.
    assert!(run_batch(&mut ctx, 1, &proofs, &vec![5_000, 3_000], &employees, &vec![[0u8; 32], [1u8; 32]])
        .is_ok());
    assert_eq!(ctx.token.balance(&ctx.treasury), 0);
    assert_eq!(ctx.token.balance(&ctx.alice), 5_000);
    assert_eq!(ctx.token.balance(&bob), 3_000);
}

#[test]
fn a_refused_transfer_leaves_the_payment_unbooked() {
    let mut ctx = setup();
    onboard_alice(&mut ctx);
    ctx.token.mint(ctx.treasury, 4_999).unwrap();
    let alice = ctx.alice;
    let pay = |ctx: &mut TestContext, amount: i128| {
        ctx.payroll.process_payment(
            &mut ctx.commitments,
            &mut ctx.token,
            &ctx.verifier,
            &ShapeOnlyBackend,
            77,
            ctx.company_id,
            1,
            &mock_proof(),
            amount,
            alice,
            [5u8; 32],
        )
    };
    assert_eq!(pay(&mut ctx, 5_000), Err(PayrollError::TransferFailed(TokenError::InsufficientBalance)));
    assert!(!ctx.commitments.is_nullifier_used(&[5u8; 32]));
    assert!(!ctx.payroll.is_paid(alice, 1));
    assert_eq!(ctx.payroll.get_total_paid(ctx.company_id), 0);
    assert_eq!(ctx.payroll.events().len(), 0);
    assert_eq!(ctx.token.balance(&ctx.treasury), 4_999);

    // The same nullifier and period are still good for a payment that the
    // treasury covers.
    let record = pay(&mut ctx, 4_999).unwrap();
    assert_eq!(
        record,
        PaymentRecord { company_id: 0, employee: alice, proof_hash: [5u8; 32], timestamp: 77, period: 1 }
    );
    assert!(ctx.commitments.is_nullifier_used(&[5u8; 32]));
    assert_eq!(ctx.token.balance(&ctx.treasury), 0);
    assert_eq!(ctx.token.balance(&alice), 4_999);
    assert_eq!(pay(&mut ctx, 0), Err(PayrollError::NullifierAlreadyUsed));
}

#[test]
fn a_duplicate_is_independent_of_its_source() {
    let mut ctx = setup();
    onboard_alice(&mut ctx);
    ctx.token.mint(ctx.treasury, 10_000).unwrap();
    let mut payroll = ctx.payroll.duplicate();
    let mut commitments = ctx.commitments.duplicate();
    let mut token = ctx.token.duplicate();
    assert!(commitments.has_commitment(&ctx.alice));
    assert_eq!(token.balance(&ctx.treasury), 10_000);

    let paid = payroll.process_payment(
        &mut commitments,
        &mut token,
        &ctx.verifier,
        &ShapeOnlyBackend,
        1,
        ctx.company_id,
        1,
        &mock_proof(),
        2_500,
        ctx.alice,
        [1u8; 32],
    );
    assert!(paid.is_ok());
    assert_eq!(token.balance(&ctx.alice), 2_500);
    assert!(commitments.is_nullifier_used(&[1u8; 32]));
    assert!(payroll.is_paid(ctx.alice, 1));
    assert_eq!(payroll.events().len(), 1);

    assert_eq!(ctx.token.balance(&ctx.alice), 0);
    assert_eq!(ctx.token.balance(&ctx.treasury), 10_000);
    assert!(!ctx.commitments.is_nullifier_used(&[1u8; 32]));
    assert!(!ctx.payroll.is_paid(ctx.alice, 1));
    assert_eq!(ctx.payroll.events().len(), 0);
}

#[test]
fn every_payroll_error_has_its_input() {
    let mut ctx = setup();
    onboard_alice(&mut ctx);
    let proofs = vec![mock_proof()];
    let employees = vec![ctx.alice];

    // The treasury is empty: the ledger would refuse, so nothing is booked.
    assert_eq!(
        run_batch(&mut ctx, 1, &proofs, &vec![5_000], &employees, &vec![[0u8; 32]]),
        Err(PayrollError::TransferFailed(TokenError::InsufficientBalance))
    );
    assert!(!ctx.commitments.is_nullifier_used(&[0u8; 32]));
    assert!(!ctx.payroll.is_paid(ctx.alice, 1));
    assert_eq!(ctx.payroll.events().len(), 0);
    assert_eq!(ctx.token.balance(&ctx.alice), 0);

    assert_eq!(
        run_batch(&mut ctx, 2, &proofs, &vec![-1], &employees, &vec![[1u8; 32]]),
        Err(PayrollError::TransferFailed(TokenError::NegativeAmount))
    );
    assert!(!ctx.commitments.is_nullifier_used(&[1u8; 32]));

    ctx.token.mint(ctx.treasury, i128::MAX).unwrap();
    assert!(run_batch(&mut ctx, 3, &proofs, &vec![i128::MAX - 5_000], &employees, &vec![[3u8; 32]]).is_ok());
    assert_eq!(ctx.payroll.get_total_paid(ctx.company_id), i128::MAX - 5_000);
    // The treasury holds 5001 and Bob nothing: only the company's total is in the way.
    let bob = Address::Account([4u8; 32]);
    ctx.commitments.store_commitment(0, bob, [9u8; 32]);
    ctx.token.mint(ctx.treasury, 1).unwrap();
    assert_eq!(
        run_batch(&mut ctx, 4, &proofs, &vec![5_001], &vec![bob], &vec![[4u8; 32]]),
        Err(PayrollError::TotalOverflow)
    );
    assert!(!ctx.commitments.is_nullifier_used(&[4u8; 32]));
    assert_eq!(ctx.token.balance(&ctx.treasury), 5_001);
    assert!(run_batch(&mut ctx, 4, &proofs, &vec![5_000], &vec![bob], &vec![[4u8; 32]]).is_ok());
    assert_eq!(ctx.payroll.get_total_paid(ctx.company_id), i128::MAX);
    assert_eq!(ctx.token.balance(&bob), 5_000);

    // A second set-up is refused.
    assert_eq!(
        ctx.payroll.initialize(ctx.admin, ctx.admin, ctx.admin, ctx.admin, ctx.admin),
        Err(PayrollError::AlreadyInitialized)
    );

    // An executor that was never set up pays nobody.
    let mut fresh = Payroll::new();
    let none: Vec<[u8; 32]> = Vec::new();
    assert_eq!(
        fresh.batch_process_payroll(
            &mut ctx.commitments,
            &mut ctx.token,
            &ctx.verifier,
            &ShapeOnlyBackend,
            0,
            0,
            1,
            &Vec::new(),
            &Vec::new(),
            &Vec::new(),
            &none,
        ),
        Err(PayrollError::NotInitialized)
    );
    assert_eq!(
        fresh.process_payment(
            &mut ctx.commitments,
            &mut ctx.token,
            &ctx.verifier,
            &ShapeOnlyBackend,
            0,
            0,
            1,
            &mock_proof(),
            1,
            ctx.alice,
            [9u8; 32],
        ),
        Err(PayrollError::NotInitialized)
    );

    // A verifier without a key, and a key that takes two inputs.
    let unset = ProofVerifier::new();
    assert_eq!(
        ctx.payroll.process_payment(
            &mut ctx.commitments,
            &mut ctx.token,
            &unset,
            &ShapeOnlyBackend,
            0,
            0,
            9,
            &mock_proof(),
            1,
            ctx.alice,
            [9u8; 32],
        ),
        Err(PayrollError::NotInitialized)
    );
    let mut narrow = ProofVerifier::new();
    let mut key = mock_vk();
    key.ic.pop();
    narrow.initialize(key).unwrap();
    assert_eq!(
        ctx.payroll.process_payment(
            &mut ctx.commitments,
            &mut ctx.token,
            &narrow,
            &ShapeOnlyBackend,
            0,
            0,
            9,
            &mock_proof(),
            1,
            ctx.alice,
            [9u8; 32],
        ),
        Err(PayrollError::InvalidProof)
    );
    assert!(!ctx.commitments.is_nullifier_used(&[9u8; 32]));
}

#[test]
fn the_recipient_hash_is_the_digest_of_the_address() {
    let expected: [u8; 32] = [
        33, 61, 219, 49, 143, 154, 90, 31, 219, 238, 35, 39, 56, 145, 160, 55, 237, 5, 106, 95,
        181, 98, 103, 201, 125, 167, 117, 13, 173, 73, 88, 48,
    ];
    assert_eq!(recipient_hash(&Address::Account([3u8; 32])), expected);
    assert_ne!(recipient_hash(&Address::Contract([3u8; 32])), expected);
}
