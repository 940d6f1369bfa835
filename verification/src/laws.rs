//! What holds of the protocol in every state, proved from the transition
//! functions that the operations are specified by.

use crate::address::Address;
use crate::address::Digest;
use crate::audit::AuditError;
use crate::audit::AuditScope;
use crate::audit::AuditState;
use crate::commitment::CommitmentError;
use crate::commitment::CommitmentState;
use crate::crypto::poseidon_digest;
use crate::payroll::entries_of;
use crate::payroll::PaymentEntry;
use crate::payroll::PaymentKey;
use crate::payroll::PaymentProcessed;
use crate::payroll::PaymentRecord;
use crate::payroll::PayrollError;
use crate::payroll::Settlement;
use crate::payroll::MAX_BATCH;
use crate::proof_verifier::Groth16Proof;
use crate::proof_verifier::PairingBackend;
use crate::proof_verifier::VerificationKeyView;
use crate::registry::Employee;
use crate::registry::RegistryError;
use crate::registry::RegistryState;
use vstd::prelude::*;

verus! {

/// The commitment is a function of the salary and the blinding factor: two
/// computations on the same inputs give the same 32 bytes.
pub proof fn law_commitment_is_deterministic(salary: u64, blinding: Digest, first: Digest, second: Digest)
    requires
        first@ == poseidon_digest(salary, blinding@),
        second@ == poseidon_digest(salary, blinding@),
    ensures
        first == second,
{
    vstd::array::axiom_array_ext_equal(first, second);
}

/// A nullifier can be recorded exactly once.  Recording succeeds if and only
/// if the value has not been recorded; from then on the value is on record,
/// and recording it again, at whatever time, fails with
/// `NullifierAlreadyUsed` and changes nothing.
pub proof fn law_nullifier_recorded_once(state: CommitmentState, value: Digest, first: u64, later: u64)
    ensures
        state.record_nullifier(first, value).1 is Ok <==> !state.nullifiers.contains_key(value),
        state.record_nullifier(first, value).0.nullifiers.contains_key(value),
        state.record_nullifier(first, value).0.record_nullifier(later, value) == (
            state.record_nullifier(first, value).0,
            Err::<(), CommitmentError>(CommitmentError::NullifierAlreadyUsed),
        ),
{
}

/// No operation of the commitment store takes a nullifier off the record:
/// what has been recorded stays recorded through every creation, update,
/// batch of updates and recording of other nullifiers.
pub proof fn law_nullifiers_are_permanent(
    state: CommitmentState,
    value: Digest,
    now: u64,
    employee: Address,
    commitment: Digest,
    updates: Seq<(Address, Digest)>,
    other: Digest,
)
    requires
        state.nullifiers.contains_key(value),
    ensures
        state.store(now, employee, commitment).0.nullifiers.contains_key(value),
        state.update(now, employee, commitment).0.nullifiers.contains_key(value),
        state.update_all(now, updates).0.nullifiers.contains_key(value),
        state.record_nullifier(now, other).0.nullifiers.contains_key(value),
    decreases updates.len(),
{
    if updates.len() > 0 {
        law_nullifiers_are_permanent(
            state,
            value,
            now,
            employee,
            commitment,
            updates.drop_last(),
            other,
        );
        let before = state.update_all(now, updates.drop_last()).0;
        law_nullifiers_are_permanent(
            before,
            value,
            now,
            updates.last().0,
            updates.last().1,
            Seq::empty(),
            other,
        );
    }
}

/// A payment never takes a nullifier off the record either, whether it
/// settles or is rejected.
pub proof fn law_settlement_keeps_nullifiers<B: PairingBackend>(
    world: Settlement,
    backend: B,
    vk: Option<VerificationKeyView>,
    now: u64,
    company_id: u64,
    period: u32,
    entries: Seq<PaymentEntry>,
    value: Digest,
)
    requires
        world.commitments.nullifiers.contains_key(value),
    ensures
        world.settle_all(
            backend,
            vk,
            now,
            company_id,
            period,
            entries,
        ).0.commitments.nullifiers.contains_key(value),
    decreases entries.len(),
{
    if entries.len() > 0 {
        law_settlement_keeps_nullifiers(
            world,
            backend,
            vk,
            now,
            company_id,
            period,
            entries.drop_last(),
            value,
        );
    }
}

/// A view key gives access strictly before its expiry and not from the
/// expiry on: for the auditor it was issued to, access at time `now` is
/// exactly `now < expires_at`.  Nobody else has access through it at any
/// time.
pub proof fn law_access_ends_at_expiry(state: AuditState, id: Digest, auditor: Address, now: u64)
    requires
        state.view_keys.contains_key(id),
    ensures
        state.view_keys[id].auditor == auditor ==> (state.has_access(now, id, auditor) <==> now
            < state.view_keys[id].expires_at),
        state.view_keys[id].auditor != auditor ==> !state.has_access(now, id, auditor),
{
}

/// A key issued at time `now` for `duration` gives its auditor access at
/// every time before `now + duration`, and at no time from then on.
pub proof fn law_issued_key_is_valid_for_its_duration(
    state: AuditState,
    signers: Set<Address>,
    now: u64,
    company_id: u64,
    company_admin: Address,
    auditor: Address,
    scope: AuditScope,
    duration: u64,
    at: u64,
)
    requires
        state.issue(signers, now, company_id, company_admin, auditor, scope, duration).1 is Ok,
    ensures
        ({
            let (after, issued) = state.issue(
                signers,
                now,
                company_id,
                company_admin,
                auditor,
                scope,
                duration,
            );
            after.has_access(at, issued->Ok_0.id, auditor) <==> at < now + duration
        }),
{
}

/// A key of scope `AggregateOnly` never answers a question about one
/// employee's commitment: whatever the inputs, the call ends in an error and
/// no match or mismatch is revealed.
pub proof fn law_aggregate_only_reveals_no_commitment(
    state: AuditState,
    signers: Set<Address>,
    now: u64,
    id: Digest,
    auditor: Address,
    stored_commitment: Digest,
    claimed_amount: i128,
    blinding: Digest,
)
    requires
        state.view_keys.contains_key(id),
        state.view_keys[id].scope == AuditScope::AggregateOnly,
    ensures
        state.commitment_check(
            signers,
            now,
            id,
            auditor,
            stored_commitment,
            claimed_amount,
            blinding,
        ) is Err,
        state.key_gate(signers, now, id, auditor) is Ok ==> state.commitment_check(
            signers,
            now,
            id,
            auditor,
            stored_commitment,
            claimed_amount,
            blinding,
        ) == Err::<bool, AuditError>(AuditError::InsufficientScope),
{
}

/// A batch whose arrays differ in length is rejected as a whole, whichever
/// array is the short one: no payment is recorded, no nullifier is consumed,
/// no balance changes and no event is published.
pub proof fn law_mismatched_batch_changes_nothing<B: PairingBackend>(
    world: Settlement,
    backend: B,
    vk: Option<VerificationKeyView>,
    now: u64,
    company_id: u64,
    period: u32,
    proofs: Seq<Groth16Proof>,
    amounts: Seq<i128>,
    employees: Seq<Address>,
    nullifiers: Seq<Digest>,
)
    requires
        amounts.len() != proofs.len() || employees.len() != proofs.len() || nullifiers.len()
            != proofs.len(),
    ensures
        world.process_batch(
            backend,
            vk,
            now,
            company_id,
            period,
            proofs,
            amounts,
            employees,
            nullifiers,
        ) == (world, Err::<Seq<PaymentRecord>, PayrollError>(PayrollError::ArrayLengthMismatch)),
{
}

/// A batch with more entries than the executor takes is rejected as a whole
/// with nothing changed.
pub proof fn law_oversized_batch_changes_nothing<B: PairingBackend>(
    world: Settlement,
    backend: B,
    vk: Option<VerificationKeyView>,
    now: u64,
    company_id: u64,
    period: u32,
    proofs: Seq<Groth16Proof>,
    amounts: Seq<i128>,
    employees: Seq<Address>,
    nullifiers: Seq<Digest>,
)
    requires
        proofs.len() > MAX_BATCH,
    ensures
        world.process_batch(
            backend,
            vk,
            now,
            company_id,
            period,
            proofs,
            amounts,
            employees,
            nullifiers,
        ).0 == world,
        world.process_batch(
            backend,
            vk,
            now,
            company_id,
            period,
            proofs,
            amounts,
            employees,
            nullifiers,
        ).1 is Err,
{
}

/// A payment fails exactly when one of the checks rejects it, and a payment
/// that fails changes nothing: no balance, no record, no nullifier, no event.
pub proof fn law_failed_payment_changes_nothing<B: PairingBackend>(
    world: Settlement,
    backend: B,
    vk: Option<VerificationKeyView>,
    now: u64,
    company_id: u64,
    period: u32,
    entry: PaymentEntry,
)
    ensures
        world.settle(backend, vk, now, company_id, period, entry).1 is Err <==> world.rejection(
            backend,
            vk,
            company_id,
            period,
            entry,
        ) is Some,
        world.settle(backend, vk, now, company_id, period, entry).1 is Err ==> world.settle(
            backend,
            vk,
            now,
            company_id,
            period,
            entry,
        ) == (
            world,
            Err::<PaymentRecord, PayrollError>(
                world.rejection(backend, vk, company_id, period, entry)->Some_0,
            ),
        ),
{
}

/// A batch is all or nothing.  Whatever makes it fail, the shape of its
/// arrays or any of its entries, the first or a later one, a failed batch
/// leaves every balance, record, total, nullifier and event as it was.
pub proof fn law_failed_batch_changes_nothing<B: PairingBackend>(
    world: Settlement,
    backend: B,
    vk: Option<VerificationKeyView>,
    now: u64,
    company_id: u64,
    period: u32,
    proofs: Seq<Groth16Proof>,
    amounts: Seq<i128>,
    employees: Seq<Address>,
    nullifiers: Seq<Digest>,
)
    requires
        world.process_batch(
            backend,
            vk,
            now,
            company_id,
            period,
            proofs,
            amounts,
            employees,
            nullifiers,
        ).1 is Err,
    ensures
        world.process_batch(
            backend,
            vk,
            now,
            company_id,
            period,
            proofs,
            amounts,
            employees,
            nullifiers,
        ).0 == world,
{
}

/// Payments leave the set-up of the executor and the stored commitments
/// alone: after any run of entries both are what they were.
pub proof fn law_settlement_keeps_commitments<B: PairingBackend>(
    world: Settlement,
    backend: B,
    vk: Option<VerificationKeyView>,
    now: u64,
    company_id: u64,
    period: u32,
    entries: Seq<PaymentEntry>,
)
    ensures
        world.settle_all(backend, vk, now, company_id, period, entries).0.commitments.commitments
            == world.commitments.commitments,
        world.settle_all(backend, vk, now, company_id, period, entries).0.payroll.addresses
            == world.payroll.addresses,
    decreases entries.len(),
{
    if entries.len() > 0 {
        law_settlement_keeps_commitments(
            world,
            backend,
            vk,
            now,
            company_id,
            period,
            entries.drop_last(),
        );
    }
}

/// A payment that has settled cannot be submitted again.  The same entry,
/// at whatever later time, is rejected with `NullifierAlreadyUsed`; any
/// other entry for the same employee and period is rejected too; and the
/// rejection leaves every balance and every record as the first run left
/// them.
pub proof fn law_settled_payment_is_not_repeated<B: PairingBackend>(
    world: Settlement,
    backend: B,
    vk: Option<VerificationKeyView>,
    now: u64,
    later: u64,
    company_id: u64,
    period: u32,
    entry: PaymentEntry,
    again: PaymentEntry,
)
    requires
        world.settle(backend, vk, now, company_id, period, entry).1 is Ok,
        again.employee == entry.employee,
    ensures
        ({
            let paid = world.settle(backend, vk, now, company_id, period, entry).0;
            &&& paid.commitments.nullifiers.contains_key(entry.nullifier)
            &&& paid.payroll.payments.contains_key(PaymentKey { employee: entry.employee, period })
            &&& paid.settle(backend, vk, later, company_id, period, entry) == (
                paid,
                Err::<PaymentRecord, PayrollError>(PayrollError::NullifierAlreadyUsed),
            )
            &&& paid.settle(backend, vk, later, company_id, period, again).0 == paid
            &&& paid.settle(backend, vk, later, company_id, period, again).1 is Err
            &&& (!paid.commitments.nullifiers.contains_key(again.nullifier) ==> ({
                let outcome = paid.settle(backend, vk, later, company_id, period, again).1;
                ||| outcome == Err::<PaymentRecord, PayrollError>(PayrollError::AlreadyPaid)
                ||| outcome == Err::<PaymentRecord, PayrollError>(PayrollError::InvalidProof)
            }))
        }),
{
}

/// Once a run of entries has settled, every entry of it is on the books:
/// its nullifier is consumed and its payment is on record.
pub proof fn law_settled_entries_are_booked<B: PairingBackend>(
    world: Settlement,
    backend: B,
    vk: Option<VerificationKeyView>,
    now: u64,
    company_id: u64,
    period: u32,
    entries: Seq<PaymentEntry>,
    at: int,
)
    requires
        world.settle_all(backend, vk, now, company_id, period, entries).1 is Ok,
        0 <= at < entries.len(),
    ensures
        ({
            let after = world.settle_all(backend, vk, now, company_id, period, entries).0;
            &&& after.commitments.nullifiers.contains_key(entries[at].nullifier)
            &&& after.payroll.payments.contains_key(
                PaymentKey { employee: entries[at].employee, period },
            )
        }),
    decreases entries.len(),
{
    if at < entries.len() - 1 {
        law_settled_entries_are_booked(
            world,
            backend,
            vk,
            now,
            company_id,
            period,
            entries.drop_last(),
            at,
        );
        assert(entries.drop_last()[at] == entries[at]);
    }
}

/// A batch that has settled cannot be submitted again.  The same arrays, at
/// whatever later time, fail with `NullifierAlreadyUsed`, and every balance
/// and every record stays as the first run left it.
pub proof fn law_settled_batch_is_not_repeated<B: PairingBackend>(
    world: Settlement,
    backend: B,
    vk: Option<VerificationKeyView>,
    now: u64,
    later: u64,
    company_id: u64,
    period: u32,
    proofs: Seq<Groth16Proof>,
    amounts: Seq<i128>,
    employees: Seq<Address>,
    nullifiers: Seq<Digest>,
)
    requires
        proofs.len() > 0,
        world.process_batch(
            backend,
            vk,
            now,
            company_id,
            period,
            proofs,
            amounts,
            employees,
            nullifiers,
        ).1 is Ok,
    ensures
        ({
            let paid = world.process_batch(
                backend,
                vk,
                now,
                company_id,
                period,
                proofs,
                amounts,
                employees,
                nullifiers,
            ).0;
            paid.process_batch(
                backend,
                vk,
                later,
                company_id,
                period,
                proofs,
                amounts,
                employees,
                nullifiers,
            ) == (paid, Err::<Seq<PaymentRecord>, PayrollError>(PayrollError::NullifierAlreadyUsed))
        }),
{
    let entries = entries_of(proofs, amounts, employees, nullifiers);
    let first = entries[0];
    let paid = world.settle_all(backend, vk, now, company_id, period, entries).0;
    assert(entries.take(1).drop_last() =~= Seq::<PaymentEntry>::empty());
    assert(entries.take(1).last() == first);
    // The first entry was accepted in the state the batch began in.
    if world.settle_all(backend, vk, now, company_id, period, entries.take(1)).1 is Err {
        world.lemma_settle_all_stops(backend, vk, now, company_id, period, entries, 1);
    }
    assert(world.settle_all(backend, vk, now, company_id, period, entries.take(1).drop_last()) == (
        world,
        Ok::<Seq<PaymentRecord>, PayrollError>(Seq::empty()),
    ));
    assert(world.rejection(backend, vk, company_id, period, first) is None);
    // The batch consumed its nullifier and left its commitment alone.
    law_settled_entries_are_booked(world, backend, vk, now, company_id, period, entries, 0);
    law_settlement_keeps_commitments(world, backend, vk, now, company_id, period, entries);
    assert(paid.rejection(backend, vk, company_id, period, first) == Some(
        PayrollError::NullifierAlreadyUsed,
    ));
    assert(paid.settle_all(backend, vk, later, company_id, period, entries.take(1).drop_last()) == (
        paid,
        Ok::<Seq<PaymentRecord>, PayrollError>(Seq::empty()),
    ));
    assert(paid.settle_all(backend, vk, later, company_id, period, entries.take(1)) == (
        paid,
        Err::<Seq<PaymentRecord>, PayrollError>(PayrollError::NullifierAlreadyUsed),
    ));
    paid.lemma_settle_all_stops(backend, vk, later, company_id, period, entries, 1);
}

/// An employee without a stored commitment is not paid.  The payment is
/// rejected and nothing changes; where the executor has been set up the
/// error is `CommitmentNotFound`.
pub proof fn law_unknown_employee_is_not_paid<B: PairingBackend>(
    world: Settlement,
    backend: B,
    vk: Option<VerificationKeyView>,
    now: u64,
    company_id: u64,
    period: u32,
    entry: PaymentEntry,
)
    requires
        !world.commitments.commitments.contains_key(entry.employee),
    ensures
        world.settle(backend, vk, now, company_id, period, entry).0 == world,
        world.settle(backend, vk, now, company_id, period, entry).1 is Err,
        world.payroll.addresses is Some ==> world.settle(
            backend,
            vk,
            now,
            company_id,
            period,
            entry,
        ).1 == Err::<PaymentRecord, PayrollError>(PayrollError::CommitmentNotFound),
{
}

/// A batch in which any entry, at whatever position, names an employee
/// without a stored commitment fails with nothing changed: the entries listed
/// before that one are not paid either.  Where the batch has an acceptable
/// shape, the executor has been set up and the entries before that one would
/// settle, the error is `CommitmentNotFound`.
pub proof fn law_batch_for_unknown_employee_changes_nothing<B: PairingBackend>(
    world: Settlement,
    backend: B,
    vk: Option<VerificationKeyView>,
    now: u64,
    company_id: u64,
    period: u32,
    proofs: Seq<Groth16Proof>,
    amounts: Seq<i128>,
    employees: Seq<Address>,
    nullifiers: Seq<Digest>,
    at: int,
)
    requires
        0 <= at < employees.len(),
        !world.commitments.commitments.contains_key(employees[at]),
    ensures
        ({
            let (after, outcome) = world.process_batch(
                backend,
                vk,
                now,
                company_id,
                period,
                proofs,
                amounts,
                employees,
                nullifiers,
            );
            &&& after == world
            &&& outcome is Err
            &&& (world.payroll.addresses is Some && proofs.len() <= MAX_BATCH && amounts.len()
                == proofs.len() && employees.len() == proofs.len() && nullifiers.len()
                == proofs.len() && world.settle_all(
                backend,
                vk,
                now,
                company_id,
                period,
                entries_of(proofs, amounts, employees, nullifiers).take(at),
            ).1 is Ok ==> outcome == Err::<Seq<PaymentRecord>, PayrollError>(
                PayrollError::CommitmentNotFound,
            ))
        }),
{
    if world.payroll.addresses is Some && proofs.len() <= MAX_BATCH && amounts.len()
        == proofs.len() && employees.len() == proofs.len() && nullifiers.len() == proofs.len() {
        let entries = entries_of(proofs, amounts, employees, nullifiers);
        let (before, earlier) = world.settle_all(
            backend,
            vk,
            now,
            company_id,
            period,
            entries.take(at),
        );
        if earlier is Err {
            world.lemma_settle_all_stops(backend, vk, now, company_id, period, entries, at);
        } else {
            law_settlement_keeps_commitments(
                world,
                backend,
                vk,
                now,
                company_id,
                period,
                entries.take(at),
            );
            assert(entries.take(at + 1).drop_last() =~= entries.take(at));
            assert(entries.take(at + 1).last() == entries[at]);
            assert(entries[at].employee == employees[at]);
            law_unknown_employee_is_not_paid(
                before,
                backend,
                vk,
                now,
                company_id,
                period,
                entries[at],
            );
            assert(world.settle_all(backend, vk, now, company_id, period, entries.take(at + 1))
                == (world, Err::<Seq<PaymentRecord>, PayrollError>(PayrollError::CommitmentNotFound)));
            world.lemma_settle_all_stops(backend, vk, now, company_id, period, entries, at + 1);
        }
    }
}

/// Company numbers are assigned once, in order, and never again: a newly
/// registered company gets a number that no company on record has, the
/// companies on record keep theirs, and the registry stays valid.
pub proof fn law_company_numbers_are_fresh(
    state: RegistryState,
    signers: Set<Address>,
    admin: Address,
    treasury: Address,
)
    requires
        state.valid(),
        state.register_company(signers, admin, treasury).1 is Ok,
    ensures
        ({
            let (after, assigned) = state.register_company(signers, admin, treasury);
            let id = assigned->Ok_0;
            &&& !state.companies.contains_key(id)
            &&& after.companies.contains_key(id)
            &&& after.next_company_id > id
            &&& after.valid()
            &&& forall|other: u64| #[trigger]
                state.companies.contains_key(other) ==> after.companies.contains_key(other)
                    && after.companies[other] == state.companies[other]
        }),
{
}

/// Funds move only after the books are closed.  At the moment of the
/// transfer the entry's nullifier is consumed and its payment is on record,
/// so a payment that re-enters the executor from inside the transfer with
/// the same entry is rejected with `NullifierAlreadyUsed`, and any other
/// payment to the same employee for the same period is rejected too.
pub proof fn law_reentrant_payment_is_rejected<B: PairingBackend>(
    world: Settlement,
    backend: B,
    vk: Option<VerificationKeyView>,
    now: u64,
    company_id: u64,
    period: u32,
    entry: PaymentEntry,
    again: PaymentEntry,
)
    requires
        world.rejection(backend, vk, company_id, period, entry) is None,
        again.employee == entry.employee,
    ensures
        ({
            let at_transfer = world.booked(now, company_id, period, entry).0;
            &&& at_transfer.balances == world.balances
            &&& at_transfer.commitments.nullifiers.contains_key(entry.nullifier)
            &&& at_transfer.payroll.payments.contains_key(
                PaymentKey { employee: entry.employee, period },
            )
            &&& at_transfer.rejection(backend, vk, company_id, period, entry) == Some(
                PayrollError::NullifierAlreadyUsed,
            )
            &&& at_transfer.rejection(backend, vk, company_id, period, again) is Some
        }),
{
}

/// Whenever a payment changes a balance, its nullifier is consumed, its
/// record is written and exactly one event tells of it.
pub proof fn law_no_transfer_without_a_record<B: PairingBackend>(
    world: Settlement,
    backend: B,
    vk: Option<VerificationKeyView>,
    now: u64,
    company_id: u64,
    period: u32,
    entry: PaymentEntry,
)
    requires
        world.settle(backend, vk, now, company_id, period, entry).0.balances != world.balances,
    ensures
        ({
            let (after, outcome) = world.settle(backend, vk, now, company_id, period, entry);
            &&& outcome is Ok
            &&& after.commitments.nullifiers.contains_key(entry.nullifier)
            &&& after.payroll.payments.contains_key(PaymentKey { employee: entry.employee, period })
            &&& after.payroll.events == world.payroll.events.push(
                PaymentProcessed {
                    company_id,
                    employee: entry.employee,
                    amount: entry.amount,
                    period,
                },
            )
        }),
{
}

/// A payment record is written once: no payment, settled or rejected,
/// changes or removes a record that is there.
pub proof fn law_payment_records_are_write_once<B: PairingBackend>(
    world: Settlement,
    backend: B,
    vk: Option<VerificationKeyView>,
    now: u64,
    company_id: u64,
    period: u32,
    entries: Seq<PaymentEntry>,
    key: PaymentKey,
)
    requires
        world.payroll.payments.contains_key(key),
    ensures
        ({
            let after = world.settle_all(backend, vk, now, company_id, period, entries).0;
            after.payroll.payments.contains_key(key) && after.payroll.payments[key]
                == world.payroll.payments[key]
        }),
    decreases entries.len(),
{
    if entries.len() > 0 {
        law_payment_records_are_write_once(
            world,
            backend,
            vk,
            now,
            company_id,
            period,
            entries.drop_last(),
            key,
        );
    }
}

/// Each key issued to an auditor for a company carries the next nonce: the
/// count goes up by one with every key and never comes down, so no two keys
/// for the same company and auditor carry the same nonce.
pub proof fn law_nonces_count_up(
    state: AuditState,
    signers: Set<Address>,
    now: u64,
    company_id: u64,
    company_admin: Address,
    auditor: Address,
    scope: AuditScope,
    duration: u64,
)
    requires
        state.issue(signers, now, company_id, company_admin, auditor, scope, duration).1 is Ok,
    ensures
        ({
            let (after, issued) = state.issue(
                signers,
                now,
                company_id,
                company_admin,
                auditor,
                scope,
                duration,
            );
            &&& issued->Ok_0.nonce == state.next_nonce(company_id, auditor)
            &&& after.next_nonce(company_id, auditor) == state.next_nonce(company_id, auditor) + 1
            &&& after.view_keys.contains_key(issued->Ok_0.id)
            &&& after.view_keys[issued->Ok_0.id] == issued->Ok_0
        }),
{
}

/// Only the admin that granted a key can revoke it: without the granter's
/// signature on the call, and for any other admin, the key stays.
pub proof fn law_only_the_granter_revokes(
    state: AuditState,
    signers: Set<Address>,
    company_admin: Address,
    id: Digest,
)
    requires
        state.view_keys.contains_key(id),
    ensures
        state.revoke(signers, company_admin, id).1 is Ok <==> signers.contains(company_admin)
            && state.view_keys[id].granted_by == company_admin,
        state.revoke(signers, company_admin, id).1 is Err ==> state.revoke(
            signers,
            company_admin,
            id,
        ).0 == state,
        state.revoke(signers, company_admin, id).1 is Ok ==> !state.revoke(
            signers,
            company_admin,
            id,
        ).0.view_keys.contains_key(id),
{
}

/// A company's employees change only with the signature of the admin on
/// record: without it, enrolling, updating, deactivating and removing all
/// fail with `Unauthorized` and change nothing, whoever else has signed.
pub proof fn law_employee_changes_need_the_admin(
    state: RegistryState,
    signers: Set<Address>,
    company_id: u64,
    employee: Address,
    commitment: Digest,
    erase: bool,
)
    requires
        state.companies.contains_key(company_id),
        !signers.contains(state.companies[company_id].admin),
    ensures
        state.add_employee(signers, company_id, employee, commitment) == (
            state,
            Err::<Employee, RegistryError>(RegistryError::Unauthorized),
        ),
        state.update_salary_commitment(signers, company_id, employee, commitment) == (
            state,
            Err::<(), RegistryError>(RegistryError::Unauthorized),
        ),
        state.retire_employee(signers, company_id, employee, erase) == (
            state,
            Err::<(), RegistryError>(RegistryError::Unauthorized),
        ),
{
}

/// A removed employee is gone: an update of their commitment fails with
/// `EmployeeNotFound` until they are enrolled again.
pub proof fn law_removed_employee_cannot_be_updated(
    state: RegistryState,
    signers: Set<Address>,
    company_id: u64,
    employee: Address,
    commitment: Digest,
)
    requires
        state.retire_employee(signers, company_id, employee, true).1 is Ok,
    ensures
        state.retire_employee(signers, company_id, employee, true).0.update_salary_commitment(
            signers,
            company_id,
            employee,
            commitment,
        ) == (
            state.retire_employee(signers, company_id, employee, true).0,
            Err::<(), RegistryError>(RegistryError::EmployeeNotFound),
        ),
{
}

} // verus!
