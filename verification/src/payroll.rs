//! The payroll executor: pays a batch of salaries, each against a proof that
//! the payment matches the employee's commitment.
//!
//! For every entry the executor looks up the commitment, has the proof
//! checked, consumes the entry's nullifier and only then moves funds.  A
//! payment is checked in full before anything is written, so a payment that
//! fails changes nothing.  A batch is all or nothing: it is settled on a copy
//! of the state, which replaces the state when every entry has settled.  The
//! first entry that fails ends the batch and the copy is dropped.

use crate::address::Address;
use crate::address::Digest;
use crate::commitment::CommitmentState;
use crate::commitment::SalaryCommitmentContract;
use crate::crypto::sha256_array;
use crate::crypto::sha256_hash;
use crate::proof_verifier::payment_inputs;
use crate::proof_verifier::proof_holds;
use crate::proof_verifier::Groth16Proof;
use crate::proof_verifier::PairingBackend;
use crate::proof_verifier::ProofVerifier;
use crate::proof_verifier::VerificationKeyView;
use crate::store::copy_items;
use crate::store::Table;
use crate::store::TableKey;
use crate::token::transferred;
use crate::token::Token;
use crate::token::TokenError;
use vstd::prelude::*;

verus! {

/// The largest batch the executor takes.
pub const MAX_BATCH: usize = 50;

/// The contracts and the treasury a payroll executor works with.
#[derive(Clone, Copy, Debug, PartialEq, Eq)]
pub struct ContractAddresses {
    /// The token ledger that settles payments.
    pub token: Address,
    /// The proof verifier.
    pub verifier: Address,
    /// The commitment store.
    pub commitment: Address,
    /// The holder that salaries are paid from.
    pub treasury: Address,
}

/// The record of one settled payment.
#[derive(Clone, Copy, Debug, PartialEq, Eq)]
pub struct PaymentRecord {
    /// The paying company.
    pub company_id: u64,
    /// The employee paid.
    pub employee: Address,
    /// What identifies the proof: the nullifier it consumed.
    pub proof_hash: Digest,
    /// When the payment settled.
    pub timestamp: u64,
    /// The pay period.
    pub period: u32,
}

/// What a payment record is filed under.
#[derive(Clone, Copy, Debug, PartialEq, Eq)]
pub struct PaymentKey {
    /// The employee paid.
    pub employee: Address,
    /// The pay period.
    pub period: u32,
}

impl TableKey for PaymentKey {
    fn same(&self, other: &Self) -> (eq: bool) {
        self.period == other.period && self.employee.same(&other.employee)
    }
}

/// The event published for every settled payment.
#[derive(Clone, Copy, Debug, PartialEq, Eq)]
pub struct PaymentProcessed {
    /// The paying company.
    pub company_id: u64,
    /// The employee paid.
    pub employee: Address,
    /// The amount paid.
    pub amount: i128,
    /// The pay period.
    pub period: u32,
}

/// Why the executor rejected a call.
#[derive(Clone, Copy, Debug, PartialEq, Eq)]
pub enum PayrollError {
    /// The executor was set up before.
    AlreadyInitialized,
    /// The executor, or the verifier it consults, has not been set up.
    NotInitialized,
    /// The arrays of a batch differ in length.
    ArrayLengthMismatch,
    /// The batch has more entries than [`MAX_BATCH`].
    BatchTooLarge,
    /// The employee has no commitment on record.
    CommitmentNotFound,
    /// The proof is not valid for the payment.
    InvalidProof,
    /// The nullifier was consumed before.
    NullifierAlreadyUsed,
    /// The employee was paid for the period before.
    AlreadyPaid,
    /// The company's running total would leave the range of its integer.
    TotalOverflow,
    /// The ledger refused the transfer.
    TransferFailed(TokenError),
    /// No payment is on record for the employee and period.
    PaymentNotFound,
}

/// One entry of a batch.
pub struct PaymentEntry {
    /// The proof that the amount matches the commitment.
    pub proof: Groth16Proof,
    /// The amount to pay.
    pub amount: i128,
    /// The employee to pay.
    pub employee: Address,
    /// The one-time token of this payment.
    pub nullifier: Digest,
}

/// What the executor itself holds, as mathematical values.
pub struct PayrollState {
    /// What the executor was set up with.
    pub addresses: Option<ContractAddresses>,
    /// The settled payments.
    pub payments: Map<PaymentKey, PaymentRecord>,
    /// What each company has paid in total.
    pub totals: Map<u64, i128>,
    /// The events published so far, oldest first.
    pub events: Seq<PaymentProcessed>,
}

/// Everything a payment reads or changes.
pub struct Settlement {
    /// The executor's own state.
    pub payroll: PayrollState,
    /// The commitment store and nullifier registry.
    pub commitments: CommitmentState,
    /// The balances of the token ledger.
    pub balances: Map<Address, i128>,
}

/// The recipient-derived public input of a payment proof: the SHA-256
/// digest of the employee's canonical serialisation.
pub open spec fn recipient_digest(employee: Address) -> Digest {
    sha256_array(employee.xdr())
}

/// What `company_id` has paid in total.
pub open spec fn total_paid(totals: Map<u64, i128>, company_id: u64) -> i128 {
    if totals.contains_key(company_id) {
        totals[company_id]
    } else {
        0
    }
}

/// The entries that four parallel arrays of equal length spell.
pub open spec fn entries_of(
    proofs: Seq<Groth16Proof>,
    amounts: Seq<i128>,
    employees: Seq<Address>,
    nullifiers: Seq<Digest>,
) -> Seq<PaymentEntry> {
    Seq::new(
        proofs.len(),
        |i: int|
            PaymentEntry {
                proof: proofs[i],
                amount: amounts[i],
                employee: employees[i],
                nullifier: nullifiers[i],
            },
    )
}

impl Settlement {
    /// What decides whether an entry may settle: `None` if it may,
    /// else the error, the first in the fixed order of the checks.  The last
    /// check asks the ledger whether it would move the funds.
    pub open spec fn rejection<B: PairingBackend>(
        self,
        backend: B,
        vk: Option<VerificationKeyView>,
        company_id: u64,
        period: u32,
        entry: PaymentEntry,
    ) -> Option<PayrollError> {
        if self.payroll.addresses is None {
            Some(PayrollError::NotInitialized)
        } else if !self.commitments.commitments.contains_key(entry.employee) {
            Some(PayrollError::CommitmentNotFound)
        } else if vk is None {
            Some(PayrollError::NotInitialized)
        } else if !proof_holds(
            backend,
            vk->Some_0,
            entry.proof,
            payment_inputs(
                self.commitments.commitments[entry.employee].commitment,
                entry.nullifier,
                recipient_digest(entry.employee),
            ),
        ) {
            Some(PayrollError::InvalidProof)
        } else if self.commitments.nullifiers.contains_key(entry.nullifier) {
            Some(PayrollError::NullifierAlreadyUsed)
        } else if self.payroll.payments.contains_key(
            PaymentKey { employee: entry.employee, period },
        ) {
            Some(PayrollError::AlreadyPaid)
        } else if total_paid(self.payroll.totals, company_id) + entry.amount > i128::MAX {
            Some(PayrollError::TotalOverflow)
        } else {
            match transferred(
                self.balances,
                self.payroll.addresses->Some_0.treasury,
                entry.employee,
                entry.amount,
            ).1 {
                Err(e) => Some(PayrollError::TransferFailed(e)),
                Ok(_) => None,
            }
        }
    }

    /// The state once an accepted entry has had its effects on the
    /// executor's own books and on the nullifier registry: the nullifier is
    /// consumed, the payment is on record, the total has grown.  No funds
    /// have moved yet.
    pub open spec fn booked(self, now: u64, company_id: u64, period: u32, entry: PaymentEntry) -> (
        Settlement,
        PaymentRecord,
    ) {
        let record = PaymentRecord {
            company_id,
            employee: entry.employee,
            proof_hash: entry.nullifier,
            timestamp: now,
            period,
        };
        (
            Settlement {
                payroll: PayrollState {
                    payments: self.payroll.payments.insert(
                        PaymentKey { employee: entry.employee, period },
                        record,
                    ),
                    totals: self.payroll.totals.insert(
                        company_id,
                        (total_paid(self.payroll.totals, company_id) + entry.amount) as i128,
                    ),
                    ..self.payroll
                },
                commitments: self.commitments.record_nullifier(now, entry.nullifier).0,
                ..self
            },
            record,
        )
    }

    /// The outcome of one payment.
    ///
    /// A rejected entry changes nothing.  An accepted entry is booked, then
    /// the funds move from the treasury to the employee, then the event is
    /// published.
    pub open spec fn settle<B: PairingBackend>(
        self,
        backend: B,
        vk: Option<VerificationKeyView>,
        now: u64,
        company_id: u64,
        period: u32,
        entry: PaymentEntry,
    ) -> (Settlement, Result<PaymentRecord, PayrollError>) {
        match self.rejection(backend, vk, company_id, period, entry) {
            Some(e) => (self, Err(e)),
            None => {
                let (booked, record) = self.booked(now, company_id, period, entry);
                (
                    Settlement {
                        payroll: PayrollState {
                            events: booked.payroll.events.push(
                                PaymentProcessed {
                                    company_id,
                                    employee: entry.employee,
                                    amount: entry.amount,
                                    period,
                                },
                            ),
                            ..booked.payroll
                        },
                        balances: transferred(
                            booked.balances,
                            self.payroll.addresses->Some_0.treasury,
                            entry.employee,
                            entry.amount,
                        ).0,
                        ..booked
                    },
                    Ok(record),
                )
            },
        }
    }

    /// The outcome of settling `entries` in order, all or nothing: each
    /// entry is settled in the state that the entries before it left, and the
    /// first that fails ends the run with its error and with the state that
    /// the run began in.
    pub open spec fn settle_all<B: PairingBackend>(
        self,
        backend: B,
        vk: Option<VerificationKeyView>,
        now: u64,
        company_id: u64,
        period: u32,
        entries: Seq<PaymentEntry>,
    ) -> (Settlement, Result<Seq<PaymentRecord>, PayrollError>)
        decreases entries.len(),
    {
        if entries.len() == 0 {
            (self, Ok(Seq::empty()))
        } else {
            let (before, earlier) = self.settle_all(
                backend,
                vk,
                now,
                company_id,
                period,
                entries.drop_last(),
            );
            match earlier {
                Err(e) => (self, Err(e)),
                Ok(records) => {
                    let (after, last) = before.settle(
                        backend,
                        vk,
                        now,
                        company_id,
                        period,
                        entries.last(),
                    );
                    match last {
                        Ok(record) => (after, Ok(records.push(record))),
                        Err(e) => (self, Err(e)),
                    }
                },
            }
        }
    }

    /// The outcome of a batch given as four parallel arrays.  The shape of
    /// the batch is checked before anything else: arrays of different
    /// lengths, or more than [`MAX_BATCH`] entries, reject the whole batch.
    /// A batch that fails, for whatever reason, changes nothing.
    pub open spec fn process_batch<B: PairingBackend>(
        self,
        backend: B,
        vk: Option<VerificationKeyView>,
        now: u64,
        company_id: u64,
        period: u32,
        proofs: Seq<Groth16Proof>,
        amounts: Seq<i128>,
        employees: Seq<Address>,
        nullifiers: Seq<Digest>,
    ) -> (Settlement, Result<Seq<PaymentRecord>, PayrollError>) {
        if amounts.len() != proofs.len() || employees.len() != proofs.len() || nullifiers.len()
            != proofs.len() {
            (self, Err(PayrollError::ArrayLengthMismatch))
        } else if proofs.len() > MAX_BATCH {
            (self, Err(PayrollError::BatchTooLarge))
        } else if self.payroll.addresses is None {
            (self, Err(PayrollError::NotInitialized))
        } else {
            self.settle_all(
                backend,
                vk,
                now,
                company_id,
                period,
                entries_of(proofs, amounts, employees, nullifiers),
            )
        }
    }

    /// Once a prefix of a batch has failed, the batch has failed: the outcome
    /// of the whole batch is that of the prefix.
    pub proof fn lemma_settle_all_stops<B: PairingBackend>(
        self,
        backend: B,
        vk: Option<VerificationKeyView>,
        now: u64,
        company_id: u64,
        period: u32,
        entries: Seq<PaymentEntry>,
        k: int,
    )
        requires
            0 <= k <= entries.len(),
            self.settle_all(backend, vk, now, company_id, period, entries.take(k)).1 is Err,
        ensures
            self.settle_all(backend, vk, now, company_id, period, entries) == self.settle_all(
                backend,
                vk,
                now,
                company_id,
                period,
                entries.take(k),
            ),
        decreases entries.len() - k,
    {
        if k == entries.len() {
            assert(entries.take(k) =~= entries);
        } else {
            assert(entries.take(k + 1).drop_last() =~= entries.take(k));
            self.lemma_settle_all_stops(backend, vk, now, company_id, period, entries, k + 1);
        }
    }
}

/// The recipient-derived public input of a payment proof.
pub fn recipient_hash(employee: &Address) -> (hash: Digest)
    ensures
        hash == recipient_digest(*employee),
{
    let xdr = employee.to_xdr();
    sha256_hash(&xdr)
}

/// The payroll executor.
pub struct Payroll {
    addresses: Option<ContractAddresses>,
    payments: Table<PaymentKey, PaymentRecord>,
    totals: Table<u64, i128>,
    events: Vec<PaymentProcessed>,
}

/// The settlement state that an executor, a commitment store and a ledger
/// stand for together.
pub open spec fn settlement_of(payroll: Payroll, commitments: SalaryCommitmentContract, token: Token) -> Settlement {
    Settlement { payroll: payroll@, commitments: commitments@, balances: token@ }
}

impl Payroll {
    /// The representation invariant.
    pub closed spec fn wf(&self) -> bool {
        self.payments.wf() && self.totals.wf()
    }

    /// The state the executor stands for.
    pub closed spec fn view(&self) -> PayrollState {
        PayrollState {
            addresses: self.addresses,
            payments: self.payments@,
            totals: self.totals@,
            events: self.events@,
        }
    }

    /// An executor that has not been set up and has paid nobody.
    pub fn new() -> (payroll: Self)
        ensures
            payroll.wf(),
            payroll@.addresses is None,
            payroll@.payments == Map::<PaymentKey, PaymentRecord>::empty(),
            payroll@.totals == Map::<u64, i128>::empty(),
            payroll@.events == Seq::<PaymentProcessed>::empty(),
    {
        Payroll { addresses: None, payments: Table::new(), totals: Table::new(), events: Vec::new() }
    }

    /// Sets the executor up with its collaborators and the treasury.  It is
    /// set up once: a second call fails and changes nothing.
    pub fn initialize(
        &mut self,
        _admin: Address,
        token: Address,
        verifier: Address,
        commitment: Address,
        treasury: Address,
    ) -> (result: Result<(), PayrollError>)
        requires
            old(self).wf(),
        ensures
            final(self).wf(),
            old(self)@.addresses is Some ==> result == Err::<(), PayrollError>(
                PayrollError::AlreadyInitialized,
            ) && final(self)@ == old(self)@,
            old(self)@.addresses is None ==> result is Ok && final(self)@ == (PayrollState {
                addresses: Some(ContractAddresses { token, verifier, commitment, treasury }),
                ..old(self)@
            }),
    {
        if self.addresses.is_some() {
            return Err(PayrollError::AlreadyInitialized);
        }
        self.addresses = Some(ContractAddresses { token, verifier, commitment, treasury });
        Ok(())
    }

    /// A second executor with the same set-up, records, totals and events.
    /// What is done to the one leaves the other as it is.
    pub fn duplicate(&self) -> (copy: Self)
        requires
            self.wf(),
        ensures
            copy.wf(),
            copy@ == self@,
    {
        Payroll {
            addresses: self.addresses,
            payments: self.payments.duplicate(),
            totals: self.totals.duplicate(),
            events: copy_items(&self.events),
        }
    }

    /// Moves the funds of a payment that is on the books: its nullifier is
    /// consumed and its record is written, so the same payment entering the
    /// executor again while the ledger works is turned away.
    fn release_funds(
        &self,
        commitments: &SalaryCommitmentContract,
        token: &mut Token,
        treasury: Address,
        record: &PaymentRecord,
        amount: i128,
    ) -> (moved: Result<(), TokenError>)
        requires
            self.wf(),
            commitments.wf(),
            old(token).wf(),
            commitments@.nullifiers.contains_key(record.proof_hash),
            self@.payments.contains_key(
                PaymentKey { employee: record.employee, period: record.period },
            ),
        ensures
            final(token).wf(),
            (final(token)@, moved) == transferred(old(token)@, treasury, record.employee, amount),
    {
        token.transfer(treasury, record.employee, amount)
    }

    /// Settles one payment.  Every check is made before anything is
    /// written: a payment that fails leaves the executor, the commitment
    /// store and the ledger as they were.
    pub fn process_payment<B: PairingBackend>(
        &mut self,
        commitments: &mut SalaryCommitmentContract,
        token: &mut Token,
        verifier: &ProofVerifier,
        backend: &B,
        now: u64,
        company_id: u64,
        period: u32,
        proof: &Groth16Proof,
        amount: i128,
        employee: Address,
        nullifier: Digest,
    ) -> (result: Result<PaymentRecord, PayrollError>)
        requires
            old(self).wf(),
            old(commitments).wf(),
            old(token).wf(),
        ensures
            final(self).wf(),
            final(commitments).wf(),
            final(token).wf(),
            (settlement_of(*final(self), *final(commitments), *final(token)), result) == settlement_of(
                *old(self),
                *old(commitments),
                *old(token),
            ).settle(
                *backend,
                verifier@,
                now,
                company_id,
                period,
                PaymentEntry { proof: *proof, amount, employee, nullifier },
            ),
            result is Err ==> settlement_of(*final(self), *final(commitments), *final(token))
                == settlement_of(*old(self), *old(commitments), *old(token)),
    {
        let addresses = match self.addresses {
            None => {
                return Err(PayrollError::NotInitialized);
            },
            Some(addresses) => addresses,
        };
        let stored = match commitments.get_commitment(&employee) {
            Err(_) => {
                return Err(PayrollError::CommitmentNotFound);
            },
            Ok(stored) => stored,
        };
        let recipient = recipient_hash(&employee);
        match verifier.verify_payment_proof(backend, proof, stored.commitment, nullifier, recipient) {
            Err(_) => {
                return Err(PayrollError::NotInitialized);
            },
            Ok(valid) => {
                if !valid {
                    return Err(PayrollError::InvalidProof);
                }
            },
        }
        if commitments.is_nullifier_used(&nullifier) {
            return Err(PayrollError::NullifierAlreadyUsed);
        }
        let key = PaymentKey { employee, period };
        if self.payments.contains(&key) {
            return Err(PayrollError::AlreadyPaid);
        }
        let total = self.get_total_paid(company_id);
        if amount > 0 && total > i128::MAX - amount {
            return Err(PayrollError::TotalOverflow);
        }
        match token.check_transfer(addresses.treasury, employee, amount) {
            Err(e) => {
                return Err(PayrollError::TransferFailed(e));
            },
            Ok(_) => {},
        }
        let consumed = commitments.record_nullifier(now, nullifier);
        assert(consumed is Ok);
        let record = PaymentRecord {
            company_id,
            employee,
            proof_hash: nullifier,
            timestamp: now,
            period,
        };
        self.payments.insert(key, record);
        self.totals.insert(company_id, total + amount);
        let moved = self.release_funds(commitments, token, addresses.treasury, &record, amount);
        assert(moved is Ok);
        self.events.push(PaymentProcessed { company_id, employee, amount, period });
        Ok(record)
    }

    /// Settles a batch of payments given as four parallel arrays, all or
    /// nothing.  The entries are settled in order on a copy of the three
    /// states; the copy takes their place once the last entry has settled.
    /// A batch that fails leaves the executor, the commitment store and the
    /// ledger as they were.
    pub fn batch_process_payroll<B: PairingBackend>(
        &mut self,
        commitments: &mut SalaryCommitmentContract,
        token: &mut Token,
        verifier: &ProofVerifier,
        backend: &B,
        now: u64,
        company_id: u64,
        period: u32,
        proofs: &Vec<Groth16Proof>,
        amounts: &Vec<i128>,
        employees: &Vec<Address>,
        nullifiers: &Vec<Digest>,
    ) -> (result: Result<Vec<PaymentRecord>, PayrollError>)
        requires
            old(self).wf(),
            old(commitments).wf(),
            old(token).wf(),
        ensures
            final(self).wf(),
            final(commitments).wf(),
            final(token).wf(),
            ({
                let (after, outcome) = settlement_of(
                    *old(self),
                    *old(commitments),
                    *old(token),
                ).process_batch(
                    *backend,
                    verifier@,
                    now,
                    company_id,
                    period,
                    proofs@,
                    amounts@,
                    employees@,
                    nullifiers@,
                );
                &&& settlement_of(*final(self), *final(commitments), *final(token)) == after
                &&& match result {
                    Ok(records) => outcome == Ok::<Seq<PaymentRecord>, PayrollError>(records@),
                    Err(e) => outcome == Err::<Seq<PaymentRecord>, PayrollError>(e),
                }
            }),
            result is Err ==> settlement_of(*final(self), *final(commitments), *final(token))
                == settlement_of(*old(self), *old(commitments), *old(token)),
    {
        let count = proofs.len();
        if amounts.len() != count || employees.len() != count || nullifiers.len() != count {
            return Err(PayrollError::ArrayLengthMismatch);
        }
        if count > MAX_BATCH {
            return Err(PayrollError::BatchTooLarge);
        }
        if self.addresses.is_none() {
            return Err(PayrollError::NotInitialized);
        }
        let ghost start = settlement_of(*self, *commitments, *token);
        let ghost entries = entries_of(proofs@, amounts@, employees@, nullifiers@);
        let mut staged = self.duplicate();
        let mut staged_commitments = commitments.duplicate();
        let mut staged_token = token.duplicate();
        let mut records: Vec<PaymentRecord> = Vec::new();
        let mut i: usize = 0;
        while i < count
            invariant
                i <= count,
                count <= MAX_BATCH,
                start == settlement_of(*old(self), *old(commitments), *old(token)),
                start == settlement_of(*self, *commitments, *token),
                start.payroll.addresses is Some,
                count == proofs@.len(),
                count == amounts@.len(),
                count == employees@.len(),
                count == nullifiers@.len(),
                entries == entries_of(proofs@, amounts@, employees@, nullifiers@),
                self.wf(),
                commitments.wf(),
                token.wf(),
                staged.wf(),
                staged_commitments.wf(),
                staged_token.wf(),
                (
                    settlement_of(staged, staged_commitments, staged_token),
                    Ok::<Seq<PaymentRecord>, PayrollError>(records@),
                ) == start.settle_all(
                    *backend,
                    verifier@,
                    now,
                    company_id,
                    period,
                    entries.take(i as int),
                ),
            decreases count - i,
        {
            proof {
                assert(entries.take(i + 1).drop_last() =~= entries.take(i as int));
                assert(entries.take(i + 1).last() == entries[i as int]);
            }
            match staged.process_payment(
                &mut staged_commitments,
                &mut staged_token,
                verifier,
                backend,
                now,
                company_id,
                period,
                &proofs[i],
                amounts[i],
                employees[i],
                nullifiers[i],
            ) {
                Ok(record) => {
                    records.push(record);
                },
                Err(e) => {
                    proof {
                        start.lemma_settle_all_stops(
                            *backend,
                            verifier@,
                            now,
                            company_id,
                            period,
                            entries,
                            i + 1,
                        );
                    }
                    return Err(e);
                },
            }
            i = i + 1;
        }
        proof {
            assert(entries.take(i as int) =~= entries);
        }
        *self = staged;
        *commitments = staged_commitments;
        *token = staged_token;
        Ok(records)
    }

    /// The record of the payment to `employee` for `period`.
    pub fn get_payment(&self, employee: Address, period: u32) -> (result: Result<
        PaymentRecord,
        PayrollError,
    >)
        requires
            self.wf(),
        ensures
            result == (if self@.payments.contains_key(PaymentKey { employee, period }) {
                Ok::<PaymentRecord, PayrollError>(self@.payments[PaymentKey { employee, period }])
            } else {
                Err(PayrollError::PaymentNotFound)
            }),
    {
        match self.payments.get(&PaymentKey { employee, period }) {
            Some(record) => Ok(record),
            None => Err(PayrollError::PaymentNotFound),
        }
    }

    /// Whether `employee` has been paid for `period`.
    pub fn is_paid(&self, employee: Address, period: u32) -> (paid: bool)
        requires
            self.wf(),
        ensures
            paid == self@.payments.contains_key(PaymentKey { employee, period }),
    {
        self.payments.contains(&PaymentKey { employee, period })
    }

    /// What `company_id` has paid in total.
    pub fn get_total_paid(&self, company_id: u64) -> (total: i128)
        requires
            self.wf(),
        ensures
            total == total_paid(self@.totals, company_id),
    {
        match self.totals.get(&company_id) {
            Some(total) => total,
            None => 0,
        }
    }

    /// The events published so far, oldest first.
    pub fn events(&self) -> (events: &Vec<PaymentProcessed>)
        ensures
            events@ == self@.events,
    {
        &self.events
    }
}

} // verus!
