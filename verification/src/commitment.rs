//! The commitment store and the nullifier registry.
//!
//! A commitment is a hiding digest of an employee's salary.  The store never
//! interprets it: it keeps one record per employee with a version history,
//! and compares digests for equality.  A nullifier is a one-time token; once
//! recorded it stays recorded.

use crate::address::Address;
use crate::address::Digest;
use crate::crypto::poseidon_commitment;
use crate::crypto::poseidon_digest;
use crate::store::Table;
use crate::store::TableKey;
use vstd::prelude::*;

verus! {

/// An employee's current salary commitment.
#[derive(Clone, Copy, Debug, PartialEq, Eq)]
pub struct SalaryCommitment {
    /// `Poseidon(salary, blinding)`.
    pub commitment: Digest,
    /// When the record was created.
    pub created_at: u64,
    /// When the digest was last replaced.
    pub updated_at: u64,
    /// 1 at creation, one more with each update.
    pub version: u32,
}

/// A consumed one-time payment token.
#[derive(Clone, Copy, Debug, PartialEq, Eq)]
pub struct PaymentNullifier {
    /// The token.
    pub nullifier: Digest,
    /// When it was consumed.
    pub used_at: u64,
}

/// Why an operation of the commitment store failed.
#[derive(Clone, Copy, Debug, PartialEq, Eq)]
pub enum CommitmentError {
    /// The employee has no commitment on record.
    CommitmentNotFound,
    /// The nullifier was recorded before.
    NullifierAlreadyUsed,
    /// The record's version counter is at its maximum.
    VersionOverflow,
}

/// What the commitment store holds, as mathematical maps.
pub struct CommitmentState {
    /// The current commitment of each employee that has one.
    pub commitments: Map<Address, SalaryCommitment>,
    /// Every nullifier consumed so far.
    pub nullifiers: Map<Digest, PaymentNullifier>,
}

impl CommitmentState {
    /// The state after `employee`'s record is created anew at time `now`.
    pub open spec fn store(self, now: u64, employee: Address, commitment: Digest) -> (
        CommitmentState,
        SalaryCommitment,
    ) {
        let record = SalaryCommitment { commitment, created_at: now, updated_at: now, version: 1 };
        (CommitmentState { commitments: self.commitments.insert(employee, record), ..self }, record)
    }

    /// The outcome of replacing `employee`'s digest at time `now`.
    pub open spec fn update(self, now: u64, employee: Address, commitment: Digest) -> (
        CommitmentState,
        Result<SalaryCommitment, CommitmentError>,
    ) {
        if !self.commitments.contains_key(employee) {
            (self, Err(CommitmentError::CommitmentNotFound))
        } else if self.commitments[employee].version == u32::MAX {
            (self, Err(CommitmentError::VersionOverflow))
        } else {
            let old = self.commitments[employee];
            let record = SalaryCommitment {
                commitment,
                created_at: old.created_at,
                updated_at: now,
                version: (old.version + 1) as u32,
            };
            (
                CommitmentState { commitments: self.commitments.insert(employee, record), ..self },
                Ok(record),
            )
        }
    }

    /// The outcome of applying `updates` in order, stopping at the first that
    /// fails.  What the earlier ones changed stays changed.
    pub open spec fn update_all(self, now: u64, updates: Seq<(Address, Digest)>) -> (
        CommitmentState,
        Result<(), CommitmentError>,
    )
        decreases updates.len(),
    {
        if updates.len() == 0 {
            (self, Ok(()))
        } else {
            let (before, earlier) = self.update_all(now, updates.drop_last());
            if earlier is Err {
                (before, earlier)
            } else {
                let (after, last) = before.update(now, updates.last().0, updates.last().1);
                match last {
                    Ok(_) => (after, Ok(())),
                    Err(e) => (after, Err(e)),
                }
            }
        }
    }

    /// The outcome of consuming `nullifier` at time `now`.
    pub open spec fn record_nullifier(self, now: u64, nullifier: Digest) -> (
        CommitmentState,
        Result<(), CommitmentError>,
    ) {
        if self.nullifiers.contains_key(nullifier) {
            (self, Err(CommitmentError::NullifierAlreadyUsed))
        } else {
            let record = PaymentNullifier { nullifier, used_at: now };
            (CommitmentState { nullifiers: self.nullifiers.insert(nullifier, record), ..self }, Ok(()))
        }
    }

    /// Once a prefix of a batch has failed, the rest of the batch changes
    /// nothing: the outcome of the whole batch is that of the prefix.
    pub proof fn lemma_update_all_stops(self, now: u64, updates: Seq<(Address, Digest)>, k: int)
        requires
            0 <= k <= updates.len(),
            self.update_all(now, updates.take(k)).1 is Err,
        ensures
            self.update_all(now, updates) == self.update_all(now, updates.take(k)),
        decreases updates.len() - k,
    {
        if k == updates.len() {
            assert(updates.take(k) =~= updates);
        } else {
            assert(updates.take(k + 1).drop_last() =~= updates.take(k));
            self.lemma_update_all_stops(now, updates, k + 1);
        }
    }
}

/// Whether a stored record holds exactly the digest `computed`.
pub fn commitment_matches(stored: &SalaryCommitment, computed: &Digest) -> (same: bool)
    ensures
        same == (stored.commitment == *computed),
{
    stored.commitment.same(computed)
}

/// The commitment store together with the nullifier registry.
pub struct SalaryCommitmentContract {
    commitments: Table<Address, SalaryCommitment>,
    nullifiers: Table<Digest, PaymentNullifier>,
}

impl SalaryCommitmentContract {
    /// The representation invariant.
    pub closed spec fn wf(&self) -> bool {
        self.commitments.wf() && self.nullifiers.wf()
    }

    /// The state the contract stands for.
    pub closed spec fn view(&self) -> CommitmentState {
        CommitmentState { commitments: self.commitments@, nullifiers: self.nullifiers@ }
    }

    /// A store with no commitment and no nullifier.
    pub fn new() -> (contract: Self)
        ensures
            contract.wf(),
            contract@.commitments == Map::<Address, SalaryCommitment>::empty(),
            contract@.nullifiers == Map::<Digest, PaymentNullifier>::empty(),
    {
        SalaryCommitmentContract { commitments: Table::new(), nullifiers: Table::new() }
    }

    /// A second store with the same records and nullifiers.  What is done
    /// to the one leaves the other as it is.
    pub fn duplicate(&self) -> (copy: Self)
        requires
            self.wf(),
        ensures
            copy.wf(),
            copy@ == self@,
    {
        SalaryCommitmentContract {
            commitments: self.commitments.duplicate(),
            nullifiers: self.nullifiers.duplicate(),
        }
    }

    /// Creates `employee`'s record with version 1, overwriting any earlier
    /// one.
    pub fn store_commitment(&mut self, now: u64, employee: Address, commitment: Digest) -> (record:
        SalaryCommitment)
        requires
            old(self).wf(),
        ensures
            final(self).wf(),
            (final(self)@, record) == old(self)@.store(now, employee, commitment),
    {
        let record = SalaryCommitment { commitment, created_at: now, updated_at: now, version: 1 };
        self.commitments.insert(employee, record);
        record
    }

    /// Replaces the digest of an existing record and counts the version up.
    pub fn update_commitment(&mut self, now: u64, employee: Address, new_commitment: Digest) -> (result:
        Result<SalaryCommitment, CommitmentError>)
        requires
            old(self).wf(),
        ensures
            final(self).wf(),
            (final(self)@, result) == old(self)@.update(now, employee, new_commitment),
    {
        match self.commitments.get(&employee) {
            None => Err(CommitmentError::CommitmentNotFound),
            Some(existing) => {
                if existing.version == u32::MAX {
                    return Err(CommitmentError::VersionOverflow);
                }
                let record = SalaryCommitment {
                    commitment: new_commitment,
                    created_at: existing.created_at,
                    updated_at: now,
                    version: existing.version + 1,
                };
                self.commitments.insert(employee, record);
                Ok(record)
            },
        }
    }

    /// Applies the updates in list order.  The first entry whose employee has
    /// no record (or whose version cannot grow) ends the batch with its error;
    /// the entries before it stay applied, so a caller that needs all or
    /// nothing applies the batch to a [`duplicate`](Self::duplicate) and
    /// keeps it only where the batch went through.
    pub fn batch_update_commitments(&mut self, now: u64, updates: &Vec<(Address, Digest)>) -> (result:
        Result<(), CommitmentError>)
        requires
            old(self).wf(),
        ensures
            final(self).wf(),
            (final(self)@, result) == old(self)@.update_all(now, updates@),
    {
        let mut i: usize = 0;
        while i < updates.len()
            invariant
                i <= updates@.len(),
                self.wf(),
                (self@, Ok::<(), CommitmentError>(())) == old(self)@.update_all(now, updates@.take(i as int)),
            decreases updates@.len() - i,
        {
            let (employee, digest) = updates[i];
            proof {
                assert(updates@.take(i + 1).drop_last() =~= updates@.take(i as int));
            }
            match self.update_commitment(now, employee, digest) {
                Ok(_) => {},
                Err(e) => {
                    proof {
                        old(self)@.lemma_update_all_stops(now, updates@, i + 1);
                    }
                    return Err(e);
                },
            }
            i = i + 1;
        }
        proof {
            assert(updates@.take(i as int) =~= updates@);
        }
        Ok(())
    }

    /// The record of `employee`.
    pub fn get_commitment(&self, employee: &Address) -> (result: Result<SalaryCommitment, CommitmentError>)
        requires
            self.wf(),
        ensures
            result == (if self@.commitments.contains_key(*employee) {
                Ok::<SalaryCommitment, CommitmentError>(self@.commitments[*employee])
            } else {
                Err(CommitmentError::CommitmentNotFound)
            }),
    {
        match self.commitments.get(employee) {
            Some(record) => Ok(record),
            None => Err(CommitmentError::CommitmentNotFound),
        }
    }

    /// Whether `employee` has a record.
    pub fn has_commitment(&self, employee: &Address) -> (found: bool)
        requires
            self.wf(),
        ensures
            found == self@.commitments.contains_key(*employee),
    {
        self.commitments.contains(employee)
    }

    /// Consumes `nullifier`; fails if it was consumed before.
    pub fn record_nullifier(&mut self, now: u64, nullifier: Digest) -> (result: Result<
        (),
        CommitmentError,
    >)
        requires
            old(self).wf(),
        ensures
            final(self).wf(),
            (final(self)@, result) == old(self)@.record_nullifier(now, nullifier),
    {
        if self.nullifiers.contains(&nullifier) {
            return Err(CommitmentError::NullifierAlreadyUsed);
        }
        self.nullifiers.insert(nullifier, PaymentNullifier { nullifier, used_at: now });
        Ok(())
    }

    /// Whether `nullifier` has been consumed.
    pub fn is_nullifier_used(&self, nullifier: &Digest) -> (used: bool)
        requires
            self.wf(),
        ensures
            used == self@.nullifiers.contains_key(*nullifier),
    {
        self.nullifiers.contains(nullifier)
    }

    /// The commitment to `salary` under `blinding_factor`.
    pub fn compute_commitment(salary: u64, blinding_factor: &Digest) -> (commitment: Digest)
        ensures
            commitment@ == poseidon_digest(salary, blinding_factor@),
    {
        match poseidon_commitment(salary, blinding_factor) {
            Ok(commitment) => commitment,
            Err(_) => vstd::pervasive::unreached(),
        }
    }

    /// Whether `employee`'s stored digest commits to `claimed_salary` under
    /// `blinding_factor`.
    pub fn verify_commitment(&self, employee: &Address, claimed_salary: u64, blinding_factor: &Digest) -> (result:
        Result<bool, CommitmentError>)
        requires
            self.wf(),
        ensures
            result == (if self@.commitments.contains_key(*employee) {
                Ok::<bool, CommitmentError>(
                    self@.commitments[*employee].commitment@ == poseidon_digest(
                        claimed_salary,
                        blinding_factor@,
                    ),
                )
            } else {
                Err(CommitmentError::CommitmentNotFound)
            }),
    {
        match self.get_commitment(employee) {
            Err(e) => Err(e),
            Ok(stored) => {
                let computed = Self::compute_commitment(claimed_salary, blinding_factor);
                proof {
                    if stored.commitment@ == computed@ {
                        vstd::array::axiom_array_ext_equal(stored.commitment, computed);
                    }
                }
                Ok(commitment_matches(&stored, &computed))
            },
        }
    }
}

} // verus!
