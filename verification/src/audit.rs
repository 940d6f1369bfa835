//! Selective disclosure: view keys that let an auditor check facts about a
//! company's payroll for a limited time and within a limited scope.
//!
//! A key is valid while the clock is strictly before its expiry.  An expired
//! key is not deleted; it is treated as absent whenever it is read.

use crate::address::Address;
use crate::address::Digest;
use crate::auth::AuthorizationContext;
use crate::crypto::audit_commitment;
use crate::crypto::extend_bytes;
use crate::crypto::sha256_array;
use crate::crypto::sha256_commitment;
use crate::crypto::sha256_hash;
use crate::payroll::total_paid;
use crate::payroll::Payroll;
use crate::registry::PayrollRegistry;
use crate::store::Table;
use crate::store::TableKey;
use vstd::prelude::*;

verus! {

/// Why the audit module rejected a call.
#[derive(Clone, Copy, Debug, PartialEq, Eq)]
pub enum AuditError {
    /// There is no view key with this identifier.
    KeyNotFound,
    /// The caller is not the auditor the key was issued to.
    WrongAuditor,
    /// The clock has reached the key's expiry.
    KeyExpired,
    /// The caller is not the admin that granted the key.
    NotKeyGranter,
    /// The key's scope does not cover the operation.
    InsufficientScope,
    /// The claimed salary and blinding factor do not give the commitment.
    CommitmentMismatch,
    /// The call does not carry the signature it needs.
    Unauthorized,
    /// The expiry or the issue counter would leave the range of its integer.
    Overflow,
}

/// What an auditor may examine, from the broadest scope to the narrowest.
#[derive(Clone, Copy, Debug, PartialEq, Eq)]
pub enum AuditScope {
    /// All payroll data of the company.
    FullCompany,
    /// Data within a time range.
    TimeRange,
    /// Individual commitments of named employees.
    EmployeeList,
    /// Aggregate totals only, nothing about a single employee.
    AggregateOnly,
}

impl AuditScope {
    /// The scope's place in the order: 0 for the broadest, 3 for the
    /// narrowest.
    pub open spec fn rank(self) -> nat {
        match self {
            AuditScope::FullCompany => 0,
            AuditScope::TimeRange => 1,
            AuditScope::EmployeeList => 2,
            AuditScope::AggregateOnly => 3,
        }
    }

    /// Whether a key of this scope may be used to learn a fact about one
    /// employee.
    pub open spec fn reveals_employee_facts(self) -> bool {
        self.rank() <= AuditScope::EmployeeList.rank()
    }

    /// Whether a key of this scope may be used to learn a fact about one
    /// employee: every scope but `AggregateOnly`.
    pub fn may_reveal_employee_facts(&self) -> (allowed: bool)
        ensures
            allowed == self.reveals_employee_facts(),
            allowed == (*self != AuditScope::AggregateOnly),
    {
        match self {
            AuditScope::AggregateOnly => false,
            _ => true,
        }
    }
}

/// A view key: who may look at which company's payroll, how closely and
/// until when.
#[derive(Clone, Copy, Debug, PartialEq, Eq)]
pub struct ViewKey {
    /// The identifier, derived from the company, the auditor and the nonce.
    pub id: Digest,
    /// The company the key gives access to.
    pub company_id: u64,
    /// The auditor that may use the key.
    pub auditor: Address,
    /// The admin that issued the key and may revoke it.
    pub granted_by: Address,
    /// When the key was issued.
    pub created_at: u64,
    /// The first moment at which the key is no longer valid.
    pub expires_at: u64,
    /// What the key lets the auditor examine.
    pub scope: AuditScope,
    /// How many keys the auditor had been issued for the company before.
    pub nonce: u32,
}

/// An aggregate snapshot for an auditor.  It holds no individual salary.
#[derive(Clone, Copy, Debug, PartialEq, Eq)]
pub struct AuditReport {
    /// The company reported on.
    pub company_id: u64,
    /// How many employees are on the company's payroll.
    pub total_employees: u32,
    /// What the company has paid in total.
    pub total_paid: i128,
    /// The start of the period asked about.
    pub period_start: u64,
    /// The end of the period asked about.
    pub period_end: u64,
    /// Whether the totals come from the registry's and the executor's
    /// records.  Without them the totals are zero and mean nothing.
    pub verified: bool,
}

/// What an issue counter is filed under.
#[derive(Clone, Copy, Debug, PartialEq, Eq)]
pub struct NonceKey {
    /// The company.
    pub company_id: u64,
    /// The auditor.
    pub auditor: Address,
}

impl TableKey for NonceKey {
    fn same(&self, other: &Self) -> (eq: bool) {
        self.company_id == other.company_id && self.auditor.same(&other.auditor)
    }
}

/// The bytes a key identifier is the digest of: the company's number in 8
/// little-endian bytes, the auditor's canonical serialisation, and the nonce
/// in 4 little-endian bytes.
pub open spec fn key_id_preimage(company_id: u64, auditor: Address, nonce: u32) -> Seq<u8> {
    vstd::bytes::spec_u64_to_le_bytes(company_id) + auditor.xdr() + vstd::bytes::spec_u32_to_le_bytes(
        nonce,
    )
}

/// The identifier of the key with this company, auditor and nonce.
pub open spec fn key_id(company_id: u64, auditor: Address, nonce: u32) -> Digest {
    sha256_array(key_id_preimage(company_id, auditor, nonce))
}

/// Derives the identifier of a view key.
pub fn derive_key_id(company_id: u64, auditor: &Address, nonce: u32) -> (id: Digest)
    ensures
        id == key_id(company_id, *auditor, nonce),
{
    let mut preimage = vstd::bytes::u64_to_le_bytes(company_id);
    let xdr = auditor.to_xdr();
    let tail = vstd::bytes::u32_to_le_bytes(nonce);
    proof {
        vstd::bytes::lemma_auto_spec_u64_to_from_le_bytes();
        vstd::bytes::lemma_auto_spec_u32_to_from_le_bytes();
    }
    extend_bytes(&mut preimage, xdr.as_slice());
    extend_bytes(&mut preimage, tail.as_slice());
    sha256_hash(&preimage)
}

/// What the audit module holds, as mathematical maps.
pub struct AuditState {
    /// The view keys by identifier.
    pub view_keys: Map<Digest, ViewKey>,
    /// How many keys each auditor has been issued for each company.
    pub nonces: Map<NonceKey, u32>,
}

impl AuditState {
    /// The nonce the next key for this company and auditor will carry.
    pub open spec fn next_nonce(self, company_id: u64, auditor: Address) -> u32 {
        let key = NonceKey { company_id, auditor };
        if self.nonces.contains_key(key) {
            self.nonces[key]
        } else {
            0
        }
    }

    /// The outcome of issuing a key at time `now` for `duration`.
    pub open spec fn issue(
        self,
        signers: Set<Address>,
        now: u64,
        company_id: u64,
        company_admin: Address,
        auditor: Address,
        scope: AuditScope,
        duration: u64,
    ) -> (AuditState, Result<ViewKey, AuditError>) {
        let nonce = self.next_nonce(company_id, auditor);
        if !signers.contains(company_admin) {
            (self, Err(AuditError::Unauthorized))
        } else if now + duration > u64::MAX || nonce == u32::MAX {
            (self, Err(AuditError::Overflow))
        } else {
            let key = ViewKey {
                id: key_id(company_id, auditor, nonce),
                company_id,
                auditor,
                granted_by: company_admin,
                created_at: now,
                expires_at: (now + duration) as u64,
                scope,
                nonce,
            };
            (
                AuditState {
                    view_keys: self.view_keys.insert(key.id, key),
                    nonces: self.nonces.insert(
                        NonceKey { company_id, auditor },
                        (nonce + 1) as u32,
                    ),
                },
                Ok(key),
            )
        }
    }

    /// Whether `auditor` holds the key `id` and the key is still valid at
    /// time `now`.  A key is valid strictly before its expiry: at the moment
    /// `expires_at` itself it is not.
    pub open spec fn has_access(self, now: u64, id: Digest, auditor: Address) -> bool {
        &&& self.view_keys.contains_key(id)
        &&& self.view_keys[id].auditor == auditor
        &&& now < self.view_keys[id].expires_at
    }

    /// The outcome of revoking a key.
    pub open spec fn revoke(self, signers: Set<Address>, company_admin: Address, id: Digest) -> (
        AuditState,
        Result<(), AuditError>,
    ) {
        if !signers.contains(company_admin) {
            (self, Err(AuditError::Unauthorized))
        } else if !self.view_keys.contains_key(id) {
            (self, Err(AuditError::KeyNotFound))
        } else if self.view_keys[id].granted_by != company_admin {
            (self, Err(AuditError::NotKeyGranter))
        } else {
            (AuditState { view_keys: self.view_keys.remove(id), ..self }, Ok(()))
        }
    }

    /// The key an audit operation works under, or the error that ends the
    /// call: the auditor must have signed, the key must exist, belong to the
    /// auditor and be unexpired.
    pub open spec fn key_gate(self, signers: Set<Address>, now: u64, id: Digest, auditor: Address) -> Result<
        ViewKey,
        AuditError,
    > {
        if !signers.contains(auditor) {
            Err(AuditError::Unauthorized)
        } else if !self.view_keys.contains_key(id) {
            Err(AuditError::KeyNotFound)
        } else if self.view_keys[id].auditor != auditor {
            Err(AuditError::WrongAuditor)
        } else if self.view_keys[id].expires_at <= now {
            Err(AuditError::KeyExpired)
        } else {
            Ok(self.view_keys[id])
        }
    }

    /// The answer to an auditor who asks whether `stored_commitment` commits
    /// to `claimed_amount` under `blinding`.  Only the equality is revealed,
    /// and to a key of scope `AggregateOnly` not even that.
    pub open spec fn commitment_check(
        self,
        signers: Set<Address>,
        now: u64,
        id: Digest,
        auditor: Address,
        stored_commitment: Digest,
        claimed_amount: i128,
        blinding: Digest,
    ) -> Result<bool, AuditError> {
        match self.key_gate(signers, now, id, auditor) {
            Err(e) => Err(e),
            Ok(key) => if !key.scope.reveals_employee_facts() {
                Err(AuditError::InsufficientScope)
            } else {
                Ok(audit_commitment(claimed_amount, blinding@) == stored_commitment@)
            },
        }
    }
}

/// The report on a company: its head count and total from the registry's and
/// the executor's records where the registry knows the company, zeros marked
/// unverified where it does not.
pub open spec fn report_on(
    company_id: u64,
    period_start: u64,
    period_end: u64,
    registry: PayrollRegistry,
    payroll: Payroll,
) -> AuditReport {
    if registry@.companies.contains_key(company_id) {
        AuditReport {
            company_id,
            total_employees: registry@.companies[company_id].employee_count,
            total_paid: total_paid(payroll@.totals, company_id),
            period_start,
            period_end,
            verified: true,
        }
    } else {
        AuditReport {
            company_id,
            total_employees: 0,
            total_paid: 0,
            period_start,
            period_end,
            verified: false,
        }
    }
}

/// The audit module.
pub struct AuditModule {
    view_keys: Table<Digest, ViewKey>,
    nonces: Table<NonceKey, u32>,
}

impl AuditModule {
    /// The representation invariant.
    pub closed spec fn wf(&self) -> bool {
        self.view_keys.wf() && self.nonces.wf()
    }

    /// The state the module stands for.
    pub closed spec fn view(&self) -> AuditState {
        AuditState { view_keys: self.view_keys@, nonces: self.nonces@ }
    }

    /// A module that has issued no key.
    pub fn new() -> (module: Self)
        ensures
            module.wf(),
            module@.view_keys == Map::<Digest, ViewKey>::empty(),
            module@.nonces == Map::<NonceKey, u32>::empty(),
    {
        AuditModule { view_keys: Table::new(), nonces: Table::new() }
    }

    /// Issues a view key to `auditor`, valid from `now` until `now +
    /// duration`.  `company_admin` must have signed the call.  Each key for
    /// the same company and auditor carries the next nonce.
    pub fn generate_view_key(
        &mut self,
        auth: &AuthorizationContext,
        now: u64,
        company_id: u64,
        company_admin: Address,
        auditor: Address,
        scope: AuditScope,
        duration: u64,
    ) -> (result: Result<ViewKey, AuditError>)
        requires
            old(self).wf(),
        ensures
            final(self).wf(),
            (final(self)@, result) == old(self)@.issue(
                auth@,
                now,
                company_id,
                company_admin,
                auditor,
                scope,
                duration,
            ),
    {
        if !auth.has_authorized(&company_admin) {
            return Err(AuditError::Unauthorized);
        }
        let nonce_key = NonceKey { company_id, auditor };
        let nonce = match self.nonces.get(&nonce_key) {
            Some(nonce) => nonce,
            None => 0,
        };
        if duration > u64::MAX - now || nonce == u32::MAX {
            return Err(AuditError::Overflow);
        }
        let id = derive_key_id(company_id, &auditor, nonce);
        let key = ViewKey {
            id,
            company_id,
            auditor,
            granted_by: company_admin,
            created_at: now,
            expires_at: now + duration,
            scope,
            nonce,
        };
        self.nonces.insert(nonce_key, nonce + 1);
        self.view_keys.insert(id, key);
        Ok(key)
    }

    /// Whether `auditor` holds the key `key_id` and it has not expired.
    pub fn verify_access(&self, now: u64, key_id: &Digest, auditor: &Address) -> (granted: bool)
        requires
            self.wf(),
        ensures
            granted == self@.has_access(now, *key_id, *auditor),
    {
        match self.view_keys.get(key_id) {
            Some(key) => key.auditor.same(auditor) && key.expires_at > now,
            None => false,
        }
    }

    /// Revokes a key before it expires.  Only the admin that granted the key
    /// may revoke it.
    pub fn revoke_view_key(&mut self, auth: &AuthorizationContext, company_admin: Address, key_id: Digest) -> (result:
        Result<(), AuditError>)
        requires
            old(self).wf(),
        ensures
            final(self).wf(),
            (final(self)@, result) == old(self)@.revoke(auth@, company_admin, key_id),
    {
        if !auth.has_authorized(&company_admin) {
            return Err(AuditError::Unauthorized);
        }
        let key = match self.view_keys.get(&key_id) {
            None => {
                return Err(AuditError::KeyNotFound);
            },
            Some(key) => key,
        };
        if !key.granted_by.same(&company_admin) {
            return Err(AuditError::NotKeyGranter);
        }
        self.view_keys.remove(&key_id);
        Ok(())
    }

    /// The key on record under `key_id`, expired or not.
    pub fn get_view_key(&self, key_id: &Digest) -> (result: Result<ViewKey, AuditError>)
        requires
            self.wf(),
        ensures
            result == (if self@.view_keys.contains_key(*key_id) {
                Ok::<ViewKey, AuditError>(self@.view_keys[*key_id])
            } else {
                Err(AuditError::KeyNotFound)
            }),
    {
        match self.view_keys.get(key_id) {
            Some(key) => Ok(key),
            None => Err(AuditError::KeyNotFound),
        }
    }

    fn key_gate(&self, auth: &AuthorizationContext, now: u64, key_id: &Digest, auditor: &Address) -> (result:
        Result<ViewKey, AuditError>)
        requires
            self.wf(),
        ensures
            result == self@.key_gate(auth@, now, *key_id, *auditor),
    {
        if !auth.has_authorized(auditor) {
            return Err(AuditError::Unauthorized);
        }
        let key = match self.view_keys.get(key_id) {
            None => {
                return Err(AuditError::KeyNotFound);
            },
            Some(key) => key,
        };
        if !key.auditor.same(auditor) {
            return Err(AuditError::WrongAuditor);
        }
        if key.expires_at <= now {
            return Err(AuditError::KeyExpired);
        }
        Ok(key)
    }

    /// Tells an auditor whether `stored_commitment` commits to
    /// `claimed_amount` under `blinding_factor`.
    pub fn verify_commitment_with_key(
        &self,
        auth: &AuthorizationContext,
        now: u64,
        key_id: &Digest,
        auditor: &Address,
        stored_commitment: &Digest,
        claimed_amount: i128,
        blinding_factor: &Digest,
    ) -> (result: Result<bool, AuditError>)
        requires
            self.wf(),
        ensures
            result == self@.commitment_check(
                auth@,
                now,
                *key_id,
                *auditor,
                *stored_commitment,
                claimed_amount,
                *blinding_factor,
            ),
    {
        let key = match self.key_gate(auth, now, key_id, auditor) {
            Err(e) => {
                return Err(e);
            },
            Ok(key) => key,
        };
        if !key.scope.may_reveal_employee_facts() {
            return Err(AuditError::InsufficientScope);
        }
        let computed = sha256_commitment(claimed_amount, blinding_factor);
        proof {
            if computed@ == stored_commitment@ {
                vstd::array::axiom_array_ext_equal(computed, *stored_commitment);
            }
        }
        Ok(computed.same(stored_commitment))
    }

    /// Reports on the company that the key gives access to.  Every scope is
    /// enough for this.
    pub fn generate_aggregate_report(
        &self,
        auth: &AuthorizationContext,
        now: u64,
        key_id: &Digest,
        auditor: &Address,
        period_start: u64,
        period_end: u64,
        registry: &PayrollRegistry,
        payroll: &Payroll,
    ) -> (result: Result<AuditReport, AuditError>)
        requires
            self.wf(),
            registry.wf(),
            payroll.wf(),
        ensures
            result == (match self@.key_gate(auth@, now, *key_id, *auditor) {
                Err(e) => Err::<AuditReport, AuditError>(e),
                Ok(key) => Ok(report_on(key.company_id, period_start, period_end, *registry, *payroll)),
            }),
    {
        let key = match self.key_gate(auth, now, key_id, auditor) {
            Err(e) => {
                return Err(e);
            },
            Ok(key) => key,
        };
        match registry.get_company(key.company_id) {
            Ok(company) => Ok(
                AuditReport {
                    company_id: key.company_id,
                    total_employees: company.employee_count,
                    total_paid: payroll.get_total_paid(key.company_id),
                    period_start,
                    period_end,
                    verified: true,
                },
            ),
            Err(_) => Ok(
                AuditReport {
                    company_id: key.company_id,
                    total_employees: 0,
                    total_paid: 0,
                    period_start,
                    period_end,
                    verified: false,
                },
            ),
        }
    }
}

} // verus!
