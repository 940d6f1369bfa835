//! The registry of companies and of the employees enrolled with them.
//!
//! Every change to a company's employees must be signed by the admin that
//! the registry has on record for the company, not by one the caller names.

use crate::address::Address;
use crate::address::Digest;
use crate::auth::AuthorizationContext;
use crate::commitment::SalaryCommitmentContract;
use crate::store::Table;
use crate::store::TableKey;
use vstd::prelude::*;

verus! {

/// A registered company.
#[derive(Clone, Copy, Debug, PartialEq, Eq)]
pub struct Company {
    /// The sequence number assigned at registration.
    pub id: u64,
    /// Who may change the company's employees.
    pub admin: Address,
    /// Who pays the company's salaries.
    pub treasury: Address,
    /// How many employees are enrolled and active.
    pub employee_count: u32,
    /// Whether the company is in business.
    pub is_active: bool,
}

/// An enrolled employee.
#[derive(Clone, Copy, Debug, PartialEq, Eq)]
pub struct Employee {
    /// The employee.
    pub address: Address,
    /// The company the employee is enrolled with.
    pub company_id: u64,
    /// The commitment to the employee's salary.
    pub salary_commitment: Digest,
    /// Whether the employee is on the payroll.
    pub is_active: bool,
    /// When the employee was last paid; zero before the first payment.
    pub last_payment_timestamp: u64,
}

/// What an employee record is filed under.
#[derive(Clone, Copy, Debug, PartialEq, Eq)]
pub struct EmployeeKey {
    /// The company.
    pub company_id: u64,
    /// The employee.
    pub employee: Address,
}

impl TableKey for EmployeeKey {
    fn same(&self, other: &Self) -> (eq: bool) {
        self.company_id == other.company_id && self.employee.same(&other.employee)
    }
}

/// Why an operation of the registry failed.
#[derive(Clone, Copy, Debug, PartialEq, Eq)]
pub enum RegistryError {
    /// The call does not carry the signature it needs.
    Unauthorized,
    /// No company has this sequence number.
    CompanyNotFound,
    /// The employee is not enrolled with the company.
    EmployeeNotFound,
    /// A sequence number or a head count is at its maximum.
    CounterOverflow,
}

/// One less, but not below zero.
pub open spec fn one_less(count: u32) -> u32 {
    if count == 0 {
        0
    } else {
        (count - 1) as u32
    }
}

/// What the registry holds, as mathematical maps.
pub struct RegistryState {
    /// The sequence number the next company will get.
    pub next_company_id: u64,
    /// The companies by sequence number.
    pub companies: Map<u64, Company>,
    /// The employee records.
    pub employees: Map<EmployeeKey, Employee>,
}

impl RegistryState {
    /// Sequence numbers are handed out in order and never again: every
    /// company on record has a number below the next one to be assigned, and
    /// is filed under its own number.
    pub open spec fn valid(self) -> bool {
        forall|id: u64| #[trigger]
            self.companies.contains_key(id) ==> id < self.next_company_id && self.companies[id].id
                == id
    }

    /// The company that must sign a change to `company_id`'s employees, or
    /// the error that ends the call before anything changes.
    pub open spec fn admin_gate(self, signers: Set<Address>, company_id: u64) -> Result<
        Company,
        RegistryError,
    > {
        if !self.companies.contains_key(company_id) {
            Err(RegistryError::CompanyNotFound)
        } else if !signers.contains(self.companies[company_id].admin) {
            Err(RegistryError::Unauthorized)
        } else {
            Ok(self.companies[company_id])
        }
    }

    /// The outcome of registering a company.
    pub open spec fn register_company(self, signers: Set<Address>, admin: Address, treasury: Address) -> (
        RegistryState,
        Result<u64, RegistryError>,
    ) {
        if !signers.contains(admin) {
            (self, Err(RegistryError::Unauthorized))
        } else if self.next_company_id == u64::MAX {
            (self, Err(RegistryError::CounterOverflow))
        } else {
            let id = self.next_company_id;
            let company = Company { id, admin, treasury, employee_count: 0, is_active: true };
            (
                RegistryState {
                    next_company_id: (id + 1) as u64,
                    companies: self.companies.insert(id, company),
                    ..self
                },
                Ok(id),
            )
        }
    }

    /// The outcome of enrolling an employee.
    pub open spec fn add_employee(
        self,
        signers: Set<Address>,
        company_id: u64,
        employee: Address,
        commitment: Digest,
    ) -> (RegistryState, Result<Employee, RegistryError>) {
        match self.admin_gate(signers, company_id) {
            Err(e) => (self, Err(e)),
            Ok(company) => if company.employee_count == u32::MAX {
                (self, Err(RegistryError::CounterOverflow))
            } else {
                let record = Employee {
                    address: employee,
                    company_id,
                    salary_commitment: commitment,
                    is_active: true,
                    last_payment_timestamp: 0,
                };
                let counted = Company {
                    employee_count: (company.employee_count + 1) as u32,
                    ..company
                };
                (
                    RegistryState {
                        companies: self.companies.insert(company_id, counted),
                        employees: self.employees.insert(EmployeeKey { company_id, employee }, record),
                        ..self
                    },
                    Ok(record),
                )
            },
        }
    }

    /// The outcome of replacing an employee's commitment.
    pub open spec fn update_salary_commitment(
        self,
        signers: Set<Address>,
        company_id: u64,
        employee: Address,
        commitment: Digest,
    ) -> (RegistryState, Result<(), RegistryError>) {
        let key = EmployeeKey { company_id, employee };
        match self.admin_gate(signers, company_id) {
            Err(e) => (self, Err(e)),
            Ok(_) => if !self.employees.contains_key(key) {
                (self, Err(RegistryError::EmployeeNotFound))
            } else {
                let record = Employee { salary_commitment: commitment, ..self.employees[key] };
                (RegistryState { employees: self.employees.insert(key, record), ..self }, Ok(()))
            },
        }
    }

    /// The outcome of taking an employee off the payroll; with `erase` the
    /// record is deleted, without it the record stays and is marked inactive.
    pub open spec fn retire_employee(
        self,
        signers: Set<Address>,
        company_id: u64,
        employee: Address,
        erase: bool,
    ) -> (RegistryState, Result<(), RegistryError>) {
        let key = EmployeeKey { company_id, employee };
        match self.admin_gate(signers, company_id) {
            Err(e) => (self, Err(e)),
            Ok(company) => if !self.employees.contains_key(key) {
                (self, Err(RegistryError::EmployeeNotFound))
            } else {
                let counted = Company { employee_count: one_less(company.employee_count), ..company };
                let employees = if erase {
                    self.employees.remove(key)
                } else {
                    self.employees.insert(key, Employee { is_active: false, ..self.employees[key] })
                };
                (
                    RegistryState {
                        companies: self.companies.insert(company_id, counted),
                        employees,
                        ..self
                    },
                    Ok(()),
                )
            },
        }
    }

    /// The outcome of noting when an employee was paid.
    pub open spec fn record_payment(self, company_id: u64, employee: Address, timestamp: u64) -> (
        RegistryState,
        Result<(), RegistryError>,
    ) {
        let key = EmployeeKey { company_id, employee };
        if !self.employees.contains_key(key) {
            (self, Err(RegistryError::EmployeeNotFound))
        } else {
            let record = Employee { last_payment_timestamp: timestamp, ..self.employees[key] };
            (RegistryState { employees: self.employees.insert(key, record), ..self }, Ok(()))
        }
    }
}

/// The registry.
pub struct PayrollRegistry {
    next_company_id: u64,
    companies: Table<u64, Company>,
    employees: Table<EmployeeKey, Employee>,
}

impl PayrollRegistry {
    /// The state the registry stands for.
    pub closed spec fn view(&self) -> RegistryState {
        RegistryState {
            next_company_id: self.next_company_id,
            companies: self.companies@,
            employees: self.employees@,
        }
    }

    /// The representation invariant; it includes [`RegistryState::valid`].
    pub closed spec fn wf(&self) -> bool {
        self.companies.wf() && self.employees.wf() && self@.valid()
    }

    /// In every state that the registry's operations can reach, the company
    /// numbers on record lie below the next one to be assigned.
    pub proof fn law_registry_is_valid(&self)
        requires
            self.wf(),
        ensures
            self@.valid(),
    {
    }

    /// A registry without companies; the first one will get number 0.
    pub fn new() -> (registry: Self)
        ensures
            registry.wf(),
            registry@.next_company_id == 0,
            registry@.companies == Map::<u64, Company>::empty(),
            registry@.employees == Map::<EmployeeKey, Employee>::empty(),
    {
        PayrollRegistry { next_company_id: 0, companies: Table::new(), employees: Table::new() }
    }

    fn admin_gate(&self, auth: &AuthorizationContext, company_id: u64) -> (result: Result<
        Company,
        RegistryError,
    >)
        requires
            self.wf(),
        ensures
            result == self@.admin_gate(auth@, company_id),
    {
        match self.companies.get(&company_id) {
            None => Err(RegistryError::CompanyNotFound),
            Some(company) => {
                if !auth.has_authorized(&company.admin) {
                    return Err(RegistryError::Unauthorized);
                }
                Ok(company)
            },
        }
    }

    /// Registers a company under the next sequence number.  `admin` must have
    /// signed the call.
    pub fn register_company(&mut self, auth: &AuthorizationContext, admin: Address, treasury: Address) -> (result:
        Result<u64, RegistryError>)
        requires
            old(self).wf(),
        ensures
            final(self).wf(),
            (final(self)@, result) == old(self)@.register_company(auth@, admin, treasury),
    {
        if !auth.has_authorized(&admin) {
            return Err(RegistryError::Unauthorized);
        }
        if self.next_company_id == u64::MAX {
            return Err(RegistryError::CounterOverflow);
        }
        let id = self.next_company_id;
        let company = Company { id, admin, treasury, employee_count: 0, is_active: true };
        self.companies.insert(id, company);
        self.next_company_id = id + 1;
        Ok(id)
    }

    /// Enrols `employee` with the company and binds the commitment to them.
    /// The company's admin on record must have signed the call.
    pub fn add_employee(
        &mut self,
        auth: &AuthorizationContext,
        company_id: u64,
        employee_address: Address,
        salary_commitment: Digest,
    ) -> (result: Result<Employee, RegistryError>)
        requires
            old(self).wf(),
        ensures
            final(self).wf(),
            (final(self)@, result) == old(self)@.add_employee(
                auth@,
                company_id,
                employee_address,
                salary_commitment,
            ),
    {
        let company = match self.admin_gate(auth, company_id) {
            Err(e) => {
                return Err(e);
            },
            Ok(company) => company,
        };
        if company.employee_count == u32::MAX {
            return Err(RegistryError::CounterOverflow);
        }
        let record = Employee {
            address: employee_address,
            company_id,
            salary_commitment,
            is_active: true,
            last_payment_timestamp: 0,
        };
        self.employees.insert(EmployeeKey { company_id, employee: employee_address }, record);
        self.companies.insert(
            company_id,
            Company {
                id: company.id,
                admin: company.admin,
                treasury: company.treasury,
                employee_count: company.employee_count + 1,
                is_active: company.is_active,
            },
        );
        Ok(record)
    }

    /// Enrols `employee` and hands the commitment on to the commitment store,
    /// where it becomes the employee's record with version 1.  The store is
    /// left alone if the enrolment fails.
    pub fn enroll_employee(
        &mut self,
        commitments: &mut SalaryCommitmentContract,
        auth: &AuthorizationContext,
        now: u64,
        company_id: u64,
        employee_address: Address,
        salary_commitment: Digest,
    ) -> (result: Result<Employee, RegistryError>)
        requires
            old(self).wf(),
            old(commitments).wf(),
        ensures
            final(self).wf(),
            final(commitments).wf(),
            (final(self)@, result) == old(self)@.add_employee(
                auth@,
                company_id,
                employee_address,
                salary_commitment,
            ),
            final(commitments)@ == (if result is Ok {
                old(commitments)@.store(now, employee_address, salary_commitment).0
            } else {
                old(commitments)@
            }),
    {
        match self.add_employee(auth, company_id, employee_address, salary_commitment) {
            Err(e) => Err(e),
            Ok(record) => {
                commitments.store_commitment(now, employee_address, salary_commitment);
                Ok(record)
            },
        }
    }

    /// Replaces the commitment bound to an enrolled employee.
    pub fn update_salary_commitment(
        &mut self,
        auth: &AuthorizationContext,
        company_id: u64,
        employee_address: Address,
        new_commitment: Digest,
    ) -> (result: Result<(), RegistryError>)
        requires
            old(self).wf(),
        ensures
            final(self).wf(),
            (final(self)@, result) == old(self)@.update_salary_commitment(
                auth@,
                company_id,
                employee_address,
                new_commitment,
            ),
    {
        match self.admin_gate(auth, company_id) {
            Err(e) => {
                return Err(e);
            },
            Ok(_) => {},
        }
        let key = EmployeeKey { company_id, employee: employee_address };
        match self.employees.get(&key) {
            None => Err(RegistryError::EmployeeNotFound),
            Some(existing) => {
                self.employees.insert(
                    key,
                    Employee {
                        address: existing.address,
                        company_id: existing.company_id,
                        salary_commitment: new_commitment,
                        is_active: existing.is_active,
                        last_payment_timestamp: existing.last_payment_timestamp,
                    },
                );
                Ok(())
            },
        }
    }

    /// The company with this sequence number.
    pub fn get_company(&self, company_id: u64) -> (result: Result<Company, RegistryError>)
        requires
            self.wf(),
        ensures
            result == (if self@.companies.contains_key(company_id) {
                Ok::<Company, RegistryError>(self@.companies[company_id])
            } else {
                Err(RegistryError::CompanyNotFound)
            }),
    {
        match self.companies.get(&company_id) {
            Some(company) => Ok(company),
            None => Err(RegistryError::CompanyNotFound),
        }
    }

    /// The record of an employee enrolled with the company.
    pub fn get_employee(&self, company_id: u64, employee_address: Address) -> (result: Result<
        Employee,
        RegistryError,
    >)
        requires
            self.wf(),
        ensures
            result == (if self@.employees.contains_key(
                EmployeeKey { company_id, employee: employee_address },
            ) {
                Ok::<Employee, RegistryError>(
                    self@.employees[EmployeeKey { company_id, employee: employee_address }],
                )
            } else {
                Err(RegistryError::EmployeeNotFound)
            }),
    {
        match self.employees.get(&EmployeeKey { company_id, employee: employee_address }) {
            Some(record) => Ok(record),
            None => Err(RegistryError::EmployeeNotFound),
        }
    }

    fn retire_employee(
        &mut self,
        auth: &AuthorizationContext,
        company_id: u64,
        employee_address: Address,
        erase: bool,
    ) -> (result: Result<(), RegistryError>)
        requires
            old(self).wf(),
        ensures
            final(self).wf(),
            (final(self)@, result) == old(self)@.retire_employee(
                auth@,
                company_id,
                employee_address,
                erase,
            ),
    {
        let company = match self.admin_gate(auth, company_id) {
            Err(e) => {
                return Err(e);
            },
            Ok(company) => company,
        };
        let key = EmployeeKey { company_id, employee: employee_address };
        let existing = match self.employees.get(&key) {
            None => {
                return Err(RegistryError::EmployeeNotFound);
            },
            Some(existing) => existing,
        };
        if erase {
            self.employees.remove(&key);
        } else {
            self.employees.insert(
                key,
                Employee {
                    address: existing.address,
                    company_id: existing.company_id,
                    salary_commitment: existing.salary_commitment,
                    is_active: false,
                    last_payment_timestamp: existing.last_payment_timestamp,
                },
            );
        }
        let remaining = if company.employee_count == 0 {
            0
        } else {
            company.employee_count - 1
        };
        self.companies.insert(
            company_id,
            Company {
                id: company.id,
                admin: company.admin,
                treasury: company.treasury,
                employee_count: remaining,
                is_active: company.is_active,
            },
        );
        Ok(())
    }

    /// Marks an employee inactive; the record stays.
    pub fn deactivate_employee(
        &mut self,
        auth: &AuthorizationContext,
        company_id: u64,
        employee_address: Address,
    ) -> (result: Result<(), RegistryError>)
        requires
            old(self).wf(),
        ensures
            final(self).wf(),
            (final(self)@, result) == old(self)@.retire_employee(
                auth@,
                company_id,
                employee_address,
                false,
            ),
    {
        self.retire_employee(auth, company_id, employee_address, false)
    }

    /// Deletes an employee's record.
    pub fn remove_employee(
        &mut self,
        auth: &AuthorizationContext,
        company_id: u64,
        employee_address: Address,
    ) -> (result: Result<(), RegistryError>)
        requires
            old(self).wf(),
        ensures
            final(self).wf(),
            (final(self)@, result) == old(self)@.retire_employee(
                auth@,
                company_id,
                employee_address,
                true,
            ),
    {
        self.retire_employee(auth, company_id, employee_address, true)
    }

    /// Notes when an employee was last paid.
    pub fn record_payment(&mut self, company_id: u64, employee_address: Address, timestamp: u64) -> (result:
        Result<(), RegistryError>)
        requires
            old(self).wf(),
        ensures
            final(self).wf(),
            (final(self)@, result) == old(self)@.record_payment(company_id, employee_address, timestamp),
    {
        let key = EmployeeKey { company_id, employee: employee_address };
        match self.employees.get(&key) {
            None => Err(RegistryError::EmployeeNotFound),
            Some(existing) => {
                self.employees.insert(
                    key,
                    Employee {
                        address: existing.address,
                        company_id: existing.company_id,
                        salary_commitment: existing.salary_commitment,
                        is_active: existing.is_active,
                        last_payment_timestamp: timestamp,
                    },
                );
                Ok(())
            },
        }
    }
}

} // verus!
