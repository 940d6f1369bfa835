//! What an employer keeps when it enrols an employee: the blinding factor
//! and the commitment it gives, both in hexadecimal.

use crate::crypto::gen_blinding_factor;
use crate::crypto::le_value;
use crate::crypto::poseidon_commitment;
use crate::crypto::poseidon_digest;
use crate::crypto::scalar_modulus;
use crate::crypto::CryptoError;
use crate::encoding::hex_encode;
use crate::encoding::hex_text;
use vstd::prelude::*;

verus! {

/// The secrets of one enrolment.
#[derive(Clone, Debug, PartialEq, Eq)]
pub struct Enrollment {
    /// The blinding factor: 32 little-endian bytes in hexadecimal.  Without
    /// it no proof can be made for the employee.
    pub blinding_hex: String,
    /// The commitment to the salary under the blinding factor, in
    /// hexadecimal.
    pub commitment_hex: String,
}

/// The enrolment of a salary under a given blinding factor.
pub fn enrollment_from_blinding(salary: u64, blinding: &[u8; 32]) -> (enrollment: Enrollment)
    ensures
        enrollment.blinding_hex@ == hex_text(blinding@),
        enrollment.commitment_hex@ == hex_text(poseidon_digest(salary, blinding@)),
{
    let commitment = match poseidon_commitment(salary, blinding) {
        Ok(commitment) => commitment,
        Err(_) => vstd::pervasive::unreached(),
    };
    Enrollment {
        blinding_hex: hex_encode(blinding.as_slice()),
        commitment_hex: hex_encode(commitment.as_slice()),
    }
}

/// Enrols a salary under a fresh blinding factor.  Whatever factor the
/// entropy gave, it is a scalar of the field and the commitment is the one
/// to the salary under it.  The call fails only where the operating system
/// supplies no entropy, with `EntropyUnavailable`.
pub fn prepare_enrollment(salary: u64) -> (result: Result<Enrollment, CryptoError>)
    ensures
        result matches Err(e) ==> e == CryptoError::EntropyUnavailable,
        result matches Ok(enrollment) ==> exists|blinding: [u8; 32]|
            {
                &&& le_value(blinding@) < scalar_modulus()
                &&& enrollment.blinding_hex@ == hex_text(blinding@)
                &&& enrollment.commitment_hex@ == #[trigger] hex_text(
                    poseidon_digest(salary, blinding@),
                )
            },
{
    match gen_blinding_factor() {
        Err(e) => Err(e),
        Ok(blinding) => Ok(enrollment_from_blinding(salary, &blinding)),
    }
}

} // verus!
