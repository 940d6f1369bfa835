//! The cryptographic primitives the protocol consumes: the Poseidon salary
//! commitment over the BN254 scalar field, SHA-256, and blinding factors.
//!
//! The primitives themselves are computed by outside code.  What the rest of
//! the library knows of them is stated here.

use ark_bn254::Fr;
use ark_ff::PrimeField;
use ark_serialize::CanonicalSerialize;
use ark_serialize::SerializationError;
use light_poseidon::Poseidon;
use light_poseidon::PoseidonError;
use light_poseidon::PoseidonHasher;
use rand::rngs::OsRng;
use rand::RngCore;
use vstd::prelude::*;

verus! {

/// The error type of the Poseidon hasher.
#[verifier::external_type_specification]
#[verifier::external_body]
pub struct ExPoseidonError(PoseidonError);

/// The error type of the field-element writer.
#[verifier::external_type_specification]
#[verifier::external_body]
pub struct ExSerializationError(SerializationError);

/// Why a primitive produced no value.
#[derive(Clone, Copy, Debug, PartialEq, Eq)]
pub enum CryptoError {
    /// The Poseidon hasher reported an error.
    HashFailed,
    /// The operating system supplied no entropy.
    EntropyUnavailable,
}

/// The order of the BN254 scalar field.
pub open spec fn scalar_modulus() -> nat {
    21888242871839275222246405745257275088548364400416034343698204186575808495617nat
}

/// The number that `bytes` spell in little-endian order.
pub open spec fn le_value(bytes: Seq<u8>) -> nat
    decreases bytes.len(),
{
    if bytes.len() == 0 {
        0
    } else {
        bytes[0] as nat + 256 * le_value(bytes.drop_first())
    }
}

/// The SHA-256 digest of a byte string.
pub uninterp spec fn sha256_digest(data: Seq<u8>) -> Seq<u8>;

/// The circomlib-compatible Poseidon hash of the pair (`salary`, the scalar
/// that `blinding` spells in little-endian order, reduced modulo the field
/// order), as 32 little-endian bytes.
pub uninterp spec fn poseidon_digest(salary: u64, blinding: Seq<u8>) -> Seq<u8>;

/// The longest input that [`sha256_hash`] takes.
pub const MAX_HASH_INPUT: usize = 65_536;

/// Calls `soroban_sdk::crypto::Crypto::sha256` on a fresh host environment.
/// The contract claims that the 32 bytes returned are the SHA-256 digest of
/// `data`.  The host meters the work against a fixed budget and stops when it
/// is spent, so long inputs are left out.
#[verifier::external_body]
fn sha256(data: &Vec<u8>) -> (digest: [u8; 32])
    requires
        data@.len() <= MAX_HASH_INPUT,
    ensures
        digest@ == sha256_digest(data@),
{
    let quiet = soroban_sdk::testutils::EnvTestConfig { capture_snapshot_at_drop: false };
    let env = soroban_sdk::Env::new_with_config(quiet);
    env.crypto().sha256(&soroban_sdk::Bytes::from_slice(&env, data)).to_array()
}

/// The array that holds the SHA-256 digest of a byte string.
pub open spec fn sha256_array(data: Seq<u8>) -> [u8; 32] {
    choose|digest: [u8; 32]| digest@ == sha256_digest(data)
}

/// The SHA-256 digest of `data`, which may have up to [`MAX_HASH_INPUT`]
/// bytes.
pub fn sha256_hash(data: &Vec<u8>) -> (digest: [u8; 32])
    requires
        data@.len() <= MAX_HASH_INPUT,
    ensures
        digest@ == sha256_digest(data@),
        digest == sha256_array(data@),
{
    let digest = sha256(data);
    proof {
        let chosen = sha256_array(data@);
        assert(chosen@ == digest@);
        vstd::array::axiom_array_ext_equal(chosen, digest);
    }
    digest
}

/// Calls `light_poseidon::Poseidon::new_circom(2)` and `PoseidonHasher::hash`
/// on the two field elements that `ark_bn254::Fr::from` and
/// `Fr::from_le_bytes_mod_order` make of the arguments, and writes the hash
/// out with `ark_serialize::CanonicalSerialize::serialize_uncompressed`.  The
/// contract claims that the call succeeds (a width of three is among the
/// supported ones, the hasher is given exactly the two inputs it was built
/// for, and writing to a vector does not fail) and that the bytes returned
/// are the 32 little-endian bytes of the hash.
#[verifier::external_body]
fn poseidon_pair(salary: u64, blinding_le: &[u8; 32]) -> (hash: Result<Vec<u8>, PoseidonError>)
    ensures
        hash is Ok,
        hash->Ok_0@.len() == 32,
        hash->Ok_0@ == poseidon_digest(salary, blinding_le@),
{
    let mut hasher = Poseidon::<Fr>::new_circom(2)?;
    let hash = hasher.hash(&[Fr::from(salary), Fr::from_le_bytes_mod_order(blinding_le)])?;
    let mut out = Vec::with_capacity(32);
    hash.serialize_uncompressed(&mut out).map_err(|_| PoseidonError::VecToArray)?;
    Ok(out)
}

/// Calls `ark_ff::PrimeField::from_le_bytes_mod_order` for the BN254 scalar
/// field and writes the element out with
/// `ark_serialize::CanonicalSerialize::serialize_uncompressed`.  The contract
/// claims that the call succeeds (writing to a vector does not fail), that
/// the result has 32 bytes, and that it spells, in little-endian order, the
/// number that `wide` spells, reduced modulo the field order.
#[verifier::external_body]
fn reduce_le_mod_order(wide: &[u8; 64]) -> (scalar: Result<Vec<u8>, SerializationError>)
    ensures
        scalar is Ok,
        scalar->Ok_0@.len() == 32,
        le_value(scalar->Ok_0@) == le_value(wide@) % scalar_modulus(),
{
    let mut out = Vec::with_capacity(32);
    Fr::from_le_bytes_mod_order(wide).serialize_uncompressed(&mut out).map(|_| out)
}

/// Calls `rand::RngCore::try_fill_bytes` on `rand::rngs::OsRng` for 64
/// bytes.  Nothing is claimed of the bytes; `None` stands for the operating
/// system's refusal.
#[verifier::external_body]
fn os_entropy() -> (wide: Option<[u8; 64]>) {
    let mut wide = [0u8; 64];
    OsRng.try_fill_bytes(&mut wide).ok().map(|_| wide)
}

/// Copies a vector of 32 bytes into an array.
fn digest_from_vec(bytes: &Vec<u8>) -> (digest: [u8; 32])
    requires
        bytes@.len() == 32,
    ensures
        digest@ == bytes@,
{
    let mut digest = [0u8; 32];
    let mut i: usize = 0;
    while i < 32
        invariant
            i <= 32,
            bytes@.len() == 32,
            forall|j: int| 0 <= j < i ==> digest@[j] == bytes@[j],
        decreases 32 - i,
    {
        digest[i] = bytes[i];
        i = i + 1;
    }
    assert(digest@ =~= bytes@);
    digest
}

/// The salary commitment `Poseidon(salary, blinding)`.
///
/// `blinding_le` is a scalar in little-endian bytes; the commitment comes back
/// in the same encoding.
pub fn poseidon_commitment(salary: u64, blinding_le: &[u8; 32]) -> (commitment: Result<
    [u8; 32],
    CryptoError,
>)
    ensures
        commitment is Ok,
        commitment->Ok_0@ == poseidon_digest(salary, blinding_le@),
{
    match poseidon_pair(salary, blinding_le) {
        Ok(bytes) => Ok(digest_from_vec(&bytes)),
        Err(_) => Err(CryptoError::HashFailed),
    }
}

/// The scalar that 64 bytes of entropy stand for: their little-endian value,
/// reduced modulo the order of the BN254 scalar field.
pub fn blinding_from_entropy(wide: &[u8; 64]) -> (blinding: [u8; 32])
    ensures
        le_value(blinding@) == le_value(wide@) % scalar_modulus(),
        le_value(blinding@) < scalar_modulus(),
{
    match reduce_le_mod_order(wide) {
        Ok(scalar) => digest_from_vec(&scalar),
        Err(_) => vstd::pervasive::unreached(),
    }
}

/// A fresh blinding factor: a scalar of the BN254 field drawn from the
/// operating system's entropy, in 32 little-endian bytes.  Whether there is
/// one is for the operating system to decide; where it supplies no entropy
/// the call fails with `EntropyUnavailable`, and with nothing else.
pub fn gen_blinding_factor() -> (blinding: Result<[u8; 32], CryptoError>)
    ensures
        blinding matches Ok(b) ==> le_value(b@) < scalar_modulus(),
        blinding matches Err(e) ==> e == CryptoError::EntropyUnavailable,
{
    match os_entropy() {
        Some(wide) => Ok(blinding_from_entropy(&wide)),
        None => Err(CryptoError::EntropyUnavailable),
    }
}

/// The preimage of the audit commitment: the amount in 16 little-endian
/// bytes of two's complement, then the blinding factor.
pub open spec fn audit_preimage(amount: i128, blinding: Seq<u8>) -> Seq<u8> {
    vstd::bytes::spec_u128_to_le_bytes(amount as u128) + blinding
}

/// The commitment an auditor recomputes: `SHA-256(amount ‖ blinding)`.
pub open spec fn audit_commitment(amount: i128, blinding: Seq<u8>) -> Seq<u8> {
    sha256_digest(audit_preimage(amount, blinding))
}

/// Appends the bytes of `tail` to `out`.
pub(crate) fn extend_bytes(out: &mut Vec<u8>, tail: &[u8])
    ensures
        final(out)@ == old(out)@ + tail@,
{
    let ghost before = out@;
    let mut i: usize = 0;
    while i < tail.len()
        invariant
            i <= tail@.len(),
            out@ == before + tail@.subrange(0, i as int),
        decreases tail@.len() - i,
    {
        out.push(tail[i]);
        assert(out@ =~= before + tail@.subrange(0, i + 1));
        i = i + 1;
    }
    assert(tail@.subrange(0, tail@.len() as int) =~= tail@);
}

/// Computes `SHA-256(amount ‖ blinding)`.
pub fn sha256_commitment(amount: i128, blinding: &[u8; 32]) -> (commitment: [u8; 32])
    ensures
        commitment@ == audit_commitment(amount, blinding@),
{
    let mut preimage = vstd::bytes::u128_to_le_bytes(amount as u128);
    proof {
        vstd::bytes::lemma_auto_spec_u128_to_from_le_bytes();
    }
    extend_bytes(&mut preimage, blinding.as_slice());
    sha256_hash(&preimage)
}

} // verus!
