//! The proof verifier: a verification key, set once, and the test whether a
//! Groth16 proof is valid for given public inputs.
//!
//! The pairing equation itself is decided by a [`PairingBackend`].  The
//! verifier owns what surrounds it: the key, the count of public inputs, and
//! the order in which a batch is checked.

use crate::address::Digest;
use vstd::prelude::*;

verus! {

/// A Groth16 proof: the curve points A, B and C in their byte encodings.
#[derive(Clone, Copy, Debug, PartialEq, Eq)]
pub struct Groth16Proof {
    /// The G1 point A.
    pub a: [u8; 64],
    /// The G2 point B.
    pub b: [u8; 128],
    /// The G1 point C.
    pub c: [u8; 64],
}

/// The verification key of the payment circuit.
#[derive(Clone, Debug, PartialEq, Eq)]
pub struct VerificationKey {
    /// The G1 point alpha.
    pub alpha: [u8; 64],
    /// The G2 point beta.
    pub beta: [u8; 128],
    /// The G2 point gamma.
    pub gamma: [u8; 128],
    /// The G2 point delta.
    pub delta: [u8; 128],
    /// The input-commitment points; the first is the constant term, the
    /// others belong to the public inputs in order.
    pub ic: Vec<[u8; 64]>,
}

/// A verification key as a mathematical value.
pub struct VerificationKeyView {
    /// The G1 point alpha.
    pub alpha: [u8; 64],
    /// The G2 point beta.
    pub beta: [u8; 128],
    /// The G2 point gamma.
    pub gamma: [u8; 128],
    /// The G2 point delta.
    pub delta: [u8; 128],
    /// The input-commitment points.
    pub ic: Seq<[u8; 64]>,
}

impl View for VerificationKey {
    type V = VerificationKeyView;

    open spec fn view(&self) -> VerificationKeyView {
        VerificationKeyView {
            alpha: self.alpha,
            beta: self.beta,
            gamma: self.gamma,
            delta: self.delta,
            ic: self.ic@,
        }
    }
}

impl VerificationKey {
    /// A copy of the key.
    pub fn duplicate(&self) -> (copy: VerificationKey)
        ensures
            copy@ == self@,
    {
        let mut ic: Vec<[u8; 64]> = Vec::new();
        let mut i: usize = 0;
        while i < self.ic.len()
            invariant
                i <= self.ic@.len(),
                ic@ == self.ic@.take(i as int),
            decreases self.ic@.len() - i,
        {
            ic.push(self.ic[i]);
            assert(ic@ =~= self.ic@.take(i + 1));
            i = i + 1;
        }
        assert(self.ic@.take(i as int) =~= self.ic@);
        VerificationKey { alpha: self.alpha, beta: self.beta, gamma: self.gamma, delta: self.delta, ic }
    }
}

/// Why an operation of the verifier failed.
#[derive(Clone, Copy, Debug, PartialEq, Eq)]
pub enum VerifierError {
    /// The verification key was set before.
    AlreadyInitialized,
    /// No verification key has been set.
    NotInitialized,
}

/// The cryptographic backend that decides the pairing equation
/// `e(A, B) = e(alpha, beta) · e(IC_sum, gamma) · e(C, delta)`, where `IC_sum`
/// is `ic[0]` plus the sum of `ic[i + 1] · input[i]`.
///
/// The decision is a function of the backend, the proof, the key and the
/// inputs: asking twice gives the same answer.
pub trait PairingBackend {
    /// What the backend answers.
    spec fn accepts(&self, proof: Groth16Proof, vk: VerificationKeyView, inputs: Seq<Digest>) -> bool;

    /// Decides the pairing equation.  The verifier asks only with as many
    /// inputs as the key has points after the constant term.
    fn pairing_check(&self, proof: &Groth16Proof, vk: &VerificationKey, inputs: &Vec<Digest>) -> (ok:
        bool)
        requires
            inputs@.len() + 1 == vk@.ic.len(),
        ensures
            ok == self.accepts(*proof, vk@, inputs@),
    ;
}

/// A backend that accepts every proof it is asked about.  With it the
/// verifier checks the shape of a proof's inputs and nothing else, which is
/// what a deployment without curve arithmetic can offer.
#[derive(Clone, Copy, Debug)]
pub struct ShapeOnlyBackend;

impl PairingBackend for ShapeOnlyBackend {
    open spec fn accepts(&self, proof: Groth16Proof, vk: VerificationKeyView, inputs: Seq<Digest>) -> bool {
        true
    }

    fn pairing_check(&self, proof: &Groth16Proof, vk: &VerificationKey, inputs: &Vec<Digest>) -> (ok:
        bool) {
        true
    }
}

/// Whether `proof` is valid for `inputs` under `vk`: the inputs are as many
/// as the key expects and the backend accepts.
pub open spec fn proof_holds<B: PairingBackend>(
    backend: B,
    vk: VerificationKeyView,
    proof: Groth16Proof,
    inputs: Seq<Digest>,
) -> bool {
    inputs.len() + 1 == vk.ic.len() && backend.accepts(proof, vk, inputs)
}

/// The public inputs of a payment proof, in circuit order.
pub open spec fn payment_inputs(commitment: Digest, nullifier: Digest, recipient_hash: Digest) -> Seq<
    Digest,
> {
    seq![commitment, nullifier, recipient_hash]
}

/// Whether entry `i` of four parallel arrays is a valid payment proof.
pub open spec fn entry_holds<B: PairingBackend>(
    backend: B,
    vk: VerificationKeyView,
    proofs: Seq<Groth16Proof>,
    commitments: Seq<Digest>,
    nullifiers: Seq<Digest>,
    recipient_hashes: Seq<Digest>,
    i: int,
) -> bool {
    proof_holds(
        backend,
        vk,
        proofs[i],
        payment_inputs(commitments[i], nullifiers[i], recipient_hashes[i]),
    )
}

/// Whether a batch is valid: the four arrays are equally long and every
/// entry is a valid payment proof.
pub open spec fn batch_holds<B: PairingBackend>(
    backend: B,
    vk: VerificationKeyView,
    proofs: Seq<Groth16Proof>,
    commitments: Seq<Digest>,
    nullifiers: Seq<Digest>,
    recipient_hashes: Seq<Digest>,
) -> bool {
    &&& proofs.len() == commitments.len()
    &&& proofs.len() == nullifiers.len()
    &&& proofs.len() == recipient_hashes.len()
    &&& forall|i: int|
        0 <= i < proofs.len() ==> entry_holds(
            backend,
            vk,
            proofs,
            commitments,
            nullifiers,
            recipient_hashes,
            i,
        )
}

/// The proof verifier.
pub struct ProofVerifier {
    vk: Option<VerificationKey>,
}

impl ProofVerifier {
    /// The verification key, once it is set.
    pub closed spec fn view(&self) -> Option<VerificationKeyView> {
        match self.vk {
            Some(vk) => Some(vk@),
            None => None,
        }
    }

    /// A verifier without a key.
    pub fn new() -> (verifier: Self)
        ensures
            verifier@ is None,
    {
        ProofVerifier { vk: None }
    }

    /// Sets the verification key.  The key is set once: a second call fails
    /// and leaves the first key in place.
    pub fn initialize(&mut self, vk: VerificationKey) -> (result: Result<(), VerifierError>)
        ensures
            old(self)@ is None ==> result is Ok && final(self)@ == Some(vk@),
            old(self)@ is Some ==> result == Err::<(), VerifierError>(VerifierError::AlreadyInitialized)
                && final(self)@ == old(self)@,
    {
        if self.vk.is_some() {
            return Err(VerifierError::AlreadyInitialized);
        }
        self.vk = Some(vk);
        Ok(())
    }

    /// The verification key.
    pub fn get_verification_key(&self) -> (result: Result<VerificationKey, VerifierError>)
        ensures
            match result {
                Ok(vk) => self@ == Some(vk@),
                Err(e) => self@ is None && e == VerifierError::NotInitialized,
            },
    {
        match &self.vk {
            Some(vk) => Ok(vk.duplicate()),
            None => Err(VerifierError::NotInitialized),
        }
    }

    /// Checks `proof` against `public_inputs`.  A wrong number of inputs is
    /// answered with `false` and never reaches the backend.
    pub fn verify_proof<B: PairingBackend>(
        &self,
        backend: &B,
        proof: &Groth16Proof,
        public_inputs: &Vec<Digest>,
    ) -> (result: Result<bool, VerifierError>)
        ensures
            match self@ {
                Some(vk) => result == Ok::<bool, VerifierError>(
                    proof_holds(*backend, vk, *proof, public_inputs@),
                ),
                None => result == Err::<bool, VerifierError>(VerifierError::NotInitialized),
            },
    {
        match &self.vk {
            None => Err(VerifierError::NotInitialized),
            Some(vk) => {
                if vk.ic.len() == 0 || public_inputs.len() != vk.ic.len() - 1 {
                    return Ok(false);
                }
                Ok(backend.pairing_check(proof, vk, public_inputs))
            },
        }
    }

    /// Checks a payment proof.  Its public inputs are the salary commitment,
    /// the payment nullifier and the hash of the recipient, in this order.
    pub fn verify_payment_proof<B: PairingBackend>(
        &self,
        backend: &B,
        proof: &Groth16Proof,
        salary_commitment: Digest,
        payment_nullifier: Digest,
        recipient_hash: Digest,
    ) -> (result: Result<bool, VerifierError>)
        ensures
            match self@ {
                Some(vk) => result == Ok::<bool, VerifierError>(
                    proof_holds(
                        *backend,
                        vk,
                        *proof,
                        payment_inputs(salary_commitment, payment_nullifier, recipient_hash),
                    ),
                ),
                None => result == Err::<bool, VerifierError>(VerifierError::NotInitialized),
            },
    {
        let mut inputs: Vec<Digest> = Vec::new();
        inputs.push(salary_commitment);
        inputs.push(payment_nullifier);
        inputs.push(recipient_hash);
        assert(inputs@ =~= payment_inputs(salary_commitment, payment_nullifier, recipient_hash));
        self.verify_proof(backend, proof, &inputs)
    }

    /// Checks a batch of payment proofs given as four parallel arrays.  The
    /// answer is `false` if the arrays differ in length or any entry fails;
    /// entries after the first failing one are not looked at.
    pub fn verify_batch_proofs<B: PairingBackend>(
        &self,
        backend: &B,
        proofs: &Vec<Groth16Proof>,
        commitments: &Vec<Digest>,
        nullifiers: &Vec<Digest>,
        recipient_hashes: &Vec<Digest>,
    ) -> (result: Result<bool, VerifierError>)
        ensures
            proofs@.len() != commitments@.len() || proofs@.len() != nullifiers@.len() || proofs@.len()
                != recipient_hashes@.len() ==> result == Ok::<bool, VerifierError>(false),
            proofs@.len() == commitments@.len() && proofs@.len() == nullifiers@.len() && proofs@.len()
                == recipient_hashes@.len() ==> match self@ {
                Some(vk) => result == Ok::<bool, VerifierError>(
                    batch_holds(*backend, vk, proofs@, commitments@, nullifiers@, recipient_hashes@),
                ),
                None => if proofs@.len() == 0 {
                    result == Ok::<bool, VerifierError>(true)
                } else {
                    result == Err::<bool, VerifierError>(VerifierError::NotInitialized)
                },
            },
    {
        if proofs.len() != commitments.len() || proofs.len() != nullifiers.len() || proofs.len()
            != recipient_hashes.len() {
            return Ok(false);
        }
        let mut i: usize = 0;
        while i < proofs.len()
            invariant
                i <= proofs@.len(),
                proofs@.len() == commitments@.len(),
                proofs@.len() == nullifiers@.len(),
                proofs@.len() == recipient_hashes@.len(),
                self@ is Some || i == 0,
                self@ is Some ==> forall|j: int|
                    0 <= j < i ==> entry_holds(
                        *backend,
                        self@->Some_0,
                        proofs@,
                        commitments@,
                        nullifiers@,
                        recipient_hashes@,
                        j,
                    ),
            decreases proofs@.len() - i,
        {
            match self.verify_payment_proof(
                backend,
                &proofs[i],
                commitments[i],
                nullifiers[i],
                recipient_hashes[i],
            ) {
                Err(e) => {
                    return Err(e);
                },
                Ok(valid) => {
                    if !valid {
                        assert(!entry_holds(
                            *backend,
                            self@->Some_0,
                            proofs@,
                            commitments@,
                            nullifiers@,
                            recipient_hashes@,
                            i as int,
                        ));
                        return Ok(false);
                    }
                },
            }
            i = i + 1;
        }
        Ok(true)
    }
}

} // verus!
