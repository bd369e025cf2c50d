use vstd::prelude::*;

use crate::commitment::commitment_of;
use crate::commitment::compute_commitment;
use crate::commitment::COMMITMENT_LEN;
use crate::engine::Verifier;
use crate::structs::SimpleVerificationCircuitInput;

verus! {

/// Why a circuit execution failed; every failure is terminal and yields no
/// commitment.
#[derive(Clone, Copy, Debug, PartialEq, Eq, Structural)]
pub enum CircuitError {
    /// The receipt carries no claim, so it cannot be trusted.
    MissingClaim,
    /// The claim does not designate a pre-state digest, so the nested
    /// program has no identity to verify against.
    MissingPreStateDigest,
    /// The engine rejected the identifier/journal pair.
    VerificationFailed,
}

/// The digest the receipt's claim designates as the nested program's
/// method identifier, if any.
pub open spec fn spec_method_id(input: SimpleVerificationCircuitInput) -> Option<Seq<u8>> {
    match input.receipt.claim {
        Some(c) => match c.pre_state_digest {
            Some(d) => Some(d@),
            None => None,
        },
        None => None,
    }
}

/// Everything the circuit promises of its result: a commitment comes only
/// from the receipt's own identifier and journal, only when the engine
/// vouched for that pair, and each failure names the condition that
/// caused it.
pub open spec fn circuit_post<V: Verifier>(
    input: SimpleVerificationCircuitInput,
    verifier: V,
    r: Result<Vec<u8>, CircuitError>,
) -> bool {
    match r {
        Ok(c) => {
            &&& spec_method_id(input) matches Some(m)
            &&& verifier.accepts(m, input.receipt.journal@)
            &&& c@ == commitment_of(m, input.receipt.journal@)
            &&& c@.len() == COMMITMENT_LEN
        },
        Err(e) => match e {
            CircuitError::MissingClaim => input.receipt.claim is None,
            CircuitError::MissingPreStateDigest => {
                &&& input.receipt.claim matches Some(c)
                &&& c.pre_state_digest is None
            },
            CircuitError::VerificationFailed => {
                &&& spec_method_id(input) matches Some(m)
                &&& !verifier.accepts(m, input.receipt.journal@)
            },
        },
    }
}

/// The extraction phase alone: the digest the receipt's claim designates
/// as the nested program's method identifier, or the fatal input error.
/// A driver whose engine verification happens outside this library
/// extracts with this, verifies, and only then binds with
/// `compute_commitment`.
pub fn extract_method_id(input: &SimpleVerificationCircuitInput) -> (r: Result<
    &Vec<u8>,
    CircuitError,
>)
    ensures
        match r {
            Ok(d) => spec_method_id(*input) == Some(d@),
            Err(e) => match e {
                CircuitError::MissingClaim => input.receipt.claim is None,
                CircuitError::MissingPreStateDigest => {
                    &&& input.receipt.claim matches Some(c)
                    &&& c.pre_state_digest is None
                },
                CircuitError::VerificationFailed => false,
            },
        },
{
    let claim = match &input.receipt.claim {
        Some(c) => c,
        None => {
            return Err(CircuitError::MissingClaim);
        },
    };
    match &claim.pre_state_digest {
        Some(d) => Ok(d),
        None => Err(CircuitError::MissingPreStateDigest),
    }
}

/// One verification pass: extract the claim, take its pre-state digest as
/// the nested program's method identifier, have the engine verify the
/// identifier against the receipt's journal, and only then bind the two
/// into a commitment.
pub fn simple_verification_circuit<V: Verifier>(
    input: &SimpleVerificationCircuitInput,
    verifier: &V,
) -> (r: Result<Vec<u8>, CircuitError>)
    requires
        input.wf(),
    ensures
        circuit_post(*input, *verifier, r),
{
    let method_id = match extract_method_id(input) {
        Ok(d) => d,
        Err(e) => {
            return Err(e);
        },
    };
    match verifier.verify(method_id, &input.receipt.journal) {
        Ok(_) => {},
        Err(_) => {
            return Err(CircuitError::VerificationFailed);
        },
    }
    Ok(compute_commitment(method_id, &input.receipt.journal))
}

/// A receipt with no claim never yields a commitment: any result the
/// circuit's contract allows on such an input is the missing-claim error.
pub proof fn lemma_missing_claim_rejected<V: Verifier>(
    input: SimpleVerificationCircuitInput,
    verifier: V,
    r: Result<Vec<u8>, CircuitError>,
)
    requires
        circuit_post(input, verifier, r),
        input.receipt.claim is None,
    ensures
        r == Err::<Vec<u8>, CircuitError>(CircuitError::MissingClaim),
{
}

/// A pair the engine does not vouch for — in particular a journal altered
/// after proof generation — never yields a commitment: the circuit's
/// contract forces the verification-failure error.
pub proof fn lemma_unverified_pair_rejected<V: Verifier>(
    input: SimpleVerificationCircuitInput,
    verifier: V,
    r: Result<Vec<u8>, CircuitError>,
    m: Seq<u8>,
)
    requires
        circuit_post(input, verifier, r),
        spec_method_id(input) == Some(m),
        !verifier.accepts(m, input.receipt.journal@),
    ensures
        r == Err::<Vec<u8>, CircuitError>(CircuitError::VerificationFailed),
{
}

/// A commitment is evidence of a verified pair: whenever the circuit
/// returns one, the engine vouched for the receipt's own identifier and
/// journal, and the commitment is exactly their bound digest.
pub proof fn lemma_commitment_only_from_verified<V: Verifier>(
    input: SimpleVerificationCircuitInput,
    verifier: V,
    r: Result<Vec<u8>, CircuitError>,
)
    requires
        circuit_post(input, verifier, r),
        r is Ok,
    ensures
        spec_method_id(input) is Some,
        verifier.accepts(spec_method_id(input)->Some_0, input.receipt.journal@),
        r->Ok_0@ == commitment_of(spec_method_id(input)->Some_0, input.receipt.journal@),
{
}

} // verus!
