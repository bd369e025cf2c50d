use vstd::prelude::*;

verus! {

/// Returned when the proving engine rejects an identifier/journal pair.
#[derive(Clone, Copy, Debug, PartialEq, Eq, Structural)]
pub struct VerificationError;

/// The external capability that checks a nested proof: an engine vouches
/// for certain identifier/journal pairs and rejects all others.  The
/// circuit is generic over it, so its logic can be exercised against any
/// engine, real or mock.
pub trait Verifier {
    /// Which identifier/journal pairs this engine vouches for.
    spec fn accepts(&self, method_id: Seq<u8>, journal: Seq<u8>) -> bool;

    /// Checks one identifier/journal pair, succeeding exactly on the pairs
    /// the engine vouches for.
    fn verify(&self, method_id: &Vec<u8>, journal: &Vec<u8>) -> (r: Result<
        (),
        VerificationError,
    >)
        ensures
            r is Ok <==> self.accepts(method_id@, journal@),
    ;
}

/// Byte-for-byte equality of two byte vectors.
fn bytes_eq(a: &Vec<u8>, b: &Vec<u8>) -> (r: bool)
    ensures
        r <==> a@ == b@,
{
    if a.len() != b.len() {
        return false;
    }
    let mut i: usize = 0;
    while i < a.len()
        invariant
            i <= a@.len(),
            a@.len() == b@.len(),
            forall|k: int| 0 <= k < i ==> a@[k] == b@[k],
        decreases a@.len() - i,
    {
        if a[i] != b[i] {
            return false;
        }
        i = i + 1;
    }
    proof {
        assert(a@ =~= b@);
    }
    true
}

/// An engine that vouches for exactly one identifier/journal pair: the
/// stand-in used in place of a real proving engine when exercising the
/// circuit.
pub struct ExactVerifier {
    pub method_id: Vec<u8>,
    pub journal: Vec<u8>,
}

impl Verifier for ExactVerifier {
    open spec fn accepts(&self, method_id: Seq<u8>, journal: Seq<u8>) -> bool {
        method_id == self.method_id@ && journal == self.journal@
    }

    fn verify(&self, method_id: &Vec<u8>, journal: &Vec<u8>) -> (r: Result<
        (),
        VerificationError,
    >) {
        if bytes_eq(method_id, &self.method_id) && bytes_eq(journal, &self.journal) {
            Ok(())
        } else {
            Err(VerificationError)
        }
    }
}

} // verus!
