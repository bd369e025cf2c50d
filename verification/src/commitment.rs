use vstd::prelude::*;

verus! {

/// Length in bytes of every commitment digest this library produces.
pub const COMMITMENT_LEN: usize = 32;

/// The digest that the hash function assigns to a byte sequence; it depends
/// on the input bytes alone.
pub uninterp spec fn blake3_of(input: Seq<u8>) -> Seq<u8>;

/// Relies on blake3::hash: a deterministic 32-byte digest of the input bytes.
#[verifier::external_body]
fn blake3_digest(input: &Vec<u8>) -> (r: Vec<u8>)
    ensures
        r@ == blake3_of(input@),
        r@.len() == COMMITMENT_LEN,
{
    blake3::hash(input.as_slice()).as_bytes().to_vec()
}

/// The commitment binding a method identifier to the journal it produced:
/// the digest of the identifier bytes followed by the journal bytes.
pub open spec fn commitment_of(method_id: Seq<u8>, journal: Seq<u8>) -> Seq<u8> {
    blake3_of(method_id + journal)
}

/// Computes the commitment over `method_id || journal`.
pub fn compute_commitment(method_id: &Vec<u8>, journal: &Vec<u8>) -> (r: Vec<u8>)
    ensures
        r@ == commitment_of(method_id@, journal@),
        r@.len() == COMMITMENT_LEN,
{
    let mut concat: Vec<u8> = Vec::new();
    let mut i: usize = 0;
    while i < method_id.len()
        invariant
            i <= method_id@.len(),
            concat@ == method_id@.subrange(0, i as int),
        decreases method_id@.len() - i,
    {
        concat.push(method_id[i]);
        i = i + 1;
        proof {
            assert(concat@ =~= method_id@.subrange(0, i as int));
        }
    }
    proof {
        assert(concat@ =~= method_id@);
    }
    let mut j: usize = 0;
    while j < journal.len()
        invariant
            j <= journal@.len(),
            concat@ == method_id@ + journal@.subrange(0, j as int),
        decreases journal@.len() - j,
    {
        concat.push(journal[j]);
        j = j + 1;
        proof {
            assert(concat@ =~= method_id@ + journal@.subrange(0, j as int));
        }
    }
    proof {
        assert(concat@ =~= method_id@ + journal@);
    }
    blake3_digest(&concat)
}

/// Determinism: the commitment is a pure function of the identifier and the
/// journal, so equal inputs always yield equal commitments.
pub proof fn lemma_commitment_deterministic(
    m1: Seq<u8>,
    j1: Seq<u8>,
    m2: Seq<u8>,
    j2: Seq<u8>,
)
    requires
        m1 == m2,
        j1 == j2,
    ensures
        commitment_of(m1, j1) == commitment_of(m2, j2),
{
}

/// Binding, up to collision resistance of the hash: two distinct
/// identifier/journal pairs with identifiers of one length feed distinct
/// byte strings to the hash, so their commitments can only coincide where
/// the hash collides on distinct inputs.  That the hash never does is the
/// collision-resistance assumption on the hash function, not provable
/// here.
pub proof fn lemma_commitment_input_injective(
    m1: Seq<u8>,
    j1: Seq<u8>,
    m2: Seq<u8>,
    j2: Seq<u8>,
)
    requires
        m1.len() == m2.len(),
        !(m1 == m2 && j1 == j2),
    ensures
        m1 + j1 != m2 + j2,
        commitment_of(m1, j1) == commitment_of(m2, j2) ==> (exists|x: Seq<u8>, y: Seq<u8>|
            x != y && #[trigger] blake3_of(x) == #[trigger] blake3_of(y)),
{
    if m1 + j1 == m2 + j2 {
        assert((m1 + j1).len() == (m2 + j2).len());
        assert(m1 =~= (m1 + j1).subrange(0, m1.len() as int));
        assert(m2 =~= (m2 + j2).subrange(0, m2.len() as int));
        assert(j1 =~= (m1 + j1).subrange(m1.len() as int, (m1 + j1).len() as int));
        assert(j2 =~= (m2 + j2).subrange(m2.len() as int, (m2 + j2).len() as int));
    }
    if commitment_of(m1, j1) == commitment_of(m2, j2) {
        let x = m1 + j1;
        let y = m2 + j2;
        assert(x != y && blake3_of(x) == blake3_of(y));
    }
}

} // verus!
