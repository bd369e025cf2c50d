use vstd::prelude::*;

verus! {

/// Length in bytes of a method identifier digest.
pub const METHOD_ID_LEN: usize = 32;

/// The claim a receipt carries: it designates the program whose execution
/// was proven by the digest of that program's pre-execution state.  A
/// pruned or partial claim may omit the digest, so it is optional here.
pub struct ReceiptClaim {
    pub pre_state_digest: Option<Vec<u8>>,
}

impl ReceiptClaim {
    /// A present pre-state digest has the fixed identifier length.
    pub open spec fn wf(&self) -> bool {
        match self.pre_state_digest {
            Some(d) => d@.len() == METHOD_ID_LEN,
            None => true,
        }
    }
}

/// A proof receipt as the circuit reads it: the claim describing what was
/// proven, if any, and the public journal bytes the proof attests to.
pub struct Receipt {
    pub claim: Option<ReceiptClaim>,
    pub journal: Vec<u8>,
}

impl Receipt {
    pub open spec fn wf(&self) -> bool {
        match self.claim {
            Some(c) => c.wf(),
            None => true,
        }
    }
}

/// The envelope handed to the circuit: exactly one nested receipt.
pub struct SimpleVerificationCircuitInput {
    pub receipt: Receipt,
}

impl SimpleVerificationCircuitInput {
    pub open spec fn wf(&self) -> bool {
        self.receipt.wf()
    }
}

} // verus!
