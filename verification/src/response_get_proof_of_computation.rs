use vstd::prelude::*;

verus! {

/// Mathematical model of `ProofOfComputationData`.
pub ghost struct ProofOfComputationDataV {
    pub id: Seq<char>,
    pub partial_proof_of_computation: int,
}

/// One observation's contribution to a proof-of-computation answer: the
/// observation's identifier and its score (scaled by `score::SCORE_DENOM`).
#[derive(Debug)]
pub struct ProofOfComputationData {
    id: String,
    partial_proof_of_computation: u128,
}

impl View for ProofOfComputationData {
    type V = ProofOfComputationDataV;

    closed spec fn view(&self) -> ProofOfComputationDataV {
        ProofOfComputationDataV {
            id: self.id@,
            partial_proof_of_computation: self.partial_proof_of_computation as int,
        }
    }
}

impl ProofOfComputationData {
    pub fn new(id: String, partial_proof_of_computation: u128) -> (r: ProofOfComputationData)
        ensures
            r@ == (ProofOfComputationDataV {
                id: id@,
                partial_proof_of_computation: partial_proof_of_computation as int,
            }),
    {
        ProofOfComputationData { id, partial_proof_of_computation }
    }

    pub fn id(&self) -> (r: &String)
        ensures
            r@ == self@.id,
    {
        &self.id
    }

    pub fn partial_proof_of_computation(&self) -> (r: u128)
        ensures
            r == self@.partial_proof_of_computation,
    {
        self.partial_proof_of_computation
    }
}

/// Mathematical model of `ResponseGetProofOfComputation`.
pub ghost struct ResponseGetProofOfComputationV {
    pub data: Seq<ProofOfComputationDataV>,
    pub host_id: Seq<char>,
    pub proof_of_computation: int,
    pub public_key: Seq<char>,
}

/// Body of the collector's answer to a proof-of-computation query: every
/// qualifying observation's partial score, their sum, the collector's host
/// identifier and its public key text.
#[derive(Debug)]
pub struct ResponseGetProofOfComputation {
    data: Vec<ProofOfComputationData>,
    host_id: String,
    proof_of_computation: u128,
    public_key: String,
}

impl View for ResponseGetProofOfComputation {
    type V = ResponseGetProofOfComputationV;

    closed spec fn view(&self) -> ResponseGetProofOfComputationV {
        ResponseGetProofOfComputationV {
            data: self.data@.map_values(|d: ProofOfComputationData| d@),
            host_id: self.host_id@,
            proof_of_computation: self.proof_of_computation as int,
            public_key: self.public_key@,
        }
    }
}

impl ResponseGetProofOfComputation {
    pub fn new(
        data: Vec<ProofOfComputationData>,
        host_id: String,
        proof_of_computation: u128,
        public_key: String,
    ) -> (r: ResponseGetProofOfComputation)
        ensures
            r@ == (ResponseGetProofOfComputationV {
                data: data@.map_values(|d: ProofOfComputationData| d@),
                host_id: host_id@,
                proof_of_computation: proof_of_computation as int,
                public_key: public_key@,
            }),
    {
        ResponseGetProofOfComputation { data, host_id, proof_of_computation, public_key }
    }

    pub fn data(&self) -> (r: &Vec<ProofOfComputationData>)
        ensures
            r@.map_values(|d: ProofOfComputationData| d@) == self@.data,
            r@.len() == self@.data.len(),
            forall|i: int| 0 <= i < r@.len() ==> (#[trigger] r@[i])@ == self@.data[i],
    {
        &self.data
    }

    pub fn host_id(&self) -> (r: &String)
        ensures
            r@ == self@.host_id,
    {
        &self.host_id
    }

    pub fn proof_of_computation(&self) -> (r: u128)
        ensures
            r == self@.proof_of_computation,
    {
        self.proof_of_computation
    }

    pub fn public_key(&self) -> (r: &String)
        ensures
            r@ == self@.public_key,
    {
        &self.public_key
    }
}

} // verus!
