//! Host-side values: the boot information as the proving harness
//! serializes it, the aggregation inputs, and the selection of the
//! earliest L1 head in a batch.  The harness itself (proof-input
//! serialization and witness prefetching) performs I/O and lives
//! outside this library; the decisions it makes on plain values are
//! here.

use vstd::prelude::*;

use crate::types::{BootInfo, Hash256, SealedHeader};

verus! {

/// Which proving program a host invocation drives.
#[derive(Clone, Copy, Debug, PartialEq, Eq, Structural)]
pub enum ProgramType {
    Single,
    Multi,
}

/// The boot information as fixed at proof time: the rollup
/// configuration is resolved separately from the chain id.
#[derive(Clone, Copy, Debug, PartialEq, Eq, Structural)]
pub struct RawBootInfo {
    pub l1_head: Hash256,
    pub l2_output_root: Hash256,
    pub l2_claim: Hash256,
    pub l2_claim_block: u64,
    pub chain_id: u64,
}

impl RawBootInfo {
    /// The boot values shared with a full [`BootInfo`].
    pub fn from_boot_info(boot: &BootInfo) -> (r: Self)
        ensures
            r.l1_head == boot.l1_head,
            r.l2_output_root == boot.l2_output_root,
            r.l2_claim == boot.l2_claim,
            r.l2_claim_block == boot.l2_claim_block,
            r.chain_id == boot.chain_id,
    {
        RawBootInfo {
            l1_head: boot.l1_head,
            l2_output_root: boot.l2_output_root,
            l2_claim: boot.l2_claim,
            l2_claim_block: boot.l2_claim_block,
            chain_id: boot.chain_id,
        }
    }
}

/// The inputs of one aggregation proof: the boot information of every
/// span proof aggregated, and the checkpointed L1 head they are all
/// verified against.
#[derive(Clone, Debug, PartialEq)]
pub struct AggregationInputs {
    pub boot_infos: Vec<RawBootInfo>,
    pub latest_l1_checkpoint_head: Hash256,
}

/// Selects the L1 header with the smallest block number in a batch:
/// the position of the first header whose number no later header goes
/// below.  Returns `None` exactly when the batch is empty.
pub fn get_earliest_l1_head_in_batch(headers: &Vec<SealedHeader>) -> (r: Option<usize>)
    ensures
        r is Some <==> headers@.len() > 0,
        r is Some ==> {
            let i = r->0 as int;
            &&& 0 <= i < headers@.len()
            &&& forall|j: int| #![auto]
                0 <= j < headers@.len() ==> headers@[i].header.number <= headers@[j].header.number
            &&& forall|j: int| #![auto]
                0 <= j < i ==> headers@[j].header.number > headers@[i].header.number
        },
{
    if headers.len() == 0 {
        return None;
    }
    let len: usize = headers.len();
    let mut best: usize = 0;
    let mut k: usize = 1;
    while k < len
        invariant
            1 <= k <= len,
            len == headers@.len(),
            best < k,
            forall|j: int| #![auto]
                0 <= j < k ==> headers@[best as int].header.number <= headers@[j].header.number,
            forall|j: int| #![auto]
                0 <= j < best ==> headers@[j].header.number > headers@[best as int].header.number,
        decreases len - k,
    {
        if headers[k].header.number < headers[best].header.number {
            best = k;
        }
        k = k + 1;
    }
    Some(best)
}

} // verus!
