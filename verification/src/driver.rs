//! The derivation driver: discovers the starting point of a derivation
//! run from the boot configuration's output root, owns the safe-head
//! cursor, and harvests payload attributes produced by the external
//! derivation pipeline until the configured claim block is covered.
//!
//! The pipeline itself is an external collaborator: stepping it and
//! draining its produced attributes happen outside this library, which
//! receives the step outcome and the drainable queue as plain values
//! and decides what to harvest.

use vstd::prelude::*;

use crate::bytes::spec_hash_at;
use crate::provider::{
    keccak_key, spec_head, spec_info_lookup, spec_info_next, MultiblockOracleL2ChainProvider,
    ProviderModel,
};
use crate::stores::L1BlockTable;
use crate::types::{
    AttributesWithParent, AttributesWithParentView, BlockInfo, L2BlockInfo, ProviderError,
    SealedHeader, StepOutcome,
};

verus! {

/// The sequence of attribute values held by a queue of produced
/// attributes.
pub open spec fn attr_views(v: Vec<AttributesWithParent>) -> Seq<AttributesWithParentView> {
    Seq::new(v@.len(), |i: int| v@[i]@)
}

/// What one harvest pass takes from a drained attributes sequence:
/// every item in order, stopping immediately after the first item
/// whose parent block number is one below the claim block (the last
/// block the run cares about, taken inclusively).
pub open spec fn spec_harvest(attrs: Seq<AttributesWithParentView>, claim: u64) -> Seq<
    AttributesWithParentView,
>
    decreases attrs.len(),
{
    if attrs.len() == 0 {
        Seq::empty()
    } else if attrs[0].parent.block_info.number + 1 == claim {
        seq![attrs[0]]
    } else {
        seq![attrs[0]] + spec_harvest(attrs.skip(1), claim)
    }
}

/// The startup information resolved for a derivation run: the safe
/// head named by the output root, its L2 block info, and the L1 origin
/// block that info records.
pub open spec fn spec_startup(m: ProviderModel, l1: L1BlockTable) -> Result<
    (BlockInfo, L2BlockInfo, SealedHeader),
    ProviderError,
> {
    match spec_head(m) {
        Err(e) => Err(e),
        Ok(head) => match spec_info_lookup(m, head.header.number) {
            Err(e) => Err(e),
            Ok(info) => match l1.info(info.l1_origin.number) {
                Some(origin) => Ok((origin, info, head)),
                None => Err(ProviderError::OracleError),
            },
        },
    }
}

/// The provider model after resolving startup information.
pub open spec fn spec_startup_next(m: ProviderModel) -> ProviderModel {
    match spec_head(m) {
        Err(_) => m,
        Ok(head) => spec_info_next(m, head.header.number),
    }
}

/// Finds the startup information for a derivation run: fetches the
/// output-root preimage, reads the safe-head block hash from its bytes
/// 96..128, resolves the full header by that hash and its L2 block
/// info, then resolves the L1 origin block the info records.  On
/// success the returned header is sealed with exactly the hash read
/// from the output-root preimage.
pub fn find_startup_info(
    provider: &mut MultiblockOracleL2ChainProvider,
    l1_blocks: &mut L1BlockTable,
) -> (r: Result<(BlockInfo, L2BlockInfo, SealedHeader), ProviderError>)
    ensures
        r == spec_startup(old(provider)@, *old(l1_blocks)),
        final(provider)@ == spec_startup_next(old(provider)@),
        final(l1_blocks).raw() == old(l1_blocks).raw(),
        r is Ok ==> r->Ok_0.2.hash == spec_hash_at(
            old(provider)@.preimages[keccak_key(old(provider)@.boot.l2_output_root)],
            96,
        ),
{
    let head = match provider.resolve_head() {
        Ok(h) => h,
        Err(e) => {
            return Err(e);
        },
    };
    let info = match provider.l2_block_info_by_number(head.header.number) {
        Ok(i) => i,
        Err(e) => {
            return Err(e);
        },
    };
    let origin = match l1_blocks.block_info_by_number(info.l1_origin.number) {
        Ok(o) => o,
        Err(_) => {
            return Err(ProviderError::OracleError);
        },
    };
    Ok((origin, info, head))
}

/// The driver for multi-block payload-attributes derivation.  It holds
/// the current L2 safe head and the claim block; the pipeline instance
/// it steps lives outside this library.
pub struct MultiBlockDerivationDriver {
    /// The current L2 safe head.
    pub l2_safe_head: L2BlockInfo,
    /// The header of the L2 safe head.
    pub l2_safe_head_header: SealedHeader,
    /// The block number of the final L2 block being claimed.
    pub l2_claim_block: u64,
}

impl MultiBlockDerivationDriver {
    /// Creates a driver by resolving the startup information through
    /// the provider; the claim block comes from the provider's boot
    /// configuration.  Returns the driver together with the L1 origin
    /// block the external pipeline must be anchored at.
    pub fn new(
        provider: &mut MultiblockOracleL2ChainProvider,
        l1_blocks: &mut L1BlockTable,
    ) -> (r: Result<(Self, BlockInfo), ProviderError>)
        ensures
            ({
                let s = spec_startup(old(provider)@, *old(l1_blocks));
                &&& r is Ok <==> s is Ok
                &&& r is Ok ==> {
                    &&& r->Ok_0.0.l2_safe_head == s->Ok_0.1
                    &&& r->Ok_0.0.l2_safe_head_header == s->Ok_0.2
                    &&& r->Ok_0.0.l2_claim_block == old(provider)@.boot.l2_claim_block
                    &&& r->Ok_0.1 == s->Ok_0.0
                }
                &&& r is Err ==> r->Err_0 == s->Err_0
            }),
            final(provider)@ == spec_startup_next(old(provider)@),
            final(l1_blocks).raw() == old(l1_blocks).raw(),
    {
        let l2_claim_block = provider.boot().l2_claim_block;
        let (l1_origin, l2_safe_head, l2_safe_head_header) = match find_startup_info(
            provider,
            l1_blocks,
        ) {
            Ok(t) => t,
            Err(e) => {
                return Err(e);
            },
        };
        Ok((Self { l2_safe_head, l2_safe_head_header, l2_claim_block }, l1_origin))
    }

    /// Returns an owned copy of the current safe head's sealed header.
    pub fn clone_l2_safe_head_header(&self) -> (h: SealedHeader)
        ensures
            h == self.l2_safe_head_header,
    {
        self.l2_safe_head_header
    }

    /// Replaces the safe head after the external executor has executed
    /// the next block.  The driver never advances the head itself.
    pub fn update_safe_head(
        &mut self,
        new_safe_head: L2BlockInfo,
        new_safe_head_header: SealedHeader,
    )
        ensures
            final(self).l2_safe_head == new_safe_head,
            final(self).l2_safe_head_header == new_safe_head_header,
            final(self).l2_claim_block == old(self).l2_claim_block,
    {
        self.l2_safe_head = new_safe_head;
        self.l2_safe_head_header = new_safe_head_header;
    }

    /// Harvests the payloads produced by one pipeline step.  When the
    /// step prepared attributes, the produced queue is drained in
    /// order, stopping inclusively at the first item whose parent
    /// block number is one below the claim block; the harvested items
    /// are returned and the rest stay queued.  Every other outcome —
    /// an advanced origin, an origin-advance error, or a failed step
    /// (of which only a lack of L1 data is an expected, retry-worthy
    /// condition) — yields an empty list and leaves retrying to the
    /// caller; none of them raises.
    #[verifier::loop_isolation(false)]
    pub fn produce_payloads(
        &self,
        outcome: StepOutcome,
        prepared: &mut Vec<AttributesWithParent>,
    ) -> (r: Vec<AttributesWithParent>)
        ensures
            outcome is PreparedAttributes ==> {
                &&& attr_views(r) == spec_harvest(
                    attr_views(*old(prepared)),
                    self.l2_claim_block,
                )
                &&& attr_views(*final(prepared)) == attr_views(*old(prepared)).skip(r@.len() as int)
            },
            !(outcome is PreparedAttributes) ==> {
                &&& r@.len() == 0
                &&& *final(prepared) == *old(prepared)
            },
    {
        match outcome {
            StepOutcome::PreparedAttributes => {},
            _ => {
                return Vec::new();
            },
        }
        let ghost orig = attr_views(*prepared);
        let mut payloads: Vec<AttributesWithParent> = Vec::new();
        let mut stopped = false;
        proof {
            assert(attr_views(payloads) =~= Seq::<AttributesWithParentView>::empty());
        }
        while prepared.len() > 0 && !stopped
            invariant
                attr_views(*prepared) =~= orig.skip(payloads@.len() as int),
                payloads@.len() <= orig.len(),
                !stopped ==> spec_harvest(orig, self.l2_claim_block) =~= attr_views(payloads)
                    + spec_harvest(attr_views(*prepared), self.l2_claim_block),
                stopped ==> spec_harvest(orig, self.l2_claim_block) =~= attr_views(payloads),
            decreases prepared@.len(),
        {
            let ghost before = attr_views(*prepared);
            let attr = prepared.remove(0);
            proof {
                assert(attr_views(*prepared) =~= before.skip(1));
                assert(attr@ == before[0]);
            }
            let parent_block_nb = attr.parent.block_info.number;
            let ghost old_payloads = attr_views(payloads);
            payloads.push(attr);
            proof {
                assert(attr_views(payloads) =~= old_payloads.push(before[0]));
            }
            if self.l2_claim_block > 0 && parent_block_nb == self.l2_claim_block - 1 {
                stopped = true;
                proof {
                    assert(spec_harvest(before, self.l2_claim_block) =~= seq![before[0]]);
                    assert(attr_views(payloads) =~= old_payloads + seq![before[0]]);
                }
            } else {
                proof {
                    assert(spec_harvest(before, self.l2_claim_block) =~= seq![before[0]]
                        + spec_harvest(before.skip(1), self.l2_claim_block));
                    assert(old_payloads + spec_harvest(before, self.l2_claim_block)
                        =~= attr_views(payloads) + spec_harvest(
                        before.skip(1),
                        self.l2_claim_block,
                    ));
                }
            }
        }
        proof {
            if !stopped {
                assert(attr_views(*prepared).len() == 0);
                assert(spec_harvest(attr_views(*prepared), self.l2_claim_block)
                    =~= Seq::<AttributesWithParentView>::empty());
            }
            assert(attr_views(payloads) =~= spec_harvest(orig, self.l2_claim_block));
        }
        payloads
    }
}

} // verus!
