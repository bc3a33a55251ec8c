//! The owner-gated, two-phase self-upgrade: code is staged together with
//! the current block height and may be deployed only after the configured
//! delay has passed.  A too-early attempt fails and leaves the staged
//! record untouched; a successful deployment consumes it.

use vstd::prelude::*;
use crate::engine::{EngineError, EngineState};

verus! {

/// Code staged for a future activation, with the height it was staged at.
pub struct StagedUpgrade {
    pub code: Vec<u8>,
    pub staged_at_block: u64,
}

/// The upgrade slot persisted under the two reserved storage keys:
/// either empty or holding one staged record.
pub struct UpgradeSlot {
    pub staged: Option<StagedUpgrade>,
}

/// The ghost mirror of the slot: the staged code and height, if any.
pub open spec fn slot_view(slot: UpgradeSlot) -> Option<(Seq<u8>, u64)> {
    match slot.staged {
        Some(s) => Some((s.code@, s.staged_at_block)),
        None => None,
    }
}

/// Whether a deployment at `current_block` is past the mandatory delay for
/// code staged at `staged_at`.
pub open spec fn upgrade_ready(staged_at: u64, delay: u64, current_block: u64) -> bool {
    current_block > staged_at + delay
}

impl UpgradeSlot {
    pub fn empty() -> (r: Self)
        ensures
            slot_view(r) is None,
    {
        UpgradeSlot { staged: None }
    }

    /// Stages new code at the current block height.  Only the owner may
    /// stage; on success the slot holds exactly the new record, replacing
    /// any earlier one.
    pub fn stage_upgrade(
        &mut self,
        state: &EngineState,
        caller: &[u8],
        code: Vec<u8>,
        current_block: u64,
    ) -> (r: Result<(), EngineError>)
        ensures
            r is Ok <==> state.owner_id@ == caller@,
            r is Err ==> r->Err_0 == EngineError::NotAllowed && slot_view(*final(self))
                == slot_view(*old(self)),
            r is Ok ==> slot_view(*final(self)) == Some((code@, current_block)),
    {
        if let Err(e) = crate::engine::require_owner_only(state, caller) {
            return Err(e);
        }
        self.staged = Some(StagedUpgrade { code, staged_at_block: current_block });
        Ok(())
    }

    /// Deploys the staged code once the delay has passed, consuming the
    /// record.  Only the owner may deploy.  Before the delay it fails with
    /// the too-early error and the record survives unchanged; with nothing
    /// staged it fails outright.
    pub fn deploy_upgrade(
        &mut self,
        state: &EngineState,
        caller: &[u8],
        current_block: u64,
    ) -> (r: Result<Vec<u8>, EngineError>)
        ensures
            r is Err && r->Err_0 == EngineError::NotAllowed <==> state.owner_id@ != caller@,
            r is Err && r->Err_0 == EngineError::NoUpgrade <==> state.owner_id@ == caller@
                && slot_view(*old(self)) is None,
            r is Err && r->Err_0 == EngineError::TooEarly <==> state.owner_id@ == caller@ && (
            slot_view(*old(self)) matches Some(s) && !upgrade_ready(
                s.1,
                state.upgrade_delay_blocks,
                current_block,
            )),
            r is Err ==> slot_view(*final(self)) == slot_view(*old(self)),
            r is Ok <==> state.owner_id@ == caller@ && (slot_view(*old(self)) matches Some(s)
                && upgrade_ready(s.1, state.upgrade_delay_blocks, current_block)),
            r is Ok ==> r->Ok_0@ == slot_view(*old(self))->Some_0.0 && slot_view(
                *final(self),
            ) is None,
    {
        if let Err(e) = crate::engine::require_owner_only(state, caller) {
            return Err(e);
        }
        let ready = match &self.staged {
            Some(staged) => {
                let index = staged.staged_at_block;
                current_block as u128 > index as u128 + state.upgrade_delay_blocks as u128
            },
            None => {
                return Err(EngineError::NoUpgrade);
            },
        };
        if !ready {
            return Err(EngineError::TooEarly);
        }
        let staged = self.staged.take().unwrap();
        Ok(staged.code)
    }

    /// The activation height observers can poll: the staged height plus
    /// the delay, the last block at which deployment is still refused.
    pub fn get_upgrade_index(&self, state: &EngineState) -> (r: Result<u64, EngineError>)
        requires
            slot_view(*self) matches Some(s) ==> s.1 + state.upgrade_delay_blocks <= u64::MAX,
        ensures
            r is Err <==> slot_view(*self) is None,
            r is Err ==> r->Err_0 == EngineError::NoUpgrade,
            r is Ok ==> r->Ok_0 == slot_view(*self)->Some_0.1 + state.upgrade_delay_blocks,
    {
        match &self.staged {
            Some(staged) => Ok(staged.staged_at_block + state.upgrade_delay_blocks),
            None => Err(EngineError::NoUpgrade),
        }
    }
}

/// Delay enforcement: for code staged at block `b` under delay `d`, every
/// deployment attempt at a block up to and including `b + d` is refused,
/// an attempt after `b + d` is allowed, and no attempt is both.
pub proof fn lemma_upgrade_delay_enforcement(b: u64, d: u64, current: u64)
    ensures
        current <= b + d ==> !upgrade_ready(b, d, current),
        current > b + d ==> upgrade_ready(b, d, current),
        !(upgrade_ready(b, d, current) && current <= b + d),
{
}

} // verus!
