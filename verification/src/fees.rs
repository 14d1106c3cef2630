//! Collecting the fees that the position has earned.

use vstd::prelude::*;
use crate::accounts::CollectFees;
use crate::call::{signer_of, Call, Reply};
use crate::error::VaultError;

verus! {

/// How far a fee collection has come.
#[derive(Clone, Copy, Debug, PartialEq, Eq, Structural)]
pub enum FeesStage {
    /// Nothing has been asked yet.
    Start,
    /// The pool has been asked to credit the fees.
    Collecting,
    /// The fees are in the reserves.
    Done,
    /// The collection was aborted.
    Failed(VaultError),
}

/// The one call of a fee collection: credit what the position has earned to
/// the two reserves, signed by the vault.
pub open spec fn fees_call(ctx: CollectFees) -> Call {
    Call::CollectFees { position: ctx.position.key, signer: signer_of(ctx.vault_key, ctx.vault) }
}

/// The stage that follows `stage` once `reply` has come in. A collection has
/// no precondition: it starts on any vault, active or not.
pub open spec fn fees_next(stage: FeesStage, reply: Option<Reply>) -> FeesStage {
    match stage {
        FeesStage::Start => FeesStage::Collecting,
        FeesStage::Collecting => match reply {
            None => FeesStage::Collecting,
            Some(Reply::Success) => FeesStage::Done,
            Some(Reply::Failure(code)) => FeesStage::Failed(VaultError::CallFailed(code)),
        },
        FeesStage::Done => FeesStage::Done,
        FeesStage::Failed(e) => FeesStage::Failed(e),
    }
}

/// The call to make on entering `stage`, if it asks for one.
pub open spec fn fees_pending(ctx: CollectFees, stage: FeesStage) -> Option<Call> {
    match stage {
        FeesStage::Collecting => Some(fees_call(ctx)),
        _ => None,
    }
}

/// The call that credits the position's fees to the reserves.
pub fn collect_call(ctx: &CollectFees) -> (call: Call)
    ensures
        call == fees_call(*ctx),
{
    Call::CollectFees { position: ctx.position.key, signer: ctx.signer() }
}

/// One step of a fee collection. `reply` is the result of the call that the
/// previous step asked for; the first step, from `FeesStage::Start`, reads
/// none. The step returns the stage reached and the call to make next.
pub fn collect_fees(ctx: &CollectFees, stage: FeesStage, reply: Option<Reply>) -> (out: (
    FeesStage,
    Option<Call>,
))
    ensures
        out.0 == fees_next(stage, reply),
        out.1 == fees_pending(*ctx, out.0),
{
    let next = match stage {
        FeesStage::Start => FeesStage::Collecting,
        FeesStage::Collecting => match reply {
            None => FeesStage::Collecting,
            Some(Reply::Success) => FeesStage::Done,
            Some(Reply::Failure(code)) => FeesStage::Failed(VaultError::CallFailed(code)),
        },
        FeesStage::Done => FeesStage::Done,
        FeesStage::Failed(e) => FeesStage::Failed(e),
    };
    let call = match next {
        FeesStage::Collecting => Some(collect_call(ctx)),
        _ => None,
    };
    (next, call)
}

} // verus!
