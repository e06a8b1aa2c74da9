//! The invocation's decisions: what to do with a batch, and how to conclude
//! once the delete call has completed.
//!
//! The surrounding process performs the only outside step, the batched
//! delete call, between `plan_invocation` and `finish_invocation`; both
//! decisions themselves are verified here.

use crate::errors::HandlerError;
use crate::event::{prefix_sums_fit, record_key, NotificationBatch};
use crate::plan::{build_delete_plan, DeletePlan};
use vstd::prelude::*;

verus! {

/// What one invocation decided to do with its batch.
pub enum InvocationPlan {
    /// The batch was empty: warn and complete at once; no delete call is
    /// issued.
    EmptyBatch,
    /// Issue one batched delete call for the plan's objects, then report
    /// the plan's byte total.
    Delete(DeletePlan),
}

/// Decide the invocation. An empty batch is benign: it completes with no
/// delete call. A non-empty batch either becomes a single delete plan or
/// fails the invocation; nothing is deleted on failure.
pub fn plan_invocation(batch: &NotificationBatch) -> (r: Result<InvocationPlan, HandlerError>)
    requires
        prefix_sums_fit(batch.records@),
    ensures
        batch.records@.len() == 0 ==> (r matches Ok(p) && p is EmptyBatch),
        batch.records@.len() > 0 ==> match r {
            Ok(p) => p matches InvocationPlan::Delete(plan) && plan.matches_batch(batch.records@),
            Err(e) => {
                &&& (e == HandlerError::MissingBucket <==> batch.records@[0].bucket is None)
                &&& (e == HandlerError::IdentifierBuild ==> (batch.records@[0].bucket is Some
                    && exists|i: int|
                    0 <= i < batch.records@.len() && record_key(
                        #[trigger] batch.records@[i],
                    ).len() == 0))
                &&& e != HandlerError::DeleteRequest
            },
        },
{
    if batch.records.len() == 0 {
        return Ok(InvocationPlan::EmptyBatch);
    }
    match build_delete_plan(batch) {
        Ok(plan) => Ok(InvocationPlan::Delete(plan)),
        Err(e) => Err(e),
    }
}

/// Conclude an invocation after its delete call. On success the plan's
/// byte total is handed out for the size report; on failure the invocation
/// fails and no total is handed out, so no size report is emitted.
pub fn finish_invocation(plan: &DeletePlan, delete_succeeded: bool) -> (r: Result<
    i64,
    HandlerError,
>)
    ensures
        delete_succeeded ==> (r matches Ok(total) && total == plan.total_bytes),
        !delete_succeeded ==> (r matches Err(e) && e == HandlerError::DeleteRequest),
{
    if delete_succeeded {
        Ok(plan.total_bytes)
    } else {
        Err(HandlerError::DeleteRequest)
    }
}

} // verus!
