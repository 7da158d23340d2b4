use vstd::prelude::*;
use crate::errors::{ClassifiedError, ErrorModel, status_error_model};

verus! {

/// The fixed upload ceiling, in bytes per second, applied while any playback
/// session is active. Zero means unlimited.
pub const THROTTLED_UPLOAD_LIMIT: u32 = 1000;

/// The upload limit a session count maps to: zero sessions lift the cap
/// entirely; any positive count, whatever its magnitude, applies the one
/// fixed ceiling.
pub open spec fn limit_for(sessions: nat) -> u32 {
    if sessions == 0 {
        0u32
    } else {
        THROTTLED_UPLOAD_LIMIT
    }
}

/// Maps the sampled session count to the upload limit to apply this cycle.
pub fn derive_limit(sessions: usize) -> (limit: u32)
    ensures
        limit == limit_for(sessions as nat),
{
    if sessions > 0 {
        THROTTLED_UPLOAD_LIMIT
    } else {
        0
    }
}

/// What an apply-limit response yields: success is strictly HTTP 200; 401
/// and 403 are auth rejections; anything else is transient.
pub open spec fn apply_outcome_model(status: u16) -> Result<(), ErrorModel> {
    if status == 200 {
        Ok(())
    } else {
        Err(status_error_model(status))
    }
}

/// The model of an apply-limit result as the control loop sees it.
pub open spec fn unit_result_model(r: Result<(), ClassifiedError>) -> Result<(), ErrorModel> {
    match r {
        Ok(u) => Ok(u),
        Err(e) => Err(e@),
    }
}

/// Classifies the response to a set-upload-limit call.
pub fn apply_outcome(status: u16) -> (r: Result<(), ClassifiedError>)
    ensures
        unit_result_model(r) == apply_outcome_model(status),
{
    if status == 200 {
        Ok(())
    } else {
        Err(crate::errors::classify_status(status))
    }
}

/// All positive session counts throttle to the identical fixed ceiling, and
/// only a count of zero lifts the cap.
pub proof fn lemma_limit_is_binary(n1: nat, n2: nat)
    requires
        n1 > 0,
        n2 > 0,
    ensures
        limit_for(n1) == limit_for(n2),
        limit_for(n1) == THROTTLED_UPLOAD_LIMIT,
        limit_for(0) == 0,
{
}

} // verus!
