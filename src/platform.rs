//! Pieces of the platform protocol that are decided rather than fetched.

use vstd::prelude::*;
use crate::text::{decimal, decimal_string};

verus! {

/// The full reference name of a branch.
pub open spec fn branch_ref_spec(branch: Seq<char>) -> Seq<char> {
    "refs/heads/"@ + branch
}

/// Builds `refs/heads/<branch>`.
pub fn branch_ref(branch: &str) -> (r: String)
    ensures
        r@ == branch_ref_spec(branch@),
{
    String::from_str("refs/heads/").concat(branch)
}

/// Whether an HTTP status code reports success.
pub open spec fn is_success(status: u16) -> bool {
    200 <= status < 300
}

/// The error of a status request that the platform refused.
pub open spec fn refused_status_text(status: u16) -> Seq<char> {
    "Failed to get combined status: "@ + decimal(status as int)
}

/// The error of a status answer that names no state.
pub open spec fn missing_state_text() -> Seq<char> {
    "Combined status response has no state"@
}

/// Reads a combined-status answer with HTTP status `status` whose body
/// named `state`: a refused request and an answer without a state are
/// errors; otherwise the state, whatever it says.
pub fn combined_state(status: u16, state: Option<String>) -> (r: Result<String, String>)
    ensures
        !is_success(status) ==> (r matches Err(e) && e@ == refused_status_text(status)),
        is_success(status) && state is None ==> (r matches Err(e) && e@ == missing_state_text()),
        is_success(status) && state is Some ==> (r matches Ok(s) && s@ == state->0@),
{
    if status < 200 || status >= 300 {
        let code = decimal_string(status as i64);
        Err(String::from_str("Failed to get combined status: ").concat(code.as_str()))
    } else {
        match state {
            Some(s) => Ok(s),
            None => Err(String::from_str("Combined status response has no state")),
        }
    }
}

} // verus!
