//! The host's clock.

use vstd::prelude::*;

verus! {

/// `ic_cdk::api::time`: the host's clock, in nanoseconds since 1970. It has
/// no contract: two readings may differ, and the rules that use a reading are
/// verified for every value of it.
#[verifier::external_body]
pub(crate) fn current_time() -> (now: u64) {
    ic_cdk::api::time()
}

} // verus!
