use vstd::prelude::*;

verus! {

/// A control-plane endpoint that accepts sessions and never answers, for
/// exercising client behaviour when fresh policy never arrives. Only the
/// marker lives here: its listening loop is plain socket work owned by the
/// runtime around the library, like the rest of the control-plane wiring.
pub struct UnresponsiveAdsServer {}

impl UnresponsiveAdsServer {
    /// The marker itself carries no state.
    pub fn new() -> (r: UnresponsiveAdsServer) {
        UnresponsiveAdsServer {}
    }
}

} // verus!
