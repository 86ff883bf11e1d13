//! Services that perform operations, and the guarded dispatch to them.
use vstd::prelude::*;
use crate::bridge::{DispatchError, authorize};
use crate::vocabulary::CapToEnum;

verus! {

/// A service that can perform operations carried by `Operation`.
pub trait Capability<Operation> {
    type Data;
    type Error;

    fn perform(&self, op: Operation) -> Result<Self::Data, Self::Error>;
}

/// Runs `op` on `service` if the presented capability is the one the
/// operation is bound to; otherwise rejects it without running anything.
pub fn dispatch<S, Op>(service: &S, op: Op, presented: crate::vocabulary::Capability) -> (r: Result<
    S::Data,
    DispatchError<S::Error>,
>) where S: Capability<Op>, Op: CapToEnum
    ensures
        (presented != op.bound_capability()) == (r is Err && r->Err_0 is Unauthorized),
{
    if !authorize(&op, presented) {
        return Err(DispatchError::Unauthorized);
    }
    match service.perform(op) {
        Ok(d) => Ok(d),
        Err(e) => Err(DispatchError::Failed(e)),
    }
}

} // verus!
