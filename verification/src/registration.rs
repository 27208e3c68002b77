//! The two contracts between the binding machinery and a hardware
//! abstraction layer: what a driver type declares, and what a token type
//! certifies.

use vstd::prelude::*;
use crate::binding::BindingError;

verus! {

/// Implemented by each driver type: the driver declares, once, the vector it
/// services and the number of waker slots it needs, and it provides the
/// handler that the vector's service routine calls.
pub trait InterruptRegistration<Vector>: Sized {
    /// The vector whose service routine calls this driver's handler.
    const VECTOR: Vector;

    /// The number of waker slots that the driver posts wakeups to.
    const WAKERS: usize;

    /// Whether the driver's own peripheral has raised an event that the
    /// handler has not yet serviced.
    spec fn pending(&self) -> bool;

    /// The driver's interrupt handler.
    ///
    /// On a shared vector the routine calls every handler, whichever
    /// peripheral raised the event. So the handler looks at its own
    /// peripheral only, and where that has nothing pending it does nothing.
    /// It runs in interrupt context, so it has no way to report a failure.
    fn on_interrupt(&mut self)
        ensures
            !final(self).pending(),
            !old(self).pending() ==> *final(self) == *old(self),
    ;
}

/// Implemented by a token type for each peripheral whose driver it can be
/// asked about.
pub trait InterruptToken<Peripheral> {
    /// Whether the service routine that this token certifies calls the
    /// handler of the driver of `peripheral`.
    spec fn authorizes(&self, peripheral: &Peripheral) -> bool;

    /// Checks the token for the driver of `peripheral`, for use by that
    /// driver's constructor.
    fn verify(&self, peripheral: &Peripheral) -> (verdict: Result<(), BindingError>)
        ensures
            verdict is Ok <==> self.authorizes(peripheral),
    ;
}

} // verus!
