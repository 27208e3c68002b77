//! Binding tokens and the verification that mints them.
//!
//! A registration request names a vector and, in order, the drivers that share
//! it. [`register_interrupt`] checks every driver's declared vector against
//! the request and, if all agree, mints the [`BindingToken`] that certifies the
//! interrupt service routine of that vector: which handlers it calls, and in
//! which order. Nothing else can make a token, so holding one is the proof.

use vstd::prelude::*;
use crate::hal::Driver;
use crate::pac::Interrupt;

verus! {

/// What a token certifies: the service routine installed at `vector` calls
/// the handlers of exactly these drivers, in this order.
pub struct Binding {
    pub vector: Interrupt,
    pub handlers: Seq<Driver>,
    /// The priority to apply on activation, if the default was overridden.
    pub priority: Option<u8>,
}

impl Binding {
    /// Every handler of the routine belongs to a driver that declares the
    /// routine's vector.
    pub open spec fn wf(self) -> bool {
        consistent(self.vector, self.handlers)
    }

    /// Whether the routine calls the handler of `driver`.
    pub open spec fn authorizes(self, driver: Driver) -> bool {
        self.handlers.contains(driver)
    }

    /// Why the binding does not authorize `driver`.
    pub open spec fn refusal(self, driver: Driver) -> BindingError {
        if driver.vector() != self.vector {
            BindingError::Mismatch(
                BindingMismatch { driver, expected: self.vector, declared: driver.vector() },
            )
        } else {
            BindingError::Unbound { driver, vector: self.vector }
        }
    }
}

/// A driver declares another vector than the one it was to be bound to.
#[derive(Clone, Copy, Debug, PartialEq, Eq, Structural)]
pub struct BindingMismatch {
    /// The offending driver.
    pub driver: Driver,
    /// The vector of the binding.
    pub expected: Interrupt,
    /// The vector that the driver declares.
    pub declared: Interrupt,
}

/// Why a token does not authorize a driver.
#[derive(Clone, Copy, Debug, PartialEq, Eq, Structural)]
pub enum BindingError {
    /// The driver declares another vector than the token's.
    Mismatch(BindingMismatch),
    /// The vector is the driver's own, but the service routine of that vector
    /// does not call the driver's handler.
    Unbound { driver: Driver, vector: Interrupt },
}

/// A request to bind `vector` to `drivers`, whose handlers are to be called
/// in the order given.
#[derive(Debug)]
pub struct RegistrationRequest {
    pub vector: Interrupt,
    pub drivers: Vec<Driver>,
}

/// Whether every one of `drivers` declares `vector`.
pub open spec fn consistent(vector: Interrupt, drivers: Seq<Driver>) -> bool {
    forall|i: int| 0 <= i < drivers.len() ==> (#[trigger] drivers[i]).vector() == vector
}

/// The first of `drivers`, in order, that declares another vector than
/// `vector`.
pub open spec fn first_mismatch(vector: Interrupt, drivers: Seq<Driver>) -> Option<Driver>
    decreases drivers.len(),
{
    if drivers.len() == 0 {
        None
    } else if drivers[0].vector() != vector {
        Some(drivers[0])
    } else {
        first_mismatch(vector, drivers.skip(1))
    }
}

/// There is a first mismatch exactly when the drivers are not consistent
/// with the vector, and it is then one of the drivers and declares another
/// vector.
pub proof fn lemma_first_mismatch(vector: Interrupt, drivers: Seq<Driver>)
    ensures
        first_mismatch(vector, drivers) is None <==> consistent(vector, drivers),
        first_mismatch(vector, drivers) matches Some(driver) ==> drivers.contains(driver)
            && driver.vector() != vector,
    decreases drivers.len(),
{
    if drivers.len() > 0 {
        let rest = drivers.skip(1);
        lemma_first_mismatch(vector, rest);
        if drivers[0].vector() == vector {
            assert forall|i: int| 0 <= i < rest.len() implies (#[trigger] rest[i]).vector()
                == vector <==> drivers[i + 1].vector() == vector by {}
            if consistent(vector, rest) {
                assert forall|i: int| 0 <= i < drivers.len() implies (#[trigger] drivers[i]).vector()
                    == vector by {
                    if i > 0 {
                        assert(rest[i - 1] == drivers[i]);
                    }
                }
            }
            if let Some(driver) = first_mismatch(vector, rest) {
                let i = choose|i: int| 0 <= i < rest.len() && rest[i] == driver;
                assert(drivers[i + 1] == driver);
            }
        }
    }
}

/// Whether a driver that declares `candidate` may be bound to `authorized`.
///
/// The answer depends on the two vectors alone. Whoever knows them knows it
/// without running anything, and so does the verifier.
pub fn verify_binding(candidate: Interrupt, authorized: Interrupt) -> (ok: bool)
    ensures
        ok == (candidate == authorized),
{
    candidate == authorized
}

/// Proof that the service routine of one vector calls a known, ordered set of
/// handlers. The token is pending: the vector is still masked, and its
/// priority can still be overridden.
#[derive(Debug)]
pub struct BindingToken {
    vector: Interrupt,
    handlers: Vec<Driver>,
    priority: Option<u8>,
}

impl View for BindingToken {
    type V = Binding;

    closed spec fn view(&self) -> Binding {
        Binding { vector: self.vector, handlers: self.handlers@, priority: self.priority }
    }
}

impl BindingToken {
    #[verifier::type_invariant]
    closed spec fn certified(self) -> bool {
        self@.wf()
    }

    /// The vector that the token authorizes.
    pub fn vector(&self) -> (vector: Interrupt)
        ensures
            vector == self@.vector,
    {
        self.vector
    }

    /// The drivers whose handlers the service routine calls, in call order.
    /// Each of them declares the token's vector.
    pub fn handlers(&self) -> (handlers: &Vec<Driver>)
        ensures
            handlers@ == self@.handlers,
            self@.wf(),
    {
        proof {
            use_type_invariant(self);
        }
        &self.handlers
    }

    /// The priority override, if one was set.
    pub fn priority(&self) -> (priority: Option<u8>)
        ensures
            priority == self@.priority,
    {
        self.priority
    }

    /// Sets the priority that activation will apply in place of the default.
    pub fn override_priority(&mut self, new_priority: u8)
        ensures
            final(self)@ == (Binding { priority: Some(new_priority), ..old(self)@ }),
    {
        proof {
            use_type_invariant(&*self);
        }
        self.priority = Some(new_priority);
    }
}

impl Clone for BindingToken {
    /// A copy certifies what the token certifies. One binding may cover
    /// several drivers on a shared vector, and each of them is shown a copy.
    fn clone(&self) -> (copy: BindingToken)
        ensures
            copy@ == self@,
    {
        proof {
            use_type_invariant(self);
        }
        let handlers = self.handlers.clone();
        BindingToken { vector: self.vector, handlers, priority: self.priority }
    }
}

/// Verifies a registration request and mints its token.
///
/// The request is accepted exactly when every driver declares the request's
/// vector. The token then lists the drivers in the order of the request, with
/// no priority override. A rejected request names the first driver, in that
/// order, that declares another vector.
pub fn register_interrupt(request: &RegistrationRequest) -> (minted: Result<
    BindingToken,
    BindingMismatch,
>)
    ensures
        minted is Ok <==> consistent(request.vector, request.drivers@),
        match minted {
            Ok(token) => token@ == (Binding {
                vector: request.vector,
                handlers: request.drivers@,
                priority: None,
            }),
            Err(error) => first_mismatch(request.vector, request.drivers@) matches Some(driver)
                && error == (BindingMismatch {
                expected: request.vector,
                declared: driver.vector(),
                driver,
            }),
        },
{
    let mut handlers: Vec<Driver> = Vec::new();
    let mut i: usize = 0;
    proof {
        assert(request.drivers@.skip(0) =~= request.drivers@);
    }
    while i < request.drivers.len()
        invariant
            i <= request.drivers@.len(),
            handlers@ == request.drivers@.take(i as int),
            consistent(request.vector, handlers@),
            first_mismatch(request.vector, request.drivers@) == first_mismatch(
                request.vector,
                request.drivers@.skip(i as int),
            ),
        decreases request.drivers@.len() - i,
    {
        let driver: Driver = request.drivers[i];
        let declared: Interrupt = driver.vector();
        proof {
            assert(request.drivers@.skip(i as int).skip(1) =~= request.drivers@.skip(i + 1));
        }
        if !verify_binding(declared, request.vector) {
            proof {
                lemma_first_mismatch(request.vector, request.drivers@);
            }
            return Err(BindingMismatch { driver, expected: request.vector, declared });
        }
        handlers.push(driver);
        i += 1;
    }
    proof {
        lemma_first_mismatch(request.vector, request.drivers@);
    }
    Ok(BindingToken { vector: request.vector, handlers, priority: None })
}

} // verus!
