//! The interrupt controller and the one-time activation of a binding.
//!
//! Activation unmasks the token's vector and applies its priority override.
//! It consumes the pending token and returns an [`ActiveToken`], which has no
//! way to change the priority any more and is what a driver's constructor
//! accepts. Activating a vector that is already unmasked is reported as
//! [`DoubleActivation`] and changes nothing.

use vstd::prelude::*;
use crate::binding::{verify_binding, Binding, BindingError, BindingMismatch, BindingToken};
use crate::hal::Driver;
use crate::pac::Interrupt;

verus! {

/// One unmasked interrupt line.
#[derive(Clone, Copy, Debug, PartialEq, Eq, Structural)]
pub struct Line {
    pub vector: Interrupt,
    /// The priority that activation applied in place of the default.
    pub priority: Option<u8>,
}

/// A vector was activated twice. The caller must treat this as fatal: the
/// firmware may not go on with an ambiguous interrupt-enable state.
#[derive(Clone, Copy, Debug, PartialEq, Eq, Structural)]
pub struct DoubleActivation {
    pub vector: Interrupt,
}

/// The outcome of activating `binding` on a controller whose unmasked lines
/// are `lines`: the new lines, or the refusal.
pub open spec fn activation(lines: Map<Interrupt, Option<u8>>, binding: Binding) -> Result<
    Map<Interrupt, Option<u8>>,
    DoubleActivation,
> {
    if lines.dom().contains(binding.vector) {
        Err(DoubleActivation { vector: binding.vector })
    } else {
        Ok(lines.insert(binding.vector, binding.priority))
    }
}

/// A second activation of a vector is always refused, whatever token is used
/// for it and whatever priority it carries.
pub proof fn lemma_double_activation_refused(
    lines: Map<Interrupt, Option<u8>>,
    first: Binding,
    second: Binding,
)
    requires
        first.vector == second.vector,
    ensures
        activation(lines, first) matches Ok(unmasked) ==> activation(unmasked, second) == Err::<
            Map<Interrupt, Option<u8>>,
            DoubleActivation,
        >(DoubleActivation { vector: second.vector }),
{
}

/// Activation never masks a vector and never changes the priority of a line
/// that is unmasked already: what was enabled stays enabled as it is.
pub proof fn lemma_enabled_stays_enabled(
    lines: Map<Interrupt, Option<u8>>,
    binding: Binding,
    vector: Interrupt,
)
    requires
        lines.dom().contains(vector),
    ensures
        activation(lines, binding) matches Ok(unmasked) ==> unmasked.dom().contains(vector)
            && unmasked[vector] == lines[vector],
{
}

/// The interrupt-enable and priority registers of the platform.
///
/// Its view maps each unmasked vector to the priority override that was
/// applied to it. All vectors start masked, and none is ever masked again.
pub struct InterruptController {
    lines: Vec<Line>,
    unmasked: Ghost<Map<Interrupt, Option<u8>>>,
}

impl View for InterruptController {
    type V = Map<Interrupt, Option<u8>>;

    closed spec fn view(&self) -> Map<Interrupt, Option<u8>> {
        self.unmasked@
    }
}

impl InterruptController {
    #[verifier::type_invariant]
    closed spec fn consistent(self) -> bool {
        &&& forall|i: int|
            0 <= i < self.lines@.len() ==> self.unmasked@.dom().contains(
                (#[trigger] self.lines@[i]).vector,
            ) && self.unmasked@[self.lines@[i].vector] == self.lines@[i].priority
        &&& forall|vector: Interrupt| #[trigger]
            self.unmasked@.dom().contains(vector) ==> exists|i: int|
                0 <= i < self.lines@.len() && (#[trigger] self.lines@[i]).vector == vector
    }

    /// A controller with every vector masked.
    pub fn new() -> (controller: InterruptController)
        ensures
            controller@ == Map::<Interrupt, Option<u8>>::empty(),
    {
        InterruptController { lines: Vec::new(), unmasked: Ghost(Map::empty()) }
    }

    /// The line of `vector`, if it is unmasked.
    pub fn line(&self, vector: Interrupt) -> (line: Option<Line>)
        ensures
            line == if self@.dom().contains(vector) {
                Some(Line { vector, priority: self@[vector] })
            } else {
                None
            },
    {
        proof {
            use_type_invariant(self);
        }
        let mut i: usize = 0;
        while i < self.lines.len()
            invariant
                i <= self.lines@.len(),
                forall|j: int| 0 <= j < i ==> (#[trigger] self.lines@[j]).vector != vector,
            decreases self.lines@.len() - i,
        {
            if self.lines[i].vector == vector {
                proof {
                    use_type_invariant(self);
                }
                return Some(self.lines[i]);
            }
            i += 1;
        }
        proof {
            use_type_invariant(self);
        }
        None
    }

    /// Whether `vector` is unmasked.
    pub fn is_enabled(&self, vector: Interrupt) -> (enabled: bool)
        ensures
            enabled == self@.dom().contains(vector),
    {
        self.line(vector).is_some()
    }
}

/// Proof of a binding whose vector is unmasked. This is what a driver's
/// constructor accepts.
#[derive(Debug)]
pub struct ActiveToken {
    binding: BindingToken,
}

impl View for ActiveToken {
    type V = Binding;

    closed spec fn view(&self) -> Binding {
        self.binding@
    }
}

impl Clone for ActiveToken {
    /// A copy certifies what the token certifies.
    fn clone(&self) -> (copy: ActiveToken)
        ensures
            copy@ == self@,
    {
        ActiveToken { binding: self.binding.clone() }
    }
}

impl ActiveToken {
    /// The unmasked vector.
    pub fn vector(&self) -> (vector: Interrupt)
        ensures
            vector == self@.vector,
    {
        self.binding.vector()
    }

    /// The drivers whose handlers the service routine calls, in call order.
    /// Each of them declares the token's vector.
    pub fn handlers(&self) -> (handlers: &Vec<Driver>)
        ensures
            handlers@ == self@.handlers,
            self@.wf(),
    {
        self.binding.handlers()
    }

    /// The priority override that activation applied.
    pub fn priority(&self) -> (priority: Option<u8>)
        ensures
            priority == self@.priority,
    {
        self.binding.priority()
    }

    /// Checks that the token authorizes `driver`: that the service routine
    /// of the token's vector calls the driver's handler. A refusal says
    /// whether the driver declares another vector or is missing from the
    /// routine of its own vector.
    pub fn authorize(&self, driver: Driver) -> (verdict: Result<(), BindingError>)
        ensures
            self@.wf(),
            verdict is Ok <==> self@.authorizes(driver),
            verdict matches Err(refusal) ==> refusal == self@.refusal(driver),
    {
        let handlers = self.handlers();
        let declared: Interrupt = driver.vector();
        let expected: Interrupt = self.vector();
        if !verify_binding(declared, expected) {
            return Err(BindingError::Mismatch(BindingMismatch { driver, expected, declared }));
        }
        let mut i: usize = 0;
        while i < handlers.len()
            invariant
                i <= handlers@.len(),
                handlers@ == self@.handlers,
                self@.wf(),
                forall|j: int| 0 <= j < i ==> handlers@[j] != driver,
            decreases handlers@.len() - i,
        {
            if handlers[i] == driver {
                return Ok(());
            }
            i += 1;
        }
        Err(BindingError::Unbound { driver, vector: expected })
    }
}

impl BindingToken {
    /// Unmasks the token's vector and applies its priority override.
    ///
    /// This is the only code that touches the controller. A vector can be
    /// activated once: a second activation is refused and leaves the
    /// controller as it was.
    pub fn activate(self, controller: &mut InterruptController) -> (enabled: Result<
        ActiveToken,
        DoubleActivation,
    >)
        ensures
            match enabled {
                Ok(active) => active@ == self@ && activation(old(controller)@, self@) == Ok::<
                    Map<Interrupt, Option<u8>>,
                    DoubleActivation,
                >(final(controller)@),
                Err(refused) => final(controller)@ == old(controller)@ && activation(
                    old(controller)@,
                    self@,
                ) == Err::<Map<Interrupt, Option<u8>>, DoubleActivation>(refused),
            },
    {
        let vector: Interrupt = self.vector();
        if controller.is_enabled(vector) {
            return Err(DoubleActivation { vector });
        }
        let line = Line { vector, priority: self.priority() };
        let mut taken = InterruptController::new();
        std::mem::swap(controller, &mut taken);
        proof {
            use_type_invariant(&taken);
        }
        let InterruptController { lines: mut lines, unmasked: Ghost(before) } = taken;
        let ghost lines_before = lines@;
        let ghost unmasked = before.insert(vector, line.priority);
        lines.push(line);
        proof {
            assert forall|other: Interrupt| #[trigger]
                unmasked.dom().contains(other) implies exists|i: int|
                0 <= i < lines@.len() && (#[trigger] lines@[i]).vector == other by {
                if other == vector {
                    assert(lines@[lines_before.len() as int].vector == vector);
                } else {
                    let i = choose|i: int|
                        0 <= i < lines_before.len() && (#[trigger] lines_before[i]).vector == other;
                    assert(lines@[i].vector == other);
                }
            }
        }
        *controller = InterruptController { lines, unmasked: Ghost(unmasked) };
        Ok(ActiveToken { binding: self })
    }
}

} // verus!
