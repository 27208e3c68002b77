//! Hardware abstraction layer: the peripheral drivers of the platform.
//!
//! A driver is constructed from the handle of its peripheral and an active
//! token. The constructor accepts no bare vector: it verifies that the
//! token's service routine calls this driver's handler, and only then makes
//! the driver. So for every driver that exists, its declared vector is the
//! vector of its token, the routine of that vector calls its handler, and the
//! routine of no other vector does.

use vstd::prelude::*;
use crate::binding::{Binding, BindingError};
use crate::controller::ActiveToken;
use crate::pac::{Interrupt, SPI0, UART0, UART1, UART2};
use crate::registration::{InterruptRegistration, InterruptToken};
use crate::waker::{woken_all, SlotState, Waker, WakerBank};

pub use crate::pac;

verus! {

/// The driver types of the platform, as values: what a registration request
/// lists and what an error names.
#[derive(Clone, Copy, Debug, PartialEq, Eq, Structural)]
pub enum Driver {
    Spi,
    Uart0,
    Uart1,
    Uart2,
}

impl Driver {
    /// The vector that the driver type declares.
    pub open spec fn vector_spec(self) -> Interrupt {
        match self {
            Driver::Spi => Interrupt::Spi0,
            Driver::Uart0 => Interrupt::Uart0_1,
            Driver::Uart1 => Interrupt::Uart0_1,
            Driver::Uart2 => Interrupt::Uart2,
        }
    }

    /// The vector that the driver type declares, read from the type's own
    /// declaration.
    #[verifier::when_used_as_spec(vector_spec)]
    pub fn vector(self) -> (vector: Interrupt)
        ensures
            vector == self.vector_spec(),
        no_unwind
    {
        match self {
            Driver::Spi => <Spi as InterruptRegistration<Interrupt>>::VECTOR,
            Driver::Uart0 => <Uart0 as InterruptRegistration<Interrupt>>::VECTOR,
            Driver::Uart1 => <Uart1 as InterruptRegistration<Interrupt>>::VECTOR,
            Driver::Uart2 => <Uart2 as InterruptRegistration<Interrupt>>::VECTOR,
        }
    }

    /// The number of waker slots that the driver type declares.
    pub open spec fn wakers_spec(self) -> usize {
        match self {
            Driver::Spi => 0,
            Driver::Uart0 => 2,
            Driver::Uart1 => 2,
            Driver::Uart2 => 2,
        }
    }

    /// The number of waker slots that the driver type declares, read from
    /// the type's own declaration.
    #[verifier::when_used_as_spec(wakers_spec)]
    pub fn wakers(self) -> (count: usize)
        ensures
            count == self.wakers_spec(),
        no_unwind
    {
        match self {
            Driver::Spi => <Spi as InterruptRegistration<Interrupt>>::WAKERS,
            Driver::Uart0 => <Uart0 as InterruptRegistration<Interrupt>>::WAKERS,
            Driver::Uart1 => <Uart1 as InterruptRegistration<Interrupt>>::WAKERS,
            Driver::Uart2 => <Uart2 as InterruptRegistration<Interrupt>>::WAKERS,
        }
    }
}

/// What each driver type declares is what [`Driver::vector`] and
/// [`Driver::wakers`] say of it.
pub proof fn lemma_declarations()
    ensures
        <Spi as InterruptRegistration<Interrupt>>::VECTOR == Driver::Spi.vector(),
        <Uart0 as InterruptRegistration<Interrupt>>::VECTOR == Driver::Uart0.vector(),
        <Uart1 as InterruptRegistration<Interrupt>>::VECTOR == Driver::Uart1.vector(),
        <Uart2 as InterruptRegistration<Interrupt>>::VECTOR == Driver::Uart2.vector(),
        <Spi as InterruptRegistration<Interrupt>>::WAKERS == Driver::Spi.wakers(),
        <Uart0 as InterruptRegistration<Interrupt>>::WAKERS == Driver::Uart0.wakers(),
        <Uart1 as InterruptRegistration<Interrupt>>::WAKERS == Driver::Uart1.wakers(),
        <Uart2 as InterruptRegistration<Interrupt>>::WAKERS == Driver::Uart2.wakers(),
{
}

/// What a live driver holds.
pub struct DriverState {
    pub driver: Driver,
    /// The binding that the driver was constructed with.
    pub binding: Binding,
    /// The driver's own waker slots.
    pub wakers: Seq<SlotState>,
    /// Whether the driver's peripheral has an unserviced event.
    pub pending: bool,
}

impl DriverState {
    /// The driver's vector is the vector of its binding, the service routine
    /// of that vector calls the driver's handler, and the bank has exactly the
    /// declared number of slots.
    pub open spec fn wf(self) -> bool {
        &&& self.binding.wf()
        &&& self.binding.authorizes(self.driver)
        &&& self.wakers.len() == self.driver.wakers()
    }

    /// The state of a driver that was just constructed with `binding`.
    pub open spec fn bound(driver: Driver, binding: Binding) -> DriverState {
        DriverState {
            driver,
            binding,
            wakers: Seq::new(driver.wakers() as nat, |i: int| SlotState::Idle),
            pending: false,
        }
    }

    /// The state after `waker` was registered in slot `index`; without such
    /// a slot nothing changes.
    pub open spec fn registered(self, index: usize, waker: Waker) -> DriverState {
        if index < self.wakers.len() {
            DriverState {
                wakers: self.wakers.update(index as int, self.wakers[index as int].registered(waker)),
                ..self
            }
        } else {
            self
        }
    }

    /// The notification that a read of slot `index` observes.
    pub open spec fn notification(self, index: usize) -> Option<Waker> {
        if index < self.wakers.len() {
            self.wakers[index as int].notification()
        } else {
            None
        }
    }

    /// The state after a read of slot `index`; without such a slot nothing
    /// changes.
    pub open spec fn consumed(self, index: usize) -> DriverState {
        if index < self.wakers.len() {
            DriverState {
                wakers: self.wakers.update(index as int, self.wakers[index as int].consumed()),
                ..self
            }
        } else {
            self
        }
    }

    /// The state after the driver's handler ran: a pending event is cleared
    /// and every slot of the driver is woken; without a pending event nothing
    /// changes.
    pub open spec fn serviced(self) -> DriverState {
        if self.pending {
            DriverState { pending: false, wakers: woken_all(self.wakers), ..self }
        } else {
            self
        }
    }
}

/// A driver is serviced by the routine of its declared vector and by no
/// other: a binding that calls the driver's handler is a binding of that
/// vector.
pub proof fn lemma_serviced_by_own_vector_only(state: DriverState, routine: Binding)
    requires
        state.wf(),
        routine.wf(),
        routine.authorizes(state.driver),
    ensures
        routine.vector == state.driver.vector(),
        routine.vector == state.binding.vector,
{
    let i = choose|i: int| 0 <= i < routine.handlers.len() && routine.handlers[i] == state.driver;
    assert(routine.handlers[i].vector() == routine.vector);
    let j = choose|j: int|
        0 <= j < state.binding.handlers.len() && state.binding.handlers[j] == state.driver;
    assert(state.binding.handlers[j].vector() == state.binding.vector);
}

/// The part that all drivers of the platform share: the token a driver was
/// constructed with, its waker bank and the event flag of its peripheral.
///
/// The bank is made once, with the number of slots that the driver type
/// declares, and is never resized: a driver cannot have more wakers than its
/// bank has slots.
#[derive(Debug)]
pub struct DriverInstance {
    driver: Driver,
    token: ActiveToken,
    wakers: WakerBank,
    pending: bool,
}

impl View for DriverInstance {
    type V = DriverState;

    closed spec fn view(&self) -> DriverState {
        DriverState {
            driver: self.driver,
            binding: self.token@,
            wakers: self.wakers@,
            pending: self.pending,
        }
    }
}

impl DriverInstance {
    #[verifier::type_invariant]
    closed spec fn bound(self) -> bool {
        self@.wf()
    }

    /// Makes the instance of `driver` from a token that authorizes it, with a
    /// bank of the declared size.
    fn bind(driver: Driver, token: ActiveToken) -> (instance: DriverInstance)
        requires
            token@.wf(),
            token@.authorizes(driver),
        ensures
            instance@ == DriverState::bound(driver, token@),
    {
        let wakers = WakerBank::new(driver.wakers());
        DriverInstance { driver, token, wakers, pending: false }
    }

    /// Which driver this is.
    pub fn driver(&self) -> (driver: Driver)
        ensures
            driver == self@.driver,
            self@.wf(),
    {
        proof {
            use_type_invariant(self);
        }
        self.driver
    }

    /// The token that the driver was constructed with.
    pub fn token(&self) -> (token: &ActiveToken)
        ensures
            token@ == self@.binding,
    {
        &self.token
    }

    /// The driver's waker bank.
    pub fn wakers(&self) -> (wakers: &WakerBank)
        ensures
            wakers@ == self@.wakers,
    {
        &self.wakers
    }

    /// Whether the peripheral has an unserviced event.
    pub fn is_pending(&self) -> (pending: bool)
        ensures
            pending == self@.pending,
    {
        self.pending
    }

    /// Records that the peripheral raised an event.
    fn raise(&mut self)
        ensures
            final(self)@ == (DriverState { pending: true, ..old(self)@ }),
        no_unwind
    {
        proof {
            use_type_invariant(&*self);
        }
        self.pending = true;
    }

    /// Registers `waker` in slot `index` of the bank, if there is such a
    /// slot.
    fn register(&mut self, index: usize, waker: Waker) -> (stored: bool)
        ensures
            stored == (index < old(self)@.wakers.len()),
            final(self)@ == old(self)@.registered(index, waker),
        no_unwind
    {
        proof {
            use_type_invariant(&*self);
        }
        self.wakers.register(index, waker)
    }

    /// Hands out and clears the ready notification of slot `index`.
    fn take_ready(&mut self, index: usize) -> (ready: Option<Waker>)
        ensures
            ready == old(self)@.notification(index),
            final(self)@ == old(self)@.consumed(index),
        no_unwind
    {
        proof {
            use_type_invariant(&*self);
        }
        self.wakers.take_ready(index)
    }

    /// The handler that all drivers share: clears a pending event and wakes
    /// every slot of the bank. It allocates nothing and does not unwind.
    fn on_interrupt(&mut self)
        ensures
            final(self)@ == old(self)@.serviced(),
            !old(self)@.pending ==> *final(self) == *old(self),
        no_unwind
    {
        proof {
            use_type_invariant(&*self);
        }
        if self.pending {
            self.pending = false;
            self.wakers.wake_all();
        }
    }
}

/// Driver of the SPI peripheral. It wakes no task.
#[derive(Debug)]
pub struct Spi {
    spi: SPI0,
    instance: DriverInstance,
}

impl View for Spi {
    type V = DriverState;

    closed spec fn view(&self) -> DriverState {
        self.instance@
    }
}

impl InterruptToken<SPI0> for ActiveToken {
    open spec fn authorizes(&self, peripheral: &SPI0) -> bool {
        self@.authorizes(Driver::Spi)
    }

    fn verify(&self, peripheral: &SPI0) -> (verdict: Result<(), BindingError>)
        ensures
            self@.wf(),
            verdict matches Err(refusal) ==> refusal == self@.refusal(Driver::Spi),
    {
        self.authorize(Driver::Spi)
    }
}

impl Spi {
    #[verifier::type_invariant]
    closed spec fn typed(self) -> bool {
        self.instance@.driver == Driver::Spi
    }

    /// Takes the peripheral and a token, and makes the driver if the token
    /// authorizes it: if the service routine of the token's vector calls the
    /// handler of this driver. The new driver owns the peripheral, has
    /// nothing pending and has a bank of empty slots.
    pub fn new(spi: SPI0, interrupt_token: ActiveToken) -> (made: Result<Spi, BindingError>)
        ensures
            made is Ok <==> interrupt_token@.authorizes(Driver::Spi),
            match made {
                Ok(driver) => driver@ == DriverState::bound(Driver::Spi, interrupt_token@),
                Err(refusal) => refusal == interrupt_token@.refusal(Driver::Spi),
            },
    {
        match interrupt_token.verify(&spi) {
            Ok(()) => Ok(
                Spi { spi, instance: DriverInstance::bind(Driver::Spi, interrupt_token) },
            ),
            Err(refusal) => Err(refusal),
        }
    }

    /// The driver's token, bank and event flag, for reading.
    pub fn instance(&self) -> (instance: &DriverInstance)
        ensures
            instance@ == self@,
            self@.driver == Driver::Spi,
            self@.wf(),
    {
        proof {
            use_type_invariant(self);
            use_type_invariant(&self.instance);
        }
        &self.instance
    }

    /// Records that the peripheral raised an event.
    pub fn raise(&mut self)
        ensures
            final(self)@ == (DriverState { pending: true, ..old(self)@ }),
        no_unwind
    {
        proof {
            use_type_invariant(&*self);
        }
        self.instance.raise();
    }

    /// Registers `waker` in slot `index` of the driver's bank. Returns
    /// whether the bank has such a slot; without one nothing changes.
    pub fn register(&mut self, index: usize, waker: Waker) -> (stored: bool)
        ensures
            stored == (index < old(self)@.wakers.len()),
            final(self)@ == old(self)@.registered(index, waker),
        no_unwind
    {
        proof {
            use_type_invariant(&*self);
        }
        self.instance.register(index, waker)
    }

    /// The executor's read of slot `index`: hands out the slot's ready
    /// notification, if there is one, and clears it.
    pub fn take_ready(&mut self, index: usize) -> (ready: Option<Waker>)
        ensures
            ready == old(self)@.notification(index),
            final(self)@ == old(self)@.consumed(index),
        no_unwind
    {
        proof {
            use_type_invariant(&*self);
        }
        self.instance.take_ready(index)
    }
}

impl InterruptRegistration<Interrupt> for Spi {
    const VECTOR: Interrupt = Interrupt::Spi0;

    const WAKERS: usize = 0;

    open spec fn pending(&self) -> bool {
        self@.pending
    }

    /// Services the peripheral: a pending event is cleared and every slot of
    /// the driver's bank is woken.
    fn on_interrupt(&mut self)
        ensures
            final(self)@ == old(self)@.serviced(),
    {
        proof {
            use_type_invariant(&*self);
        }
        self.instance.on_interrupt();
    }
}

/// Driver of the first UART, with one waker slot for each direction. It
/// shares its vector with [`Uart1`].
#[derive(Debug)]
pub struct Uart0 {
    uart: UART0,
    instance: DriverInstance,
}

impl View for Uart0 {
    type V = DriverState;

    closed spec fn view(&self) -> DriverState {
        self.instance@
    }
}

impl InterruptToken<UART0> for ActiveToken {
    open spec fn authorizes(&self, peripheral: &UART0) -> bool {
        self@.authorizes(Driver::Uart0)
    }

    fn verify(&self, peripheral: &UART0) -> (verdict: Result<(), BindingError>)
        ensures
            self@.wf(),
            verdict matches Err(refusal) ==> refusal == self@.refusal(Driver::Uart0),
    {
        self.authorize(Driver::Uart0)
    }
}

impl Uart0 {
    #[verifier::type_invariant]
    closed spec fn typed(self) -> bool {
        self.instance@.driver == Driver::Uart0
    }

    /// Takes the peripheral and a token, and makes the driver if the token
    /// authorizes it: if the service routine of the token's vector calls the
    /// handler of this driver. The new driver owns the peripheral, has
    /// nothing pending and has a bank of empty slots.
    pub fn new(uart: UART0, interrupt_token: ActiveToken) -> (made: Result<Uart0, BindingError>)
        ensures
            made is Ok <==> interrupt_token@.authorizes(Driver::Uart0),
            match made {
                Ok(driver) => driver@ == DriverState::bound(Driver::Uart0, interrupt_token@),
                Err(refusal) => refusal == interrupt_token@.refusal(Driver::Uart0),
            },
    {
        match interrupt_token.verify(&uart) {
            Ok(()) => Ok(
                Uart0 { uart, instance: DriverInstance::bind(Driver::Uart0, interrupt_token) },
            ),
            Err(refusal) => Err(refusal),
        }
    }

    /// The driver's token, bank and event flag, for reading.
    pub fn instance(&self) -> (instance: &DriverInstance)
        ensures
            instance@ == self@,
            self@.driver == Driver::Uart0,
            self@.wf(),
    {
        proof {
            use_type_invariant(self);
            use_type_invariant(&self.instance);
        }
        &self.instance
    }

    /// Records that the peripheral raised an event.
    pub fn raise(&mut self)
        ensures
            final(self)@ == (DriverState { pending: true, ..old(self)@ }),
        no_unwind
    {
        proof {
            use_type_invariant(&*self);
        }
        self.instance.raise();
    }

    /// Registers `waker` in slot `index` of the driver's bank. Returns
    /// whether the bank has such a slot; without one nothing changes.
    pub fn register(&mut self, index: usize, waker: Waker) -> (stored: bool)
        ensures
            stored == (index < old(self)@.wakers.len()),
            final(self)@ == old(self)@.registered(index, waker),
        no_unwind
    {
        proof {
            use_type_invariant(&*self);
        }
        self.instance.register(index, waker)
    }

    /// The executor's read of slot `index`: hands out the slot's ready
    /// notification, if there is one, and clears it.
    pub fn take_ready(&mut self, index: usize) -> (ready: Option<Waker>)
        ensures
            ready == old(self)@.notification(index),
            final(self)@ == old(self)@.consumed(index),
        no_unwind
    {
        proof {
            use_type_invariant(&*self);
        }
        self.instance.take_ready(index)
    }
}

impl InterruptRegistration<Interrupt> for Uart0 {
    const VECTOR: Interrupt = Interrupt::Uart0_1;

    const WAKERS: usize = 2;

    open spec fn pending(&self) -> bool {
        self@.pending
    }

    /// Services the peripheral: a pending event is cleared and every slot of
    /// the driver's bank is woken.
    fn on_interrupt(&mut self)
        ensures
            final(self)@ == old(self)@.serviced(),
    {
        proof {
            use_type_invariant(&*self);
        }
        self.instance.on_interrupt();
    }
}

/// Driver of the second UART, with one waker slot for each direction. It
/// shares its vector with [`Uart0`].
#[derive(Debug)]
pub struct Uart1 {
    uart: UART1,
    instance: DriverInstance,
}

impl View for Uart1 {
    type V = DriverState;

    closed spec fn view(&self) -> DriverState {
        self.instance@
    }
}

impl InterruptToken<UART1> for ActiveToken {
    open spec fn authorizes(&self, peripheral: &UART1) -> bool {
        self@.authorizes(Driver::Uart1)
    }

    fn verify(&self, peripheral: &UART1) -> (verdict: Result<(), BindingError>)
        ensures
            self@.wf(),
            verdict matches Err(refusal) ==> refusal == self@.refusal(Driver::Uart1),
    {
        self.authorize(Driver::Uart1)
    }
}

impl Uart1 {
    #[verifier::type_invariant]
    closed spec fn typed(self) -> bool {
        self.instance@.driver == Driver::Uart1
    }

    /// Takes the peripheral and a token, and makes the driver if the token
    /// authorizes it: if the service routine of the token's vector calls the
    /// handler of this driver. The new driver owns the peripheral, has
    /// nothing pending and has a bank of empty slots.
    pub fn new(uart: UART1, interrupt_token: ActiveToken) -> (made: Result<Uart1, BindingError>)
        ensures
            made is Ok <==> interrupt_token@.authorizes(Driver::Uart1),
            match made {
                Ok(driver) => driver@ == DriverState::bound(Driver::Uart1, interrupt_token@),
                Err(refusal) => refusal == interrupt_token@.refusal(Driver::Uart1),
            },
    {
        match interrupt_token.verify(&uart) {
            Ok(()) => Ok(
                Uart1 { uart, instance: DriverInstance::bind(Driver::Uart1, interrupt_token) },
            ),
            Err(refusal) => Err(refusal),
        }
    }

    /// The driver's token, bank and event flag, for reading.
    pub fn instance(&self) -> (instance: &DriverInstance)
        ensures
            instance@ == self@,
            self@.driver == Driver::Uart1,
            self@.wf(),
    {
        proof {
            use_type_invariant(self);
            use_type_invariant(&self.instance);
        }
        &self.instance
    }

    /// Records that the peripheral raised an event.
    pub fn raise(&mut self)
        ensures
            final(self)@ == (DriverState { pending: true, ..old(self)@ }),
        no_unwind
    {
        proof {
            use_type_invariant(&*self);
        }
        self.instance.raise();
    }

    /// Registers `waker` in slot `index` of the driver's bank. Returns
    /// whether the bank has such a slot; without one nothing changes.
    pub fn register(&mut self, index: usize, waker: Waker) -> (stored: bool)
        ensures
            stored == (index < old(self)@.wakers.len()),
            final(self)@ == old(self)@.registered(index, waker),
        no_unwind
    {
        proof {
            use_type_invariant(&*self);
        }
        self.instance.register(index, waker)
    }

    /// The executor's read of slot `index`: hands out the slot's ready
    /// notification, if there is one, and clears it.
    pub fn take_ready(&mut self, index: usize) -> (ready: Option<Waker>)
        ensures
            ready == old(self)@.notification(index),
            final(self)@ == old(self)@.consumed(index),
        no_unwind
    {
        proof {
            use_type_invariant(&*self);
        }
        self.instance.take_ready(index)
    }
}

impl InterruptRegistration<Interrupt> for Uart1 {
    const VECTOR: Interrupt = Interrupt::Uart0_1;

    const WAKERS: usize = 2;

    open spec fn pending(&self) -> bool {
        self@.pending
    }

    /// Services the peripheral: a pending event is cleared and every slot of
    /// the driver's bank is woken.
    fn on_interrupt(&mut self)
        ensures
            final(self)@ == old(self)@.serviced(),
    {
        proof {
            use_type_invariant(&*self);
        }
        self.instance.on_interrupt();
    }
}

/// Driver of the third UART, with one waker slot for each direction.
#[derive(Debug)]
pub struct Uart2 {
    uart: UART2,
    instance: DriverInstance,
}

impl View for Uart2 {
    type V = DriverState;

    closed spec fn view(&self) -> DriverState {
        self.instance@
    }
}

impl InterruptToken<UART2> for ActiveToken {
    open spec fn authorizes(&self, peripheral: &UART2) -> bool {
        self@.authorizes(Driver::Uart2)
    }

    fn verify(&self, peripheral: &UART2) -> (verdict: Result<(), BindingError>)
        ensures
            self@.wf(),
            verdict matches Err(refusal) ==> refusal == self@.refusal(Driver::Uart2),
    {
        self.authorize(Driver::Uart2)
    }
}

impl Uart2 {
    #[verifier::type_invariant]
    closed spec fn typed(self) -> bool {
        self.instance@.driver == Driver::Uart2
    }

    /// Takes the peripheral and a token, and makes the driver if the token
    /// authorizes it: if the service routine of the token's vector calls the
    /// handler of this driver. The new driver owns the peripheral, has
    /// nothing pending and has a bank of empty slots.
    pub fn new(uart: UART2, interrupt_token: ActiveToken) -> (made: Result<Uart2, BindingError>)
        ensures
            made is Ok <==> interrupt_token@.authorizes(Driver::Uart2),
            match made {
                Ok(driver) => driver@ == DriverState::bound(Driver::Uart2, interrupt_token@),
                Err(refusal) => refusal == interrupt_token@.refusal(Driver::Uart2),
            },
    {
        match interrupt_token.verify(&uart) {
            Ok(()) => Ok(
                Uart2 { uart, instance: DriverInstance::bind(Driver::Uart2, interrupt_token) },
            ),
            Err(refusal) => Err(refusal),
        }
    }

    /// The driver's token, bank and event flag, for reading.
    pub fn instance(&self) -> (instance: &DriverInstance)
        ensures
            instance@ == self@,
            self@.driver == Driver::Uart2,
            self@.wf(),
    {
        proof {
            use_type_invariant(self);
            use_type_invariant(&self.instance);
        }
        &self.instance
    }

    /// Records that the peripheral raised an event.
    pub fn raise(&mut self)
        ensures
            final(self)@ == (DriverState { pending: true, ..old(self)@ }),
        no_unwind
    {
        proof {
            use_type_invariant(&*self);
        }
        self.instance.raise();
    }

    /// Registers `waker` in slot `index` of the driver's bank. Returns
    /// whether the bank has such a slot; without one nothing changes.
    pub fn register(&mut self, index: usize, waker: Waker) -> (stored: bool)
        ensures
            stored == (index < old(self)@.wakers.len()),
            final(self)@ == old(self)@.registered(index, waker),
        no_unwind
    {
        proof {
            use_type_invariant(&*self);
        }
        self.instance.register(index, waker)
    }

    /// The executor's read of slot `index`: hands out the slot's ready
    /// notification, if there is one, and clears it.
    pub fn take_ready(&mut self, index: usize) -> (ready: Option<Waker>)
        ensures
            ready == old(self)@.notification(index),
            final(self)@ == old(self)@.consumed(index),
        no_unwind
    {
        proof {
            use_type_invariant(&*self);
        }
        self.instance.take_ready(index)
    }
}

impl InterruptRegistration<Interrupt> for Uart2 {
    const VECTOR: Interrupt = Interrupt::Uart2;

    const WAKERS: usize = 2;

    open spec fn pending(&self) -> bool {
        self@.pending
    }

    /// Services the peripheral: a pending event is cleared and every slot of
    /// the driver's bank is woken.
    fn on_interrupt(&mut self)
        ensures
            final(self)@ == old(self)@.serviced(),
    {
        proof {
            use_type_invariant(&*self);
        }
        self.instance.on_interrupt();
    }
}

} // verus!
