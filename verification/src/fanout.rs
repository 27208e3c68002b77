//! Fan-out of one vector to the drivers that share it.
//!
//! The service routine of a vector knows only which drivers share the vector
//! and in which order they were declared. When the vector fires it calls the
//! handler of each of them, in that order, every time. It does not look at
//! any peripheral: each handler decides for itself whether its own peripheral
//! has raised the event.

use vstd::prelude::*;
use crate::controller::ActiveToken;
use crate::hal::{Driver, DriverState, Spi, Uart0, Uart1, Uart2};
use crate::pac::Interrupt;
use crate::registration::InterruptRegistration;

verus! {

/// The live drivers of the platform. A driver that was not constructed is
/// absent.
pub struct Drivers {
    pub spi: Option<Spi>,
    pub uart0: Option<Uart0>,
    pub uart1: Option<Uart1>,
    pub uart2: Option<Uart2>,
}

/// What the live drivers hold.
pub struct DriversState {
    pub spi: Option<DriverState>,
    pub uart0: Option<DriverState>,
    pub uart1: Option<DriverState>,
    pub uart2: Option<DriverState>,
}

/// The state of a driver after its handler was called, if the driver is
/// there.
pub open spec fn service(driver: Option<DriverState>) -> Option<DriverState> {
    match driver {
        Some(state) => Some(state.serviced()),
        None => None,
    }
}

impl DriversState {
    /// The state of `driver`, if it is there.
    pub open spec fn get(self, driver: Driver) -> Option<DriverState> {
        match driver {
            Driver::Spi => self.spi,
            Driver::Uart0 => self.uart0,
            Driver::Uart1 => self.uart1,
            Driver::Uart2 => self.uart2,
        }
    }

    /// The state after the handler of `driver` was called.
    pub open spec fn serviced(self, driver: Driver) -> DriversState {
        match driver {
            Driver::Spi => DriversState { spi: service(self.spi), ..self },
            Driver::Uart0 => DriversState { uart0: service(self.uart0), ..self },
            Driver::Uart1 => DriversState { uart1: service(self.uart1), ..self },
            Driver::Uart2 => DriversState { uart2: service(self.uart2), ..self },
        }
    }

    /// The state after the handlers of `handlers` were called one after the
    /// other, the first of them first.
    pub open spec fn fired(self, handlers: Seq<Driver>) -> DriversState
        decreases handlers.len(),
    {
        if handlers.len() == 0 {
            self
        } else {
            self.fired(handlers.drop_last()).serviced(handlers.last())
        }
    }
}

/// Firing calls the handlers in declaration order: the first driver's
/// handler runs on the state as it was, and the rest of the routine runs on
/// what that handler left.
pub proof fn lemma_fired_in_declaration_order(state: DriversState, handlers: Seq<Driver>)
    requires
        handlers.len() > 0,
    ensures
        state.fired(handlers) == state.serviced(handlers[0]).fired(handlers.skip(1)),
    decreases handlers.len(),
{
    if handlers.len() == 1 {
        assert(handlers.drop_last().len() == 0 && handlers.skip(1).len() == 0);
    } else {
        lemma_fired_in_declaration_order(state, handlers.drop_last());
        assert(handlers.drop_last().skip(1) =~= handlers.skip(1).drop_last());
    }
}

/// Firing changes the drivers of the routine and no others: a driver that the
/// routine lists is left as its handler leaves it, however often it is
/// listed, and a driver that the routine does not list is not touched.
pub proof fn lemma_fired_services_listed_drivers(
    state: DriversState,
    handlers: Seq<Driver>,
    driver: Driver,
)
    ensures
        state.fired(handlers).get(driver) == if handlers.contains(driver) {
            service(state.get(driver))
        } else {
            state.get(driver)
        },
    decreases handlers.len(),
{
    if handlers.len() > 0 {
        let before = handlers.drop_last();
        lemma_fired_services_listed_drivers(state, before, driver);
        if before.contains(driver) {
            let i = choose|i: int| 0 <= i < before.len() && before[i] == driver;
            assert(handlers[i] == driver);
        }
        if handlers.last() != driver && handlers.contains(driver) {
            let i = choose|i: int| 0 <= i < handlers.len() && handlers[i] == driver;
            assert(before[i] == driver);
        }
    }
}

/// Firing a vector again, with no new event in between, delivers nothing
/// new: the state after the second firing is the state after the first.
pub proof fn lemma_refire_delivers_nothing_new(state: DriversState, handlers: Seq<Driver>)
    ensures
        state.fired(handlers).fired(handlers) == state.fired(handlers),
{
    let once = state.fired(handlers);
    lemma_fired_services_listed_drivers(state, handlers, Driver::Spi);
    lemma_fired_services_listed_drivers(state, handlers, Driver::Uart0);
    lemma_fired_services_listed_drivers(state, handlers, Driver::Uart1);
    lemma_fired_services_listed_drivers(state, handlers, Driver::Uart2);
    lemma_fired_services_listed_drivers(once, handlers, Driver::Spi);
    lemma_fired_services_listed_drivers(once, handlers, Driver::Uart0);
    lemma_fired_services_listed_drivers(once, handlers, Driver::Uart1);
    lemma_fired_services_listed_drivers(once, handlers, Driver::Uart2);
}

impl View for Drivers {
    type V = DriversState;

    open spec fn view(&self) -> DriversState {
        DriversState {
            spi: match self.spi {
                Some(driver) => Some(driver@),
                None => None,
            },
            uart0: match self.uart0 {
                Some(driver) => Some(driver@),
                None => None,
            },
            uart1: match self.uart1 {
                Some(driver) => Some(driver@),
                None => None,
            },
            uart2: match self.uart2 {
                Some(driver) => Some(driver@),
                None => None,
            },
        }
    }
}

impl Drivers {
    /// No driver constructed yet.
    pub fn new() -> (drivers: Drivers)
        ensures
            drivers@ == (DriversState { spi: None, uart0: None, uart1: None, uart2: None }),
    {
        Drivers { spi: None, uart0: None, uart1: None, uart2: None }
    }

    /// Calls the handler of `driver`, if the driver is there.
    pub fn service(&mut self, driver: Driver)
        ensures
            final(self)@ == old(self)@.serviced(driver),
    {
        match driver {
            Driver::Spi => match &mut self.spi {
                Some(spi) => spi.on_interrupt(),
                None => {},
            },
            Driver::Uart0 => match &mut self.uart0 {
                Some(uart) => uart.on_interrupt(),
                None => {},
            },
            Driver::Uart1 => match &mut self.uart1 {
                Some(uart) => uart.on_interrupt(),
                None => {},
            },
            Driver::Uart2 => match &mut self.uart2 {
                Some(uart) => uart.on_interrupt(),
                None => {},
            },
        }
    }

    /// The service routine of the vector of `routine`: calls the handler of
    /// each driver that shares the vector, in declaration order.
    pub fn dispatch(&mut self, routine: &ActiveToken)
        ensures
            final(self)@ == old(self)@.fired(routine@.handlers),
    {
        let handlers = routine.handlers();
        let mut i: usize = 0;
        while i < handlers.len()
            invariant
                i <= handlers@.len(),
                self@ == old(self)@.fired(handlers@.take(i as int)),
            decreases handlers@.len() - i,
        {
            self.service(handlers[i]);
            proof {
                assert(handlers@.take(i + 1).drop_last() =~= handlers@.take(i as int));
            }
            i += 1;
        }
        proof {
            assert(handlers@.take(i as int) =~= handlers@);
        }
    }
}

} // verus!
