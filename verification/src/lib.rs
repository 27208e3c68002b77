//! Static binding of hardware interrupt vectors to the peripheral drivers
//! that service them, and the handoff of wakeups from interrupt handlers to
//! suspended tasks.
//!
//! A firmware image is wired in four steps.
//!
//! 1. Each driver type declares the vector it services and the number of
//!    waker slots it needs ([`registration::InterruptRegistration`]).
//! 2. A registration request names a vector and, in order, the drivers that
//!    share it. [`binding::register_interrupt`] verifies one request and
//!    mints its [`binding::BindingToken`]; [`image::Image::build`] verifies a
//!    whole list and allows one service routine per vector.
//! 3. [`binding::BindingToken::activate`] unmasks the vector, once, and
//!    turns the token into a [`controller::ActiveToken`].
//! 4. A driver's constructor takes the peripheral and an active token, and
//!    refuses a token whose routine does not call the driver's handler.
//!
//! When a vector fires, [`fanout::Drivers::dispatch`] calls the handlers of
//! the drivers that share it, in declaration order, and each handler wakes
//! the slots of its own [`waker::WakerBank`].
//!
//! A driver wired to the wrong vector is therefore not a fault to find at run
//! time: no token for it can be minted, and without a token no driver can be
//! constructed. Code that is verified against the contracts of this crate
//! knows before it runs that its constructions succeed; [`test`] is such
//! code.

use vstd::prelude::*;
use crate::binding::{
    register_interrupt,
    Binding,
    BindingError,
    BindingMismatch,
    RegistrationRequest,
};
use crate::controller::InterruptController;
use crate::fanout::{Drivers, DriversState};
use crate::hal::{Driver, DriverState, Spi, Uart0, Uart1, Uart2};
use crate::pac::{Interrupt, SPI0, UART0, UART1, UART2};

pub mod binding;
pub mod controller;
pub mod fanout;
pub mod hal;
pub mod image;
pub mod pac;
pub mod registration;
pub mod waker;

verus! {

/// What [`test`] leaves behind.
pub struct Wiring {
    /// The controller, with the vectors of the two bindings unmasked.
    pub controller: InterruptController,
    /// The drivers that were constructed.
    pub drivers: Drivers,
    /// Why the last construction was refused.
    pub refused: BindingError,
}

/// The binding of the vector that the first two UARTs share.
pub open spec fn shared_binding() -> Binding {
    Binding {
        vector: Interrupt::Uart0_1,
        handlers: seq![Driver::Uart0, Driver::Uart1],
        priority: None,
    }
}

/// Wires the platform and shows the three ways a registration can go: one
/// driver on a vector of its own, with a priority; two drivers that share a
/// vector, each constructed with a copy of one token; and a driver that is
/// offered the token of another vector.
///
/// The first two are known to succeed before the code runs: each `unwrap`
/// below is verified, and wiring a driver to another vector here would stop
/// the verification. The third is known to be refused, and the refusal is
/// handed back.
pub fn test() -> (wiring: Wiring)
    ensures
        wiring.controller@ =~= Map::<Interrupt, Option<u8>>::empty().insert(
            Interrupt::Spi0,
            Some(3u8),
        ).insert(Interrupt::Uart0_1, None),
        wiring.drivers@ == (DriversState {
            spi: Some(
                DriverState::bound(
                    Driver::Spi,
                    Binding {
                        vector: Interrupt::Spi0,
                        handlers: seq![Driver::Spi],
                        priority: Some(3u8),
                    },
                ),
            ),
            uart0: Some(DriverState::bound(Driver::Uart0, shared_binding())),
            uart1: Some(DriverState::bound(Driver::Uart1, shared_binding())),
            uart2: None,
        }),
        wiring.refused == BindingError::Mismatch(
            BindingMismatch {
                driver: Driver::Uart2,
                expected: Interrupt::Uart0_1,
                declared: Interrupt::Uart2,
            },
        ),
{
    let mut controller = InterruptController::new();
    let mut drivers = Drivers::new();

    let request = RegistrationRequest { vector: Interrupt::Spi0, drivers: vec![Driver::Spi] };
    assert(request.drivers@ =~= seq![Driver::Spi]);
    let mut token = register_interrupt(&request).unwrap();
    token.override_priority(3);
    let token = token.activate(&mut controller).unwrap();
    assert(token@.handlers[0] == Driver::Spi);
    drivers.spi = Some(Spi::new(SPI0 {  }, token).unwrap());

    let request = RegistrationRequest {
        vector: Interrupt::Uart0_1,
        drivers: vec![Driver::Uart0, Driver::Uart1],
    };
    assert(request.drivers@ =~= seq![Driver::Uart0, Driver::Uart1]);
    let token2 = register_interrupt(&request).unwrap().activate(&mut controller).unwrap();
    assert(token2@.handlers[0] == Driver::Uart0);
    assert(token2@.handlers[1] == Driver::Uart1);
    drivers.uart0 = Some(Uart0::new(UART0 {  }, token2.clone()).unwrap());
    drivers.uart1 = Some(Uart1::new(UART1 {  }, token2.clone()).unwrap());

    let refused = Uart2::new(UART2 {  }, token2).unwrap_err();
    Wiring { controller, drivers, refused }
}

} // verus!
