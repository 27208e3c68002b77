use interrupt_registration::binding::{register_interrupt, BindingError, BindingMismatch, RegistrationRequest};
use interrupt_registration::controller::{InterruptController, Line};
use interrupt_registration::fanout::Drivers;
use interrupt_registration::hal::{Driver, Spi, Uart0, Uart1, Uart2};
use interrupt_registration::pac::{Interrupt, SPI0, UART0, UART1, UART2};
use interrupt_registration::waker::{SlotState, Waker};

#[test]
fn spi_binds_to_spi0_and_is_enabled() {
    let request = RegistrationRequest { vector: Interrupt::Spi0, drivers: vec![Driver::Spi] };
    let token = register_interrupt(&request).unwrap();
    let mut controller = InterruptController::new();
    assert!(!controller.is_enabled(Interrupt::Spi0));
    let active = token.activate(&mut controller).unwrap();
    let spi = Spi::new(SPI0 {}, active).unwrap();
    assert!(controller.is_enabled(Interrupt::Spi0));
    assert_eq!(spi.instance().token().vector(), Interrupt::Spi0);
    assert_eq!(spi.instance().driver(), Driver::Spi);
    assert_eq!(spi.instance().wakers().len(), 0);
    assert!(!spi.instance().is_pending());
}

#[test]
fn shared_vector_calls_uart0_then_uart1() {
    let request = RegistrationRequest {
        vector: Interrupt::Uart0_1,
        drivers: vec![Driver::Uart0, Driver::Uart1],
    };
    let token = register_interrupt(&request).unwrap();
    let mut controller = InterruptController::new();
    let active = token.activate(&mut controller).unwrap();
    assert_eq!(active.handlers(), &vec![Driver::Uart0, Driver::Uart1]);

    let mut uart0 = Uart0::new(UART0 {}, active.clone()).unwrap();
    let mut uart1 = Uart1::new(UART1 {}, active.clone()).unwrap();
    assert!(uart0.register(0, Waker { task: 10 }));
    assert!(uart1.register(1, Waker { task: 11 }));
    uart0.raise();
    uart1.raise();

    let mut drivers = Drivers::new();
    drivers.uart0 = Some(uart0);
    drivers.uart1 = Some(uart1);
    drivers.dispatch(&active);

    let mut uart0 = drivers.uart0.take().unwrap();
    let mut uart1 = drivers.uart1.take().unwrap();
    assert!(!uart0.instance().is_pending());
    assert!(!uart1.instance().is_pending());
    assert_eq!(uart0.take_ready(0), Some(Waker { task: 10 }));
    assert_eq!(uart0.take_ready(1), None);
    assert_eq!(uart1.take_ready(1), Some(Waker { task: 11 }));
    assert_eq!(uart1.instance().wakers().slot(1), Some(SlotState::Idle));
}

#[test]
fn uart2_refuses_the_uart0_1_token() {
    let request = RegistrationRequest {
        vector: Interrupt::Uart0_1,
        drivers: vec![Driver::Uart0, Driver::Uart1],
    };
    let token = register_interrupt(&request).unwrap();
    let mut controller = InterruptController::new();
    let active = token.activate(&mut controller).unwrap();
    let refused = Uart2::new(UART2 {}, active).unwrap_err();
    assert_eq!(
        refused,
        BindingError::Mismatch(BindingMismatch {
            driver: Driver::Uart2,
            expected: Interrupt::Uart0_1,
            declared: Interrupt::Uart2,
        })
    );
}

#[test]
fn wiring_walk_through() {
    let wiring = interrupt_registration::test();

    assert_eq!(
        wiring.controller.line(Interrupt::Spi0),
        Some(Line { vector: Interrupt::Spi0, priority: Some(3) })
    );
    assert_eq!(
        wiring.controller.line(Interrupt::Uart0_1),
        Some(Line { vector: Interrupt::Uart0_1, priority: None })
    );
    assert_eq!(wiring.controller.line(Interrupt::Uart2), None);
    assert!(!wiring.controller.is_enabled(Interrupt::Int1));

    let spi = wiring.drivers.spi.as_ref().unwrap().instance();
    assert_eq!(spi.driver(), Driver::Spi);
    assert_eq!(spi.token().vector(), Interrupt::Spi0);
    assert_eq!(spi.token().handlers(), &vec![Driver::Spi]);
    assert_eq!(spi.token().priority(), Some(3));
    assert_eq!(spi.wakers().len(), 0);

    let uart0 = wiring.drivers.uart0.as_ref().unwrap().instance();
    assert_eq!(uart0.driver(), Driver::Uart0);
    assert_eq!(uart0.token().vector(), Interrupt::Uart0_1);
    assert_eq!(uart0.token().handlers(), &vec![Driver::Uart0, Driver::Uart1]);
    assert_eq!(uart0.token().priority(), None);
    assert_eq!(uart0.wakers().len(), 2);
    assert!(!uart0.is_pending());

    let uart1 = wiring.drivers.uart1.as_ref().unwrap().instance();
    assert_eq!(uart1.driver(), Driver::Uart1);
    assert_eq!(uart1.token().handlers(), &vec![Driver::Uart0, Driver::Uart1]);
    assert_eq!(uart1.wakers().slot(0), Some(SlotState::Idle));
    assert_eq!(uart1.wakers().slot(1), Some(SlotState::Idle));

    assert!(wiring.drivers.uart2.is_none());
    assert_eq!(
        wiring.refused,
        BindingError::Mismatch(BindingMismatch {
            driver: Driver::Uart2,
            expected: Interrupt::Uart0_1,
            declared: Interrupt::Uart2,
        })
    );
}
