use interrupt_registration::binding::{
    register_interrupt, BindingError, BindingMismatch, RegistrationRequest,
};
use interrupt_registration::controller::{ActiveToken, InterruptController};
use interrupt_registration::hal::{Driver, Spi, Uart0, Uart1, Uart2};
use interrupt_registration::pac::{Interrupt, SPI0, UART0, UART1, UART2};
use interrupt_registration::registration::{InterruptRegistration, InterruptToken};
use interrupt_registration::waker::{SlotState, Waker};

fn active(vector: Interrupt, drivers: Vec<Driver>) -> ActiveToken {
    let mut controller = InterruptController::new();
    register_interrupt(&RegistrationRequest { vector, drivers })
        .unwrap()
        .activate(&mut controller)
        .unwrap()
}

#[test]
fn drivers_declare_their_vectors() {
    assert_eq!(Driver::Spi.vector(), Interrupt::Spi0);
    assert_eq!(Driver::Uart0.vector(), Interrupt::Uart0_1);
    assert_eq!(Driver::Uart1.vector(), Interrupt::Uart0_1);
    assert_eq!(Driver::Uart2.vector(), Interrupt::Uart2);
    assert_eq!(<Spi as InterruptRegistration<Interrupt>>::VECTOR, Interrupt::Spi0);
    assert_eq!(<Uart0 as InterruptRegistration<Interrupt>>::VECTOR, Interrupt::Uart0_1);
    assert_eq!(<Uart1 as InterruptRegistration<Interrupt>>::VECTOR, Interrupt::Uart0_1);
    assert_eq!(<Uart2 as InterruptRegistration<Interrupt>>::VECTOR, Interrupt::Uart2);
}

#[test]
fn drivers_declare_their_waker_slots() {
    assert_eq!(Driver::Spi.wakers(), 0);
    assert_eq!(Driver::Uart0.wakers(), 2);
    assert_eq!(Driver::Uart1.wakers(), 2);
    assert_eq!(Driver::Uart2.wakers(), 2);
    assert_eq!(<Spi as InterruptRegistration<Interrupt>>::WAKERS, 0);
    assert_eq!(<Uart0 as InterruptRegistration<Interrupt>>::WAKERS, 2);
    assert_eq!(<Uart1 as InterruptRegistration<Interrupt>>::WAKERS, 2);
    assert_eq!(<Uart2 as InterruptRegistration<Interrupt>>::WAKERS, 2);
}

#[test]
fn new_driver_has_an_idle_bank_of_the_declared_size() {
    let mut token = register_interrupt(&RegistrationRequest {
        vector: Interrupt::Uart2,
        drivers: vec![Driver::Uart2],
    })
    .unwrap();
    token.override_priority(6);
    let mut controller = InterruptController::new();
    let uart2 = Uart2::new(UART2 {}, token.activate(&mut controller).unwrap()).unwrap();
    let instance = uart2.instance();
    assert_eq!(instance.driver(), Driver::Uart2);
    assert_eq!(instance.token().vector(), Interrupt::Uart2);
    assert_eq!(instance.token().handlers(), &vec![Driver::Uart2]);
    assert_eq!(instance.token().priority(), Some(6));
    assert!(!instance.is_pending());
    assert_eq!(instance.wakers().len(), 2);
    assert_eq!(instance.wakers().slot(0), Some(SlotState::Idle));
    assert_eq!(instance.wakers().slot(1), Some(SlotState::Idle));
}

#[test]
fn spi_has_an_empty_bank() {
    let mut spi = Spi::new(SPI0 {}, active(Interrupt::Spi0, vec![Driver::Spi])).unwrap();
    assert_eq!(spi.instance().wakers().len(), 0);
    assert!(!spi.register(0, Waker { task: 1 }));
    assert_eq!(spi.take_ready(0), None);
    spi.raise();
    assert!(spi.instance().is_pending());
    spi.on_interrupt();
    assert!(!spi.instance().is_pending());
    assert_eq!(spi.instance().wakers().len(), 0);
}

#[test]
fn token_of_another_vector_is_a_mismatch() {
    let refused = Spi::new(SPI0 {}, active(Interrupt::Uart2, vec![Driver::Uart2])).unwrap_err();
    assert_eq!(
        refused,
        BindingError::Mismatch(BindingMismatch {
            driver: Driver::Spi,
            expected: Interrupt::Uart2,
            declared: Interrupt::Spi0,
        })
    );
    let refused = Uart0::new(UART0 {}, active(Interrupt::Spi0, vec![Driver::Spi])).unwrap_err();
    assert_eq!(
        refused,
        BindingError::Mismatch(BindingMismatch {
            driver: Driver::Uart0,
            expected: Interrupt::Spi0,
            declared: Interrupt::Uart0_1,
        })
    );
    let refused = Uart1::new(UART1 {}, active(Interrupt::Int1, vec![])).unwrap_err();
    assert_eq!(
        refused,
        BindingError::Mismatch(BindingMismatch {
            driver: Driver::Uart1,
            expected: Interrupt::Int1,
            declared: Interrupt::Uart0_1,
        })
    );
}

#[test]
fn token_of_the_own_vector_without_the_driver_is_unbound() {
    let refused = Uart1::new(UART1 {}, active(Interrupt::Uart0_1, vec![Driver::Uart0])).unwrap_err();
    assert_eq!(
        refused,
        BindingError::Unbound { driver: Driver::Uart1, vector: Interrupt::Uart0_1 }
    );
    let refused = Uart0::new(UART0 {}, active(Interrupt::Uart0_1, vec![Driver::Uart1])).unwrap_err();
    assert_eq!(
        refused,
        BindingError::Unbound { driver: Driver::Uart0, vector: Interrupt::Uart0_1 }
    );
    let refused = Spi::new(SPI0 {}, active(Interrupt::Spi0, vec![])).unwrap_err();
    assert_eq!(refused, BindingError::Unbound { driver: Driver::Spi, vector: Interrupt::Spi0 });
    let refused = Uart2::new(UART2 {}, active(Interrupt::Uart2, vec![])).unwrap_err();
    assert_eq!(refused, BindingError::Unbound { driver: Driver::Uart2, vector: Interrupt::Uart2 });
}

#[test]
fn shared_token_constructs_both_drivers() {
    let token = active(Interrupt::Uart0_1, vec![Driver::Uart0, Driver::Uart1]);
    let uart0 = Uart0::new(UART0 {}, token.clone()).unwrap();
    let uart1 = Uart1::new(UART1 {}, token).unwrap();
    assert_eq!(uart0.instance().driver(), Driver::Uart0);
    assert_eq!(uart1.instance().driver(), Driver::Uart1);
    assert_eq!(uart0.instance().token().vector(), Interrupt::Uart0_1);
    assert_eq!(uart1.instance().token().vector(), Interrupt::Uart0_1);
}

#[test]
fn token_verifies_per_peripheral() {
    let token = active(Interrupt::Uart0_1, vec![Driver::Uart0]);
    assert_eq!(token.verify(&UART0 {}), Ok(()));
    assert_eq!(
        token.verify(&UART1 {}),
        Err(BindingError::Unbound { driver: Driver::Uart1, vector: Interrupt::Uart0_1 })
    );
    assert_eq!(
        token.verify(&UART2 {}),
        Err(BindingError::Mismatch(BindingMismatch {
            driver: Driver::Uart2,
            expected: Interrupt::Uart0_1,
            declared: Interrupt::Uart2,
        }))
    );
    assert_eq!(
        token.verify(&SPI0 {}),
        Err(BindingError::Mismatch(BindingMismatch {
            driver: Driver::Spi,
            expected: Interrupt::Uart0_1,
            declared: Interrupt::Spi0,
        }))
    );
}

#[test]
fn handler_wakes_the_bank_when_an_event_is_pending() {
    let mut uart = Uart0::new(UART0 {}, active(Interrupt::Uart0_1, vec![Driver::Uart0])).unwrap();
    assert!(uart.register(0, Waker { task: 1 }));
    assert!(uart.register(1, Waker { task: 2 }));
    uart.raise();
    assert!(uart.instance().is_pending());
    uart.on_interrupt();
    assert!(!uart.instance().is_pending());
    assert_eq!(uart.instance().wakers().slot(0), Some(SlotState::Ready(Waker { task: 1 })));
    assert_eq!(uart.instance().wakers().slot(1), Some(SlotState::Ready(Waker { task: 2 })));
    assert_eq!(uart.take_ready(0), Some(Waker { task: 1 }));
    assert_eq!(uart.take_ready(0), None);
    assert_eq!(uart.take_ready(1), Some(Waker { task: 2 }));
    assert_eq!(uart.take_ready(1), None);
}

#[test]
fn handler_does_nothing_without_a_pending_event() {
    let mut uart = Uart1::new(UART1 {}, active(Interrupt::Uart0_1, vec![Driver::Uart1])).unwrap();
    assert!(uart.register(0, Waker { task: 1 }));
    uart.on_interrupt();
    assert!(!uart.instance().is_pending());
    assert_eq!(uart.instance().wakers().slot(0), Some(SlotState::Armed(Waker { task: 1 })));
    assert_eq!(uart.instance().wakers().slot(1), Some(SlotState::Idle));
    assert_eq!(uart.take_ready(0), None);
}

#[test]
fn second_handler_call_delivers_nothing_new() {
    let mut uart = Uart2::new(UART2 {}, active(Interrupt::Uart2, vec![Driver::Uart2])).unwrap();
    assert!(uart.register(1, Waker { task: 9 }));
    uart.raise();
    uart.on_interrupt();
    assert_eq!(uart.take_ready(1), Some(Waker { task: 9 }));
    uart.on_interrupt();
    assert_eq!(uart.take_ready(1), None);
    assert_eq!(uart.instance().wakers().slot(1), Some(SlotState::Idle));
}

#[test]
fn register_out_of_range_is_refused() {
    let mut uart = Uart0::new(UART0 {}, active(Interrupt::Uart0_1, vec![Driver::Uart0])).unwrap();
    assert!(!uart.register(2, Waker { task: 1 }));
    assert_eq!(uart.take_ready(2), None);
    assert_eq!(uart.instance().wakers().len(), 2);
    assert_eq!(uart.instance().wakers().slot(0), Some(SlotState::Idle));
    assert_eq!(uart.instance().wakers().slot(1), Some(SlotState::Idle));
}

#[test]
fn raise_sets_the_event_flag_only() {
    let mut uart = Uart0::new(UART0 {}, active(Interrupt::Uart0_1, vec![Driver::Uart0])).unwrap();
    assert!(uart.register(0, Waker { task: 3 }));
    uart.raise();
    uart.raise();
    assert!(uart.instance().is_pending());
    assert_eq!(uart.instance().wakers().slot(0), Some(SlotState::Armed(Waker { task: 3 })));
    assert_eq!(uart.instance().driver(), Driver::Uart0);
}
