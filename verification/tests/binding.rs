use interrupt_registration::binding::{
    register_interrupt, verify_binding, BindingMismatch, RegistrationRequest,
};
use interrupt_registration::hal::Driver;
use interrupt_registration::pac::Interrupt;

fn request(vector: Interrupt, drivers: Vec<Driver>) -> RegistrationRequest {
    RegistrationRequest { vector, drivers }
}

#[test]
fn verify_binding_is_vector_equality() {
    assert!(verify_binding(Interrupt::Spi0, Interrupt::Spi0));
    assert!(verify_binding(Interrupt::Uart0_1, Interrupt::Uart0_1));
    assert!(!verify_binding(Interrupt::Uart2, Interrupt::Uart0_1));
    assert!(!verify_binding(Interrupt::Int1, Interrupt::Int2));
    assert!(!verify_binding(Interrupt::Spi0, Interrupt::Int3));
}

#[test]
fn single_driver_request_is_minted() {
    let token = register_interrupt(&request(Interrupt::Spi0, vec![Driver::Spi])).unwrap();
    assert_eq!(token.vector(), Interrupt::Spi0);
    assert_eq!(token.handlers(), &vec![Driver::Spi]);
    assert_eq!(token.priority(), None);
}

#[test]
fn shared_request_keeps_declaration_order() {
    let token =
        register_interrupt(&request(Interrupt::Uart0_1, vec![Driver::Uart0, Driver::Uart1]))
            .unwrap();
    assert_eq!(token.vector(), Interrupt::Uart0_1);
    assert_eq!(token.handlers(), &vec![Driver::Uart0, Driver::Uart1]);

    let token =
        register_interrupt(&request(Interrupt::Uart0_1, vec![Driver::Uart1, Driver::Uart0]))
            .unwrap();
    assert_eq!(token.handlers(), &vec![Driver::Uart1, Driver::Uart0]);
}

#[test]
fn request_without_drivers_is_minted() {
    let token = register_interrupt(&request(Interrupt::Int1, vec![])).unwrap();
    assert_eq!(token.vector(), Interrupt::Int1);
    assert!(token.handlers().is_empty());
}

#[test]
fn mismatching_driver_is_named() {
    let refused = register_interrupt(&request(Interrupt::Uart0_1, vec![Driver::Uart2])).unwrap_err();
    assert_eq!(
        refused,
        BindingMismatch {
            driver: Driver::Uart2,
            expected: Interrupt::Uart0_1,
            declared: Interrupt::Uart2,
        }
    );
}

#[test]
fn first_mismatching_driver_in_order_is_named() {
    let refused = register_interrupt(&request(
        Interrupt::Uart0_1,
        vec![Driver::Uart0, Driver::Spi, Driver::Uart1, Driver::Uart2],
    ))
    .unwrap_err();
    assert_eq!(
        refused,
        BindingMismatch {
            driver: Driver::Spi,
            expected: Interrupt::Uart0_1,
            declared: Interrupt::Spi0,
        }
    );
}

#[test]
fn mismatch_in_last_place_is_found() {
    let refused = register_interrupt(&request(
        Interrupt::Uart0_1,
        vec![Driver::Uart0, Driver::Uart1, Driver::Uart2],
    ))
    .unwrap_err();
    assert_eq!(refused.driver, Driver::Uart2);
    assert_eq!(refused.expected, Interrupt::Uart0_1);
    assert_eq!(refused.declared, Interrupt::Uart2);
}

#[test]
fn vector_without_drivers_refuses_every_driver() {
    for driver in [Driver::Spi, Driver::Uart0, Driver::Uart1, Driver::Uart2] {
        let refused = register_interrupt(&request(Interrupt::Int2, vec![driver])).unwrap_err();
        assert_eq!(refused.driver, driver);
        assert_eq!(refused.expected, Interrupt::Int2);
        assert_eq!(refused.declared, driver.vector());
    }
}

#[test]
fn every_driver_binds_to_its_own_vector() {
    for driver in [Driver::Spi, Driver::Uart0, Driver::Uart1, Driver::Uart2] {
        let token = register_interrupt(&request(driver.vector(), vec![driver])).unwrap();
        assert_eq!(token.vector(), driver.vector());
        assert_eq!(token.handlers(), &vec![driver]);
    }
}

#[test]
fn override_priority_sets_the_priority_only() {
    let mut token =
        register_interrupt(&request(Interrupt::Uart0_1, vec![Driver::Uart0, Driver::Uart1]))
            .unwrap();
    token.override_priority(3);
    assert_eq!(token.priority(), Some(3));
    assert_eq!(token.vector(), Interrupt::Uart0_1);
    assert_eq!(token.handlers(), &vec![Driver::Uart0, Driver::Uart1]);
    token.override_priority(0);
    assert_eq!(token.priority(), Some(0));
    token.override_priority(255);
    assert_eq!(token.priority(), Some(255));
}

#[test]
fn copy_of_a_token_certifies_the_same() {
    let mut token =
        register_interrupt(&request(Interrupt::Uart0_1, vec![Driver::Uart0, Driver::Uart1]))
            .unwrap();
    token.override_priority(5);
    let copy = token.clone();
    assert_eq!(copy.vector(), Interrupt::Uart0_1);
    assert_eq!(copy.handlers(), &vec![Driver::Uart0, Driver::Uart1]);
    assert_eq!(copy.priority(), Some(5));
    token.override_priority(6);
    assert_eq!(copy.priority(), Some(5));
}
