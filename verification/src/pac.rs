//! Peripheral access layer: the platform's interrupt vectors and the handles
//! that stand for its peripherals.

use vstd::prelude::*;

verus! {

/// One hardware interrupt line of the platform.
///
/// The set is closed: a vector is added by changing this enumeration, never
/// at run time. Vectors are compared by equality and carry no data.
#[derive(Clone, Copy, Debug, PartialEq, Eq, Structural)]
pub enum Interrupt {
    Int1,
    Int2,
    Int3,
    Spi0,
    Uart0_1,
    Uart2,
}

/// Register block of the SPI peripheral. Owning the value is owning the
/// peripheral.
#[derive(Debug)]
pub struct SPI0;

/// Register block of the first UART.
#[derive(Debug)]
pub struct UART0;

/// Register block of the second UART. It shares an interrupt line with
/// [`UART0`].
#[derive(Debug)]
pub struct UART1;

/// Register block of the third UART.
#[derive(Debug)]
pub struct UART2;

} // verus!
