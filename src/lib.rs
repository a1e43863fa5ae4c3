//! A driver for a microcontroller's serial transmitter.
//!
//! A driver is configured as `USART<Unitialized>`, committed once to the
//! hardware with `initialize`, and only then, as `USART<Initialized>`, can it
//! send. The registers live in a `RegisterBank`, which records every access.
pub mod peripheral;
pub mod register;
pub mod usart;

pub use peripheral::Peripheral;
pub use register::{Access, Register, RegisterBank};
pub use usart::{
    usart0, IncompatibleSettings, Initialized, USARTCharSize, USARTMode, USARTStopBit, Unitialized,
    USART,
};
