//! A hardware-access layer for a single-core 8-bit microcontroller, verified
//! against an explicit model of the device: the memory-mapped register file,
//! the global interrupt-enable flag, the critical-section nesting counter and
//! the serial transmit line are all plain state of an [`mcu::Mcu`] value, and
//! every operation's contract says exactly how it changes that state.

pub mod bitmasks;
pub mod interrupt;
pub mod mcu;
pub mod mutex;
pub mod numfmt;
pub mod pin;
pub mod port;
pub mod register;
pub mod registers;
pub mod resource;
pub mod robot_base;
pub mod serial_writable;
pub mod text;
pub mod uart;
pub mod vector;

pub use interrupt::CriticalSection;
pub use mcu::Mcu;
pub use mutex::{DynamicMutex, Mutex};
pub use pin::{DataDirection, Pin};
pub use register::{Register, RegisterBits, RegisterValue};
pub use resource::ResourceTable;
pub use robot_base::RobotBase;
pub use uart::Serial;
pub use vector::lookup_vector;
