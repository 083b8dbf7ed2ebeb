//! Command encoder for a panel display controller: each operation turns into
//! the exact parameter frame the controller chip expects, carried by a bus
//! that the user of the library supplies.
pub mod bus;
pub mod controller;
pub mod registers;

pub use bus::{BusEvent, Interface};
pub use controller::Controller;
pub use registers::{
    CtrlDisplay, DisplayIdentification, DisplayPowerMode, DisplayStatus, ImageFormat, MADCtl,
    MemoryAccessControl, PixelFormat, SelfDiagnosticResult, SignalMode, TearingEffect,
};
