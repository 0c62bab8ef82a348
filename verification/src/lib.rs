//! Simulation core for a VEX V5 robot brain running WebAssembly guest
//! programs. The library holds the verified peripheral state machines:
//! the program loader's header parsing, the display context, the serial
//! buffers, the controller slots, competition status, the monotonic
//! high-resolution timer, the jump-table installation, guest-memory
//! helpers and the `printf`-family formatting engine. The engine that
//! runs the guest and the frontend I/O live outside and drive these
//! functions with plain values.

pub mod color;
pub mod controller;
pub mod display;
pub mod image;
pub mod jump;
pub mod memory;
pub mod numfmt;
pub mod options;
pub mod printf;
pub mod protocol;
pub mod sdk;
pub mod serial;

pub use color::Rgb;
pub use options::ProgramOptions;
pub use sdk::SdkState;
