//! Hardware-abstraction layer for the ESP32 pin multiplexer and I2C master,
//! built around an explicit model of the memory-mapped register blocks.
//!
//! Every register recipe (pin mode transitions, signal-matrix routing, I2C
//! command sequencing) is an ordinary function over that model, with a
//! contract that pins down the exact register contents it produces. An
//! embedding layer outside this crate commits the model to the physical
//! address space with volatile stores; nothing here performs I/O.

pub mod gpio;
pub mod i2c;
pub mod matrix;
pub mod regs;
