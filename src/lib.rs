//! Core of a small statically-allocated embedded kernel: process memory and
//! loading, the scheduler's decision logic, the deferred-interrupt queue,
//! the capsule mux pattern and a model of the peripherals it drives.

pub mod ring_buffer;
pub mod word;
pub mod process;
pub mod loader;
pub mod sched;
pub mod irq;
pub mod list;
pub mod virtual_i2c;
pub mod timer;
pub mod uart;
pub mod i2c_dummy;
pub mod ast;
pub mod hil;
