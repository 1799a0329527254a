//! A minimal register-and-stack virtual machine: a fixed 16-bit instruction
//! set executed against a bounded byte-addressable memory, a file of eight
//! registers, a stack discipline built atop the memory, and a signal
//! mechanism for host-defined extensions.

pub mod error;
pub mod memory;
pub mod op;
pub mod register;
pub mod render;
pub mod vm;
