//! A sixteen-bit register machine: instruction decoding and a core that
//! executes one instruction at a time over a sparse byte memory.

pub mod bits;
pub mod inst;
pub mod machine;
pub mod laws;
pub mod decode_laws;
pub mod step_laws;
