//! What is particular to the processor.

pub mod cpu;
