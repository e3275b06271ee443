//! Processor-specific parts: interrupt numbers, I/O ports and the
//! programmable interrupt controllers.
pub mod cpu;
