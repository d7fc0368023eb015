//! Drivers: what the kernel makes of the bytes that devices send, and what
//! it sends to them.

pub mod keyboard;
pub mod rtc;
pub mod vga;
