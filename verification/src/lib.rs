//! A minimal, type-safe abstraction over x86 port-mapped I/O.
//!
//! The library pairs a cheap, copyable [`port::Port`] handle naming a 16-bit
//! I/O port address with the width-polymorphic read/write capability
//! [`bus::PortRw`], implemented for exactly the three transfer widths the
//! hardware instruction set supports (`u8`, `u16`, `u32`).
//!
//! Real port I/O is a single machine instruction whose effect is defined by
//! whatever device sits behind the address, so its behaviour cannot be checked
//! in software. What can be checked is the operation set itself: every
//! operation here acts on [`bus::PortBus`], a memory-backed model of the port
//! space (one lane per register class), and its contract pins down exactly
//! which cell a read observes and which cell a write changes. A raw hardware
//! backend emitting the actual `IN`/`OUT` instructions lives outside the
//! verified library.

pub mod bus;
pub mod decimal;
pub mod port;
