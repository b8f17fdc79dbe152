//! Core logic of a small interrupt-driven console kernel, verified with Verus.
//!
//! The crate models the machine state that the kernel mutates — an I/O port
//! bus, a character-cell screen, the keyboard and command-line state — as
//! explicit data, and proves the drivers and state machines against those
//! models: descriptor-table construction, the chained 8259 interrupt
//! controller protocol, the scancode decoder and the line-editing console.

pub mod cli;
pub mod commands;
pub mod gdt;
pub mod idt;
pub mod interrupts;
pub mod io;
pub mod keyboard;
pub mod keymap_fr;
pub mod keymap_us;
pub mod pic8259;
pub mod utils;
pub mod vga_buffer;
