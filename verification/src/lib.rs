//! Boot-to-kernel handoff and interrupt-safe execution core of a small x86_64
//! operating system, with every rule stated as a contract.
//!
//! The loader side plans the address space the kernel runs in and sequences the
//! irreversible firmware calls; the kernel side keeps the interrupt-safe lock,
//! the interrupt decisions, the scancode queue and the cooperative executor.
//! Hardware and firmware are reached by the caller: the library decides, the
//! caller performs.

pub mod addr;
pub mod display;
pub mod framebuffer;
pub mod framebuffer_term;
pub mod executor;
pub mod handoff;
pub mod interrupt;
pub mod irq_lock;
pub mod keyboard;
pub mod late_init;
pub mod layout;
pub mod logger;
pub mod memory_map;
pub mod once;
pub mod once_cell;
pub mod paging;
pub mod task;
