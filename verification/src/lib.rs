//! Earliest bring-up layer of a freestanding kernel image: the entry
//! control flow, the panic policies of the two build modes, an in-kernel
//! test harness, and the exit signal a virtualized host observes.
//!
//! Everything the system does is modelled as a trace of [`diag::Action`]
//! values: diagnostic lines on the screen or serial channel, a single
//! write to the hardware exit port, and the defensive halt. The binary
//! glue that performs those actions (device drivers, the privileged port
//! write) lives outside this crate; here the traces themselves are
//! specified and proved.

pub mod diag;
pub mod entry;
pub mod exit;
pub mod fault;
pub mod harness;
pub mod laws;
