//! Bring-up and per-CPU lifecycle core of a thin type-1 hypervisor for x86_64.
//!
//! The crate holds the decisions of the multi-CPU bring-up: the image header and
//! system configuration formats, the per-CPU store, the local APIC abstraction,
//! the trampoline that wakes application processors, and the barrier protocol
//! that sequences the CPUs. Hardware access (MSRs, IPIs, the time-stamp counter,
//! raw memory) is left to the embedding program, which performs the actions this
//! crate asks for and reports what happened.
//!
//! What the CPUs share (the counters, the flags, the error latch and the map
//! from APIC ids to CPU ids) is held in plain values. The embedding program
//! keeps them where every CPU reaches them and lets one CPU at a time work on
//! them, so that each function of this crate acts as one indivisible step.

pub mod error;
pub mod consts;
pub mod memory;
pub mod wire;
pub mod header;
pub mod config;
pub mod globals;
pub mod percpu;
pub mod arch;
pub mod bringup;
pub mod lang;
