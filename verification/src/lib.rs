//! A small just-in-time code generator for an 8/16-bit guest register
//! machine.
//!
//! Abstract guest operations (`op::Op`) are encoded into exact host byte
//! sequences by a fixed guest-to-host register binding, collected in a
//! [`jit::JitBuilder`], and finalized into a page-sized executable-memory
//! image ([`mem::JitMemory`]). The intended effect of every operation on
//! the guest register file is captured by [`model::GuestState`].

pub mod jit;
pub mod mem;
pub mod model;
pub mod op;
