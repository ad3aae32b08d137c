//! Inline function hooking for x86-64 machine code.
//!
//! The library computes and applies five-byte relative-jump patches, keeps hook
//! state in a position-independent form so that it can be copied to another
//! address as raw bytes, builds trampolines that keep the original prologue
//! callable, and sizes and relocates self-contained hook blobs.
//!
//! Every operation works on byte buffers handed in by the caller: the caller
//! maps those buffers onto live code and is responsible for making that memory
//! writable and for quiescing threads that may run it.
use vstd::prelude::*;

pub mod local;
pub mod patch;
pub mod raw;
pub mod remote;
pub mod scan;
