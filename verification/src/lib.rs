//! A typed facade over a runtime code-patching engine.
//!
//! The underlying engine rewrites the machine instructions at a target
//! function's entry so that callers are redirected to a replacement, and it
//! returns a trampoline address through which the original behaviour stays
//! reachable. The engine speaks raw, pointer-sized code addresses, while
//! callers hold typed function values; this crate provides the bridge between
//! the two and the bookkeeping around an install:
//!
//! - [`addr::Addr`] is the raw-address view of a function value, with
//!   bit-identical conversions in both directions.
//! - [`engine::EngineError`] enumerates the failures an install can surface.
//!   The facade adds no error cases of its own and hands the engine's error
//!   back unchanged.
//! - [`slot::TrampolineSlot`] is the caller-owned cell that a successful
//!   install populates with the trampoline, so that the replacement body can
//!   later reach the original behaviour. [`slot::publish`] records an
//!   install outcome in such a cell.
//!
//! The instruction rewriting itself, and the reinterpretation of a typed
//! function value as a raw code address, are inherently unchecked operations
//! and live with the caller at the engine boundary; everything in this crate
//! is ordinary, checked code.

pub mod addr;
pub mod engine;
pub mod slot;
