//! Host-capability bridge for an embedded script engine.
//!
//! Script code running inside a sandboxed engine may invoke two host
//! capabilities: line-oriented logging to an output stream, and a network
//! request primitive that crosses a foreign host boundary. This crate holds
//! the bridge logic itself — argument validation, byte-level serialization
//! of the request, and translation of the host's integer status code and
//! opaque handles into a script-visible value or error — stated and proved
//! as contracts. The engine glue and the actual foreign calls live outside
//! this crate and exchange plain values with it.

pub mod decimal;
pub mod fetch;
pub mod logging;
