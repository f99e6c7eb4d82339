//! Plain-text image output for a sphere path tracer.
//!
//! The renderer itself works in floating point and lives outside this
//! library. What can be stated over plain values is here: the decision
//! taken at each bounce of the tracer, and everything that turns
//! finished channel values into the text image format, with its output
//! pinned down exactly.

pub mod decimal;
pub mod ppm;
pub mod trace;
