//! A fixed-capacity keystroke event recorder.
//!
//! An [`log::KeystrokeCapture`] buffers key press and release events, each
//! stamped with a caller-supplied clock reading, up to a capacity fixed at
//! construction. The buffered events can be exported as a CSV document, as a
//! structured list of records, or as a short human-readable dump of the most
//! recent entries. Clock readings are carried as whole microseconds, so every
//! exported figure is computed exactly.

pub mod digits;
pub mod laws;
pub mod log;
pub mod record;
pub mod render;
