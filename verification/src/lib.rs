//! Resolve an ambiguous piece of command-line text into a concrete input
//! source: read from standard input, read from a named file, or treat the
//! text itself as the payload.
//!
//! The heart of the crate is the dispatch engine: a registry of
//! independently configurable, priority-ordered parser units that compete to
//! claim the input ([`Config`], built through [`Builder`]). Each unit holds a
//! trigger marker, an optional replacement matcher and a weight; the
//! registry tries the units in ascending weight order and returns the first
//! success as an [`Input`]. When every unit rejects the input, the failures
//! are accumulated into a single [`error::input::InputError`].
//!
//! Dispatch is pure: no file is opened and standard input is never touched
//! while an argument is being resolved. Turning a resolved [`Input`] into an
//! actual byte stream is a separate, later step that belongs to the host
//! program.

mod builder;
mod input;
mod strings;

pub mod error;
pub mod parsers;

pub use builder::{default_builder, Builder, Config, Slot};

pub use error::input::{EKind, InputError};

pub use input::{Input, TextCursor};
