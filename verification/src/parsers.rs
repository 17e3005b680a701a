//! The individual parser units that the high level API uses for processing
//! raw input into a well understood [`InputType`]. Each unit holds a
//! configurable trigger marker, an optional replacement matcher and a
//! priority weight; the dispatcher in [`crate::Config`] runs them in
//! ascending weight order.

use vstd::prelude::*;

mod file;
mod stdin;
mod text;

pub use file::{default_file_parser, File};

pub use stdin::{default_stdin_parser, Stdin};

pub use text::{default_text_parser, Text};

verus! {

/// A replacement matching function for a parser unit.
///
/// Given the raw input and the unit's configured marker, an implementation
/// decides whether the unit claims the input; `Some` carries the matched
/// remainder (the payload the unit will report). Nothing is assumed of a
/// replacement matcher: a unit that carries one keeps only the guarantees
/// that hold of every outcome.
pub trait Match {
    /// Attempt to claim `input`, given the unit's `marker`.
    fn check(&self, input: &str, marker: &str) -> Option<String>;
}

/// The placeholder matcher of a unit that uses its built-in rule. It is
/// never consulted: a unit holds `None` in its matcher slot instead.
#[derive(Debug, Clone, Copy, PartialEq, Eq, Structural)]
pub struct Standard;

impl Match for Standard {
    fn check(&self, _input: &str, _marker: &str) -> Option<String> {
        None
    }
}

/// A successfully parsed file path, taken verbatim from the input after the
/// file unit's marker.
#[derive(Debug, Clone, PartialEq)]
pub struct FilePath {
    /// The path itself, exactly as it stood in the input.
    pub path: String,
}

impl FilePath {
    /// Wrap an already-extracted path.
    pub fn new(path: String) -> (r: Self)
        ensures
            r.path == path,
    {
        FilePath { path }
    }
}

impl View for FilePath {
    type V = Seq<char>;

    open spec fn view(&self) -> Seq<char> {
        self.path@
    }
}

/// The resolved source kind that a successful dispatch produces. It is inert
/// data: no file is opened and standard input is not touched until the value
/// is explicitly accessed, later and elsewhere.
#[derive(Debug, Clone, PartialEq)]
pub enum InputType {
    /// Read from the process-wide standard input.
    Stdin,
    /// Read from the file at the carried path.
    File(FilePath),
    /// Treat the carried text itself as the payload.
    UTF8(String),
}

/// The mathematical shape of an [`InputType`]: the same three variants over
/// character sequences.
pub enum InputTypeView {
    /// Standard input; no payload.
    Stdin,
    /// A file path.
    File { path: Seq<char> },
    /// Literal text content.
    UTF8 { content: Seq<char> },
}

impl View for InputType {
    type V = InputTypeView;

    open spec fn view(&self) -> InputTypeView {
        match self {
            InputType::Stdin => InputTypeView::Stdin,
            InputType::File(fp) => InputTypeView::File { path: fp.path@ },
            InputType::UTF8(s) => InputTypeView::UTF8 { content: s@ },
        }
    }
}

} // verus!
