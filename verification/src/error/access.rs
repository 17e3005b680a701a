//! The error returned when an already-resolved input source is accessed:
//! turning a resolved source into a byte stream happens after parsing, and
//! its failures are kept apart from parse-time errors.

use vstd::prelude::*;

verus! {

/// A cheap descriptor of the kind of access error encountered.
#[derive(Debug, Clone, Copy, PartialEq, Eq, Hash, Structural)]
pub enum Kind {
    /// The underlying error originates from attempting to access a file.
    File,
}

/// The actual representation of an [`AccessError`].
#[derive(Debug, Clone)]
enum Inner {
    File { context: Option<String>, detail: String },
}

impl Inner {
    spec fn kind_spec(self) -> Kind {
        match self {
            Inner::File { .. } => Kind::File,
        }
    }

    fn kind(&self) -> (r: Kind)
        ensures
            r == self.kind_spec(),
    {
        match self {
            Inner::File { .. } => Kind::File,
        }
    }
}

/// An error condition met while accessing the source of some already-parsed
/// input. It is opaque apart from the [`kind`](AccessError::kind) of the
/// underlying source and a rendered description.
#[derive(Debug, Clone)]
pub struct AccessError {
    inner: Inner,
}

impl AccessError {
    /// Which kind of source the error came from.
    pub closed spec fn spec_kind(self) -> Kind {
        self.inner.kind_spec()
    }

    /// The path, if any, that was recorded as context.
    pub closed spec fn spec_context(self) -> Option<Seq<char>> {
        match self.inner {
            Inner::File { context, .. } => match context {
                Some(p) => Some(p@),
                None => None,
            },
        }
    }

    /// Returns an enum that describes the type of error encountered.
    pub fn kind(&self) -> (r: Kind)
        ensures
            r == self.spec_kind(),
    {
        self.inner.kind()
    }

    /// The rendering of the underlying failure.
    pub closed spec fn spec_detail(self) -> Seq<char> {
        match self.inner {
            Inner::File { detail, .. } => detail@,
        }
    }

    /// The rendered form of this error: the kind of source, the path when
    /// one was recorded, and the underlying failure.
    pub open spec fn message_chars(self) -> Seq<char> {
        "file access failed: unable to open "@ + (match self.spec_context() {
            Some(p) => p + ": "@,
            None => "file: "@,
        }) + self.spec_detail()
    }

    /// Render this error for diagnostics.
    pub fn message(&self) -> (r: String)
        ensures
            r@ == self.message_chars(),
    {
        let mut r = String::new();
        r.append("file access failed: unable to open ");
        match &self.inner {
            Inner::File { context, detail } => {
                match context {
                    Some(p) => {
                        r.append(p.as_str());
                        r.append(": ");
                    },
                    None => {
                        r.append("file: ");
                    },
                }
                r.append(detail.as_str());
            },
        }
        proof {
            assert(r@ =~= self.message_chars());
        }
        r
    }

    /// Create a new error that originates from an attempt to access a file.
    /// `detail` carries the rendering of the underlying I/O failure, and
    /// `context` the offending path.
    pub fn file_with_context(detail: String, context: String) -> (r: Self)
        ensures
            r.spec_kind() == Kind::File,
            r.spec_context() == Some(context@),
    {
        AccessError { inner: Inner::File { context: Some(context), detail } }
    }
}

impl PartialEq for AccessError {
    fn eq(&self, other: &AccessError) -> (r: bool) {
        let a = self.kind();
        let b = other.kind();
        matches!((a, b), (Kind::File, Kind::File))
    }
}

impl vstd::std_specs::cmp::PartialEqSpecImpl for AccessError {
    open spec fn obeys_eq_spec() -> bool {
        true
    }

    open spec fn eq_spec(&self, other: &AccessError) -> bool {
        self.spec_kind() == other.spec_kind()
    }
}

} // verus!
