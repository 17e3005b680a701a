//! The error returned during input parsing.
//!
//! Dispatch tries every configured parser unit until one claims the input;
//! each unit that rejects it leaves its category behind. [`InputError`] is
//! the set-valued record of those categories, merged across attempts.

use vstd::prelude::*;

verus! {

/// An error category that can occur during input parsing.
#[derive(Debug, Clone, Copy, PartialEq, Eq, Hash, Structural)]
pub enum EKind {
    /// The error originates from the text parser unit.
    Text,
    /// The error originates from the stdin parser unit.
    Stdin,
    /// The error originates from the file parser unit.
    File,
    /// The input was required to be valid UTF-8 and was not.
    RequiresUtf8,
}

/// An error originating from an attempt to parse some input into a concrete
/// input source. It may accumulate multiple categories, one per parser unit
/// that rejected the input, plus the cross-cutting UTF-8 condition.
#[derive(Debug, Clone, PartialEq, Eq, Structural)]
pub struct InputError {
    /// The text parser unit rejected the input.
    pub text: bool,
    /// The stdin parser unit rejected the input.
    pub stdin: bool,
    /// The file parser unit rejected the input.
    pub file: bool,
    /// The input was not valid UTF-8.
    pub requires_utf8: bool,
}

impl InputError {
    /// The record that holds no category at all: the accumulator before any
    /// unit has rejected the input.
    pub open spec fn empty_record() -> InputError {
        InputError { text: false, stdin: false, file: false, requires_utf8: false }
    }

    /// The record that holds exactly the one category `kind`.
    pub open spec fn singleton(kind: EKind) -> InputError {
        InputError {
            text: kind == EKind::Text,
            stdin: kind == EKind::Stdin,
            file: kind == EKind::File,
            requires_utf8: kind == EKind::RequiresUtf8,
        }
    }

    /// Does this record contain the category `kind`?
    pub open spec fn has(self, kind: EKind) -> bool {
        match kind {
            EKind::Text => self.text,
            EKind::Stdin => self.stdin,
            EKind::File => self.file,
            EKind::RequiresUtf8 => self.requires_utf8,
        }
    }

    /// This record with the category `kind` added.
    pub open spec fn adding(self, kind: EKind) -> InputError {
        InputError {
            text: self.text || kind == EKind::Text,
            stdin: self.stdin || kind == EKind::Stdin,
            file: self.file || kind == EKind::File,
            requires_utf8: self.requires_utf8 || kind == EKind::RequiresUtf8,
        }
    }

    /// The union of two records: a category is present exactly when either
    /// side holds it.
    pub open spec fn union_with(self, other: InputError) -> InputError {
        InputError {
            text: self.text || other.text,
            stdin: self.stdin || other.stdin,
            file: self.file || other.file,
            requires_utf8: self.requires_utf8 || other.requires_utf8,
        }
    }

    /// The number of categories this record contains.
    pub open spec fn count_spec(self) -> int {
        (if self.text {
            1int
        } else {
            0int
        }) + (if self.stdin {
            1int
        } else {
            0int
        }) + (if self.file {
            1int
        } else {
            0int
        }) + (if self.requires_utf8 {
            1int
        } else {
            0int
        })
    }

    /// Create a new error from the given kind.
    pub fn new(kind: EKind) -> (r: Self)
        ensures
            r == Self::singleton(kind),
    {
        InputError {
            text: matches!(kind, EKind::Text),
            stdin: matches!(kind, EKind::Stdin),
            file: matches!(kind, EKind::File),
            requires_utf8: matches!(kind, EKind::RequiresUtf8),
        }
    }

    /// Convenience function for adding additional errors.
    pub fn with<F: FnOnce(Self) -> Self>(self, f: F) -> (r: Self)
        requires
            call_requires(f, (self,)),
        ensures
            call_ensures(f, (self,), r),
    {
        f(self)
    }

    /// Add the given kind to this error.
    pub fn insert(&mut self, kind: EKind)
        ensures
            *final(self) == old(self).adding(kind),
    {
        match kind {
            EKind::Text => {
                self.text = true;
            },
            EKind::Stdin => {
                self.stdin = true;
            },
            EKind::File => {
                self.file = true;
            },
            EKind::RequiresUtf8 => {
                self.requires_utf8 = true;
            },
        }
    }

    /// Extend this error from another.
    pub fn extend(&mut self, other: Self)
        ensures
            *final(self) == old(self).union_with(other),
    {
        self.text = self.text || other.text;
        self.stdin = self.stdin || other.stdin;
        self.file = self.file || other.file;
        self.requires_utf8 = self.requires_utf8 || other.requires_utf8;
    }

    /// Check if this error contains the given kind.
    pub fn contains(&self, kind: EKind) -> (r: bool)
        ensures
            r == self.has(kind),
    {
        match kind {
            EKind::Text => self.text,
            EKind::Stdin => self.stdin,
            EKind::File => self.file,
            EKind::RequiresUtf8 => self.requires_utf8,
        }
    }

    /// Count the number of kinds this error contains.
    pub fn count(&self) -> (r: usize)
        ensures
            r as int == self.count_spec(),
    {
        let mut n: usize = 0;
        if self.text {
            n += 1;
        }
        if self.stdin {
            n += 1;
        }
        if self.file {
            n += 1;
        }
        if self.requires_utf8 {
            n += 1;
        }
        n
    }
}

/// One step of rendering the category list: a name joins an accumulator,
/// separated by `" | "` unless it comes first.
pub open spec fn join_part(acc: Seq<char>, name: Seq<char>) -> Seq<char> {
    if acc.len() == 0 {
        name
    } else {
        acc + " | "@ + name
    }
}

impl InputError {
    /// The rendered list of the categories this record contains, in their
    /// fixed declaration order.
    pub open spec fn category_list(self) -> Seq<char> {
        let s0 = Seq::<char>::empty();
        let s1 = if self.text {
            join_part(s0, "TEXT"@)
        } else {
            s0
        };
        let s2 = if self.stdin {
            join_part(s1, "STDIN"@)
        } else {
            s1
        };
        let s3 = if self.file {
            join_part(s2, "FILE"@)
        } else {
            s2
        };
        if self.requires_utf8 {
            join_part(s3, "REQUIRES_UTF8"@)
        } else {
            s3
        }
    }

    /// The rendered form of this record: the wording is plural exactly when
    /// more than one category is set.
    pub open spec fn message_chars(self) -> Seq<char> {
        if self.count_spec() > 1 {
            "Multiple parsers failed ["@ + self.category_list() + "]"@
        } else {
            "Parser failed ["@ + self.category_list() + "]"@
        }
    }

    /// Render this record for diagnostics: `Parser failed [..]` for a
    /// single category, `Multiple parsers failed [..]` for several.
    pub fn message(&self) -> (r: String)
        ensures
            r@ == self.message_chars(),
    {
        let ghost s0 = Seq::<char>::empty();
        let mut cats = String::new();
        if self.text {
            cats.append("TEXT");
        }
        proof {
            assert(cats@ =~= (if self.text {
                join_part(s0, "TEXT"@)
            } else {
                s0
            }));
        }
        let ghost s1 = cats@;
        if self.stdin {
            if !cats.as_str().is_empty() {
                cats.append(" | ");
            }
            cats.append("STDIN");
        }
        proof {
            assert(cats@ =~= (if self.stdin {
                join_part(s1, "STDIN"@)
            } else {
                s1
            }));
        }
        let ghost s2 = cats@;
        if self.file {
            if !cats.as_str().is_empty() {
                cats.append(" | ");
            }
            cats.append("FILE");
        }
        proof {
            assert(cats@ =~= (if self.file {
                join_part(s2, "FILE"@)
            } else {
                s2
            }));
        }
        let ghost s3 = cats@;
        if self.requires_utf8 {
            if !cats.as_str().is_empty() {
                cats.append(" | ");
            }
            cats.append("REQUIRES_UTF8");
        }
        proof {
            assert(cats@ =~= (if self.requires_utf8 {
                join_part(s3, "REQUIRES_UTF8"@)
            } else {
                s3
            }));
            assert(cats@ == self.category_list());
        }
        let mut r = String::new();
        if self.count() > 1 {
            r.append("Multiple parsers failed [");
        } else {
            r.append("Parser failed [");
        }
        r.append(cats.as_str());
        r.append("]");
        proof {
            assert(r@ =~= self.message_chars());
        }
        r
    }
}

/// Merging two accumulated error records is commutative: whichever record is
/// folded into the other, the union holds a category exactly when either
/// side does.
pub proof fn lemma_union_commutes(a: InputError, b: InputError)
    ensures
        a.union_with(b) == b.union_with(a),
{
}

/// Merging accumulated error records is associative, so failures may be
/// folded together in any iteration order without losing a category.
pub proof fn lemma_union_associates(a: InputError, b: InputError, c: InputError)
    ensures
        a.union_with(b).union_with(c) == a.union_with(b.union_with(c)),
{
}

/// Merging is a pure union over the categories: the merged record contains
/// a category exactly when either side does, so no category is ever lost
/// and none appears from nowhere.
pub proof fn lemma_union_membership(a: InputError, b: InputError)
    ensures
        forall|k: EKind| a.union_with(b).has(k) == (a.has(k) || b.has(k)),
{
}

impl From<EKind> for InputError {
    fn from(kind: EKind) -> (r: Self) {
        InputError::new(kind)
    }
}

impl vstd::std_specs::convert::FromSpecImpl<EKind> for InputError {
    open spec fn obeys_from_spec() -> bool {
        true
    }

    open spec fn from_spec(kind: EKind) -> Self {
        InputError::singleton(kind)
    }
}

} // verus!
