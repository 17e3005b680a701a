//! The file parser unit: it claims an input that begins with its marker
//! (`@` by default) and takes the remainder of the input, verbatim, as a
//! file path.

use vstd::prelude::*;

use crate::error::input::{EKind, InputError};
use crate::parsers::{FilePath, InputType, InputTypeView, Match, Standard};
use crate::strings::{starts_with_chars, str_starts_with, str_suffix_from, suffix_chars};

verus! {

/// The parser unit that recognises file paths.
#[derive(Debug, Clone)]
pub struct File<M: Match = Standard> {
    /// The configured trigger marker; `None` means the default `@`.
    pub marker: Option<String>,
    /// A replacement matcher; `None` means the built-in prefix rule.
    pub matcher: Option<M>,
    /// The configured weight; `None` means the default weight.
    pub weight: Option<u8>,
}

impl File {
    /// The weight a file unit dispatches with unless configured otherwise:
    /// the lowest (highest-priority) default of the three kinds.
    pub const DEFAULT_WEIGHT: u8 = 130;

    /// The marker a file unit looks for unless configured otherwise.
    pub const DEFAULT_MARKER: &'static str = "@";

    /// Instantiate a new file unit with the default marker, matcher and
    /// weight.
    pub fn new() -> (r: File)
        ensures
            r.marker is None,
            r.matcher is None,
            r.weight is None,
    {
        File { marker: None, matcher: None, weight: None }
    }
}

impl<M: Match> File<M> {
    /// The marker this unit triggers on.
    pub open spec fn eff_marker(self) -> Seq<char> {
        match self.marker {
            Some(m) => m@,
            None => "@"@,
        }
    }

    /// The weight this unit dispatches with.
    pub open spec fn eff_weight(self) -> u8 {
        match self.weight {
            Some(w) => w,
            None => 130,
        }
    }

    /// Does this unit use its built-in matching rule?
    pub open spec fn is_standard(self) -> bool {
        self.matcher is None
    }

    /// The built-in rule: the unit claims an input that starts with its
    /// marker.
    pub open spec fn accepts(self, input: Seq<char>) -> bool {
        starts_with_chars(input, self.eff_marker())
    }

    /// The payload the built-in rule extracts: everything after the marker.
    pub open spec fn claimed(self, input: Seq<char>) -> Seq<char> {
        suffix_chars(input, self.eff_marker().len() as int)
    }

    /// Convenience function for modifying the semantics of this unit.
    pub fn with<F: FnOnce(Self) -> Self>(self, f: F) -> (r: Self)
        requires
            call_requires(f, (self,)),
        ensures
            call_ensures(f, (self,), r),
    {
        f(self)
    }

    /// Replace the marker string that triggers this unit. The marker is
    /// handed to the matching rule as its second argument.
    pub fn marker(self, marker: &str) -> (r: Self)
        ensures
            r.eff_marker() == marker@,
            r.matcher == self.matcher,
            r.weight == self.weight,
    {
        File { marker: Some(marker.to_owned()), matcher: self.matcher, weight: self.weight }
    }

    /// Replace the matching rule of this unit with the given one, keeping
    /// its marker and weight.
    pub fn parser<M2: Match>(self, matcher: M2) -> (r: File<M2>)
        ensures
            r.marker == self.marker,
            r.matcher == Some(matcher),
            r.weight == self.weight,
    {
        File { marker: self.marker, matcher: Some(matcher), weight: self.weight }
    }

    /// Set this unit's weight. Lower numbers run before greater ones.
    pub fn weight(self, weight: u8) -> (r: Self)
        ensures
            r.marker == self.marker,
            r.matcher == self.matcher,
            r.eff_weight() == weight,
    {
        File { marker: self.marker, matcher: self.matcher, weight: Some(weight) }
    }

    /// The weight this unit dispatches with.
    pub fn get_weight(&self) -> (r: u8)
        ensures
            r == self.eff_weight(),
    {
        match &self.weight {
            Some(w) => *w,
            None => 130,
        }
    }

    /// The marker this unit triggers on.
    pub fn get_marker(&self) -> (r: &str)
        ensures
            r@ == self.eff_marker(),
    {
        match &self.marker {
            Some(m) => m.as_str(),
            None => "@",
        }
    }

    /// Attempt to claim `input`. With the built-in rule this succeeds
    /// exactly when the input starts with the marker, and the remainder is
    /// reported as the path; with a replacement matcher, whatever it
    /// returns decides. A rejection carries exactly the file category.
    pub fn parse_str(&self, input: &str) -> (r: Result<InputType, InputError>)
        ensures
            (match r {
                Ok(t) => t is File,
                Err(e) => e == InputError::singleton(EKind::File),
            }),
            self.is_standard() ==> (match r {
                Ok(t) => self.accepts(input@) && t@ == (InputTypeView::File {
                    path: self.claimed(input@),
                }),
                Err(_) => !self.accepts(input@),
            }),
    {
        let marker = self.get_marker();
        let claimed = match &self.matcher {
            Some(custom) => custom.check(input, marker),
            None => default_file_parser(input, marker),
        };
        match claimed {
            Some(path) => Ok(InputType::File(FilePath { path })),
            None => Err(InputError::new(EKind::File)),
        }
    }
}

/// The built-in rule of the file unit: the input must start with the
/// marker, and the rest of the input is the matched remainder.
pub fn default_file_parser(input: &str, marker: &str) -> (r: Option<String>)
    ensures
        r is Some <==> starts_with_chars(input@, marker@),
        (match r {
            Some(rest) => rest@ == suffix_chars(input@, marker@.len() as int),
            None => true,
        }),
{
    if str_starts_with(input, marker) {
        let n = marker.unicode_len();
        Some(str_suffix_from(input, n))
    } else {
        None
    }
}

} // verus!
