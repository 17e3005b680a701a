//! The stdin parser unit: it claims an input that consists, in its
//! entirety, of the unit's marker (`-` by default), indicating that the
//! program's standard input should be read instead.

use vstd::prelude::*;

use crate::error::input::{EKind, InputError};
use crate::parsers::{InputType, Match, Standard};
use crate::strings::str_eq;

verus! {

/// The parser unit that recognises a request to read standard input.
#[derive(Debug, Clone)]
pub struct Stdin<M: Match = Standard> {
    /// The configured trigger marker; `None` means the default `-`.
    pub marker: Option<String>,
    /// A replacement matcher; `None` means the built-in full-match rule.
    pub matcher: Option<M>,
    /// The configured weight; `None` means the default weight.
    pub weight: Option<u8>,
}

impl Stdin {
    /// The weight a stdin unit dispatches with unless configured otherwise.
    pub const DEFAULT_WEIGHT: u8 = 140;

    /// The marker a stdin unit looks for unless configured otherwise.
    pub const DEFAULT_MARKER: &'static str = "-";

    /// Instantiate a new stdin unit with the default marker, matcher and
    /// weight.
    pub fn new() -> (r: Stdin)
        ensures
            r.marker is None,
            r.matcher is None,
            r.weight is None,
    {
        Stdin { marker: None, matcher: None, weight: None }
    }
}

impl<M: Match> Stdin<M> {
    /// The marker this unit triggers on.
    pub open spec fn eff_marker(self) -> Seq<char> {
        match self.marker {
            Some(m) => m@,
            None => "-"@,
        }
    }

    /// The weight this unit dispatches with.
    pub open spec fn eff_weight(self) -> u8 {
        match self.weight {
            Some(w) => w,
            None => 140,
        }
    }

    /// Does this unit use its built-in matching rule?
    pub open spec fn is_standard(self) -> bool {
        self.matcher is None
    }

    /// The built-in rule: the whole input must equal the marker; trailing
    /// content is a failure.
    pub open spec fn accepts(self, input: Seq<char>) -> bool {
        input == self.eff_marker()
    }

    /// Convenience function for modifying the semantics of this unit.
    pub fn with<F: FnOnce(Self) -> Self>(self, f: F) -> (r: Self)
        requires
            call_requires(f, (self,)),
        ensures
            call_ensures(f, (self,), r),
    {
        f(self)
    }

    /// Replace the marker string that triggers this unit. The marker is
    /// handed to the matching rule as its second argument.
    pub fn marker(self, marker: &str) -> (r: Self)
        ensures
            r.eff_marker() == marker@,
            r.matcher == self.matcher,
            r.weight == self.weight,
    {
        Stdin { marker: Some(marker.to_owned()), matcher: self.matcher, weight: self.weight }
    }

    /// Replace the matching rule of this unit with the given one, keeping
    /// its marker and weight.
    pub fn parser<M2: Match>(self, matcher: M2) -> (r: Stdin<M2>)
        ensures
            r.marker == self.marker,
            r.matcher == Some(matcher),
            r.weight == self.weight,
    {
        Stdin { marker: self.marker, matcher: Some(matcher), weight: self.weight }
    }

    /// Set this unit's weight. Lower numbers run before greater ones.
    pub fn weight(self, weight: u8) -> (r: Self)
        ensures
            r.marker == self.marker,
            r.matcher == self.matcher,
            r.eff_weight() == weight,
    {
        Stdin { marker: self.marker, matcher: self.matcher, weight: Some(weight) }
    }

    /// The weight this unit dispatches with.
    pub fn get_weight(&self) -> (r: u8)
        ensures
            r == self.eff_weight(),
    {
        match &self.weight {
            Some(w) => *w,
            None => 140,
        }
    }

    /// The marker this unit triggers on.
    pub fn get_marker(&self) -> (r: &str)
        ensures
            r@ == self.eff_marker(),
    {
        match &self.marker {
            Some(m) => m.as_str(),
            None => "-",
        }
    }

    /// Attempt to claim `input`. With the built-in rule this succeeds
    /// exactly when the whole input equals the marker; with a replacement
    /// matcher, whatever it returns decides. A success carries no payload
    /// beyond the marker itself; a rejection carries exactly the stdin
    /// category.
    pub fn parse_str(&self, input: &str) -> (r: Result<InputType, InputError>)
        ensures
            (match r {
                Ok(t) => t is Stdin,
                Err(e) => e == InputError::singleton(EKind::Stdin),
            }),
            self.is_standard() ==> (match r {
                Ok(_) => self.accepts(input@),
                Err(_) => !self.accepts(input@),
            }),
    {
        let marker = self.get_marker();
        let claimed = match &self.matcher {
            Some(custom) => custom.check(input, marker),
            None => default_stdin_parser(input, marker),
        };
        match claimed {
            Some(_) => Ok(InputType::Stdin),
            None => Err(InputError::new(EKind::Stdin)),
        }
    }
}

/// The built-in rule of the stdin unit: the input must equal the marker in
/// full, and the matched remainder is empty.
pub fn default_stdin_parser(input: &str, marker: &str) -> (r: Option<String>)
    ensures
        r is Some <==> input@ == marker@,
        (match r {
            Some(rest) => rest@ == Seq::<char>::empty(),
            None => true,
        }),
{
    if str_eq(input, marker) {
        Some(String::new())
    } else {
        None
    }
}

} // verus!
