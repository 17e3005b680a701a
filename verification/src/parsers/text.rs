//! The text parser unit: the catch-all. With its default, empty marker it
//! unconditionally claims the whole input as literal text; with a non-empty
//! marker it behaves like the file unit, claiming everything after the
//! marker. Its maximal default weight makes it run after every marker-based
//! unit has already failed.

use vstd::prelude::*;

use crate::error::input::{EKind, InputError};
use crate::parsers::{InputType, InputTypeView, Match, Standard};
use crate::strings::{starts_with_chars, str_starts_with, str_suffix_from, suffix_chars};

verus! {

/// The parser unit that treats the input itself as the payload.
#[derive(Debug, Clone)]
pub struct Text<M: Match = Standard> {
    /// The configured trigger marker; `None` means the default, empty
    /// marker.
    pub marker: Option<String>,
    /// A replacement matcher; `None` means the built-in rule.
    pub matcher: Option<M>,
    /// The configured weight; `None` means the default weight.
    pub weight: Option<u8>,
}

impl Text {
    /// The weight a text unit dispatches with unless configured otherwise:
    /// the maximum, so the catch-all runs last.
    pub const DEFAULT_WEIGHT: u8 = 255;

    /// The marker a text unit looks for unless configured otherwise: empty,
    /// which makes the unit claim any input.
    pub const DEFAULT_MARKER: &'static str = "";

    /// Instantiate a new text unit with the default marker, matcher and
    /// weight.
    pub fn new() -> (r: Text)
        ensures
            r.marker is None,
            r.matcher is None,
            r.weight is None,
    {
        Text { marker: None, matcher: None, weight: None }
    }
}

impl<M: Match> Text<M> {
    /// The marker this unit triggers on.
    pub open spec fn eff_marker(self) -> Seq<char> {
        match self.marker {
            Some(m) => m@,
            None => Seq::<char>::empty(),
        }
    }

    /// The weight this unit dispatches with.
    pub open spec fn eff_weight(self) -> u8 {
        match self.weight {
            Some(w) => w,
            None => 255,
        }
    }

    /// Does this unit use its built-in matching rule?
    pub open spec fn is_standard(self) -> bool {
        self.matcher is None
    }

    /// The built-in rule: with an empty marker the unit claims anything;
    /// with a non-empty one the input must start with the marker.
    pub open spec fn accepts(self, input: Seq<char>) -> bool {
        self.eff_marker().len() == 0 || starts_with_chars(input, self.eff_marker())
    }

    /// The payload the built-in rule extracts: the whole input when the
    /// marker is empty, everything after the marker otherwise.
    pub open spec fn claimed(self, input: Seq<char>) -> Seq<char> {
        suffix_chars(input, self.eff_marker().len() as int)
    }

    /// Convenience function for modifying the semantics of this unit.
    pub fn with<F: FnOnce(Self) -> Self>(self, f: F) -> (r: Self)
        requires
            call_requires(f, (self,)),
        ensures
            call_ensures(f, (self,), r),
    {
        f(self)
    }

    /// Replace the marker string that triggers this unit. The marker is
    /// handed to the matching rule as its second argument.
    pub fn marker(self, marker: &str) -> (r: Self)
        ensures
            r.eff_marker() == marker@,
            r.matcher == self.matcher,
            r.weight == self.weight,
    {
        Text { marker: Some(marker.to_owned()), matcher: self.matcher, weight: self.weight }
    }

    /// Replace the matching rule of this unit with the given one, keeping
    /// its marker and weight.
    pub fn parser<M2: Match>(self, matcher: M2) -> (r: Text<M2>)
        ensures
            r.marker == self.marker,
            r.matcher == Some(matcher),
            r.weight == self.weight,
    {
        Text { marker: self.marker, matcher: Some(matcher), weight: self.weight }
    }

    /// Set this unit's weight. Lower numbers run before greater ones.
    pub fn weight(self, weight: u8) -> (r: Self)
        ensures
            r.marker == self.marker,
            r.matcher == self.matcher,
            r.eff_weight() == weight,
    {
        Text { marker: self.marker, matcher: self.matcher, weight: Some(weight) }
    }

    /// The weight this unit dispatches with.
    pub fn get_weight(&self) -> (r: u8)
        ensures
            r == self.eff_weight(),
    {
        match &self.weight {
            Some(w) => *w,
            None => 255,
        }
    }

    /// The marker this unit triggers on.
    pub fn get_marker(&self) -> (r: &str)
        ensures
            r@ == self.eff_marker(),
    {
        match &self.marker {
            Some(m) => m.as_str(),
            None => {
                proof {
                    reveal_strlit("");
                    assert(""@ =~= Seq::<char>::empty());
                }
                ""
            },
        }
    }

    /// Attempt to claim `input`. With the built-in rule and the default,
    /// empty marker this always succeeds and reports the whole input; with
    /// a non-empty marker it succeeds exactly when the input starts with
    /// the marker, reporting the remainder. With a replacement matcher,
    /// whatever it returns decides. A rejection carries exactly the text
    /// category.
    pub fn parse_str(&self, input: &str) -> (r: Result<InputType, InputError>)
        ensures
            (match r {
                Ok(t) => t is UTF8,
                Err(e) => e == InputError::singleton(EKind::Text),
            }),
            self.is_standard() ==> (match r {
                Ok(t) => self.accepts(input@) && t@ == (InputTypeView::UTF8 {
                    content: self.claimed(input@),
                }),
                Err(_) => !self.accepts(input@),
            }),
    {
        let marker = self.get_marker();
        let claimed = match &self.matcher {
            Some(custom) => custom.check(input, marker),
            None => default_text_parser(input, marker),
        };
        match claimed {
            Some(content) => Ok(InputType::UTF8(content)),
            None => Err(InputError::new(EKind::Text)),
        }
    }
}

/// The built-in rule of the text unit: an empty marker claims the whole
/// input unmodified, a non-empty marker claims everything after it.
pub fn default_text_parser(input: &str, marker: &str) -> (r: Option<String>)
    ensures
        r is Some <==> (marker@.len() == 0 || starts_with_chars(input@, marker@)),
        (match r {
            Some(rest) => rest@ == suffix_chars(input@, marker@.len() as int),
            None => true,
        }),
{
    if marker.is_empty() {
        let whole = input.to_owned();
        proof {
            assert(whole@ =~= suffix_chars(input@, 0));
        }
        Some(whole)
    } else if str_starts_with(input, marker) {
        let n = marker.unicode_len();
        Some(str_suffix_from(input, n))
    } else {
        None
    }
}

} // verus!
