//! [`Config`] and its sister [`Builder`], used for resolving raw input into
//! a concrete [`Input`] that can later be accessed and read from. A
//! `Config` is a registry of up to one parser unit per kind; dispatching an
//! input tries the populated slots in ascending weight order (ties keep the
//! declared slot order: file, stdin, text) and returns the first success,
//! or the accumulated record of every rejection.

use vstd::prelude::*;
use vstd::seq_lib::lemma_seq_contains_after_push;

use crate::error::input::{EKind, InputError};
use crate::input::Input;
use crate::parsers::{File, InputType, InputTypeView, Match, Standard, Stdin, Text};
use crate::strings::bytes_to_utf8;
use vstd::utf8::{decode_utf8, valid_utf8};

verus! {

/// Identifies one of the three parser-unit slots of a registry, listed in
/// their declared order: file, stdin, text.
#[derive(Debug, Clone, Copy, PartialEq, Eq, Hash, Structural)]
pub enum Slot {
    /// The file unit's slot.
    File,
    /// The stdin unit's slot.
    Stdin,
    /// The text unit's slot.
    Text,
}

/// The declaration position of a slot, used to break weight ties.
pub open spec fn slot_decl(s: Slot) -> int {
    match s {
        Slot::File => 0,
        Slot::Stdin => 1,
        Slot::Text => 2,
    }
}

/// The error category that a slot's unit reports when it rejects an input.
pub open spec fn slot_kind(s: Slot) -> EKind {
    match s {
        Slot::File => EKind::File,
        Slot::Stdin => EKind::Stdin,
        Slot::Text => EKind::Text,
    }
}

/// The accumulator of a dispatch in progress: no failure yet, or the record
/// so far.
pub open spec fn errv(acc: Option<InputError>) -> InputError {
    match acc {
        Some(e) => e,
        None => InputError::empty_record(),
    }
}

/// Fold an already-accumulated record into the outcome of the remaining
/// units: a success stands as it is, a failure absorbs the record.
pub open spec fn merge_err(e: InputError, out: Result<InputTypeView, InputError>) -> Result<
    InputTypeView,
    InputError,
> {
    match out {
        Ok(v) => Ok(v),
        Err(e2) => Err(e.union_with(e2)),
    }
}

/// The mathematical shape of a dispatch result.
pub open spec fn res_view(r: Result<InputType, InputError>) -> Result<InputTypeView, InputError> {
    match r {
        Ok(t) => Ok(t@),
        Err(e) => Err(e),
    }
}

/// The default registry: all three units populated, each with its default
/// marker, built-in rule and default weight.
pub open spec fn default_builder() -> Builder {
    Builder {
        stdin: Some(Stdin { marker: None, matcher: None, weight: None }),
        file: Some(File { marker: None, matcher: None, weight: None }),
        text: Some(Text { marker: None, matcher: None, weight: None }),
    }
}

/// A [`Config`] builder: use it to choose which parser units are available
/// when input is dispatched, and how each is configured.
///
/// If you just want the default configuration, use [`Config::default`] and
/// skip this struct completely.
#[derive(Debug, Clone)]
pub struct Builder<MF: Match = Standard, MS: Match = Standard, MT: Match = Standard> {
    /// The stdin slot.
    pub stdin: Option<Stdin<MS>>,
    /// The file slot.
    pub file: Option<File<MF>>,
    /// The text slot.
    pub text: Option<Text<MT>>,
}

impl Builder {
    /// Create a new, empty config builder.
    pub fn new() -> (r: Builder)
        ensures
            r.stdin is None,
            r.file is None,
            r.text is None,
    {
        Builder { stdin: None, file: None, text: None }
    }
}

impl Default for Builder {
    /// The empty builder: no slot populated.
    fn default() -> (r: Builder)
        ensures
            r.stdin is None,
            r.file is None,
            r.text is None,
    {
        Builder { stdin: None, file: None, text: None }
    }
}

impl<MF: Match, MS: Match, MT: Match> Builder<MF, MS, MT> {
    /// A registry may dispatch only when at least one slot is populated.
    pub open spec fn is_valid_spec(self) -> bool {
        self.text is Some || self.stdin is Some || self.file is Some
    }

    /// Is the given slot populated?
    pub open spec fn present(self, s: Slot) -> bool {
        match s {
            Slot::File => self.file is Some,
            Slot::Stdin => self.stdin is Some,
            Slot::Text => self.text is Some,
        }
    }

    /// The weight a slot dispatches with: its unit's effective weight, or
    /// the kind's default when the slot is empty (an empty slot is skipped,
    /// so its weight never matters).
    pub open spec fn weight_of(self, s: Slot) -> u8 {
        match s {
            Slot::File => match self.file {
                Some(u) => u.eff_weight(),
                None => 130,
            },
            Slot::Stdin => match self.stdin {
                Some(u) => u.eff_weight(),
                None => 140,
            },
            Slot::Text => match self.text {
                Some(u) => u.eff_weight(),
                None => 255,
            },
        }
    }

    /// Slot `a` runs before slot `b`: strictly lighter, or equally heavy
    /// and declared earlier.
    pub open spec fn runs_before(self, a: Slot, b: Slot) -> bool {
        self.weight_of(a) < self.weight_of(b) || (self.weight_of(a) == self.weight_of(b)
            && slot_decl(a) < slot_decl(b))
    }

    /// The order in which dispatch visits the three slots: a stable sort of
    /// the declared order (file, stdin, text) by weight ascending.
    pub open spec fn dispatch_order(self) -> Seq<Slot> {
        let wf_ = self.weight_of(Slot::File);
        let ws_ = self.weight_of(Slot::Stdin);
        let wt_ = self.weight_of(Slot::Text);
        if wf_ <= ws_ {
            if ws_ <= wt_ {
                seq![Slot::File, Slot::Stdin, Slot::Text]
            } else if wf_ <= wt_ {
                seq![Slot::File, Slot::Text, Slot::Stdin]
            } else {
                seq![Slot::Text, Slot::File, Slot::Stdin]
            }
        } else {
            if wf_ <= wt_ {
                seq![Slot::Stdin, Slot::File, Slot::Text]
            } else if ws_ <= wt_ {
                seq![Slot::Stdin, Slot::Text, Slot::File]
            } else {
                seq![Slot::Text, Slot::Stdin, Slot::File]
            }
        }
    }

    /// Every populated unit uses its built-in matching rule; only then is
    /// the complete outcome of a dispatch a function of the configuration
    /// and the input alone.
    pub open spec fn standard(self) -> bool {
        &&& (match self.file {
            Some(u) => u.is_standard(),
            None => true,
        })
        &&& (match self.stdin {
            Some(u) => u.is_standard(),
            None => true,
        })
        &&& (match self.text {
            Some(u) => u.is_standard(),
            None => true,
        })
    }

    /// Does the unit in the given populated slot claim the input, under its
    /// built-in rule?
    pub open spec fn slot_accepts(self, s: Slot, input: Seq<char>) -> bool {
        match s {
            Slot::File => match self.file {
                Some(u) => u.accepts(input),
                None => false,
            },
            Slot::Stdin => match self.stdin {
                Some(u) => u.accepts(input),
                None => false,
            },
            Slot::Text => match self.text {
                Some(u) => u.accepts(input),
                None => false,
            },
        }
    }

    /// The resolved source that the unit in the given slot produces when it
    /// claims the input under its built-in rule.
    pub open spec fn slot_claim(self, s: Slot, input: Seq<char>) -> InputTypeView {
        match s {
            Slot::File => InputTypeView::File {
                path: match self.file {
                    Some(u) => u.claimed(input),
                    None => input,
                },
            },
            Slot::Stdin => InputTypeView::Stdin,
            Slot::Text => InputTypeView::UTF8 {
                content: match self.text {
                    Some(u) => u.claimed(input),
                    None => input,
                },
            },
        }
    }

    /// The record of a total failure: exactly one category per populated
    /// slot.
    pub open spec fn present_error(self) -> InputError {
        InputError {
            text: self.text is Some,
            stdin: self.stdin is Some,
            file: self.file is Some,
            requires_utf8: false,
        }
    }

    /// The record accumulated after the populated slots listed in `s` have
    /// all rejected the input.
    pub open spec fn tried_error(self, s: Seq<Slot>) -> InputError {
        InputError {
            text: s.contains(Slot::Text) && self.text is Some,
            stdin: s.contains(Slot::Stdin) && self.stdin is Some,
            file: s.contains(Slot::File) && self.file is Some,
            requires_utf8: false,
        }
    }

    /// The outcome of running the competition over the slots in `order`,
    /// under the units' built-in rules: the first populated slot that
    /// claims the input wins outright; every populated slot that rejects it
    /// leaves its category in the accumulated record.
    pub open spec fn dispatch_from(self, order: Seq<Slot>, input: Seq<char>) -> Result<
        InputTypeView,
        InputError,
    >
        decreases order.len(),
    {
        if order.len() == 0 {
            Err(InputError::empty_record())
        } else {
            let s = order[0];
            if self.present(s) && self.slot_accepts(s, input) {
                Ok(self.slot_claim(s, input))
            } else if !self.present(s) {
                self.dispatch_from(order.drop_first(), input)
            } else {
                match self.dispatch_from(order.drop_first(), input) {
                    Ok(v) => Ok(v),
                    Err(e) => Err(e.adding(slot_kind(s))),
                }
            }
        }
    }

    /// The complete outcome of dispatching `input` against this registry,
    /// under the units' built-in rules.
    pub open spec fn dispatch_spec(self, input: Seq<char>) -> Result<InputTypeView, InputError> {
        self.dispatch_from(self.dispatch_order(), input)
    }

    /// What every dispatch outcome satisfies: a success carries the source
    /// kind of a populated slot; a failure carries exactly one category per
    /// populated slot. When every populated unit uses its built-in rule the
    /// outcome is pinned down completely by [`Builder::dispatch_spec`].
    pub open spec fn dispatch_post(
        self,
        input: Seq<char>,
        out: Result<InputTypeView, InputError>,
    ) -> bool {
        &&& (match out {
            Ok(v) => {
                &&& (v is File ==> self.file is Some)
                &&& (v is Stdin ==> self.stdin is Some)
                &&& (v is UTF8 ==> self.text is Some)
            },
            Err(e) => e == self.present_error(),
        })
        &&& (self.standard() ==> out == self.dispatch_spec(input))
    }

    /// Slot `i` of `order` is populated and claims the input under its
    /// built-in rule.
    pub open spec fn claims_at(self, order: Seq<Slot>, input: Seq<char>, i: int) -> bool {
        self.present(order[i]) && self.slot_accepts(order[i], input)
    }

    /// Induction over the competition: a success comes from the first
    /// populated slot in `order` that claims the input, every earlier slot
    /// having been tried and rejected; a failure means no slot in `order`
    /// claimed it, and records exactly one category per populated slot that
    /// was tried.
    pub proof fn lemma_dispatch_from_shape(self, order: Seq<Slot>, input: Seq<char>)
        ensures
            (match self.dispatch_from(order, input) {
                Ok(v) => exists|i: int|
                    0 <= i < order.len() && #[trigger] self.claims_at(order, input, i) && v
                        == self.slot_claim(order[i], input) && (forall|j: int|
                        0 <= j < i ==> !self.claims_at(order, input, j)),
                Err(e) => (forall|i: int|
                    0 <= i < order.len() ==> !self.claims_at(order, input, i)) && e
                    == self.tried_error(order),
            }),
        decreases order.len(),
    {
        if order.len() == 0 {
            assert(self.tried_error(order) == InputError::empty_record());
        } else {
            let s0 = order[0];
            let rest = order.drop_first();
            self.lemma_dispatch_from_shape(rest, input);
            assert forall|x: Slot| #[trigger] order.contains(x) implies (x == s0 || rest.contains(
                x,
            )) by {
                let i = choose|i: int| 0 <= i < order.len() && order[i] == x;
                if i > 0 {
                    assert(rest[i - 1] == x);
                    assert(rest.contains(x));
                }
            }
            assert forall|x: Slot| (x == s0 || rest.contains(x)) implies #[trigger] order.contains(
                x,
            ) by {
                if x == s0 {
                    assert(order[0] == x);
                } else {
                    let i = choose|i: int| 0 <= i < rest.len() && rest[i] == x;
                    assert(order[i + 1] == x);
                }
            }
            if self.present(s0) && self.slot_accepts(s0, input) {
                assert(self.claims_at(order, input, 0));
            } else {
                assert(!self.claims_at(order, input, 0));
                assert forall|i: int| 0 <= i < rest.len() implies #[trigger] self.claims_at(
                    rest,
                    input,
                    i,
                ) == self.claims_at(order, input, i + 1) by {
                    assert(order[i + 1] == rest[i]);
                }
                match self.dispatch_from(rest, input) {
                    Ok(v) => {
                        let i = choose|i: int|
                            0 <= i < rest.len() && #[trigger] self.claims_at(rest, input, i) && v
                                == self.slot_claim(rest[i], input) && (forall|j: int|
                                0 <= j < i ==> !self.claims_at(rest, input, j));
                        assert(self.claims_at(order, input, i + 1));
                        assert(order[i + 1] == rest[i]);
                        assert forall|j: int| 0 <= j < i + 1 implies !self.claims_at(
                            order,
                            input,
                            j,
                        ) by {
                            if j > 0 {
                                assert(!self.claims_at(rest, input, j - 1));
                            }
                        }
                    },
                    Err(e) => {
                        assert forall|i: int| 0 <= i < order.len() implies !self.claims_at(
                            order,
                            input,
                            i,
                        ) by {
                            if i > 0 {
                                assert(!self.claims_at(rest, input, i - 1));
                            }
                        }
                    },
                }
            }
        }
    }

    /// The law of the competition, for a registry whose populated units use
    /// their built-in rules: dispatch succeeds exactly when some populated
    /// unit claims the input, the winner is the claiming unit that runs
    /// earliest (lowest weight, declared order breaking ties), and a total
    /// failure records exactly one category per populated slot.
    pub proof fn lemma_dispatch_characterised(self, input: Seq<char>)
        ensures
            (match self.dispatch_spec(input) {
                Ok(v) => exists|s: Slot|
                    (#[trigger] self.present(s)) && self.slot_accepts(s, input) && v
                        == self.slot_claim(s, input) && (forall|t: Slot|
                        self.present(t) && self.slot_accepts(t, input) && t != s
                            ==> self.runs_before(s, t)),
                Err(e) => e == self.present_error() && (forall|s: Slot|
                    !((#[trigger] self.present(s)) && self.slot_accepts(s, input))),
            }),
    {
        let o = self.dispatch_order();
        self.lemma_order_sorted();
        self.lemma_dispatch_from_shape(o, input);
        match self.dispatch_spec(input) {
            Ok(v) => {
                let i = choose|i: int|
                    0 <= i < o.len() && #[trigger] self.claims_at(o, input, i) && v
                        == self.slot_claim(o[i], input) && (forall|j: int|
                        0 <= j < i ==> !self.claims_at(o, input, j));
                let s = o[i];
                assert(self.present(s) && self.slot_accepts(s, input));
                assert forall|t: Slot|
                    self.present(t) && self.slot_accepts(t, input) && t != s implies self
                    .runs_before(s, t) by {
                    assert(o.contains(t));
                    let j = choose|j: int| 0 <= j < o.len() && o[j] == t;
                    assert(self.claims_at(o, input, j));
                    if j < i {
                        assert(false);
                    } else if j == i {
                        assert(false);
                    } else {
                        assert(self.runs_before(o[i], o[j]));
                    }
                }
            },
            Err(e) => {
                assert(o.contains(Slot::File) && o.contains(Slot::Stdin) && o.contains(Slot::Text));
                assert(e == self.tried_error(o));
                assert(e == self.present_error());
                assert forall|s: Slot|
                    !((#[trigger] self.present(s)) && self.slot_accepts(s, input)) by {
                    let j = choose|j: int| 0 <= j < o.len() && o[j] == s;
                    assert(!self.claims_at(o, input, j));
                }
            },
        }
    }

    /// Convenience function for applying configuration options.
    pub fn with<F: FnOnce(Self) -> Self>(self, f: F) -> (r: Self)
        requires
            call_requires(f, (self,)),
        ensures
            call_ensures(f, (self,), r),
    {
        f(self)
    }

    /// Consume this builder, returning a [`Config`] that can be used for
    /// parsing. A builder with no populated slot is a configuration bug and
    /// cannot be turned into a registry; use [`Builder::try_build`] to
    /// recover instead.
    pub fn build(self) -> (r: Config<MF, MS, MT>)
        requires
            self.is_valid_spec(),
        ensures
            r.spec_inner() == self,
    {
        Config { inner: self }
    }

    /// Attempt to create a [`Config`] from this builder, if the current
    /// configuration is valid, returning the builder otherwise.
    ///
    /// This is the safe variant of [`Builder::build`].
    pub fn try_build(self) -> (r: Result<Config<MF, MS, MT>, Self>)
        ensures
            (match r {
                Ok(c) => self.is_valid_spec() && c.spec_inner() == self,
                Err(b) => !self.is_valid_spec() && b == self,
            }),
    {
        if self.is_valid() {
            Ok(Config { inner: self })
        } else {
            Err(self)
        }
    }

    /// Enable text parsing, with the default unit.
    pub fn text(self) -> (r: Builder<MF, MS, Standard>)
        ensures
            r.file == self.file,
            r.stdin == self.stdin,
            (r.text matches Some(t) && t.marker is None && t.matcher is None && t.weight is None),
    {
        Builder { stdin: self.stdin, file: self.file, text: Some(Text::new()) }
    }

    /// Enable text parsing, with the given unit.
    pub fn with_text<M2: Match>(self, t: Text<M2>) -> (r: Builder<MF, MS, M2>)
        ensures
            r.file == self.file,
            r.stdin == self.stdin,
            r.text == Some(t),
    {
        Builder { stdin: self.stdin, file: self.file, text: Some(t) }
    }

    /// Enable stdin parsing, with the default unit.
    pub fn stdin(self) -> (r: Builder<MF, Standard, MT>)
        ensures
            r.file == self.file,
            r.text == self.text,
            (r.stdin matches Some(s) && s.marker is None && s.matcher is None && s.weight is None),
    {
        Builder { stdin: Some(Stdin::new()), file: self.file, text: self.text }
    }

    /// Enable stdin parsing, using the given unit.
    pub fn with_stdin<M2: Match>(self, s: Stdin<M2>) -> (r: Builder<MF, M2, MT>)
        ensures
            r.file == self.file,
            r.text == self.text,
            r.stdin == Some(s),
    {
        Builder { stdin: Some(s), file: self.file, text: self.text }
    }

    /// Enable file path parsing, with the default unit.
    pub fn file(self) -> (r: Builder<Standard, MS, MT>)
        ensures
            r.stdin == self.stdin,
            r.text == self.text,
            (r.file matches Some(f) && f.marker is None && f.matcher is None && f.weight is None),
    {
        Builder { stdin: self.stdin, file: Some(File::new()), text: self.text }
    }

    /// Enable file path parsing, using the given unit.
    pub fn with_file<M2: Match>(self, f: File<M2>) -> (r: Builder<M2, MS, MT>)
        ensures
            r.stdin == self.stdin,
            r.text == self.text,
            r.file == Some(f),
    {
        Builder { stdin: self.stdin, file: Some(f), text: self.text }
    }

    /// Checks if you can successfully convert into a [`Config`].
    pub fn is_valid(&self) -> (r: bool)
        ensures
            r == self.is_valid_spec(),
    {
        self.text.is_some() || self.stdin.is_some() || self.file.is_some()
    }

    /// The effective weight of the unit in the given slot.
    pub fn slot_weight(&self, s: Slot) -> (r: u8)
        ensures
            r == self.weight_of(s),
    {
        match s {
            Slot::File => match &self.file {
                Some(u) => u.get_weight(),
                None => 130,
            },
            Slot::Stdin => match &self.stdin {
                Some(u) => u.get_weight(),
                None => 140,
            },
            Slot::Text => match &self.text {
                Some(u) => u.get_weight(),
                None => 255,
            },
        }
    }

    /// The order in which dispatch will visit the slots.
    pub fn sorted_slots(&self) -> (v: Vec<Slot>)
        ensures
            v@ == self.dispatch_order(),
    {
        let wf_ = self.slot_weight(Slot::File);
        let ws_ = self.slot_weight(Slot::Stdin);
        let wt_ = self.slot_weight(Slot::Text);
        let v: Vec<Slot> = if wf_ <= ws_ {
            if ws_ <= wt_ {
                vec![Slot::File, Slot::Stdin, Slot::Text]
            } else if wf_ <= wt_ {
                vec![Slot::File, Slot::Text, Slot::Stdin]
            } else {
                vec![Slot::Text, Slot::File, Slot::Stdin]
            }
        } else {
            if wf_ <= wt_ {
                vec![Slot::Stdin, Slot::File, Slot::Text]
            } else if ws_ <= wt_ {
                vec![Slot::Stdin, Slot::Text, Slot::File]
            } else {
                vec![Slot::Text, Slot::Stdin, Slot::File]
            }
        };
        proof {
            assert(v@ =~= self.dispatch_order());
        }
        v
    }

    /// The dispatch order is a permutation of the three slots, sorted by
    /// weight ascending; slots of equal weight keep their declared order
    /// (file, then stdin, then text).
    pub proof fn lemma_order_sorted(self)
        ensures
            self.dispatch_order().len() == 3,
            forall|s: Slot| self.dispatch_order().contains(s),
            forall|i: int, j: int|
                0 <= i < j < 3 ==> self.runs_before(
                    self.dispatch_order()[i],
                    self.dispatch_order()[j],
                ),
    {
        let o = self.dispatch_order();
        assert forall|s: Slot| o.contains(s) by {
            assert(o.contains(o[0]));
            assert(o.contains(o[1]));
            assert(o.contains(o[2]));
            assert(s == Slot::File || s == Slot::Stdin || s == Slot::Text);
            assert(o[0] == s || o[1] == s || o[2] == s);
        }
    }
}

/// Represents a registry of parser units that will be tried in ascending
/// weight order until one of them claims the input. At least one slot is
/// always populated.
///
/// Typically constructed through a [`Builder`]; if you aren't interested in
/// customizing the configuration, use [`Config::default`].
#[derive(Debug, Clone)]
pub struct Config<MF: Match = Standard, MS: Match = Standard, MT: Match = Standard> {
    inner: Builder<MF, MS, MT>,
}

impl<MF: Match, MS: Match, MT: Match> Config<MF, MS, MT> {
    /// The registry invariant: at least one slot populated. Both
    /// constructor paths ([`Builder::build`] and [`Builder::try_build`])
    /// establish it, so every caller that obtained the registry from a
    /// builder holds it.
    pub open spec fn wf(self) -> bool {
        self.spec_inner().is_valid_spec()
    }

    /// The builder this registry was made from.
    pub closed spec fn spec_inner(self) -> Builder<MF, MS, MT> {
        self.inner
    }

    /// The order in which dispatch will visit the slots.
    pub fn sorted_slots(&self) -> (v: Vec<Slot>)
        ensures
            v@ == self.spec_inner().dispatch_order(),
    {
        self.inner.sorted_slots()
    }

    /// The effective weight of the unit in the given slot.
    pub fn slot_weight(&self, s: Slot) -> (r: u8)
        ensures
            r == self.spec_inner().weight_of(s),
    {
        self.inner.slot_weight(s)
    }

    /// Dispatch `input`: try each populated unit in ascending weight order
    /// and return the first claimed source, or the accumulated record of
    /// every rejection.
    pub fn parse_str(&self, input: &str) -> (r: Result<InputType, InputError>)
        requires
            self.wf(),
        ensures
            self.spec_inner().dispatch_post(input@, res_view(r)),
    {
        let ghost b = self.spec_inner();
        let order = self.sorted_slots();
        proof {
            b.lemma_order_sorted();
            assert(order@.skip(0) =~= order@);
            assert(order@.take(0) =~= Seq::<Slot>::empty());
        }
        let mut acc: Option<InputError> = None;
        let mut idx: usize = 0;
        while idx < 3
            invariant
                b == self.spec_inner(),
                b.is_valid_spec(),
                order@ == b.dispatch_order(),
                order@.len() == 3,
                idx <= 3,
                errv(acc) == b.tried_error(order@.take(idx as int)),
                b.standard() ==> merge_err(
                    errv(acc),
                    b.dispatch_from(order@.skip(idx as int), input@),
                ) == b.dispatch_spec(input@),
            decreases 3 - idx,
        {
            let slot = order[idx];
            proof {
                assert(order@.skip(idx as int)[0] == slot);
                assert(order@.skip(idx as int).drop_first() =~= order@.skip(idx as int + 1));
                assert(order@.take(idx as int + 1) =~= order@.take(idx as int).push(slot));
                lemma_seq_contains_after_push(order@.take(idx as int), slot, Slot::File);
                lemma_seq_contains_after_push(order@.take(idx as int), slot, Slot::Stdin);
                lemma_seq_contains_after_push(order@.take(idx as int), slot, Slot::Text);
            }
            let attempt: Option<Result<InputType, InputError>> = match slot {
                Slot::File => match &self.inner.file {
                    Some(u) => Some(u.parse_str(input)),
                    None => None,
                },
                Slot::Stdin => match &self.inner.stdin {
                    Some(u) => Some(u.parse_str(input)),
                    None => None,
                },
                Slot::Text => match &self.inner.text {
                    Some(u) => Some(u.parse_str(input)),
                    None => None,
                },
            };
            match attempt {
                None => {
                    proof {
                        assert(!b.present(slot));
                    }
                },
                Some(res) => match res {
                    Ok(t) => {
                        return Ok(t);
                    },
                    Err(e) => {
                        acc = Some(
                            match acc {
                                Some(mut prev) => {
                                    prev.extend(e);
                                    prev
                                },
                                None => e,
                            },
                        );
                    },
                },
            }
            idx += 1;
        }
        proof {
            assert(order@.take(3) =~= order@);
            assert(b.tried_error(order@) == b.present_error());
        }
        match acc {
            Some(e) => Err(e),
            None => {
                // Unreachable: the registry invariant guarantees at least
                // one populated slot, so a completed competition has
                // accumulated at least one category.
                proof {
                    assert(false);
                }
                Err(InputError::new(EKind::Text))
            },
        }
    }

    /// Dispatch a raw byte sequence: the bytes must first be representable
    /// as UTF-8 text; if they are not, the competition never runs and the
    /// failure carries exactly the UTF-8 category.
    pub fn parse_bytes(&self, input: &[u8]) -> (r: Result<InputType, InputError>)
        requires
            self.wf(),
        ensures
            !valid_utf8(input@) ==> r == Err::<InputType, InputError>(
                InputError::singleton(EKind::RequiresUtf8),
            ),
            valid_utf8(input@) ==> self.spec_inner().dispatch_post(
                decode_utf8(input@),
                res_view(r),
            ),
    {
        match bytes_to_utf8(input) {
            Some(s) => self.parse_str(s),
            None => Err(InputError::new(EKind::RequiresUtf8)),
        }
    }

    /// Dispatch `input` and wrap the claimed source into an [`Input`]
    /// handle.
    pub fn parse(&self, input: &str) -> (r: Result<Input, InputError>)
        requires
            self.wf(),
        ensures
            self.spec_inner().dispatch_post(
                input@,
                (match r {
                    Ok(i) => Ok(i@),
                    Err(e) => Err(e),
                }),
            ),
    {
        match self.parse_str(input) {
            Ok(t) => Ok(Input::from_input_type(t)),
            Err(e) => Err(e),
        }
    }
}

impl Default for Config {
    /// The default registry: all three units populated, each with its
    /// default marker, built-in rule and default weight.
    fn default() -> (r: Config)
        ensures
            r.spec_inner() == default_builder(),
    {
        let b = Builder::new().text().stdin().file();
        proof {
            assert(b == default_builder());
        }
        b.build()
    }
}

} // verus!

