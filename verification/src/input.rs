//! The [`Input`] handle: the inert result of a successful dispatch. It owns
//! no OS resource; turning it into an actual byte stream is a separate,
//! later step performed by the host program. The one source kind whose
//! stream needs no OS resource at all — literal text — is covered here by
//! the verified [`TextCursor`].

use vstd::prelude::*;
use vstd::string::StringSliceAdditionalSpecFns;

use crate::builder::{default_builder, Builder, Config};
use crate::error::input::InputError;
use crate::parsers::{InputType, InputTypeView};

verus! {

/// Represents some kind of input source which can be read from.
#[derive(Debug, Clone, PartialEq)]
pub struct Input {
    /// The resolved source this handle wraps.
    pub kind: InputType,
}

impl View for Input {
    type V = InputTypeView;

    open spec fn view(&self) -> InputTypeView {
        self.kind@
    }
}

impl Input {
    /// This structure is produced by dispatching input through a
    /// [`Config`]; start from a builder to configure one.
    ///
    /// Alternatively, use [`Input::with_defaults`] to parse some input
    /// using the default configuration.
    pub fn builder() -> (r: Builder)
        ensures
            r.stdin is None,
            r.file is None,
            r.text is None,
    {
        Builder::new()
    }

    /// Attempt to locate an input source with the default configuration
    /// from the given input.
    pub fn with_defaults(input: &str) -> (r: Result<Input, InputError>)
        ensures
            default_builder().dispatch_post(
                input@,
                (match r {
                    Ok(i) => Ok(i@),
                    Err(e) => Err(e),
                }),
            ),
    {
        let cfg: Config = Config::default();
        cfg.parse(input)
    }

    /// Wrap an already-resolved source kind.
    pub fn from_input_type(kind: InputType) -> (r: Self)
        ensures
            r.kind == kind,
    {
        Input { kind }
    }
}

impl core::str::FromStr for Input {
    type Err = InputError;

    fn from_str(s: &str) -> Result<Self, InputError> {
        Input::with_defaults(s)
    }
}

/// An in-memory byte stream over the content claimed by the text unit: the
/// one source kind that needs no OS resource at all. Reading advances a
/// position over the UTF-8 bytes of the captured content and never fails.
#[derive(Debug, Clone)]
pub struct TextCursor {
    bytes: Vec<u8>,
    pos: usize,
}

impl TextCursor {
    /// The full byte content this cursor was built over.
    pub closed spec fn content_bytes(self) -> Seq<u8> {
        self.bytes@
    }

    /// How many bytes have already been read.
    pub closed spec fn spec_pos(self) -> int {
        self.pos as int
    }

    /// The position never runs past the content.
    pub open spec fn wf(self) -> bool {
        0 <= self.spec_pos() <= self.content_bytes().len()
    }

    /// Capture `content` as an in-memory stream, positioned at its start.
    pub fn new(content: &str) -> (r: TextCursor)
        ensures
            r.content_bytes() == content.spec_bytes(),
            r.spec_pos() == 0,
            r.wf(),
    {
        TextCursor { bytes: content.as_bytes_vec(), pos: 0 }
    }

    /// How many bytes are still unread.
    pub fn remaining(&self) -> (n: usize)
        requires
            self.wf(),
        ensures
            n == self.content_bytes().len() - self.spec_pos(),
    {
        self.bytes.len() - self.pos
    }

    /// Read up to `max` bytes: the next chunk of the content, which is
    /// shorter than `max` only when the stream has fewer bytes left. The
    /// content itself never changes; the position advances by exactly the
    /// chunk's length.
    pub fn read(&mut self, max: usize) -> (chunk: Vec<u8>)
        requires
            old(self).wf(),
        ensures
            final(self).wf(),
            final(self).content_bytes() == old(self).content_bytes(),
            chunk@.len() == (if max as int <= old(self).content_bytes().len() - old(self).spec_pos() {
                max as int
            } else {
                old(self).content_bytes().len() - old(self).spec_pos()
            }),
            chunk@ == old(self).content_bytes().subrange(
                old(self).spec_pos(),
                old(self).spec_pos() + chunk@.len(),
            ),
            final(self).spec_pos() == old(self).spec_pos() + chunk@.len(),
    {
        let avail = self.bytes.len() - self.pos;
        let k = if max <= avail {
            max
        } else {
            avail
        };
        let mut chunk: Vec<u8> = Vec::new();
        let mut taken: usize = 0;
        while taken < k
            invariant
                self.pos + k <= self.bytes.len(),
                taken <= k,
                chunk@.len() == taken,
                chunk@ == self.bytes@.subrange(self.pos as int, self.pos + taken),
            decreases k - taken,
        {
            chunk.push(self.bytes[self.pos + taken]);
            proof {
                assert(chunk@ =~= self.bytes@.subrange(self.pos as int, self.pos + taken + 1));
            }
            taken += 1;
        }
        self.pos = self.pos + k;
        chunk
    }

    /// Read everything that is left: the remainder of the content, after
    /// which the stream is exhausted.
    pub fn read_to_end(&mut self) -> (rest: Vec<u8>)
        requires
            old(self).wf(),
        ensures
            final(self).wf(),
            final(self).content_bytes() == old(self).content_bytes(),
            rest@ == old(self).content_bytes().subrange(
                old(self).spec_pos(),
                old(self).content_bytes().len() as int,
            ),
            final(self).spec_pos() == final(self).content_bytes().len(),
    {
        let n = self.remaining();
        self.read(n)
    }
}

/// Resolving a text source to a byte stream and reading it to completion
/// reproduces the claimed content exactly: what a fresh cursor over
/// `content` yields when read to the end is precisely the UTF-8 encoding
/// of `content`, byte for byte.
pub proof fn lemma_text_roundtrip(c: TextCursor, content: &str)
    requires
        c.content_bytes() == content.spec_bytes(),
        c.spec_pos() == 0,
    ensures
        c.content_bytes().subrange(c.spec_pos(), c.content_bytes().len() as int)
            == vstd::utf8::encode_utf8(content@),
{
    assert(c.content_bytes().subrange(0, c.content_bytes().len() as int) =~= c.content_bytes());
}

} // verus!
