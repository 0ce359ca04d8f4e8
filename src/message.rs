use vstd::prelude::*;
use vstd::string::StringSliceAdditionalSpecFns;

verus! {

/// The byte that ends a string at the host boundary.
pub const TERMINATOR: u8 = 0;

/// The line-terminating byte appended to every rendered message.
pub const NEWLINE: u8 = 10;

/// Why a message could not be rendered.
#[derive(Clone, Copy, Debug, PartialEq, Eq, Structural)]
pub enum FormatError {
    /// The text holds the boundary terminator byte, which would cut the
    /// message short on the host side.
    EmbeddedTerminator,
}

/// Whether a byte sequence holds the boundary terminator anywhere.
pub open spec fn has_terminator(b: Seq<u8>) -> bool {
    exists|i: int| 0 <= i < b.len() && b[i] == TERMINATOR
}

/// The bytes a message of text `b` is delivered as: the text followed by one
/// line terminator.
pub open spec fn rendered(b: Seq<u8>) -> Seq<u8> {
    b.push(NEWLINE)
}

/// Rendering loses nothing: for text without the terminator byte, dropping
/// the one appended line terminator gives the text back, and the rendered
/// bytes hold no terminator either.
pub proof fn lemma_rendered_round_trip(b: Seq<u8>)
    requires
        !has_terminator(b),
    ensures
        rendered(b).len() == b.len() + 1,
        rendered(b).last() == NEWLINE,
        rendered(b).drop_last() == b,
        !has_terminator(rendered(b)),
{
    assert(rendered(b).drop_last() =~= b);
    assert forall|j: int| 0 <= j < rendered(b).len() implies rendered(b)[j] != TERMINATOR by {
        if j < b.len() {
            assert(rendered(b)[j] == b[j]);
        }
    }
}

/// An owned message buffer that is safe to hand across the host boundary: it
/// holds no terminator byte and ends with exactly one line terminator that
/// the renderer appended.
pub struct RenderedMessage {
    bytes: Vec<u8>,
}

impl View for RenderedMessage {
    type V = Seq<u8>;

    closed spec fn view(&self) -> Seq<u8> {
        self.bytes@
    }
}

impl RenderedMessage {
    pub open spec fn wf(&self) -> bool {
        &&& self@.len() >= 1
        &&& self@.last() == NEWLINE
        &&& !has_terminator(self@)
    }

    /// The message bytes, terminator not included.
    pub fn as_bytes(&self) -> (r: &[u8])
        ensures
            r@ == self@,
    {
        self.bytes.as_slice()
    }

    /// Gives up the buffer.
    pub fn into_bytes(self) -> (r: Vec<u8>)
        ensures
            r@ == self@,
    {
        self.bytes
    }

    /// Number of bytes, line terminator included.
    pub fn len(&self) -> (r: usize)
        ensures
            r == self@.len(),
    {
        self.bytes.len()
    }
}

/// Renders message text into a boundary-safe buffer: the text's bytes
/// followed by one line terminator. Text that holds the terminator byte is
/// refused rather than truncated.
pub fn render(text: &str) -> (r: Result<RenderedMessage, FormatError>)
    ensures
        r is Err <==> has_terminator(text.spec_bytes()),
        r is Err ==> r == Err::<RenderedMessage, FormatError>(FormatError::EmbeddedTerminator),
        r matches Ok(m) ==> m.wf() && m@ == rendered(text.spec_bytes()),
{
    let src = text.as_bytes();
    let n = src.len();
    let mut bytes: Vec<u8> = Vec::with_capacity(n);
    let mut i: usize = 0;
    while i < n
        invariant
            n == src@.len(),
            src@ == text.spec_bytes(),
            0 <= i <= n,
            bytes@ == src@.subrange(0, i as int),
            forall|j: int| 0 <= j < i ==> src@[j] != TERMINATOR,
        decreases n - i,
    {
        let b = src[i];
        if b == TERMINATOR {
            return Err(FormatError::EmbeddedTerminator);
        }
        bytes.push(b);
        i = i + 1;
    }
    assert(bytes@ == src@);
    bytes.push(NEWLINE);
    let m = RenderedMessage { bytes };
    assert(!has_terminator(m@)) by {
        assert forall|j: int| 0 <= j < m@.len() implies m@[j] != TERMINATOR by {
            if j < n {
                assert(m@[j] == src@[j]);
            }
        }
    }
    Ok(m)
}

} // verus!
