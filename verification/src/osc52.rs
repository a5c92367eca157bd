//! OSC 52 escape sequence to set clipboard contents.
//!
//! This provider sets the clipboard by having a sequence written to the
//! standard output of the process, in terminals that understand it. The
//! sequence is `ESC ] 5 2 ; c ;`, the contents in base64, and the bell
//! character `BEL`.
//!
//! Getting clipboard contents is not supported through this context and will error.
//!
//! ## Benefits
//!
//! - Keeps contents in clipboard for the terminal lifetime even after your application exists.
//!
//! ## Drawbacks
//!
//! - Requires terminal that supports these escape codes.
//! - Doesn't catch errors while setting clipboard contents.
//! - Cannot get clipboard contents.

use vstd::prelude::*;
use vstd::utf8::encode_utf8;
use crate::combined::CombinedClipboardContext;
use crate::provider::ClipError;
use crate::provider::ClipResult;
use crate::provider::ClipboardProvider;
use crate::provider::Request;

verus! {

/// The standard base64 encoding, with padding, of a sequence of bytes.
pub uninterp spec fn base64_text(bytes: Seq<u8>) -> Seq<char>;

/// The length of the base64 encoding of `n` bytes: four characters for
/// every three bytes or part thereof.
pub open spec fn base64_len(n: nat) -> nat {
    (n + 2) / 3 * 4
}

/// Whether a character belongs to the standard base64 alphabet or is the
/// padding character.
pub open spec fn is_base64_char(c: char) -> bool {
    ||| 'A' <= c <= 'Z'
    ||| 'a' <= c <= 'z'
    ||| '0' <= c <= '9'
    ||| c == '+'
    ||| c == '/'
    ||| c == '='
}

/// `base64::encode` of the `base64` crate: the standard encoding with
/// padding. Beyond naming its result, the contract claims the length of the
/// encoding and that it stays within the base64 alphabet. The length must
/// fit a buffer, or the crate panics.
#[verifier::external_body]
fn encode_base64(input: &[u8]) -> (text: String)
    requires
        base64_len(input@.len()) <= isize::MAX,
    ensures
        text@ == base64_text(input@),
        text@.len() == base64_len(input@.len()),
        is_base64(text@),
{
    base64::encode(input)
}

/// The escape character, which opens the sequence.
pub open spec fn escape() -> char {
    '\u{1b}'
}

/// The bell character, which closes the sequence.
pub open spec fn bell() -> char {
    '\u{7}'
}

/// A payload between the opening `ESC ] 5 2 ; c ;` and the closing bell.
pub open spec fn framing(payload: Seq<char>) -> Seq<char> {
    seq![escape(), ']', '5', '2', ';', 'c', ';'] + payload + seq![bell()]
}

/// The sequence that sets the clipboard to `contents`: the base64 encoding
/// of their UTF-8 bytes, framed.
pub open spec fn osc52_sequence(contents: Seq<char>) -> Seq<char> {
    framing(base64_text(encode_utf8(contents)))
}

/// Whether a text is made of characters of the base64 alphabet only.
pub open spec fn is_base64(text: Seq<char>) -> bool {
    forall|i: int| 0 <= i < text.len() ==> is_base64_char(#[trigger] text[i])
}

/// A sequence is well framed when the escape character stands at its start
/// and nowhere else, and the bell at its end and nowhere else. Whatever the
/// contents were, a terminal then reads one command of the full length.
pub open spec fn framed(sequence: Seq<char>) -> bool {
    &&& sequence.len() >= 8
    &&& sequence[0] == escape()
    &&& sequence[sequence.len() - 1] == bell()
    &&& forall|i: int| 0 < i < sequence.len() ==> #[trigger] sequence[i] != escape()
    &&& forall|i: int| 0 <= i < sequence.len() - 1 ==> #[trigger] sequence[i] != bell()
}

/// Whether contents are short enough for their base64 encoding to fit a
/// buffer.
pub open spec fn encodable(contents: Seq<char>) -> bool {
    base64_len(encode_utf8(contents).len()) <= isize::MAX
}

/// Represents OSC 52 clipboard related error.
#[derive(Copy, Clone, Debug, PartialEq, Eq, Structural)]
pub enum Error {
    /// Getting clipboard contents is not supported.
    Unsupported,
}

impl Error {
    /// Describes the error.
    pub fn message(&self) -> (message: String)
        ensures
            message@ == "Getting clipboard contents is not supported through this context"@,
    {
        String::from_str("Getting clipboard contents is not supported through this context")
    }

    /// The error underneath. There is none.
    pub fn source(&self) -> (cause: Option<String>)
        ensures
            cause is None,
    {
        None
    }
}

/// OSC 52 escape sequence to set clipboard contents.
///
/// See module documentation for more information.
#[derive(Copy, Clone, Debug, PartialEq, Eq, Structural)]
pub struct Osc52ClipboardContext;

/// Platform specific context.
pub type ClipboardContext = Osc52ClipboardContext;

impl Osc52ClipboardContext {
    /// Makes the context. This never fails.
    pub fn new() -> (context: ClipResult<Self>)
        ensures
            context == Ok::<Self, ClipError>(Osc52ClipboardContext),
    {
        Ok(Osc52ClipboardContext)
    }

    /// Construct combined with another context for getting the clipboard.
    ///
    /// This clipboard context only supports setting the clipboard contents.
    /// You can combine this with the given context to support getting clipboard contents as well
    /// to get the best of both worlds.
    pub fn new_with<G>(get: G) -> (context: ClipResult<CombinedClipboardContext<G, Self>>) where
        G: ClipboardProvider,

        ensures
            context == Ok::<CombinedClipboardContext<G, Self>, ClipError>(
                CombinedClipboardContext(get, Osc52ClipboardContext),
            ),
    {
        match Self::new() {
            Ok(made) => made.with(get),
            Err(error) => Err(error),
        }
    }

    /// Combine this context with another one for getting the clipboard.
    ///
    /// This clipboard context only supports setting the clipboard contents.
    /// You can combine this with the given context to support getting clipboard contents as well
    /// to get the best of both worlds.
    pub fn with<G>(self, get: G) -> (context: ClipResult<CombinedClipboardContext<G, Self>>) where
        G: ClipboardProvider,

        ensures
            context == Ok::<CombinedClipboardContext<G, Self>, ClipError>(
                CombinedClipboardContext(get, self),
            ),
    {
        Ok(CombinedClipboardContext(get, self))
    }

    /// The escape sequence that sets the clipboard to `contents`.
    ///
    /// The sequence is well framed whatever the contents hold, a bell
    /// character included: base64 has neither the bell nor the escape
    /// character in its alphabet.
    pub fn sequence(contents: &str) -> (sequence: String)
        requires
            encodable(contents@),
        ensures
            sequence@ == osc52_sequence(contents@),
            sequence@.len() == 8 + base64_len(encode_utf8(contents@).len()),
            framed(sequence@),
    {
        let payload = encode_base64(contents.as_bytes());
        proof {
            lemma_framed(payload@);
        }
        frame(payload.as_str())
    }
}

/// Whether contents are short enough to be set through this backend: whether
/// their base64 encoding fits a buffer. Every text that a machine of today
/// can hold is.
pub fn is_encodable(contents: &str) -> (fits: bool)
    ensures
        fits == encodable(contents@),
{
    let n = contents.as_bytes().len();
    let groups = if n % 3 == 0 {
        n / 3
    } else {
        n / 3 + 1
    };
    assert(groups == (n + 2) / 3);
    groups <= (isize::MAX as usize) / 4
}

/// Puts a payload between the opening of the sequence and the closing bell.
pub fn frame(payload: &str) -> (sequence: String)
    ensures
        sequence@ == framing(payload@),
{
    proof {
        reveal_strlit("\x1B]52;c;");
        reveal_strlit("\x07");
    }
    let mut sequence = String::from_str("\x1B]52;c;");
    assert(sequence@ =~= seq![escape(), ']', '5', '2', ';', 'c', ';']);
    sequence.append(payload);
    sequence.append("\x07");
    sequence
}

/// A base64 payload cannot break the frame: the framed sequence is eight
/// characters longer than the payload, starts with the escape character,
/// ends with the bell, and holds neither of them anywhere else.
pub proof fn lemma_framed(payload: Seq<char>)
    requires
        is_base64(payload),
    ensures
        framing(payload).len() == payload.len() + 8,
        framed(framing(payload)),
{
    let sequence = framing(payload);
    assert forall|i: int| 0 < i < sequence.len() implies #[trigger] sequence[i] != escape() by {
        if 7 <= i < sequence.len() - 1 {
            assert(is_base64_char(payload[i - 7]));
        }
    }
    assert forall|i: int| 0 <= i < sequence.len() - 1 implies #[trigger] sequence[i] != bell() by {
        if 7 <= i {
            assert(is_base64_char(payload[i - 7]));
        }
    }
}

impl ClipboardProvider for Osc52ClipboardContext {
    type Fetched = ();

    type Stored = ();

    open spec fn get_asks(&self, request: Request) -> bool {
        request == Request::Nothing
    }

    open spec fn get_gives(&self, outcome: Self::Fetched, result: ClipResult<String>) -> bool {
        result == Err::<String, ClipError>(ClipError::Osc52(Error::Unsupported))
    }

    open spec fn can_set(&self, contents: Seq<char>) -> bool {
        encodable(contents)
    }

    open spec fn set_asks(&self, contents: Seq<char>, request: Request) -> bool {
        request matches Request::Emit(sequence) && sequence@ == osc52_sequence(contents) && framed(
            sequence@,
        )
    }

    open spec fn set_gives(&self, outcome: Self::Stored, result: ClipResult<()>) -> bool {
        result == Ok::<(), ClipError>(())
    }

    fn get_request(&self) -> (request: Request) {
        Request::Nothing
    }

    fn get_contents(&self, outcome: Self::Fetched) -> (result: ClipResult<String>) {
        Err(ClipError::Osc52(Error::Unsupported))
    }

    fn set_request(&self, contents: String) -> (request: Request) {
        Request::Emit(Self::sequence(contents.as_str()))
    }

    fn set_contents(&self, outcome: Self::Stored) -> (result: ClipResult<()>) {
        Ok(())
    }
}

} // verus!
