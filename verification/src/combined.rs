//! Two backends behind one: one to read through, one to write through.

use vstd::prelude::*;
use crate::provider::ClipResult;
use crate::provider::ClipboardProvider;
use crate::provider::Request;

verus! {

/// Combined, use different clipboard context for getting & setting.
///
/// Useful to combine different clipboard contexts to get the best of both worlds.
///
/// The first context is read through, the second is written through. The
/// two are not kept in step: a read right after a write gives what the
/// reading side sees, and that need not be what was just written.
#[derive(Clone, Debug, PartialEq, Eq)]
pub struct CombinedClipboardContext<G, S>(pub G, pub S) where
    G: ClipboardProvider,
    S: ClipboardProvider,
;

impl<G, S> ClipboardProvider for CombinedClipboardContext<G, S> where
    G: ClipboardProvider,
    S: ClipboardProvider,
 {
    type Fetched = G::Fetched;

    type Stored = S::Stored;

    open spec fn get_asks(&self, request: Request) -> bool {
        self.0.get_asks(request)
    }

    open spec fn get_gives(&self, outcome: Self::Fetched, result: ClipResult<String>) -> bool {
        self.0.get_gives(outcome, result)
    }

    open spec fn can_set(&self, contents: Seq<char>) -> bool {
        self.1.can_set(contents)
    }

    open spec fn set_asks(&self, contents: Seq<char>, request: Request) -> bool {
        self.1.set_asks(contents, request)
    }

    open spec fn set_gives(&self, outcome: Self::Stored, result: ClipResult<()>) -> bool {
        self.1.set_gives(outcome, result)
    }

    fn get_request(&self) -> (request: Request) {
        self.0.get_request()
    }

    fn get_contents(&self, outcome: Self::Fetched) -> (result: ClipResult<String>) {
        self.0.get_contents(outcome)
    }

    fn set_request(&self, contents: String) -> (request: Request) {
        self.1.set_request(contents)
    }

    fn set_contents(&self, outcome: Self::Stored) -> (result: ClipResult<()>) {
        self.1.set_contents(outcome)
    }
}

/// Reading through a combined context is reading through its first part:
/// the request and the result are those of the reader, whatever the writer
/// is.
pub proof fn lemma_reads_through_reader<G, S>(
    reader: G,
    writer: S,
    other_writer: S,
    request: Request,
    outcome: G::Fetched,
    result: ClipResult<String>,
) where G: ClipboardProvider, S: ClipboardProvider
    ensures
        CombinedClipboardContext(reader, writer).get_asks(request) == reader.get_asks(request),
        CombinedClipboardContext(reader, writer).get_gives(outcome, result) == reader.get_gives(
            outcome,
            result,
        ),
        CombinedClipboardContext(reader, writer).get_asks(request) == CombinedClipboardContext(
            reader,
            other_writer,
        ).get_asks(request),
        CombinedClipboardContext(reader, writer).get_gives(outcome, result)
            == CombinedClipboardContext(reader, other_writer).get_gives(outcome, result),
{
}

/// Writing through a combined context is writing through its second part:
/// the request and the result are those of the writer, whatever the reader
/// is.
pub proof fn lemma_writes_through_writer<G, S>(
    reader: G,
    other_reader: G,
    writer: S,
    contents: Seq<char>,
    request: Request,
    outcome: S::Stored,
    result: ClipResult<()>,
) where G: ClipboardProvider, S: ClipboardProvider
    ensures
        CombinedClipboardContext(reader, writer).can_set(contents) == writer.can_set(contents),
        CombinedClipboardContext(reader, writer).set_asks(contents, request) == writer.set_asks(
            contents,
            request,
        ),
        CombinedClipboardContext(reader, writer).set_gives(outcome, result) == writer.set_gives(
            outcome,
            result,
        ),
        CombinedClipboardContext(reader, writer).set_asks(contents, request)
            == CombinedClipboardContext(other_reader, writer).set_asks(contents, request),
        CombinedClipboardContext(reader, writer).set_gives(outcome, result)
            == CombinedClipboardContext(other_reader, writer).set_gives(outcome, result),
{
}

} // verus!
