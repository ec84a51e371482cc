//! The decoded-item stage: each raw page's body parsed as JSON.

use vstd::prelude::*;

use crate::page::RawPage;
use crate::page::TransportError;
use crate::page::cursor_of;
use crate::paginate::StreamHandle;
use crate::paginate::PendingOperation;
use crate::paginate::continues;

verus! {

#[verifier::external_type_specification]
#[verifier::external_body]
pub struct ExValue(serde_json::Value);

#[verifier::external_type_specification]
#[verifier::external_body]
pub struct ExJsonError(serde_json::Error);

/// The JSON value that a byte sequence parses to, if it is well-formed
/// JSON; `None` where parsing fails. Parsing depends on the bytes alone.
pub uninterp spec fn json_of(bytes: Seq<u8>) -> Option<serde_json::Value>;

/// Relies on serde_json::from_slice: parses the bytes as one JSON
/// value; whether it succeeds, and with what value, depends on the
/// bytes alone.
#[verifier::external_body]
fn parse_json(bytes: &Vec<u8>) -> (r: Result<serde_json::Value, serde_json::Error>)
    ensures
        r is Ok <==> json_of(bytes@) is Some,
        r matches Ok(v) ==> json_of(bytes@) == Some(v),
{
    serde_json::from_slice::<serde_json::Value>(bytes)
}

/// A failed item of the decoded sequence: the transport error that
/// ended pagination, or a body that was not well-formed JSON.
#[derive(Debug)]
pub enum StreamError {
    Transport(TransportError),
    Decode,
}

/// The decoded-item stream: a thin transform over [`StreamHandle`]
/// that parses each yielded page body into a JSON value and forwards
/// failures as error items.
pub struct JsonStream {
    inner: StreamHandle,
}

impl JsonStream {
    /// The pagination handle underneath, for its contracts.
    pub closed spec fn inner(self) -> StreamHandle {
        self.inner
    }

    pub open spec fn wf(self) -> bool {
        self.inner().wf()
    }

    pub open spec fn is_active(self) -> bool {
        self.inner().is_active()
    }

    /// Wraps a pagination handle.
    pub fn new(inner: StreamHandle) -> (s: Self)
        ensures
            s.inner() == inner,
    {
        JsonStream { inner }
    }

    /// Whether the underlying pagination stream has terminated.
    pub fn is_exhausted(&self) -> (r: bool)
        ensures
            r == !self.is_active(),
    {
        self.inner.is_exhausted()
    }

    /// The operation the caller must drive to resolution, or `None`
    /// once the stream is exhausted.
    pub fn pull_pending(&self) -> (r: Option<&PendingOperation>)
        requires
            self.wf(),
        ensures
            r is Some <==> self.is_active(),
            r matches Some(op) ==> crate::paginate::query_view(op.query@)
                == self.inner().pending_query(),
    {
        self.inner.pull_pending()
    }

    /// Advances pagination with the resolved outcome exactly as
    /// [`StreamHandle::on_resolved`] does, then decodes the page body.
    ///
    /// A transport error is forwarded unchanged and pagination is over.
    /// A body that parses yields its JSON value; one that does not
    /// yields a decode error — which concerns this item alone: whether
    /// the stream stays active depends only on the page's cursor, so a
    /// decode failure on page `k` does not stop pagination from
    /// fetching page `k + 1` when a cursor was present.
    pub fn on_resolved(&mut self, outcome: Result<RawPage, TransportError>) -> (item: Result<
        serde_json::Value,
        StreamError,
    >)
        requires
            old(self).wf(),
            old(self).is_active(),
        ensures
            final(self).wf(),
            final(self).inner().history() == old(self).inner().history().push(outcome),
            final(self).is_active() <==> continues(outcome),
            outcome matches Err(e) ==> item == Err::<serde_json::Value, StreamError>(
                StreamError::Transport(e),
            ),
            outcome matches Ok(p) ==> match json_of(p.body@) {
                Some(v) => item == Ok::<serde_json::Value, StreamError>(v),
                None => item == Err::<serde_json::Value, StreamError>(StreamError::Decode),
            },
            outcome matches Ok(p) ==> (final(self).is_active() <==> cursor_of(p) is Some),
    {
        match self.inner.on_resolved(outcome) {
            Err(e) => Err(StreamError::Transport(e)),
            Ok(page) => match parse_json(&page.body) {
                Ok(v) => Ok(v),
                Err(_) => Err(StreamError::Decode),
            },
        }
    }
}

} // verus!
