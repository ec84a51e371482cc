//! The cursor pagination state machine.
//!
//! A [`StreamHandle`] owns at most one outstanding request at a time.
//! The caller performs the request described by [`StreamHandle::pull_pending`]
//! and hands the resolved outcome back through [`StreamHandle::on_resolved`],
//! which yields the page (or the error) as the next item of the sequence
//! and either schedules the follow-up request or exhausts the stream.

use vstd::prelude::*;

use crate::digits::spec_dec;
use crate::digits::u32_to_dec;
use crate::page::RawPage;
use crate::page::TransportError;
use crate::page::cursor_of;

verus! {

/// Whether the stream may still issue requests. `Exhausted` is terminal.
#[derive(Debug, PartialEq, Eq, Structural)]
pub enum PaginationState {
    Active,
    Exhausted,
}

/// The one outstanding request of a stream: the query parameters that
/// the caller must attach to the next GET against the stream's target.
#[derive(Debug)]
pub struct PendingOperation {
    pub query: Vec<(String, String)>,
}

/// The views of a list of query parameters, in order.
pub open spec fn query_view(q: Seq<(String, String)>) -> Seq<(Seq<char>, Seq<char>)> {
    q.map_values(|p: (String, String)| (p.0@, p.1@))
}

/// The query of the eagerly dispatched first request: the page-size
/// limit alone.
pub open spec fn initial_query(limit: Seq<char>) -> Seq<(Seq<char>, Seq<char>)> {
    seq![("limit"@, limit)]
}

/// The query of a continuation request: the page-size limit, echoed on
/// every request, and the cursor of the page just received.
pub open spec fn continuation_query(limit: Seq<char>, after: Seq<char>) -> Seq<
    (Seq<char>, Seq<char>),
> {
    seq![("limit"@, limit), ("after"@, after)]
}

/// Whether a resolved outcome lets pagination continue: a successful
/// page that carries a continuation cursor.
pub open spec fn continues(o: Result<RawPage, TransportError>) -> bool {
    o matches Ok(p) && cursor_of(p) is Some
}

/// The long-lived pagination handle: target, page-size limit, state,
/// and the single pending operation. `history()` records, in order,
/// every resolved outcome the handle has been driven with; each one
/// was yielded exactly once, so it is also the sequence of items the
/// consumer has seen.
pub struct StreamHandle {
    state: PaginationState,
    limit: String,
    base: String,
    path: String,
    pending: Option<PendingOperation>,
    hist: Ghost<Seq<Result<RawPage, TransportError>>>,
}

impl StreamHandle {
    /// Whether the stream may still issue requests.
    pub closed spec fn is_active(self) -> bool {
        self.state is Active
    }

    /// Every outcome this handle has resolved and yielded, in order.
    pub closed spec fn history(self) -> Seq<Result<RawPage, TransportError>> {
        self.hist@
    }

    /// The page-size limit echoed on every request.
    pub closed spec fn limit_chars(self) -> Seq<char> {
        self.limit@
    }

    /// The base URL of the target.
    pub closed spec fn base_chars(self) -> Seq<char> {
        self.base@
    }

    /// The endpoint path of the target.
    pub closed spec fn path_chars(self) -> Seq<char> {
        self.path@
    }

    /// How many operations are outstanding right now.
    pub closed spec fn pending_ops(self) -> nat {
        if self.pending is Some {
            1
        } else {
            0
        }
    }

    /// The query of the outstanding request; meaningful while active.
    pub closed spec fn pending_query(self) -> Seq<(Seq<char>, Seq<char>)> {
        query_view(self.pending->Some_0.query@)
    }

    /// The handle's invariant.
    ///
    /// A pending operation exists exactly while the stream is active;
    /// while active every resolved page so far carried a cursor; once
    /// exhausted, exactly the last outcome failed to continue; and the
    /// pending request's query is the initial one before any response,
    /// or else carries the cursor of the response just received.
    pub closed spec fn wf(self) -> bool {
        &&& (self.pending is Some <==> self.state is Active)
        &&& (self.state is Active ==> forall|i: int|
            0 <= i < self.hist@.len() ==> continues(#[trigger] self.hist@[i]))
        &&& (self.state is Exhausted ==> {
            &&& self.hist@.len() > 0
            &&& !continues(self.hist@.last())
            &&& forall|i: int|
                0 <= i < self.hist@.len() - 1 ==> continues(#[trigger] self.hist@[i])
        })
        &&& (self.pending matches Some(op) ==> {
            if self.hist@.len() == 0 {
                query_view(op.query@) == initial_query(self.limit@)
            } else {
                query_view(op.query@) == continuation_query(
                    self.limit@,
                    cursor_of(self.hist@.last()->Ok_0)->Some_0,
                )
            }
        })
    }

    /// Creates a handle whose first request — the page-size limit as
    /// its only parameter — counts as already dispatched.
    pub fn new(base: String, path: String, limit: u32) -> (s: Self)
        ensures
            s.wf(),
            s.is_active(),
            s.history() == Seq::<Result<RawPage, TransportError>>::empty(),
            s.limit_chars() == spec_dec(limit as nat),
            s.base_chars() == base@,
            s.path_chars() == path@,
            s.pending_query() == initial_query(spec_dec(limit as nat)),
    {
        let limit_s = u32_to_dec(limit);
        let mut q: Vec<(String, String)> = Vec::new();
        q.push((String::from_str("limit"), limit_s.clone()));
        let s = StreamHandle {
            state: PaginationState::Active,
            limit: limit_s,
            base,
            path,
            pending: Some(PendingOperation { query: q }),
            hist: Ghost(Seq::empty()),
        };
        proof {
            assert(s.pending_query() =~= initial_query(spec_dec(limit as nat)));
        }
        s
    }

    /// Whether the stream has terminated; a pull on an exhausted
    /// stream reports end-of-sequence at once.
    pub fn is_exhausted(&self) -> (r: bool)
        ensures
            r == !self.is_active(),
    {
        match self.state {
            PaginationState::Active => false,
            PaginationState::Exhausted => true,
        }
    }

    /// The operation the caller must drive to resolution, or `None`
    /// once the stream is exhausted: end-of-sequence.
    pub fn pull_pending(&self) -> (r: Option<&PendingOperation>)
        requires
            self.wf(),
        ensures
            r is Some <==> self.is_active(),
            r matches Some(op) ==> query_view(op.query@) == self.pending_query(),
    {
        self.pending.as_ref()
    }

    /// Consumes the outcome the pending operation resolved with and
    /// yields it as the next item of the sequence.
    ///
    /// A page bearing a cursor schedules the continuation request —
    /// same target, same limit, `after` set to that cursor — and the
    /// stream stays active. A page without a cursor, or a transport
    /// error, exhausts the stream for good: the resolved operation is
    /// discarded and never driven again, and no request replaces it.
    pub fn on_resolved(&mut self, outcome: Result<RawPage, TransportError>) -> (item: Result<
        RawPage,
        TransportError,
    >)
        requires
            old(self).wf(),
            old(self).is_active(),
        ensures
            final(self).wf(),
            item == outcome,
            final(self).history() == old(self).history().push(outcome),
            final(self).limit_chars() == old(self).limit_chars(),
            final(self).base_chars() == old(self).base_chars(),
            final(self).path_chars() == old(self).path_chars(),
            final(self).is_active() <==> continues(outcome),
            continues(outcome) ==> final(self).pending_query() == continuation_query(
                old(self).limit_chars(),
                cursor_of(outcome->Ok_0)->Some_0,
            ),
            !continues(outcome) ==> final(self).pending_ops() == 0,
    {
        let ghost orig = outcome;
        let ghost prev = *old(self);
        match outcome {
            Err(e) => {
                self.state = PaginationState::Exhausted;
                self.pending = None;
                proof {
                    self.hist@ = prev.hist@.push(orig);
                }
                proof {
                    assert(self.hist@.last() == orig);
                    assert forall|i: int| 0 <= i < self.hist@.len() - 1 implies continues(
                        #[trigger] self.hist@[i],
                    ) by {
                        assert(self.hist@[i] == prev.hist@[i]);
                    }
                }
                Err(e)
            },
            Ok(page) => {
                match page.extract_cursor() {
                    Some(after) => {
                        let mut q: Vec<(String, String)> = Vec::new();
                        q.push((String::from_str("limit"), self.limit.clone()));
                        q.push((String::from_str("after"), after));
                        proof {
                            assert(query_view(q@) =~= continuation_query(
                                prev.limit@,
                                cursor_of(page)->Some_0,
                            ));
                        }
                        self.pending = Some(PendingOperation { query: q });
                    },
                    None => {
                        self.state = PaginationState::Exhausted;
                        self.pending = None;
                    },
                }
                proof {
                    self.hist@ = prev.hist@.push(orig);
                }
                proof {
                    assert(self.hist@.last() == orig);
                    assert forall|i: int| 0 <= i < self.hist@.len() - 1 implies continues(
                        #[trigger] self.hist@[i],
                    ) by {
                        assert(self.hist@[i] == prev.hist@[i]);
                    }
                    assert forall|i: int|
                        0 <= i < self.hist@.len() && continues(orig) implies continues(
                        #[trigger] self.hist@[i],
                    ) by {
                        if i < self.hist@.len() - 1 {
                            assert(self.hist@[i] == prev.hist@[i]);
                        } else {
                            assert(self.hist@[i] == orig);
                        }
                    }
                }
                Ok(page)
            },
        }
    }

    /// Wraps the handle in the decoded-item stage.
    pub fn into_json(self) -> (s: crate::decode::JsonStream)
        ensures
            s.inner() == self,
    {
        crate::decode::JsonStream::new(self)
    }
}

/// At every instant a handle owns either zero or one outstanding
/// operation, never more: exactly one while it is active, none once it
/// is exhausted.
pub proof fn lemma_single_pending(s: StreamHandle)
    requires
        s.wf(),
    ensures
        s.pending_ops() <= 1,
        s.pending_ops() == if s.is_active() {
            1nat
        } else {
            0nat
        },
{
}

/// The `after` parameter of the outstanding request equals the
/// continuation cursor extracted from the response resolved just
/// before it: with `k + 1` responses in, request `k + 2` continues
/// from response `k + 1`'s cursor.
pub proof fn lemma_continuation_cursor(s: StreamHandle, k: int)
    requires
        s.wf(),
        s.is_active(),
        0 <= k,
        s.history().len() == k + 1,
    ensures
        s.pending_query() == continuation_query(
            s.limit_chars(),
            cursor_of(s.history()[k]->Ok_0)->Some_0,
        ),
        s.pending_query().len() == 2,
        s.pending_query()[1].0 == "after"@,
        cursor_of(s.history()[k]->Ok_0) == Some(s.pending_query()[1].1),
{
    assert(continues(s.history()[k]));
}

/// A run of `n` pages bearing continuation cursors followed by one
/// final page without one is complete: it has yielded exactly `n + 1`
/// items, all of them successful pages, and the handle is exhausted
/// with no request outstanding, so no further request is ever issued.
pub proof fn lemma_exhausted_run(s: StreamHandle, n: int)
    requires
        s.wf(),
        0 <= n,
        s.history().len() == n + 1,
        forall|i: int| 0 <= i < n ==> continues(#[trigger] s.history()[i]),
        s.history()[n] is Ok,
        cursor_of(s.history()[n]->Ok_0) is None,
    ensures
        !s.is_active(),
        s.pending_ops() == 0,
        forall|i: int| 0 <= i <= n ==> (#[trigger] s.history()[i]) is Ok,
{
    assert(!continues(s.history()[n]));
    assert forall|i: int| 0 <= i <= n implies (#[trigger] s.history()[i]) is Ok by {
        if i < n {
            assert(continues(s.history()[i]));
        }
    }
}

/// A first response without a continuation cursor makes a one-item
/// run: the page is yielded, then the stream is exhausted.
pub proof fn lemma_single_page_run(s: StreamHandle)
    requires
        s.wf(),
        s.history().len() == 1,
        s.history()[0] is Ok,
        cursor_of(s.history()[0]->Ok_0) is None,
    ensures
        !s.is_active(),
        s.pending_ops() == 0,
{
    lemma_exhausted_run(s, 0);
}

/// A transport failure ends the run at once: the failed outcome at
/// position `k` is the last item ever yielded — exactly `k` successful
/// pages preceded it — and the handle is exhausted with no request
/// outstanding, so no further request is ever issued.
pub proof fn lemma_transport_error_terminal(s: StreamHandle, k: int)
    requires
        s.wf(),
        0 <= k < s.history().len(),
        forall|i: int| 0 <= i < k ==> continues(#[trigger] s.history()[i]),
        s.history()[k] is Err,
    ensures
        s.history().len() == k + 1,
        !s.is_active(),
        s.pending_ops() == 0,
        forall|i: int| 0 <= i < k ==> (#[trigger] s.history()[i]) is Ok,
{
    assert(!continues(s.history()[k]));
    if s.is_active() {
        assert(continues(s.history()[k]));
    }
    if s.history().len() > k + 1 {
        assert(continues(s.history()[k]));
    }
}

} // verus!
