//! The pagination state machine.
//!
//! [`Pager`] is the pull-based core of the streaming adapter, written
//! sans-I/O: it never performs a call itself.  [`Pager::pull`] either hands
//! out the next buffered item, asks the driver to perform one executor call
//! (reporting which cursor to use), or reports the end of the stream; the
//! driver feeds each call's outcome back through [`Pager::provide`].  The
//! machine is specified against the history model in [`crate::pagination`]:
//! the events it emits are exactly `run_output` of the calls it was fed,
//! and it requests a call exactly when the history warrants one.

use vstd::prelude::*;

use crate::pagination::{
    call_wf_at, calls_wf, items_events, lemma_run_push, lemma_wants_more_all_continue,
    lemma_wf_last_continue_implies_all, lemma_wf_push, run_output, wants_more, CallView,
    EventView, FetchedView, PageView,
};

verus! {

/// One fetched page, as handed to the adapter: the items extracted from the
/// payload, in payload order, and the continuation cursor if the server
/// returned one.
pub struct Page<T> {
    /// The items of this page, in payload order.
    pub items: Vec<T>,
    /// The continuation cursor; present iff the server indicates more data.
    pub cursor: Option<String>,
}

impl<T> View for Page<T> {
    type V = PageView<T>;

    open spec fn view(&self) -> PageView<T> {
        PageView { items: self.items@, cursor: opt_string_view(self.cursor) }
    }
}

/// The view of an optional cursor.
pub open spec fn opt_string_view(c: Option<String>) -> Option<Seq<char>> {
    match c {
        Some(s) => Some(s@),
        None => None,
    }
}

/// The view of one executor outcome.
pub open spec fn fetched_view<T, E>(r: Result<Page<T>, E>) -> FetchedView<T, E> {
    match r {
        Ok(p) => FetchedView::Delivered { page: p@ },
        Err(e) => FetchedView::Failed { err: e },
    }
}

/// The view of one consumer-visible event.
pub open spec fn event_view<T, E>(r: Result<T, E>) -> EventView<T, E> {
    match r {
        Ok(t) => EventView::Item { item: t },
        Err(e) => EventView::Failure { err: e },
    }
}

/// The control state of the adapter.
pub enum PagerState<T> {
    /// No call made yet; the initial request is still to be issued.
    Pending,
    /// A page has been fetched; `buffer` holds its un-yielded items and
    /// `cursor` the page's continuation cursor.
    Draining { cursor: Option<String>, buffer: Vec<T> },
    /// The buffer is exhausted; the retained cursor is ready for a
    /// continuation call (or absent, in which case the stream is over).
    AwaitingNext { cursor: Option<String> },
    /// A call failed; the single terminal error has been yielded.
    Failed,
    /// The stream ended without error.
    Finished,
}

/// What one pull asks of the driver.
pub enum Pull<T> {
    /// The next item of the stream.
    Item(T),
    /// Perform one executor call with this cursor (`None`: the initial
    /// request) and feed the outcome to [`Pager::provide`].
    Fetch(Option<String>),
    /// The stream is exhausted; no further call will be requested.
    End,
}

/// The pull-based pagination state machine.
pub struct Pager<T, E> {
    /// Current control state.
    pub state: PagerState<T>,
    /// History of executor calls fed to this machine, oldest first.
    pub fed: Ghost<Seq<CallView<T, E>>>,
    /// Events yielded to the consumer so far, oldest first.
    pub emitted: Ghost<Seq<EventView<T, E>>>,
}

impl<T, E> Pager<T, E> {
    /// Well-formedness: the control state agrees with the call history, and
    /// the events emitted so far are exactly the model's output for that
    /// history, less the items still buffered.
    pub open spec fn inv(self) -> bool {
        &&& calls_wf(self.fed@)
        &&& match self.state {
            PagerState::Pending => {
                &&& self.fed@ == Seq::<CallView<T, E>>::empty()
                &&& self.emitted@ == Seq::<EventView<T, E>>::empty()
            },
            PagerState::Draining { cursor, buffer } => {
                &&& self.fed@.len() > 0
                &&& match self.fed@.last().fetched {
                    FetchedView::Delivered { page } => {
                        &&& page.items.len() > 0
                        &&& buffer@.len() < page.items.len()
                        &&& buffer@ == page.items.skip(page.items.len() - buffer@.len())
                        &&& opt_string_view(cursor) == page.cursor
                        &&& (buffer@.len() == 0 ==> page.items.len() == 1)
                    },
                    FetchedView::Failed { .. } => false,
                }
                &&& self.emitted@ + items_events::<T, E>(buffer@) == run_output(self.fed@)
            },
            PagerState::AwaitingNext { cursor } => {
                &&& self.fed@.len() > 0
                &&& match self.fed@.last().fetched {
                    FetchedView::Delivered { page } => {
                        &&& page.items.len() >= 2
                        &&& opt_string_view(cursor) == page.cursor
                    },
                    FetchedView::Failed { .. } => false,
                }
                &&& self.emitted@ == run_output(self.fed@)
            },
            PagerState::Failed => {
                &&& self.fed@.len() > 0
                &&& self.fed@.last().fetched is Failed
                &&& self.emitted@ == run_output(self.fed@)
                &&& !wants_more(self.fed@)
            },
            PagerState::Finished => {
                &&& self.emitted@ == run_output(self.fed@)
                &&& !wants_more(self.fed@)
            },
        }
    }

    /// Whether the machine is ready for (and will next ask for) an executor
    /// call.
    pub open spec fn awaiting_fetch(self) -> bool {
        match self.state {
            PagerState::Pending => true,
            PagerState::AwaitingNext { cursor } => cursor is Some,
            _ => false,
        }
    }

    /// The cursor the next call must carry: `None` for the initial request.
    pub open spec fn requested_cursor(self) -> Option<Seq<char>> {
        match self.state {
            PagerState::AwaitingNext { cursor } => opt_string_view(cursor),
            _ => None,
        }
    }

    /// Whether the stream is over: every event has been yielded and no
    /// further call will ever be requested.
    pub open spec fn done(self) -> bool {
        self.state is Failed || self.state is Finished
    }

    /// A fresh machine: nothing fetched, nothing yielded, no call issued.
    pub fn new() -> (p: Self)
        ensures
            p.inv(),
            p.state is Pending,
            p.fed@ == Seq::<CallView<T, E>>::empty(),
            p.emitted@ == Seq::<EventView<T, E>>::empty(),
    {
        let p = Pager {
            state: PagerState::Pending,
            fed: Ghost(Seq::empty()),
            emitted: Ghost(Seq::empty()),
        };
        p
    }

    /// Whether the next step of the protocol is a call to [`Self::provide`]
    /// (after performing the executor call that [`Self::pull`] requested).
    pub fn wants_provide(&self) -> (r: bool)
        ensures
            r == self.awaiting_fetch(),
    {
        match &self.state {
            PagerState::Pending => true,
            PagerState::AwaitingNext { cursor } => cursor.is_some(),
            _ => false,
        }
    }

    /// One pull: yield the next buffered item, request one executor call,
    /// or report the end of the stream.  No pull performs a call, and a
    /// call is requested only when the machine is awaiting one.
    pub fn pull(&mut self) -> (r: Pull<T>)
        requires
            old(self).inv(),
        ensures
            final(self).inv(),
            final(self).fed@ == old(self).fed@,
            match r {
                Pull::Item(t) => {
                    &&& final(self).emitted@ == old(self).emitted@.push(
                        EventView::Item { item: t },
                    )
                    &&& final(self).emitted@ == run_output(final(self).fed@).take(
                        final(self).emitted@.len() as int,
                    )
                    &&& !old(self).done()
                },
                Pull::Fetch(c) => {
                    &&& *final(self) == *old(self)
                    &&& old(self).awaiting_fetch()
                    &&& opt_string_view(c) == old(self).requested_cursor()
                },
                Pull::End => {
                    &&& final(self).emitted@ == old(self).emitted@
                    &&& final(self).done()
                    &&& final(self).emitted@ == run_output(final(self).fed@)
                    &&& !wants_more(final(self).fed@)
                },
            },
            old(self).done() ==> *final(self) == *old(self) && r is End,
            old(self).awaiting_fetch() <==> r is Fetch,
    {
        match &mut self.state {
            PagerState::Pending => Pull::Fetch(None),
            PagerState::AwaitingNext { cursor } => {
                match cursor {
                    Some(c) => Pull::Fetch(Some(c.clone())),
                    None => {
                        proof {
                            let fedv = self.fed@;
                            // the last page carries no cursor, so it does
                            // not continue and the run is complete
                            assert(fedv[fedv.len() - 1] == fedv.last());
                            if wants_more(fedv) {
                                lemma_wants_more_all_continue::<T, E>(fedv);
                            }
                        }
                        self.state = PagerState::Finished;
                        Pull::End
                    },
                }
            },
            PagerState::Draining { cursor, buffer } => {
                if buffer.len() == 0 {
                    // only reachable when the page had a single item; the
                    // empty buffer is the termination signal
                    proof {
                        let fedv = self.fed@;
                        assert(fedv[fedv.len() - 1] == fedv.last());
                        if wants_more(fedv) {
                            lemma_wants_more_all_continue::<T, E>(fedv);
                        }
                        assert(self.emitted@ + items_events::<T, E>(buffer@) =~= self.emitted@);
                    }
                    self.state = PagerState::Finished;
                    Pull::End
                } else {
                    let ghost prior = buffer@;
                    let item = buffer.remove(0);
                    self.emitted = Ghost(self.emitted@.push(EventView::Item { item }));
                    proof {
                        let fedv = self.fed@;
                        assert(fedv[fedv.len() - 1] == fedv.last());
                        assert(items_events::<T, E>(prior) =~= seq![
                            EventView::<T, E>::Item { item },
                        ] + items_events::<T, E>(buffer@));
                        assert(old(self).emitted@ + items_events::<T, E>(prior) =~= self.emitted@
                            + items_events::<T, E>(buffer@));
                        assert(match fedv.last().fetched {
                            FetchedView::Delivered { page } => buffer@ =~= page.items.skip(
                                page.items.len() - buffer@.len(),
                            ),
                            FetchedView::Failed { .. } => false,
                        });
                        assert((self.emitted@ + items_events::<T, E>(buffer@)).take(
                            self.emitted@.len() as int,
                        ) =~= self.emitted@);
                    }
                    if buffer.len() == 0 {
                        proof {
                            assert(self.emitted@ + items_events::<T, E>(buffer@) =~= self.emitted@);
                        }
                        let moved_cursor = cursor.take();
                        self.state = PagerState::AwaitingNext { cursor: moved_cursor };
                        Pull::Item(item)
                    } else {
                        Pull::Item(item)
                    }
                }
            },
            PagerState::Failed => Pull::End,
            PagerState::Finished => Pull::End,
        }
    }

    /// Feed back the outcome of the executor call that [`Self::pull`]
    /// requested.  On a page with items, the first item is yielded at once
    /// and the rest are buffered; on an empty page the stream ends without
    /// error and without any further call; on an error, that error is
    /// yielded as the single terminal event.
    pub fn provide(&mut self, r: Result<Page<T>, E>) -> (out: Option<Result<T, E>>)
        requires
            old(self).inv(),
            old(self).awaiting_fetch(),
        ensures
            final(self).inv(),
            final(self).fed@ == old(self).fed@.push(
                CallView { cursor: old(self).requested_cursor(), fetched: fetched_view(r) },
            ),
            match r {
                Result::Ok(p) => {
                    if p.items@.len() == 0 {
                        &&& out is None
                        &&& final(self).state is Finished
                        &&& final(self).emitted@ == old(self).emitted@
                        &&& !wants_more(final(self).fed@)
                    } else {
                        &&& out == Some(Result::<T, E>::Ok(p.items@[0]))
                        &&& final(self).emitted@ == old(self).emitted@.push(
                            EventView::Item { item: p.items@[0] },
                        )
                    }
                },
                Result::Err(e) => {
                    &&& out == Some(Result::<T, E>::Err(e))
                    &&& final(self).state is Failed
                    &&& final(self).emitted@ == old(self).emitted@.push(
                        EventView::Failure { err: e },
                    )
                    &&& !wants_more(final(self).fed@)
                },
            },
            out is Some ==> final(self).emitted@ == run_output(final(self).fed@).take(
                final(self).emitted@.len() as int,
            ),
    {
        let ghost newcall = CallView {
            cursor: old(self).requested_cursor(),
            fetched: fetched_view(r),
        };
        proof {
            let fedv = self.fed@;
            if fedv.len() > 0 {
                assert(fedv[fedv.len() - 1] == fedv.last());
            }
            lemma_wf_last_continue_implies_all::<T, E>(fedv);
            lemma_run_push::<T, E>(fedv, newcall);
            assert(call_wf_at(fedv.push(newcall), fedv.len() as int));
            lemma_wf_push::<T, E>(fedv, newcall);
        }
        self.fed = Ghost(self.fed@.push(newcall));
        match r {
            Err(e) => {
                self.emitted = Ghost(self.emitted@.push(EventView::Failure { err: e }));
                proof {
                    assert(self.emitted@ =~= run_output(self.fed@));
                    assert(run_output(self.fed@).take(self.emitted@.len() as int) =~= run_output(
                        self.fed@,
                    ));
                }
                self.state = PagerState::Failed;
                Some(Err(e))
            },
            Ok(p) => {
                let ghost pv = p@;
                let Page { items: mut page_items, cursor: page_cursor } = p;
                if page_items.len() == 0 {
                    proof {
                        assert(items_events::<T, E>(pv.items)
                            =~= Seq::<EventView<T, E>>::empty());
                        assert(run_output(old(self).fed@) + Seq::<EventView<T, E>>::empty()
                            =~= run_output(old(self).fed@));
                    }
                    self.state = PagerState::Finished;
                    None
                } else {
                    let ghost prior = page_items@;
                    let first_item = page_items.remove(0);
                    self.emitted = Ghost(self.emitted@.push(EventView::Item { item: first_item }));
                    proof {
                        assert(items_events::<T, E>(prior) =~= seq![
                            EventView::<T, E>::Item { item: first_item },
                        ] + items_events::<T, E>(page_items@));
                        assert(old(self).emitted@ + items_events::<T, E>(prior) =~= self.emitted@
                            + items_events::<T, E>(page_items@));
                        assert(page_items@ =~= prior.skip(prior.len() - page_items@.len()));
                        assert((self.emitted@ + items_events::<T, E>(page_items@)).take(
                            self.emitted@.len() as int,
                        ) =~= self.emitted@);
                    }
                    self.state = PagerState::Draining {
                        cursor: page_cursor,
                        buffer: page_items,
                    };
                    Some(Ok(first_item))
                }
            },
        }
    }
}

} // verus!
