//! The lazy item stream over a paginated endpoint.
//!
//! [`make_stream`] wraps a single-call executor (anything implementing
//! [`PageSource`]) into a [`PagedStream`]: a pull-based, one-directional,
//! non-restartable sequence of `Result<Item, Error>`.  Construction performs
//! no call; each [`PagedStream::next`] performs at most one, and only when
//! the current page's buffer is exhausted and a continuation is warranted.
//!
//! [`ScriptedSource`] is a verified executor fed from a prepared list of
//! outcomes; it serves the crate's tests and doubles as a reference
//! implementation of the [`PageSource`] contract.

use vstd::prelude::*;

use crate::pagination::{run_output, wants_more, CallView, EventView};
use crate::pager::{event_view, fetched_view, opt_string_view, Page, Pager, PagerState, Pull};

verus! {

/// A single-call executor: one HTTP round trip per [`PageSource::fetch`],
/// already decoded and unpacked into an ordered page of items.
///
/// The ghost `log` records every call served, with the cursor it was issued
/// with and its outcome; `fetch` promises nothing about the outcome itself
/// (a real executor may fail, return an empty page, or return anything
/// else), only that the log grows by exactly the record of this call.
pub trait PageSource<T, E> {
    /// The calls this executor has served, oldest first.
    spec fn log(&self) -> Seq<CallView<T, E>>;

    /// Perform one call.  `cursor` is `None` for an initial request and
    /// carries the previous page's continuation cursor otherwise.
    fn fetch(&mut self, cursor: Option<String>) -> (r: Result<Page<T>, E>)
        ensures
            final(self).log() == old(self).log().push(
                CallView { cursor: opt_string_view(cursor), fetched: fetched_view(r) },
            ),
    ;
}

/// A lazy stream of items over a paginated endpoint: the composition of a
/// [`Pager`] with the executor that serves its fetches.
pub struct PagedStream<T, E, S: PageSource<T, E>> {
    /// The injected single-call executor.
    pub source: S,
    /// The pagination state machine.
    pub pager: Pager<T, E>,
    /// Length of the executor's log when this stream was constructed: the
    /// calls after this index are the ones this stream issued.
    pub base: Ghost<int>,
}

impl<T, E, S: PageSource<T, E>> PagedStream<T, E, S> {
    /// The calls this stream has issued, oldest first.
    pub open spec fn fed(self) -> Seq<CallView<T, E>> {
        self.pager.fed@
    }

    /// The events this stream has yielded, oldest first.
    pub open spec fn emitted(self) -> Seq<EventView<T, E>> {
        self.pager.emitted@
    }

    /// Whether the stream is exhausted.
    pub open spec fn done(self) -> bool {
        self.pager.done()
    }

    /// Well-formedness: the state machine is well-formed and its history is
    /// exactly the tail of the executor's log that this stream produced.
    pub open spec fn inv(self) -> bool {
        &&& self.pager.inv()
        &&& 0 <= self.base@ <= self.source.log().len()
        &&& self.pager.fed@ == self.source.log().skip(self.base@)
    }

    /// Whether the stream is exhausted, observably.
    pub fn is_done(&self) -> (r: bool)
        ensures
            r == self.done(),
    {
        match &self.pager.state {
            PagerState::Failed => true,
            PagerState::Finished => true,
            _ => false,
        }
    }

    /// Produce the next event of the stream, or `None` once it is over.
    ///
    /// At most one executor call is performed, and exactly one when the
    /// machine was awaiting a fetch; no call is ever performed once the
    /// stream is done or while buffered items remain.  The events yielded
    /// so far are always exactly the model's output for the calls issued.
    pub fn next(&mut self) -> (r: Option<Result<T, E>>)
        requires
            old(self).inv(),
        ensures
            final(self).inv(),
            final(self).base@ == old(self).base@,
            final(self).source.log().len() == old(self).source.log().len() + (if old(
                self,
            ).pager.awaiting_fetch() {
                1int
            } else {
                0int
            }),
            !old(self).pager.awaiting_fetch() ==> final(self).source == old(self).source,
            old(self).done() ==> *final(self) == *old(self) && r is None,
            match r {
                Some(ev) => {
                    &&& final(self).emitted() == old(self).emitted().push(event_view(ev))
                    &&& final(self).emitted() == run_output(final(self).fed()).take(
                        final(self).emitted().len() as int,
                    )
                    &&& !old(self).done()
                    &&& (ev is Err ==> final(self).done())
                },
                None => {
                    &&& final(self).emitted() == old(self).emitted()
                    &&& final(self).done()
                    &&& final(self).emitted() == run_output(final(self).fed())
                    &&& !wants_more(final(self).fed())
                },
            },
    {
        let pulled = self.pager.pull();
        match pulled {
            Pull::Item(t) => Some(Ok(t)),
            Pull::End => None,
            Pull::Fetch(cursor) => {
                let outcome = self.source.fetch(cursor);
                proof {
                    assert(self.source.log().skip(self.base@) =~= self.pager.fed@.push(
                        self.source.log().last(),
                    ));
                }
                self.pager.provide(outcome)
            },
        }
    }
}

impl<T, E, S: PageSource<T, E>> PagedStream<T, E, S> {
    /// Pull at most `max_events` further events into a vector, stopping
    /// early when the stream ends.  Fewer than `max_events` events come
    /// back only if the stream is exhausted.
    pub fn collect_up_to(&mut self, max_events: usize) -> (out: Vec<Result<T, E>>)
        requires
            old(self).inv(),
        ensures
            final(self).inv(),
            final(self).base@ == old(self).base@,
            final(self).emitted() == old(self).emitted() + out@.map_values(
                |r: Result<T, E>| event_view(r),
            ),
            out@.len() <= max_events,
            out@.len() < max_events ==> final(self).done(),
    {
        let ghost base0 = self.base@;
        let ghost emitted0 = self.pager.emitted@;
        let mut out: Vec<Result<T, E>> = Vec::new();
        let mut ended = false;
        proof {
            assert(emitted0 + out@.map_values(|r: Result<T, E>| event_view(r)) =~= emitted0);
        }
        while out.len() < max_events && !ended
            invariant
                self.inv(),
                self.base@ == base0,
                self.pager.emitted@ == emitted0 + out@.map_values(
                    |r: Result<T, E>| event_view(r),
                ),
                out@.len() <= max_events,
                ended ==> self.done(),
            decreases max_events - out@.len(), (if ended { 0int } else { 1int }),
        {
            let ghost out0 = out@;
            match self.next() {
                Some(ev) => {
                    out.push(ev);
                    proof {
                        assert(out@.map_values(|r: Result<T, E>| event_view(r))
                            =~= out0.map_values(|r: Result<T, E>| event_view(r)).push(
                            event_view(ev),
                        ));
                        assert(emitted0 + out@.map_values(|r: Result<T, E>| event_view(r))
                            =~= (emitted0 + out0.map_values(|r: Result<T, E>| event_view(r))).push(
                            event_view(ev),
                        ));
                    }
                },
                None => {
                    ended = true;
                },
            }
        }
        out
    }
}

/// Build the lazy stream for one paginated request.
///
/// This is the adapter's sole entry point: it captures the executor and
/// performs no call at all — the first call happens only when the first
/// item is demanded from the stream.
pub fn make_stream<T, E, S: PageSource<T, E>>(source: S) -> (s: PagedStream<T, E, S>)
    ensures
        s.inv(),
        s.source == source,
        s.fed() == Seq::<CallView<T, E>>::empty(),
        s.emitted() == Seq::<EventView<T, E>>::empty(),
        !s.done(),
{
    let pager = Pager::new();
    let ghost base = source.log().len() as int;
    let s = PagedStream { source, pager, base: Ghost(base) };
    proof {
        assert(s.source.log().skip(base) =~= Seq::<CallView<T, E>>::empty());
    }
    s
}

/// An executor that serves a prepared list of outcomes, in order.  Once the
/// script is exhausted it serves empty pages, which end any stream without
/// error.
pub struct ScriptedSource<T, E> {
    /// The outcomes still to be served, next first.
    pub script: Vec<Result<Page<T>, E>>,
    /// The calls served so far.
    pub record: Ghost<Seq<CallView<T, E>>>,
}

impl<T, E> ScriptedSource<T, E> {
    /// An executor that will serve the given outcomes, in order.
    pub fn new(script: Vec<Result<Page<T>, E>>) -> (s: Self)
        ensures
            s.log() == Seq::<CallView<T, E>>::empty(),
            s.script@ == script@,
    {
        ScriptedSource { script, record: Ghost(Seq::empty()) }
    }

    /// How many scripted outcomes have not been served yet.
    pub fn remaining(&self) -> (n: usize)
        ensures
            n == self.script@.len(),
    {
        self.script.len()
    }
}

impl<T, E> PageSource<T, E> for ScriptedSource<T, E> {
    open spec fn log(&self) -> Seq<CallView<T, E>> {
        self.record@
    }

    fn fetch(&mut self, cursor: Option<String>) -> (r: Result<Page<T>, E>)
        ensures
            old(self).script@.len() > 0 ==> r == old(self).script@[0] && final(self).script@ == old(
                self,
            ).script@.drop_first(),
            old(self).script@.len() == 0 ==> final(self).script@ == old(self).script@ && match r {
                Result::Ok(p) => p.items@.len() == 0 && p.cursor is None,
                Result::Err(_) => false,
            },
    {
        let outcome: Result<Page<T>, E> = if self.script.len() > 0 {
            self.script.remove(0)
        } else {
            Ok(Page { items: Vec::new(), cursor: None })
        };
        self.record = Ghost(self.record@.push(
            CallView { cursor: opt_string_view(cursor), fetched: fetched_view(outcome) },
        ));
        outcome
    }
}

} // verus!
