//! Mathematical model of a pagination run.
//!
//! A run of the streaming adapter is described by the sequence of calls it
//! made to the single-call executor: each call records the cursor it was
//! issued with and what came back (a page of items with an optional
//! continuation cursor, or an error).  From that history alone, the model
//! determines the exact sequence of events the consumer observes
//! ([`run_output`]) and whether the adapter will request a further page
//! ([`wants_more`]).  The executable adapter is specified against these
//! functions.

use vstd::prelude::*;

verus! {

/// The content of one fetched page, at the specification level: the ordered
/// items extracted from the payload and the continuation cursor, if the
/// server indicated one.
pub ghost struct PageView<T> {
    pub items: Seq<T>,
    pub cursor: Option<Seq<char>>,
}

/// What one executor call produced: a page, or an error.
pub ghost enum FetchedView<T, E> {
    Delivered { page: PageView<T> },
    Failed { err: E },
}

/// One executor call: the cursor it was issued with (`None` for the initial
/// request) and its outcome.
pub ghost struct CallView<T, E> {
    pub cursor: Option<Seq<char>>,
    pub fetched: FetchedView<T, E>,
}

/// One event observed by the consumer of the stream: an item, or the single
/// terminal error.
pub ghost enum EventView<T, E> {
    Item { item: T },
    Failure { err: E },
}

/// Whether the adapter continues past this page.
///
/// A page keeps the run going only if it still has items left after its
/// first one was yielded on arrival (at least two items in total) and the
/// server supplied a continuation cursor.  In particular a page with exactly
/// one item ends the run even when a cursor is present: its buffer is empty
/// by the time the next pull arrives, and an empty buffer is a termination
/// signal.
pub open spec fn page_continues<T>(page: PageView<T>) -> bool {
    page.items.len() >= 2 && page.cursor is Some
}

/// The items of a page, as consumer events.
pub open spec fn items_events<T, E>(items: Seq<T>) -> Seq<EventView<T, E>> {
    items.map_values(|t: T| EventView::Item { item: t })
}

/// The exact sequence of events a consumer observes for a given call
/// history.  Items appear in page order, items within a page in payload
/// order; an error contributes exactly one terminal event; an empty page
/// contributes nothing and ends the run.
pub open spec fn run_output<T, E>(calls: Seq<CallView<T, E>>) -> Seq<EventView<T, E>>
    decreases calls.len(),
{
    if calls.len() == 0 {
        Seq::empty()
    } else {
        match calls.first().fetched {
            FetchedView::Failed { err } => seq![EventView::Failure { err }],
            FetchedView::Delivered { page } => {
                if page.items.len() == 0 {
                    Seq::empty()
                } else if page_continues(page) {
                    items_events(page.items) + run_output(calls.drop_first())
                } else {
                    items_events(page.items)
                }
            },
        }
    }
}

/// Whether, after consuming the whole history `calls` and draining every
/// buffer, the adapter will issue one more call.
pub open spec fn wants_more<T, E>(calls: Seq<CallView<T, E>>) -> bool
    decreases calls.len(),
{
    if calls.len() == 0 {
        true
    } else {
        match calls.first().fetched {
            FetchedView::Failed { .. } => false,
            FetchedView::Delivered { page } => page_continues(page) && wants_more(
                calls.drop_first(),
            ),
        }
    }
}

/// Well-formedness of position `i` of a call history: the first call carries
/// no cursor, and every later call was warranted by the page before it and
/// reused exactly that page's cursor.
pub open spec fn call_wf_at<T, E>(calls: Seq<CallView<T, E>>, i: int) -> bool {
    if i == 0 {
        calls[0].cursor is None
    } else {
        match calls[i - 1].fetched {
            FetchedView::Delivered { page } => page_continues(page) && calls[i].cursor
                == page.cursor,
            FetchedView::Failed { .. } => false,
        }
    }
}

/// Well-formedness of a whole call history: no call was made that the pages
/// before it did not warrant.
pub open spec fn calls_wf<T, E>(calls: Seq<CallView<T, E>>) -> bool {
    forall|i: int| 0 <= i < calls.len() ==> #[trigger] call_wf_at(calls, i)
}

/// Every call in the history delivered a page that continues the run.
pub open spec fn all_continue<T, E>(calls: Seq<CallView<T, E>>) -> bool {
    forall|i: int|
        0 <= i < calls.len() ==> match (#[trigger] calls[i]).fetched {
            FetchedView::Delivered { page } => page_continues(page),
            FetchedView::Failed { .. } => false,
        }
}

/// All items delivered by a history, in page order, items within a page in
/// payload order, up to the first call that ends the run.
pub open spec fn flat_items<T, E>(calls: Seq<CallView<T, E>>) -> Seq<T>
    decreases calls.len(),
{
    if calls.len() == 0 {
        Seq::empty()
    } else {
        match calls.first().fetched {
            FetchedView::Failed { .. } => Seq::empty(),
            FetchedView::Delivered { page } => {
                if page.items.len() == 0 {
                    Seq::empty()
                } else if page_continues(page) {
                    page.items + flat_items(calls.drop_first())
                } else {
                    page.items
                }
            },
        }
    }
}

/// Appending one call to a history that still wants more extends the output
/// by exactly that call's events, and the extended history wants more
/// exactly when the new page continues.
pub proof fn lemma_run_push<T, E>(calls: Seq<CallView<T, E>>, c: CallView<T, E>)
    requires
        wants_more(calls),
    ensures
        run_output(calls.push(c)) == run_output(calls) + (match c.fetched {
            FetchedView::Failed { err } => seq![EventView::<T, E>::Failure { err }],
            FetchedView::Delivered { page } => items_events::<T, E>(page.items),
        }),
        wants_more(calls.push(c)) == (match c.fetched {
            FetchedView::Failed { .. } => false,
            FetchedView::Delivered { page } => page_continues(page),
        }),
    decreases calls.len(),
{
    let tail: Seq<EventView<T, E>> = match c.fetched {
        FetchedView::Failed { err } => seq![EventView::<T, E>::Failure { err }],
        FetchedView::Delivered { page } => items_events::<T, E>(page.items),
    };
    if calls.len() == 0 {
        assert(calls =~= Seq::<CallView<T, E>>::empty());
        assert(calls.push(c).drop_first() =~= Seq::<CallView<T, E>>::empty());
        assert(calls.push(c).first() == c);
        match c.fetched {
            FetchedView::Failed { err } => {
                assert(run_output(calls.push(c)) =~= run_output(calls) + tail);
            },
            FetchedView::Delivered { page } => {
                if page.items.len() == 0 {
                    assert(items_events::<T, E>(page.items) =~= Seq::<EventView<T, E>>::empty());
                }
                assert(run_output(calls.push(c)) =~= run_output(calls) + tail);
            },
        }
    } else {
        let rest = calls.drop_first();
        match calls.first().fetched {
            FetchedView::Failed { .. } => {
                assert(!wants_more(calls));
            },
            FetchedView::Delivered { page } => {
                lemma_run_push(rest, c);
                assert(calls.push(c).drop_first() =~= rest.push(c));
                assert(calls.push(c).first() == calls.first());
                assert(run_output(calls.push(c)) == items_events::<T, E>(page.items) + (run_output(
                    rest,
                ) + tail));
                assert(items_events::<T, E>(page.items) + (run_output(rest) + tail)
                    =~= (items_events::<T, E>(page.items) + run_output(rest)) + tail);
            },
        }
    }
}

/// A history whose every page continues still wants more.
pub proof fn lemma_wants_more_of_continuing<T, E>(calls: Seq<CallView<T, E>>)
    requires
        all_continue(calls),
    ensures
        wants_more(calls),
    decreases calls.len(),
{
    if calls.len() > 0 {
        assert(match calls[0].fetched {
            FetchedView::Delivered { page } => page_continues(page),
            FetchedView::Failed { .. } => false,
        });
        let rest = calls.drop_first();
        assert forall|i: int| 0 <= i < rest.len() implies match (#[trigger] rest[i]).fetched {
            FetchedView::Delivered { page } => page_continues(page),
            FetchedView::Failed { .. } => false,
        } by {
            assert(rest[i] == calls[i + 1]);
        }
        lemma_wants_more_of_continuing(rest);
    }
}

/// In a well-formed history whose last page continues, every page continues.
pub proof fn lemma_wf_last_continue_implies_all<T, E>(calls: Seq<CallView<T, E>>)
    requires
        calls_wf(calls),
        calls.len() == 0 || match calls.last().fetched {
            FetchedView::Delivered { page } => page_continues(page),
            FetchedView::Failed { .. } => false,
        },
    ensures
        all_continue(calls),
        wants_more(calls),
{
    assert forall|i: int| 0 <= i < calls.len() implies match (#[trigger] calls[i]).fetched {
        FetchedView::Delivered { page } => page_continues(page),
        FetchedView::Failed { .. } => false,
    } by {
        if i == calls.len() - 1 {
        } else {
            assert(call_wf_at(calls, i + 1));
        }
    }
    lemma_wants_more_of_continuing(calls);
}

/// A history that wants more consists solely of continuing pages.
pub proof fn lemma_wants_more_all_continue<T, E>(calls: Seq<CallView<T, E>>)
    requires
        wants_more(calls),
    ensures
        all_continue(calls),
    decreases calls.len(),
{
    if calls.len() > 0 {
        let rest = calls.drop_first();
        lemma_wants_more_all_continue(rest);
        assert forall|i: int| 0 <= i < calls.len() implies match (#[trigger] calls[i]).fetched {
            FetchedView::Delivered { page } => page_continues(page),
            FetchedView::Failed { .. } => false,
        } by {
            if i > 0 {
                assert(calls[i] == rest[i - 1]);
            }
        }
    }
}

/// Pushing a warranted call onto a well-formed history keeps it well-formed.
pub proof fn lemma_wf_push<T, E>(calls: Seq<CallView<T, E>>, c: CallView<T, E>)
    requires
        calls_wf(calls),
        call_wf_at(calls.push(c), calls.len() as int),
    ensures
        calls_wf(calls.push(c)),
{
    let extended = calls.push(c);
    assert forall|i: int| 0 <= i < extended.len() implies #[trigger] call_wf_at(extended, i) by {
        if i < calls.len() {
            assert(call_wf_at(calls, i));
            assert(extended[i] == calls[i]);
            if i > 0 {
                assert(extended[i - 1] == calls[i - 1]);
            }
        }
    }
}

} // verus!
