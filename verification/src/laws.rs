//! The adapter's guarantees, stated as theorems.
//!
//! Each proof function here records, over the history model of
//! [`crate::pagination`] and the machine of [`crate::pager`], one of the
//! behavioural guarantees of the streaming adapter.  Together with the
//! contracts of [`crate::stream::make_stream`] and
//! [`crate::stream::PagedStream::next`] they pin down laziness, ordering,
//! call counting and termination.

use vstd::prelude::*;

use crate::pagination::{
    call_wf_at, calls_wf, flat_items, items_events, lemma_run_push, page_continues, run_output,
    wants_more, CallView, EventView, FetchedView,
};
use crate::pager::Pager;

verus! {

/// Items are yielded in strict page-then-position order: for a history of
/// delivered pages, each continuing into the next, the consumer observes
/// exactly the concatenation of the pages' items, in order, and no error.
pub proof fn lemma_yields_in_page_order<T, E>(calls: Seq<CallView<T, E>>)
    requires
        forall|i: int| 0 <= i < calls.len() ==> (#[trigger] calls[i]).fetched is Delivered,
        forall|i: int|
            0 <= i < calls.len() - 1 ==> match (#[trigger] calls[i]).fetched {
                FetchedView::Delivered { page } => page_continues(page),
                FetchedView::Failed { .. } => false,
            },
    ensures
        run_output(calls) == items_events::<T, E>(flat_items(calls)),
    decreases calls.len(),
{
    if calls.len() == 0 {
        assert(items_events::<T, E>(flat_items(calls)) =~= Seq::<EventView<T, E>>::empty());
    } else {
        let rest = calls.drop_first();
        assert forall|i: int| 0 <= i < rest.len() implies (#[trigger] rest[i]).fetched
            is Delivered by {
            assert(rest[i] == calls[i + 1]);
        }
        assert forall|i: int| 0 <= i < rest.len() - 1 implies match (#[trigger] rest[i]).fetched {
            FetchedView::Delivered { page } => page_continues(page),
            FetchedView::Failed { .. } => false,
        } by {
            assert(rest[i] == calls[i + 1]);
        }
        lemma_yields_in_page_order::<T, E>(rest);
        match calls.first().fetched {
            FetchedView::Delivered { page } => {
                if page.items.len() == 0 {
                    assert(items_events::<T, E>(flat_items(calls))
                        =~= Seq::<EventView<T, E>>::empty());
                } else if page_continues(page) {
                    assert(items_events::<T, E>(page.items + flat_items(rest))
                        =~= items_events::<T, E>(page.items) + items_events::<T, E>(
                        flat_items(rest),
                    ));
                } else {
                }
            },
            FetchedView::Failed { .. } => {
                assert(calls[0].fetched is Delivered);
            },
        }
    }
}

/// An empty page is a termination signal: it contributes no event, ends the
/// run without error, and warrants no further call — whether or not it
/// carried a cursor.
pub proof fn lemma_empty_page_terminates<T, E>(calls: Seq<CallView<T, E>>, c: CallView<T, E>)
    requires
        wants_more(calls),
        match c.fetched {
            FetchedView::Delivered { page } => page.items.len() == 0,
            FetchedView::Failed { .. } => false,
        },
    ensures
        run_output(calls.push(c)) == run_output(calls),
        !wants_more(calls.push(c)),
{
    lemma_run_push(calls, c);
    match c.fetched {
        FetchedView::Delivered { page } => {
            assert(items_events::<T, E>(page.items) =~= Seq::<EventView<T, E>>::empty());
            assert(run_output(calls) + Seq::<EventView<T, E>>::empty() =~= run_output(calls));
        },
        FetchedView::Failed { .. } => {},
    }
}

/// Errors are terminal: a failed call contributes exactly one `Failure`
/// event after everything the earlier pages produced, and the run makes no
/// further call.
pub proof fn lemma_error_is_terminal<T, E>(calls: Seq<CallView<T, E>>, c: CallView<T, E>, err: E)
    requires
        wants_more(calls),
        c.fetched == (FetchedView::<T, E>::Failed { err }),
    ensures
        run_output(calls.push(c)) == run_output(calls) + seq![
            EventView::<T, E>::Failure { err },
        ],
        !wants_more(calls.push(c)),
{
    lemma_run_push(calls, c);
}

/// Cursor absence terminates cleanly: a page with items but no cursor has
/// all its items yielded, after everything the earlier pages produced, and
/// the run makes no further call and no error.
pub proof fn lemma_no_cursor_drains_then_ends<T, E>(calls: Seq<CallView<T, E>>, c: CallView<T, E>)
    requires
        wants_more(calls),
        match c.fetched {
            FetchedView::Delivered { page } => page.items.len() > 0 && page.cursor is None,
            FetchedView::Failed { .. } => false,
        },
    ensures
        match c.fetched {
            FetchedView::Delivered { page } => run_output(calls.push(c)) == run_output(calls)
                + items_events::<T, E>(page.items),
            FetchedView::Failed { .. } => false,
        },
        !wants_more(calls.push(c)),
{
    lemma_run_push(calls, c);
}

/// One call per page, and only warranted calls: a well-formed machine's
/// history carries no cursor on its first call, and every later call was
/// warranted by — and reuses the cursor of — the page immediately before
/// it; once the machine is done, its history warrants no further call.
pub proof fn lemma_calls_warranted<T, E>(p: Pager<T, E>)
    requires
        p.inv(),
    ensures
        calls_wf(p.fed@),
        forall|i: int| 0 < i < p.fed@.len() ==> match (#[trigger] p.fed@[i - 1]).fetched {
            FetchedView::Delivered { page } => page_continues(page) && p.fed@[i].cursor
                == page.cursor,
            FetchedView::Failed { .. } => false,
        },
        p.done() ==> !wants_more(p.fed@),
{
    assert forall|i: int| 0 < i < p.fed@.len() implies match (#[trigger] p.fed@[i - 1]).fetched {
        FetchedView::Delivered { page } => page_continues(page) && p.fed@[i].cursor == page.cursor,
        FetchedView::Failed { .. } => false,
    } by {
        assert(call_wf_at(p.fed@, i));
    }
}

} // verus!
