//! What holds of every run of the fetch engine.

use crate::graphql::model::{
    chained, items_of, unfinished, EngineView, PageView, PositionView, Pulled, StepView,
};
use vstd::prelude::*;

verus! {

/// The state once everything buffered has been delivered.
spec fn emptied<T>(state: EngineView<T>) -> EngineView<T> {
    EngineView {
        position: PositionView {
            index: state.position.index + state.buffer.len(),
            ..state.position
        },
        buffer: Seq::empty(),
        ..state
    }
}

/// The state is what taking in `page` and delivering some of its items leaves.
spec fn tracks<T>(state: EngineView<T>, page: PageView<T>) -> bool {
    &&& state.position.index <= page.items.len()
    &&& state.buffer == page.items.skip(state.position.index as int)
    &&& state.continuation == page.page_info.continuation()
    &&& state.total_count == Some(page.total_count)
}

/// Draining delivers the buffer first.
proof fn lemma_drain_buffer<T>(state: EngineView<T>, pages: Seq<PageView<T>>)
    ensures
        state.drain(pages) == state.buffer + emptied(state).drain(pages),
    decreases state.buffer.len(),
{
    if state.buffer.len() == 0 {
        assert(state.buffer =~= Seq::empty());
        assert(emptied(state) == state);
        assert(state.drain(pages) =~= state.buffer + state.drain(pages));
    } else {
        let next = state.step().0;
        lemma_drain_buffer(next, pages);
        assert(emptied(next) == emptied(state));
        assert(state.drain(pages) =~= seq![state.buffer[0]] + next.drain(pages));
        assert(seq![state.buffer[0]] + next.buffer =~= state.buffer);
        assert(state.drain(pages) =~= state.buffer + emptied(state).drain(pages));
    }
}

/// A run that is about to fetch goes through a chain of pages from end to end.
proof fn lemma_drain_chain<T>(state: EngineView<T>, pages: Seq<PageView<T>>)
    requires
        state.buffer.len() == 0,
        state.continuation is Active || (state.continuation is Unknown && state.position.index
            == 0),
        chained(pages),
    ensures
        state.drain(pages) == items_of(pages),
    decreases pages.len(),
{
    if pages.len() == 0 {
    } else {
        let page = pages[0];
        let rest = pages.drop_first();
        let stepped = state.step().0;
        assert(stepped.position.index == 0);
        let (received, first) = stepped.receive(page);
        assert(rest.len() == 0 ==> items_of(rest) =~= Seq::<T>::empty());
        if page.items.len() == 0 {
            assert(!page.leads_on());
            assert(rest.len() == 0);
            assert(items_of(pages) =~= Seq::<T>::empty());
        } else {
            lemma_drain_buffer(received, rest);
            let flushed = emptied(received);
            if rest.len() > 0 {
                assert(page.leads_on());
                assert forall|i: int| 0 <= i < rest.len() - 1 implies (#[trigger] rest[i]).leads_on() by {
                    assert(rest[i] == pages[i + 1]);
                }
                lemma_drain_chain(flushed, rest);
            } else {
                assert(flushed.drain(rest) =~= Seq::<T>::empty());
            }
            assert(state.drain(pages) =~= seq![page.items[0]] + received.drain(rest));
            assert(seq![page.items[0]] + received.buffer =~= page.items);
            assert(state.drain(pages) =~= page.items + items_of(rest));
        }
    }
}

/// Ordering. A new engine whose checkpoint counts no item as delivered,
/// drained against a source that answers with `pages`, delivers the items of
/// every page, page by page and in each page's own order.
///
/// The pages are those that the run asks for: each but the last announces its
/// successor. Each but the last also holds an item, since a page without one
/// ends the sequence.
pub proof fn lemma_drain_in_order<T>(checkpoint: PositionView, pages: Seq<PageView<T>>)
    requires
        checkpoint.index == 0,
        chained(pages),
    ensures
        EngineView::<T>::fresh(checkpoint).drain(pages) == items_of(pages),
{
    lemma_drain_chain(EngineView::<T>::fresh(checkpoint), pages);
}

/// Terminal idempotence. Once a pull has ended the sequence, the engine is
/// finished: whatever the source could still serve, every later pull ends
/// again, asks for no page and leaves the state as it is.
pub proof fn lemma_end_is_final<T>(
    state: EngineView<T>,
    pages: Seq<PageView<T>>,
    later: Seq<PageView<T>>,
    count: nat,
)
    requires
        state.pull(pages).2 is End,
    ensures
        state.pull(pages).0.finished(),
        state.pull(pages).0.step() == (state.pull(pages).0, StepView::<T>::Done),
        state.pull(pages).0.pull(later) == (state.pull(pages).0, later, Pulled::<T>::End),
        state.pull(pages).0.run(later, count) == (state.pull(pages).0, later),
        state.pull(pages).0.drain(later) == Seq::<T>::empty(),
{
    lemma_finished_stays(state.pull(pages).0, later, count);
}

/// A finished engine stays as it is, however often it is pulled.
pub proof fn lemma_finished_stays<T>(state: EngineView<T>, pages: Seq<PageView<T>>, count: nat)
    requires
        state.finished(),
    ensures
        state.step() == (state, StepView::<T>::Done),
        state.pull(pages) == (state, pages, Pulled::<T>::End),
        state.run(pages, count) == (state, pages),
        state.drain(pages) == Seq::<T>::empty(),
    decreases count,
{
    if count > 0 {
        lemma_finished_stays(state, pages, (count - 1) as nat);
    }
}

/// Total count visibility. After any number of pulls the engine reports the
/// total of the page that was served last, whatever earlier pages said, and
/// what it reported at the outset where none was served: nothing, for a new
/// engine.
pub proof fn lemma_total_count_is_latest<T>(
    state: EngineView<T>,
    pages: Seq<PageView<T>>,
    count: nat,
)
    ensures
        ({
            let (reached, rest) = state.run(pages, count);
            let served = pages.len() - rest.len();
            &&& 0 <= served <= pages.len()
            &&& rest == pages.skip(served)
            &&& reached.total_count == if served == 0 {
                state.total_count
            } else {
                Some(pages[served - 1].total_count)
            }
        }),
    decreases count,
{
    if count == 0 {
        assert(pages.skip(0) =~= pages);
    } else {
        let (next, rest1, _) = state.pull(pages);
        lemma_total_count_is_latest(next, rest1, (count - 1) as nat);
        let (reached, rest) = next.run(rest1, (count - 1) as nat);
        let served1 = rest1.len() - rest.len();
        if rest1.len() == pages.len() {
            assert(rest1 == pages);
        } else {
            assert(rest1 == pages.drop_first());
            assert(rest1.skip(served1) =~= pages.skip(served1 + 1));
            if served1 > 0 {
                assert(rest1[served1 - 1] == pages[served1]);
            }
        }
    }
}

/// What a run delivers after its first `count` items is what draining delivers
/// from the state that it has reached by then.
proof fn lemma_drain_after<T>(state: EngineView<T>, pages: Seq<PageView<T>>, count: nat)
    requires
        count <= state.drain(pages).len(),
    ensures
        ({
            let (reached, rest) = state.run(pages, count);
            reached.drain(rest) == state.drain(pages).skip(count as int)
        }),
    decreases count,
{
    if count == 0 {
        assert(state.drain(pages).skip(0) =~= state.drain(pages));
    } else {
        let (next, rest1, pulled) = state.pull(pages);
        assert(pulled is Item);
        let later = next.drain(rest1);
        assert(state.drain(pages) =~= seq![pulled->Item_0] + later);
        lemma_drain_after(next, rest1, (count - 1) as nat);
        assert(state.drain(pages).skip(count as int) =~= later.skip(count - 1));
    }
}

/// While a run delivers items, its state follows the page that was served last.
proof fn lemma_run_tracks<T>(
    state: EngineView<T>,
    pages: Seq<PageView<T>>,
    count: nat,
    current: Option<PageView<T>>,
)
    requires
        count <= state.drain(pages).len(),
        match current {
            Some(page) => tracks(state, page),
            None => state.buffer.len() == 0,
        },
    ensures
        ({
            let (reached, rest) = state.run(pages, count);
            let served = pages.len() - rest.len();
            &&& 0 <= served <= pages.len()
            &&& rest == pages.skip(served)
            &&& if served == 0 {
                match current {
                    Some(page) => tracks(reached, page),
                    None => count == 0 && reached == state,
                }
            } else {
                tracks(reached, pages[served - 1])
            }
        }),
    decreases count,
{
    if count == 0 {
        assert(pages.skip(0) =~= pages);
    } else {
        let (next, rest1, pulled) = state.pull(pages);
        assert(pulled is Item);
        assert(state.drain(pages) =~= seq![pulled->Item_0] + next.drain(rest1));
        if state.buffer.len() > 0 {
            let page = current->Some_0;
            assert(next.buffer =~= page.items.skip(next.position.index as int));
            lemma_run_tracks(next, rest1, (count - 1) as nat, current);
        } else {
            let page = pages[0];
            let stepped = state.step().0;
            assert(next.buffer =~= page.items.skip(next.position.index as int));
            lemma_run_tracks(next, rest1, (count - 1) as nat, Some(page));
            let (reached, rest) = next.run(rest1, (count - 1) as nat);
            let served1 = rest1.len() - rest.len();
            assert(rest1.skip(served1) =~= pages.skip(served1 + 1));
            if served1 > 0 {
                assert(rest1[served1 - 1] == pages[served1]);
            }
        }
    }
}

/// A new engine over the checkpoint of a run that is inside a page, served
/// that page again, goes on as the run itself would.
proof fn lemma_takes_over<T>(state: EngineView<T>, page: PageView<T>, rest: Seq<PageView<T>>)
    requires
        tracks(state, page),
        state.buffer.len() > 0 || state.drain(rest).len() == 0,
    ensures
        EngineView::<T>::fresh(state.position).drain(seq![page] + rest) == state.drain(rest),
{
    let again = EngineView::<T>::fresh(state.position);
    let pages = seq![page] + rest;
    assert(pages[0] == page);
    assert(pages.drop_first() =~= rest);
    if state.buffer.len() > 0 {
        let resumed = again.pull(pages).0;
        let next = state.pull(rest).0;
        assert(resumed.buffer =~= next.buffer);
        assert(resumed == next);
    } else {
        assert(state.position.index == page.items.len());
        assert(again.drain(pages) =~= Seq::<T>::empty());
        assert(state.drain(rest) =~= Seq::<T>::empty());
    }
}

/// Resumability. Let a new engine deliver `count` items and stop. Another new
/// engine over the checkpoint it left, against a source that serves the page
/// in progress again and then the pages not yet served, delivers what the
/// first would have delivered had it gone on.
///
/// This is stated for a run that stopped before its first item, after its
/// last, or with items of the page in progress still to come. Stopped behind
/// the last item of a page that others follow, the second engine finds
/// nothing beyond the items it skips and ends.
pub proof fn lemma_resume<T>(checkpoint: PositionView, pages: Seq<PageView<T>>, count: nat)
    requires
        count <= EngineView::<T>::fresh(checkpoint).drain(pages).len(),
        count == 0 || count == EngineView::<T>::fresh(checkpoint).drain(pages).len()
            || EngineView::<T>::fresh(checkpoint).run(pages, count).0.buffer.len() > 0,
    ensures
        ({
            let origin = EngineView::<T>::fresh(checkpoint);
            let (reached, rest) = origin.run(pages, count);
            EngineView::<T>::fresh(reached.position).drain(unfinished(pages, rest))
                == origin.drain(pages).skip(count as int)
        }),
{
    let origin = EngineView::<T>::fresh(checkpoint);
    let (reached, rest) = origin.run(pages, count);
    lemma_drain_after(origin, pages, count);
    lemma_run_tracks(origin, pages, count, None);
    let served = pages.len() - rest.len();
    if served > 0 {
        let page = pages[served - 1];
        assert(unfinished(pages, rest) =~= seq![page] + rest);
        assert(origin.drain(pages).skip(count as int).len() == origin.drain(pages).len() - count);
        lemma_takes_over(reached, page, rest);
    }
}

/// The count of a checkpoint starts over exactly where its cursor is set.
/// Asking for the page behind a cursor names that cursor and counts from 0;
/// every item that is handed out adds one to the count and leaves the cursor;
/// nothing else touches the checkpoint.
pub proof fn lemma_count_restarts_with_the_cursor<T>(state: EngineView<T>, page: PageView<T>)
    ensures
        ({
            let (stepped, step) = state.step();
            match step {
                StepView::Item(_) => stepped.position == (PositionView {
                    index: state.position.index + 1,
                    ..state.position
                }),
                StepView::Fetch(Some(cursor)) => stepped.position == (PositionView {
                    index: 0,
                    end_cursor: Some(cursor),
                }),
                StepView::Fetch(None) => stepped.position == state.position,
                StepView::Done => stepped.position == state.position,
            }
        }),
        ({
            let (received, first) = state.receive(page);
            match first {
                Some(_) => received.position == (PositionView {
                    index: state.position.index + 1,
                    ..state.position
                }),
                None => received.position == state.position,
            }
        }),
{
}

/// A pull that fails for want of an answer loses nothing. The engine it
/// leaves, and a new engine over the checkpoint it leaves, both deliver
/// against any source what the engine would have delivered before the
/// failure.
pub proof fn lemma_failure_is_safe<T>(state: EngineView<T>, pages: Seq<PageView<T>>)
    requires
        state.pull(Seq::empty()).2 is Failed,
    ensures
        state.pull(Seq::empty()).0.drain(pages) == state.drain(pages),
        EngineView::<T>::fresh(state.pull(Seq::empty()).0.position).drain(pages) == state.drain(
            pages,
        ),
{
    let stopped = state.pull(Seq::empty()).0;
    let again = EngineView::<T>::fresh(stopped.position);
    assert(stopped == state.step().0);
    assert(stopped.step().0 == stopped);
    assert(again.step().0 == again);
    if pages.len() > 0 {
        assert(stopped.buffer =~= again.buffer);
        assert(stopped.receive(pages[0]) == again.receive(pages[0]));
        assert(stopped.pull(pages) == state.pull(pages));
        assert(again.pull(pages) == state.pull(pages));
    }
}

} // verus!
