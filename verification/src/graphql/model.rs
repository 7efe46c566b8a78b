//! The fetch engine as a mathematical state machine.
//!
//! Everything here is ghost: the values that the executable types of the
//! parent module stand for, and the transitions that their contracts are
//! stated over.

use vstd::prelude::*;

verus! {

/// A checkpoint: which page is current, and how many of its items were delivered.
pub struct PositionView {
    /// Items of the current page already handed to the caller.
    pub index: nat,
    /// The cursor the current page was asked for with; `None` for the first page.
    pub end_cursor: Option<Seq<char>>,
}

/// What a page says about the pages after it.
pub struct PageInfoView {
    pub has_next_page: bool,
    pub end_cursor: Option<Seq<char>>,
}

/// One answer of the remote source.
pub struct PageView<T> {
    pub items: Seq<T>,
    pub page_info: PageInfoView,
    pub total_count: nat,
}

/// Whether another page can be asked for, and with which cursor.
pub enum ContinuationView {
    /// No page was fetched yet.
    Unknown,
    /// The last page named this cursor for the next one.
    Active(Seq<char>),
    /// There is nothing left to fetch.
    Exhausted,
}

/// What the engine does when asked for the next item.
pub enum StepView<T> {
    /// It hands out a buffered item.
    Item(T),
    /// It needs a page; `Some(cursor)` where it moved its query behind `cursor`.
    Fetch(Option<Seq<char>>),
    /// The sequence has ended.
    Done,
}

/// How one pull against a scripted source ends.
pub enum Pulled<T> {
    Item(T),
    /// The sequence has ended.
    End,
    /// The source had no answer.
    Failed,
}

/// The engine's state.
pub struct EngineView<T> {
    /// What the position store holds.
    pub position: PositionView,
    /// Items fetched and not yet delivered.
    pub buffer: Seq<T>,
    pub continuation: ContinuationView,
    /// The total of the page fetched last.
    pub total_count: Option<nat>,
}

impl PositionView {
    /// The checkpoint of a run that has not begun.
    pub open spec fn start() -> Self {
        PositionView { index: 0, end_cursor: None }
    }
}

impl PageInfoView {
    /// `Active` where the page announces a successor and names its cursor.
    pub open spec fn continuation(self) -> ContinuationView {
        if self.has_next_page {
            match self.end_cursor {
                Some(cursor) => ContinuationView::Active(cursor),
                None => ContinuationView::Exhausted,
            }
        } else {
            ContinuationView::Exhausted
        }
    }
}

impl<T> PageView<T> {
    /// The page has items and is followed by another.
    pub open spec fn leads_on(self) -> bool {
        self.items.len() > 0 && self.page_info.continuation() is Active
    }
}

impl<T> EngineView<T> {
    /// A newly built engine over a store that holds `position`.
    pub open spec fn fresh(position: PositionView) -> Self {
        EngineView {
            position,
            buffer: Seq::empty(),
            continuation: ContinuationView::Unknown,
            total_count: None,
        }
    }

    /// Nothing is buffered and nothing will be fetched.
    pub open spec fn finished(self) -> bool {
        self.buffer.len() == 0 && self.continuation is Exhausted
    }

    /// The first half of a pull: deliver from the buffer, or decide about a fetch.
    pub open spec fn step(self) -> (Self, StepView<T>) {
        if self.buffer.len() > 0 {
            (
                EngineView {
                    position: PositionView { index: self.position.index + 1, ..self.position },
                    buffer: self.buffer.drop_first(),
                    ..self
                },
                StepView::Item(self.buffer[0]),
            )
        } else {
            match self.continuation {
                ContinuationView::Exhausted => (self, StepView::Done),
                ContinuationView::Unknown => (self, StepView::Fetch(None)),
                ContinuationView::Active(cursor) => (
                    EngineView {
                        position: PositionView { index: 0, end_cursor: Some(cursor) },
                        ..self
                    },
                    StepView::Fetch(Some(cursor)),
                ),
            }
        }
    }

    /// The second half of a pull: take in the page that was fetched.
    ///
    /// The items that the checkpoint counts as delivered are skipped. A page
    /// with no item beyond them ends the sequence, whatever it says of a
    /// successor.
    pub open spec fn receive(self, page: PageView<T>) -> (Self, Option<T>) {
        let skip = self.position.index as int;
        if page.items.len() <= skip {
            (
                EngineView {
                    continuation: ContinuationView::Exhausted,
                    total_count: Some(page.total_count),
                    ..self
                },
                None,
            )
        } else {
            (
                EngineView {
                    position: PositionView { index: self.position.index + 1, ..self.position },
                    buffer: self.buffer + page.items.subrange(skip + 1, page.items.len() as int),
                    continuation: page.page_info.continuation(),
                    total_count: Some(page.total_count),
                },
                Some(page.items[skip]),
            )
        }
    }

    /// One whole pull against a source that answers with `pages`, in order,
    /// and fails once they are used up: the state after it, the pages not yet
    /// served, and how it ended.
    pub open spec fn pull(self, pages: Seq<PageView<T>>) -> (Self, Seq<PageView<T>>, Pulled<T>) {
        let (stepped, step) = self.step();
        match step {
            StepView::Item(item) => (stepped, pages, Pulled::Item(item)),
            StepView::Done => (stepped, pages, Pulled::End),
            StepView::Fetch(_) => if pages.len() == 0 {
                (stepped, pages, Pulled::Failed)
            } else {
                let (received, first) = stepped.receive(pages[0]);
                match first {
                    Some(item) => (received, pages.drop_first(), Pulled::Item(item)),
                    None => (received, pages.drop_first(), Pulled::End),
                }
            },
        }
    }

    /// The state and the unserved pages after `count` pulls.
    pub open spec fn run(self, pages: Seq<PageView<T>>, count: nat) -> (Self, Seq<PageView<T>>)
        decreases count,
    {
        if count == 0 {
            (self, pages)
        } else {
            let (next, rest, _) = self.pull(pages);
            next.run(rest, (count - 1) as nat)
        }
    }

    /// Every item that repeated pulls deliver before one of them ends or fails.
    pub open spec fn drain(self, pages: Seq<PageView<T>>) -> Seq<T>
        decreases pages.len(), self.buffer.len(),
    {
        let (next, rest, pulled) = self.pull(pages);
        match pulled {
            Pulled::Item(item) => seq![item] + next.drain(rest),
            _ => Seq::empty(),
        }
    }
}

/// Every page but the last has items and names its successor, so that a run
/// from the start fetches them all.
pub open spec fn chained<T>(pages: Seq<PageView<T>>) -> bool {
    forall|i: int| 0 <= i < pages.len() - 1 ==> (#[trigger] pages[i]).leads_on()
}

/// What a source has to serve to a run that takes over: of `pages`, the one
/// in progress and those after it, where `rest` are the pages not yet served.
pub open spec fn unfinished<T>(pages: Seq<PageView<T>>, rest: Seq<PageView<T>>) -> Seq<
    PageView<T>,
> {
    let served = pages.len() - rest.len();
    if served <= 0 {
        pages
    } else {
        pages.skip(served - 1)
    }
}

/// The items of all `pages`, in page order.
pub open spec fn items_of<T>(pages: Seq<PageView<T>>) -> Seq<T>
    decreases pages.len(),
{
    if pages.len() == 0 {
        Seq::empty()
    } else {
        pages[0].items + items_of(pages.drop_first())
    }
}

} // verus!
