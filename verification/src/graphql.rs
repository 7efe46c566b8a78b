//! Cursor-paginated fetching that can be resumed.
//!
//! A [`PageableRequest`] turns the pages of a remote source into one forward
//! sequence of items. It never talks to the source itself: [`PageableRequest::next`]
//! either hands out an item or names the request to send, and
//! [`PageableRequest::receive`] takes in the answer. After every item it
//! writes to its [`PageHandler`] how far the current page has been consumed,
//! so that a later run can skip what was delivered.

pub mod laws;
pub mod model;

use crate::graphql::model::{
    ContinuationView, EngineView, PageInfoView, PageView, PositionView, StepView,
};
use std::collections::VecDeque;
use vstd::prelude::*;

verus! {

/// The cursor as a sequence of characters.
pub open spec fn cursor_view(cursor: Option<String>) -> Option<Seq<char>> {
    match cursor {
        Some(text) => Some(text@),
        None => None,
    }
}

/// A copy of `cursor`.
pub fn clone_cursor(cursor: &Option<String>) -> (copy: Option<String>)
    ensures
        copy == *cursor,
{
    match cursor {
        Some(text) => Some(text.clone()),
        None => None,
    }
}

/// The fields asked of whoever wrote something.
pub const AUTHOR_FIELDS: &'static str = "login ... on User { name email }";

/// The fields asked of whoever caused an event.
pub const ACTOR_FIELDS: &'static str = "__typename login ... on User { name email }";

/// How a document begins: it selects a repository by its owner and its name.
pub open spec fn repository_selection(owner: Seq<char>, repository: Seq<char>) -> Seq<char> {
    "query { repository(owner: \""@ + owner + "\", name: \""@ + repository + "\") { "@
}

/// The argument that moves a selection behind `cursor`; nothing for the first page.
pub open spec fn after_argument(cursor: Option<Seq<char>>) -> Seq<char> {
    match cursor {
        Some(cursor) => ", after: \""@ + cursor + "\""@,
        None => Seq::empty(),
    }
}

/// What follows the name of a paged field: a page of a hundred nodes, behind
/// `cursor` where one is given, with the total and the word on the next page,
/// up to where the fields of a node are listed.
pub open spec fn page_selection(cursor: Option<Seq<char>>) -> Seq<char> {
    "(first: 100"@ + after_argument(cursor)
        + ") { totalCount pageInfo { hasNextPage endCursor } nodes { "@
}

/// Begins a document with the selection of a repository.
pub fn document_for(owner: &str, repository: &str) -> (text: String)
    ensures
        text@ == repository_selection(owner@, repository@),
{
    let mut text = String::from_str("query { repository(owner: \"");
    text.append(owner);
    text.append("\", name: \"");
    text.append(repository);
    text.append("\") { ");
    text
}

/// Appends what follows the name of a paged field.
pub fn push_page_selection(text: &mut String, cursor: &Option<String>)
    ensures
        final(text)@ == old(text)@ + page_selection(cursor_view(*cursor)),
{
    text.append("(first: 100");
    match cursor {
        Some(cursor) => {
            text.append(", after: \"");
            text.append(cursor.as_str());
            text.append("\"");
        },
        None => {},
    }
    text.append(") { totalCount pageInfo { hasNextPage endCursor } nodes { ");
}

/// Something that can be sent as a request.
pub trait Query {
    /// What the source answers with.
    type Result;

    /// The request document.
    spec fn document(&self) -> Seq<char>;

    /// Renders the request document.
    fn query(&self) -> (text: String)
        ensures
            text@ == self.document(),
    ;
}

/// A query that can be moved behind a cursor.
pub trait Pageable: Sized {
    /// What a page is made of.
    type Item;

    /// Whether `next` is this query moved behind `cursor`.
    spec fn is_after(&self, cursor: Seq<char>, next: &Self) -> bool;

    /// This query, asking for the page behind `cursor`.
    fn after(&self, cursor: String) -> (next: Self)
        ensures
            self.is_after(cursor@, &next),
    ;
}

/// An answer that says whether more pages follow.
pub trait HasPageInfo {
    spec fn info(&self) -> PageInfoView;

    fn page_info(&self) -> (info: &PageInfo)
        ensures
            info@ == self.info(),
    ;
}

/// An answer that says how many items the source has in all.
pub trait HasTotalCount {
    spec fn total(&self) -> nat;

    fn total_count(&self) -> (count: usize)
        ensures
            count == self.total(),
    ;
}

/// An answer that can be taken apart into its items.
pub trait IntoItems {
    type Item;

    spec fn items(&self) -> Seq<Self::Item>;

    fn into_items(self) -> (items: Vec<Self::Item>)
        ensures
            items@ == self.items(),
    ;
}

/// The page that an answer stands for.
pub open spec fn page_of<R: HasPageInfo + HasTotalCount + IntoItems>(result: &R) -> PageView<
    R::Item,
> {
    PageView { items: result.items(), page_info: result.info(), total_count: result.total() }
}

/// What a page reports about its successor.
#[derive(Debug)]
pub struct PageInfo {
    has_next_page: bool,
    end_cursor: Option<String>,
}

impl View for PageInfo {
    type V = PageInfoView;

    closed spec fn view(&self) -> PageInfoView {
        PageInfoView {
            has_next_page: self.has_next_page,
            end_cursor: cursor_view(self.end_cursor),
        }
    }
}

impl PageInfo {
    pub fn new(has_next_page: bool, end_cursor: Option<String>) -> (info: Self)
        ensures
            info@ == (PageInfoView { has_next_page, end_cursor: cursor_view(end_cursor) }),
    {
        PageInfo { has_next_page, end_cursor }
    }

    pub fn has_next_page(&self) -> (more: bool)
        ensures
            more == self@.has_next_page,
    {
        self.has_next_page
    }

    pub fn end_cursor(&self) -> (cursor: &Option<String>)
        ensures
            cursor_view(*cursor) == self@.end_cursor,
    {
        &self.end_cursor
    }

    /// What the engine is to do after the page that reported this.
    pub fn continuation(&self) -> (next: Continuation)
        ensures
            next@ == self@.continuation(),
    {
        if self.has_next_page {
            Continuation::from_cursor(clone_cursor(&self.end_cursor))
        } else {
            Continuation::Exhausted
        }
    }
}

/// One page of items, as the source sends it.
#[derive(Debug)]
pub struct Paged<T> {
    pub page_info: PageInfo,
    pub nodes: Vec<T>,
    pub total_count: usize,
}

impl<T> View for Paged<T> {
    type V = PageView<T>;

    open spec fn view(&self) -> PageView<T> {
        PageView {
            items: self.nodes@,
            page_info: self.page_info@,
            total_count: self.total_count as nat,
        }
    }
}

impl<T> HasPageInfo for Paged<T> {
    open spec fn info(&self) -> PageInfoView {
        self.page_info@
    }

    fn page_info(&self) -> (info: &PageInfo) {
        &self.page_info
    }
}

impl<T> HasTotalCount for Paged<T> {
    open spec fn total(&self) -> nat {
        self.total_count as nat
    }

    fn total_count(&self) -> (count: usize) {
        self.total_count
    }
}

impl<T> IntoItems for Paged<T> {
    type Item = T;

    open spec fn items(&self) -> Seq<T> {
        self.nodes@
    }

    fn into_items(self) -> (items: Vec<T>) {
        self.nodes
    }
}

/// Whether another page can be asked for, and with which cursor.
#[derive(Debug)]
pub enum Continuation {
    /// No page was fetched yet.
    Unknown,
    /// The last page named this cursor for the next one.
    Active(String),
    /// There is nothing left to fetch.
    Exhausted,
}

impl View for Continuation {
    type V = ContinuationView;

    open spec fn view(&self) -> ContinuationView {
        match self {
            Continuation::Unknown => ContinuationView::Unknown,
            Continuation::Active(cursor) => ContinuationView::Active(cursor@),
            Continuation::Exhausted => ContinuationView::Exhausted,
        }
    }
}

impl Continuation {
    /// A page that names a cursor can be followed; one that names none cannot.
    pub fn from_cursor(cursor: Option<String>) -> (next: Self)
        ensures
            next == (match cursor {
                Some(text) => Continuation::Active(text),
                None => Continuation::Exhausted,
            }),
    {
        match cursor {
            None => Continuation::Exhausted,
            Some(text) => Continuation::Active(text),
        }
    }
}

/// How far a run has come: the current page and the items delivered from it.
#[derive(Debug)]
pub struct Position {
    index: usize,
    end_cursor: Option<String>,
}

impl View for Position {
    type V = PositionView;

    closed spec fn view(&self) -> PositionView {
        PositionView { index: self.index as nat, end_cursor: cursor_view(self.end_cursor) }
    }
}

impl Position {
    pub fn new(index: usize, end_cursor: Option<String>) -> (position: Self)
        ensures
            position@ == (PositionView {
                index: index as nat,
                end_cursor: cursor_view(end_cursor),
            }),
    {
        Position { index, end_cursor }
    }

    /// The number of items of the current page that were delivered.
    pub fn index(&self) -> (index: usize)
        ensures
            index == self@.index,
    {
        self.index
    }

    /// The cursor of the current page; `None` on the first page.
    pub fn end_cursor(&self) -> (cursor: &Option<String>)
        ensures
            cursor_view(*cursor) == self@.end_cursor,
    {
        &self.end_cursor
    }
}

impl Clone for Position {
    fn clone(&self) -> (copy: Self)
        ensures
            copy == *self,
    {
        Position { index: self.index, end_cursor: clone_cursor(&self.end_cursor) }
    }
}

impl Default for Position {
    fn default() -> (position: Self)
        ensures
            position@ == PositionView::start(),
    {
        Position { index: 0, end_cursor: None }
    }
}

/// Where the engine keeps its checkpoint.
pub trait PageHandler {
    /// The checkpoint that is stored.
    spec fn position(&self) -> PositionView;

    /// Reads the checkpoint.
    fn page_position(&self) -> (pos: Position)
        ensures
            pos@ == self.position(),
    ;

    /// Replaces the checkpoint.
    fn set_page_position(&mut self, pos: &Position)
        ensures
            final(self).position() == pos@,
    ;
}

/// A checkpoint that lives as long as the process.
pub struct MemoryPageHandler {
    position: Position,
}

impl PageHandler for MemoryPageHandler {
    closed spec fn position(&self) -> PositionView {
        self.position@
    }

    fn page_position(&self) -> (pos: Position) {
        self.position.clone()
    }

    fn set_page_position(&mut self, pos: &Position) {
        self.position = pos.clone();
    }
}

impl Default for MemoryPageHandler {
    fn default() -> (handler: Self)
        ensures
            handler.position() == PositionView::start(),
    {
        MemoryPageHandler { position: Position::default() }
    }
}

/// Why a page could not be had.
#[derive(Debug, PartialEq, Eq, Structural, Clone, Copy)]
pub enum FetchError {
    /// The request failed on its way, or the source refused it.
    Transport,
    /// The source answered without the data that was asked for.
    Protocol,
}

/// What [`PageableRequest::next`] came to.
#[derive(Debug)]
pub enum Step<T> {
    /// The next item of the sequence.
    Item(T),
    /// A page has to be fetched: the document to send.
    Fetch(String),
    /// The sequence has ended.
    Done,
}

/// A paginated request in progress.
pub struct PageableRequest<Q: Pageable + Query, P: PageHandler> {
    query: Q,
    queued: VecDeque<Q::Item>,
    next_page: Continuation,
    page_handler: P,
    total_count: Option<usize>,
}

impl<Q: Pageable + Query, P: PageHandler> View for PageableRequest<Q, P> {
    type V = EngineView<Q::Item>;

    closed spec fn view(&self) -> EngineView<Q::Item> {
        EngineView {
            position: self.page_handler.position(),
            buffer: self.queued@,
            continuation: self.next_page@,
            total_count: match self.total_count {
                Some(count) => Some(count as nat),
                None => None,
            },
        }
    }
}

impl<Q: Pageable + Query, P: PageHandler> PageableRequest<Q, P> {
    /// Delivering what is buffered will not take the checkpoint's count out of
    /// `usize`. Every engine that this module hands out is well formed.
    pub closed spec fn well_formed(&self) -> bool {
        self.page_handler.position().index + self.queued@.len() <= usize::MAX
    }

    /// The query that the next request is rendered from.
    pub closed spec fn current_query(&self) -> Q {
        self.query
    }

    /// An engine that has fetched nothing, over the checkpoint that `page_handler` holds.
    pub fn new(query: Q, page_handler: P) -> (request: Self)
        ensures
            request.well_formed(),
            request@ == EngineView::<Q::Item>::fresh(page_handler.position()),
            request.current_query() == query,
    {
        // Reading the checkpoint shows that its count is a `usize`.
        let _loaded = page_handler.page_position();
        PageableRequest {
            query,
            queued: VecDeque::new(),
            next_page: Continuation::Unknown,
            page_handler,
            total_count: None,
        }
    }

    /// The total that the page fetched last reported; `None` before the first page.
    pub fn total_count(&self) -> (count: Option<usize>)
        ensures
            self@.total_count == (match count {
                Some(n) => Some(n as nat),
                None => None,
            }),
    {
        self.total_count
    }

    /// The query as it stands: behind the cursor of the page that was asked for last.
    pub fn query(&self) -> (query: &Q)
        ensures
            *query == self.current_query(),
    {
        &self.query
    }

    /// The checkpoint as the store holds it now.
    pub fn position(&self) -> (position: Position)
        ensures
            position@ == self@.position,
    {
        self.page_handler.page_position()
    }

    /// The number of items that are fetched and not yet delivered.
    pub fn buffered(&self) -> (count: usize)
        ensures
            count == self@.buffer.len(),
    {
        self.queued.len()
    }

    /// Hands out the next buffered item, or says what has to happen first.
    ///
    /// An item is counted in the checkpoint before it is returned. Where a
    /// page has to be fetched, the checkpoint is written before the request
    /// is handed out: behind a cursor, it names that cursor and counts from 0.
    pub fn next(&mut self) -> (step: Step<Q::Item>)
        requires
            old(self).well_formed(),
        ensures
            final(self).well_formed(),
            final(self)@ == old(self)@.step().0,
            match old(self)@.step().1 {
                StepView::Item(item) => step == Step::Item(item) && final(self).current_query()
                    == old(self).current_query(),
                StepView::Done => step == Step::<Q::Item>::Done && final(self).current_query()
                    == old(self).current_query(),
                StepView::Fetch(cursor) => {
                    &&& step matches Step::Fetch(text)
                    &&& text@ == final(self).current_query().document()
                    &&& match cursor {
                        Some(cursor) => old(self).current_query().is_after(
                            cursor,
                            &final(self).current_query(),
                        ),
                        None => final(self).current_query() == old(self).current_query(),
                    }
                },
            },
    {
        let pos = self.page_handler.page_position();
        match self.queued.pop_front() {
            Some(item) => {
                let advanced = Position::new(pos.index() + 1, clone_cursor(pos.end_cursor()));
                self.page_handler.set_page_position(&advanced);
                Step::Item(item)
            },
            None => {
                match &self.next_page {
                    Continuation::Exhausted => {
                        return Step::Done;
                    },
                    Continuation::Unknown => {
                        self.page_handler.set_page_position(&pos);
                    },
                    Continuation::Active(cursor) => {
                        let turned = Position::new(0, Some(cursor.clone()));
                        self.page_handler.set_page_position(&turned);
                        self.query = self.query.after(cursor.clone());
                    },
                }
                Step::Fetch(self.query.query())
            },
        }
    }
}

impl<Q, P, R> PageableRequest<Q, P> where
    Q: Pageable + Query<Result = R>,
    P: PageHandler,
    R: HasPageInfo + HasTotalCount + IntoItems<Item = Q::Item>,
 {
    /// Takes in the page that was fetched after [`Self::next`] asked for one,
    /// which it does only when nothing is buffered.
    ///
    /// The page's total and what it says of a successor are recorded. The
    /// items that the checkpoint counts as delivered are skipped, the first
    /// one after them is counted and returned, and the others are buffered. A
    /// page with nothing beyond the skipped items ends the sequence: `None`
    /// comes back, the checkpoint stays, and no further page is asked for.
    pub fn receive(&mut self, result: R) -> (item: Option<Q::Item>)
        requires
            old(self).well_formed(),
            old(self)@.buffer.len() == 0,
        ensures
            final(self).well_formed(),
            (final(self)@, item) == old(self)@.receive(page_of(&result)),
            final(self).current_query() == old(self).current_query(),
    {
        let pos = self.page_handler.page_position();
        let skip = pos.index();
        let next_page = result.page_info().continuation();
        self.total_count = Some(result.total_count());
        let mut items = result.into_items();
        if items.len() <= skip {
            self.next_page = Continuation::Exhausted;
            return None;
        }
        self.next_page = next_page;
        let mut tail = items.split_off(skip);
        let ghost fetched = tail@;
        let mut rest: VecDeque<Q::Item> = VecDeque::new();
        while tail.len() > 1
            invariant
                1 <= tail.len() <= fetched.len(),
                tail@ == fetched.subrange(0, tail.len() as int),
                rest@ == fetched.subrange(tail.len() as int, fetched.len() as int),
            decreases tail.len(),
        {
            let last = tail.pop().unwrap();
            rest.push_front(last);
        }
        let first = tail.pop().unwrap();
        self.queued.append(&mut rest);
        let advanced = Position::new(skip + 1, clone_cursor(pos.end_cursor()));
        self.page_handler.set_page_position(&advanced);
        proof {
            let page = page_of(&result);
            assert(fetched.subrange(1, fetched.len() as int) =~= page.items.subrange(
                skip + 1,
                page.items.len() as int,
            ));
            assert(self@.buffer =~= old(self)@.receive(page).0.buffer);
        }
        Some(first)
    }

    /// Ends the pull that [`Self::next`] began by asking for a page, given how
    /// the request went: `Ok(Some(..))` with the data of the answer,
    /// `Ok(None)` for an answer without data, `Err(..)` for a request that
    /// failed.
    ///
    /// A failure is handed on, and an answer without data is a failure of its
    /// own. Either leaves the engine as it is, with the checkpoint that was
    /// written before the request, so that the pull can be made again, by
    /// this engine or by a new one.
    pub fn settle(&mut self, answer: Result<Option<R>, FetchError>) -> (pulled: Result<
        Option<Q::Item>,
        FetchError,
    >)
        requires
            old(self).well_formed(),
            old(self)@.buffer.len() == 0,
        ensures
            final(self).well_formed(),
            final(self).current_query() == old(self).current_query(),
            match answer {
                Ok(Some(result)) => {
                    &&& pulled matches Ok(item)
                    &&& (final(self)@, item) == old(self)@.receive(page_of(&result))
                },
                Ok(None) => pulled == Err::<Option<Q::Item>, FetchError>(FetchError::Protocol)
                    && *final(self) == *old(self),
                Err(error) => pulled == Err::<Option<Q::Item>, FetchError>(error) && *final(self)
                    == *old(self),
            },
    {
        match answer {
            Ok(Some(result)) => Ok(self.receive(result)),
            Ok(None) => Err(FetchError::Protocol),
            Err(error) => Err(error),
        }
    }
}

} // verus!
