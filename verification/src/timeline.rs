//! What happened to an issue or a pull request over time.

use crate::actor::Actor;
use crate::author::Author;
use crate::decimal::push_decimal;
use crate::files::Files;
use crate::graphql::{
    document_for, push_page_selection, HasPageInfo, HasTotalCount, IntoItems, PageInfo, Pageable,
    Paged, Query as GraphQLQuery, ACTOR_FIELDS, AUTHOR_FIELDS,
};
use crate::graphql::model::PageInfoView;
use vstd::prelude::*;

verus! {

/// What a timeline belongs to.
#[derive(Clone, Copy, Debug)]
pub enum Kind {
    Issue,
    PullRequest,
}

impl Kind {
    /// The field of a repository under which the API keeps things of this kind.
    pub open spec fn field(self) -> Seq<char> {
        match self {
            Kind::Issue => "issue"@,
            Kind::PullRequest => "pullRequest"@,
        }
    }
}

/// The selection of an event of which the time and the actor are read.
pub open spec fn event_selection(name: Seq<char>) -> Seq<char> {
    " ... on "@ + name + " { createdAt actor { "@ + ACTOR_FIELDS@ + " } }"@
}

/// Appends the selection of an event of which the time and the actor are read.
fn push_event_selection(text: &mut String, name: &str)
    ensures
        final(text)@ == old(text)@ + event_selection(name@),
{
    text.append(" ... on ");
    text.append(name);
    text.append(" { createdAt actor { ");
    text.append(ACTOR_FIELDS);
    text.append(" } }");
}

/// Asks for one page of the timeline of an issue or a pull request.
pub struct Query<'a> {
    pub owner: &'a str,
    pub repository: &'a str,
    pub kind: &'static str,
    pub after: Option<String>,
    pub number: usize,
}

impl<'a> Query<'a> {
    /// The query for the first page of the timeline of number `number`.
    pub fn new(owner: &'a str, repository: &'a str, kind: Kind, number: usize) -> (query: Self)
        ensures
            query.owner == owner,
            query.repository == repository,
            query.kind@ == kind.field(),
            query.after is None,
            query.number == number,
    {
        let kind = match kind {
            Kind::Issue => "issue",
            Kind::PullRequest => "pullRequest",
        };
        Query { owner, repository, after: None, kind, number }
    }
}

impl<'a> GraphQLQuery for Query<'a> {
    type Result = Response;

    open spec fn document(&self) -> Seq<char> {
        crate::graphql::repository_selection(self.owner@, self.repository@) + "issue: "@
            + self.kind@ + "(number: "@ + crate::decimal::decimal(self.number as nat)
            + ") { timeline"@ + crate::graphql::page_selection(
            crate::graphql::cursor_view(self.after),
        ) + "__typename ... on IssueComment { url body createdAt updatedAt author { "@
            + AUTHOR_FIELDS@ + " } } ... on ClosedEvent { createdAt actor { "@ + ACTOR_FIELDS@
            + " } closer { __typename ... on Commit { oid } ... on PullRequest { number } } }"@
            + event_selection("MergedEvent"@) + event_selection("ReopenedEvent"@)
            + event_selection("LockedEvent"@) + event_selection("UnlockedEvent"@)
            + " } } } } }"@
    }

    fn query(&self) -> (text: String) {
        let mut text = document_for(self.owner, self.repository);
        text.append("issue: ");
        text.append(self.kind);
        text.append("(number: ");
        push_decimal(&mut text, self.number);
        text.append(") { timeline");
        push_page_selection(&mut text, &self.after);
        text.append("__typename ... on IssueComment { url body createdAt updatedAt author { ");
        text.append(AUTHOR_FIELDS);
        text.append(" } } ... on ClosedEvent { createdAt actor { ");
        text.append(ACTOR_FIELDS);
        text.append(
            " } closer { __typename ... on Commit { oid } ... on PullRequest { number } } }",
        );
        push_event_selection(&mut text, "MergedEvent");
        push_event_selection(&mut text, "ReopenedEvent");
        push_event_selection(&mut text, "LockedEvent");
        push_event_selection(&mut text, "UnlockedEvent");
        text.append(" } } } } }");
        text
    }
}

impl<'a> Pageable for Query<'a> {
    type Item = TimelineItem;

    open spec fn is_after(&self, cursor: Seq<char>, next: &Self) -> bool {
        &&& next.owner == self.owner
        &&& next.repository == self.repository
        &&& next.kind == self.kind
        &&& next.number == self.number
        &&& crate::graphql::cursor_view(next.after) == Some(cursor)
    }

    fn after(&self, cursor: String) -> (next: Self) {
        Query {
            owner: self.owner,
            repository: self.repository,
            after: Some(cursor),
            kind: self.kind,
            number: self.number,
        }
    }
}

/// A query and a cursor fix the request for the page behind it: however often
/// the query is moved behind the cursor, the same document is sent.
pub proof fn lemma_cursor_fixes_the_document(
    query: Query,
    cursor: Seq<char>,
    first: Query,
    second: Query,
)
    requires
        query.is_after(cursor, &first),
        query.is_after(cursor, &second),
    ensures
        first.document() == second.document(),
{
}

/// What closed an issue.
#[derive(Debug)]
pub enum Closer {
    Commit { oid: String },
    PullRequest { number: usize },
}

impl Closer {
    /// The sentence that says what closed the issue.
    pub open spec fn line(&self) -> Seq<char> {
        match self {
            Closer::Commit { oid } => "Closed with "@ + oid@,
            Closer::PullRequest { number } => "Closed with pull request "@
                + crate::decimal::decimal(*number as nat),
        }
    }
}

/// What the conversion gives is stated on `from` itself, over its view: a
/// value with heap contents cannot be written down in ghost code.
impl vstd::std_specs::convert::FromSpecImpl<&Closer> for String {
    open spec fn obeys_from_spec() -> bool {
        false
    }

    open spec fn from_spec(closer: &Closer) -> String {
        arbitrary()
    }
}

impl From<&Closer> for String {
    fn from(closer: &Closer) -> (text: String)
        ensures
            text@ == closer.line(),
    {
        match closer {
            Closer::Commit { oid } => {
                let mut text = String::from_str("Closed with ");
                text.append(oid.as_str());
                text
            },
            Closer::PullRequest { number } => {
                let mut text = String::from_str("Closed with pull request ");
                push_decimal(&mut text, *number);
                text
            },
        }
    }
}

/// What the conversion gives is stated on `from` itself, over its view: a
/// value with heap contents cannot be written down in ghost code.
impl<'a> vstd::std_specs::convert::FromSpecImpl<&'a Closer> for Files<&'a str, Vec<u8>> {
    open spec fn obeys_from_spec() -> bool {
        false
    }

    open spec fn from_spec(closer: &'a Closer) -> Self {
        arbitrary()
    }
}

impl<'a> From<&'a Closer> for Files<&'a str, Vec<u8>> {
    /// A comment that says what closed the issue.
    fn from(closer: &'a Closer) -> (files: Self)
        ensures
            files.entries() == seq![
                crate::files::marker_entry(".type/Commented"@),
                crate::files::text_entry("text"@, closer.line()),
            ],
    {
        let line: String = closer.into();
        let mut files = Files::empty();
        files.push_marker(".type/Commented");
        files.push_text("text", line.as_str());
        assert(files.entries() =~= seq![
            crate::files::marker_entry(".type/Commented"@),
            crate::files::text_entry("text"@, closer.line()),
        ]);
        files
    }
}

/// One entry of a timeline. Of most kinds of event nothing but the kind is read.
#[derive(Debug)]
pub enum TimelineItem {
    Commit {  },
    IssueComment {
        url: String,
        body: String,
        created_at: String,
        updated_at: String,
        author: Option<Author>,
    },
    CrossReferencedEvent {  },
    ClosedEvent { actor: Option<Actor>, closer: Option<Closer>, created_at: String },
    MergedEvent { actor: Option<Actor>, created_at: String },
    ReopenedEvent { actor: Option<Actor>, created_at: String },
    SubscribedEvent {  },
    UnsubscribedEvent {  },
    ReferencedEvent {  },
    AssignedEvent {  },
    UnassignedEvent {  },
    LabeledEvent {  },
    UnlabeledEvent {  },
    MilestonedEvent {  },
    DemilestonedEvent {  },
    RenamedTitleEvent {  },
    LockedEvent { actor: Option<Actor>, created_at: String },
    UnlockedEvent { actor: Option<Actor>, created_at: String },
    HeadRefDeletedEvent {  },
    HeadRefRestoredEvent {  },
    HeadRefForcePushedEvent {  },
    BaseRefForcePushedEvent {  },
    ReviewRequestedEvent {  },
    ReviewRequestedRemovedEvent {  },
    ReviewDismissedEvent {  },
    DeployedEvent {  },
    CommitCommentThread {  },
    PullRequestReview {  },
    PullRequestReviewThread {  },
    PullRequestReviewComment {  },
}

/// The timeline's part of an answer.
#[derive(Debug)]
pub struct TimelineNode {
    timeline: Paged<TimelineItem>,
}

impl TimelineNode {
    pub fn new(timeline: Paged<TimelineItem>) -> (node: Self)
        ensures
            node.page() == timeline,
    {
        TimelineNode { timeline }
    }

    /// The page of events that the answer holds.
    pub closed spec fn page(&self) -> Paged<TimelineItem> {
        self.timeline
    }
}

/// The repository's part of an answer.
#[derive(Debug)]
pub struct IssueNode {
    issue: TimelineNode,
}

impl IssueNode {
    pub fn new(issue: TimelineNode) -> (node: Self)
        ensures
            node.page() == issue.page(),
    {
        IssueNode { issue }
    }

    /// The page of events that the answer holds.
    pub closed spec fn page(&self) -> Paged<TimelineItem> {
        self.issue.timeline
    }
}

/// The answer to a [`Query`].
#[derive(Debug)]
pub struct Response {
    repository: IssueNode,
}

impl Response {
    pub fn new(repository: IssueNode) -> (response: Self)
        ensures
            response.page() == repository.page(),
    {
        Response { repository }
    }

    /// The page of events that the answer holds.
    pub closed spec fn page(&self) -> Paged<TimelineItem> {
        self.repository.issue.timeline
    }
}

impl HasPageInfo for Response {
    open spec fn info(&self) -> PageInfoView {
        self.page().page_info@
    }

    fn page_info(&self) -> (info: &PageInfo) {
        &self.repository.issue.timeline.page_info
    }
}

impl HasTotalCount for Response {
    open spec fn total(&self) -> nat {
        self.page().total_count as nat
    }

    fn total_count(&self) -> (count: usize) {
        self.repository.issue.timeline.total_count
    }
}

impl IntoItems for Response {
    type Item = TimelineItem;

    open spec fn items(&self) -> Seq<TimelineItem> {
        self.page().nodes@
    }

    fn into_items(self) -> (items: Vec<TimelineItem>) {
        self.repository.issue.timeline.into_items()
    }
}

} // verus!
