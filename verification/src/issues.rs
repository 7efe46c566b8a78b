//! The issues of a repository.

use crate::author::Author;
use crate::graphql::{
    document_for, push_page_selection, HasPageInfo, HasTotalCount, IntoItems, PageInfo, Pageable,
    Paged, Query as GraphQLQuery, AUTHOR_FIELDS,
};
use crate::graphql::model::PageInfoView;
use vstd::prelude::*;

verus! {

/// Asks for one page of a repository's issues.
pub struct Query<'a> {
    pub owner: &'a str,
    pub repository: &'a str,
    pub after: Option<String>,
}

impl<'a> Query<'a> {
    /// The query for the first page.
    pub fn new(owner: &'a str, repository: &'a str) -> (query: Self)
        ensures
            query.owner == owner,
            query.repository == repository,
            query.after is None,
    {
        Query { owner, repository, after: None }
    }
}

impl<'a> GraphQLQuery for Query<'a> {
    type Result = Response;

    open spec fn document(&self) -> Seq<char> {
        crate::graphql::repository_selection(self.owner@, self.repository@) + "issues"@
            + crate::graphql::page_selection(crate::graphql::cursor_view(self.after))
            + "number url state title body createdAt updatedAt closedAt author { "@
            + AUTHOR_FIELDS@ + " } } } } }"@
    }

    fn query(&self) -> (text: String) {
        let mut text = document_for(self.owner, self.repository);
        text.append("issues");
        push_page_selection(&mut text, &self.after);
        text.append("number url state title body createdAt updatedAt closedAt author { ");
        text.append(AUTHOR_FIELDS);
        text.append(" } } } } }");
        text
    }
}

impl<'a> Pageable for Query<'a> {
    type Item = Issue;

    open spec fn is_after(&self, cursor: Seq<char>, next: &Self) -> bool {
        &&& next.owner == self.owner
        &&& next.repository == self.repository
        &&& crate::graphql::cursor_view(next.after) == Some(cursor)
    }

    fn after(&self, cursor: String) -> (next: Self) {
        Query { owner: self.owner, repository: self.repository, after: Some(cursor) }
    }
}

/// A query and a cursor fix the request for the page behind it: however often
/// the query is moved behind the cursor, the same document is sent.
pub proof fn lemma_cursor_fixes_the_document(
    query: Query,
    cursor: Seq<char>,
    first: Query,
    second: Query,
)
    requires
        query.is_after(cursor, &first),
        query.is_after(cursor, &second),
    ensures
        first.document() == second.document(),
{
}

/// An issue as the API describes it.
#[derive(Debug)]
pub struct Issue {
    pub number: usize,
    pub url: String,
    pub state: String,
    pub title: String,
    pub body: String,
    pub created_at: String,
    pub updated_at: String,
    pub closed_at: Option<String>,
    pub author: Option<Author>,
}

/// The repository's part of an answer.
#[derive(Debug)]
pub struct IssueNode {
    issues: Paged<Issue>,
}

impl IssueNode {
    pub fn new(issues: Paged<Issue>) -> (node: Self)
        ensures
            node.page() == issues,
    {
        IssueNode { issues }
    }

    /// The page of issues that the answer holds.
    pub closed spec fn page(&self) -> Paged<Issue> {
        self.issues
    }
}

/// The answer to a [`Query`].
#[derive(Debug)]
pub struct Response {
    repository: IssueNode,
}

impl Response {
    pub fn new(repository: IssueNode) -> (response: Self)
        ensures
            response.page() == repository.page(),
    {
        Response { repository }
    }

    /// The page of issues that the answer holds.
    pub closed spec fn page(&self) -> Paged<Issue> {
        self.repository.issues
    }
}

impl HasPageInfo for Response {
    open spec fn info(&self) -> PageInfoView {
        self.page().page_info@
    }

    fn page_info(&self) -> (info: &PageInfo) {
        &self.repository.issues.page_info
    }
}

impl HasTotalCount for Response {
    open spec fn total(&self) -> nat {
        self.page().total_count as nat
    }

    fn total_count(&self) -> (count: usize) {
        self.repository.issues.total_count
    }
}

impl IntoItems for Response {
    type Item = Issue;

    open spec fn items(&self) -> Seq<Issue> {
        self.page().nodes@
    }

    fn into_items(self) -> (items: Vec<Issue>) {
        self.repository.issues.into_items()
    }
}

} // verus!
