use sit_issue_import::graphql::{Pageable, Query};
use sit_issue_import::{issues, pull_requests, timeline};

const PAGE: &str = "totalCount pageInfo { hasNextPage endCursor }";
const ACTOR: &str = "actor { __typename login ... on User { name email } }";

#[test]
fn issues_document() {
    let query = issues::Query::new("sit-it", "sit");
    assert_eq!(query.owner, "sit-it");
    assert_eq!(query.repository, "sit");
    assert_eq!(query.after, None);
    assert_eq!(
        query.query(),
        format!(
            "query {{ repository(owner: \"sit-it\", name: \"sit\") {{ issues(first: 100) {{ {} nodes {{ number url state title body createdAt updatedAt closedAt author {{ login ... on User {{ name email }} }} }} }} }} }}",
            PAGE
        )
    );
}

#[test]
fn issues_document_behind_a_cursor() {
    let query = issues::Query::new("sit-it", "sit").after("Y3Vyc29y".to_string());
    assert_eq!(query.owner, "sit-it");
    assert_eq!(query.repository, "sit");
    assert_eq!(query.after, Some("Y3Vyc29y".to_string()));
    assert_eq!(
        query.query(),
        format!(
            "query {{ repository(owner: \"sit-it\", name: \"sit\") {{ issues(first: 100, after: \"Y3Vyc29y\") {{ {} nodes {{ number url state title body createdAt updatedAt closedAt author {{ login ... on User {{ name email }} }} }} }} }} }}",
            PAGE
        )
    );
}

#[test]
fn moving_a_query_twice_keeps_the_last_cursor() {
    let query = issues::Query::new("o", "r").after("a".to_string()).after("b".to_string());
    assert_eq!(query.after, Some("b".to_string()));
    assert_eq!(query.query(), issues::Query::new("o", "r").after("b".to_string()).query());
}

#[test]
fn pull_requests_document() {
    let query = pull_requests::Query::new("o", "r");
    assert_eq!(query.after, None);
    assert_eq!(
        query.query(),
        format!(
            "query {{ repository(owner: \"o\", name: \"r\") {{ pullRequests(first: 100) {{ {} nodes {{ number url state title body createdAt updatedAt closedAt merged mergedAt author {{ login ... on User {{ name email }} }} }} }} }} }}",
            PAGE
        )
    );
    let next = query.after("c1".to_string());
    assert_eq!(next.owner, "o");
    assert_eq!(next.repository, "r");
    assert!(next.query().contains("pullRequests(first: 100, after: \"c1\") {"));
}

#[test]
fn timeline_document() {
    let query = timeline::Query::new("o", "r", timeline::Kind::Issue, 120);
    assert_eq!(query.kind, "issue");
    assert_eq!(query.number, 120);
    assert_eq!(query.after, None);
    let events = format!(
        "... on ClosedEvent {{ createdAt {a} closer {{ __typename ... on Commit {{ oid }} ... on PullRequest {{ number }} }} }} ... on MergedEvent {{ createdAt {a} }} ... on ReopenedEvent {{ createdAt {a} }} ... on LockedEvent {{ createdAt {a} }} ... on UnlockedEvent {{ createdAt {a} }}",
        a = ACTOR
    );
    assert_eq!(
        query.query(),
        format!(
            "query {{ repository(owner: \"o\", name: \"r\") {{ issue: issue(number: 120) {{ timeline(first: 100) {{ {} nodes {{ __typename ... on IssueComment {{ url body createdAt updatedAt author {{ login ... on User {{ name email }} }} }} {} }} }} }} }} }}",
            PAGE, events
        )
    );
}

#[test]
fn timeline_document_of_a_pull_request_behind_a_cursor() {
    let query = timeline::Query::new("o", "r", timeline::Kind::PullRequest, 7).after("c1".to_string());
    assert_eq!(query.kind, "pullRequest");
    assert_eq!(query.number, 7);
    assert_eq!(query.owner, "o");
    assert_eq!(query.repository, "r");
    let text = query.query();
    assert!(text.starts_with(
        "query { repository(owner: \"o\", name: \"r\") { issue: pullRequest(number: 7) { timeline(first: 100, after: \"c1\") { totalCount"
    ));
}
