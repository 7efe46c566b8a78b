use sit_issue_import::actor::Actor;
use sit_issue_import::author::Author;
use sit_issue_import::files::Files;
use sit_issue_import::records::{
    actor_files, author_files, closer_files, details_changed, item_name, merge_requested,
    patch_url, progress_message, progress_total, summary_changed, timeline_record,
};
use sit_issue_import::timeline::{Closer, Kind, TimelineItem};

fn listed(files: Files<&str, Vec<u8>>) -> Vec<(String, String)> {
    files
        .0
        .into_iter()
        .map(|(name, bytes)| (name.to_string(), String::from_utf8(bytes).unwrap()))
        .collect()
}

fn expect(pairs: &[(&str, &str)]) -> Vec<(String, String)> {
    pairs.iter().map(|(name, text)| (name.to_string(), text.to_string())).collect()
}

fn yurii() -> Author {
    Author { login: "yrashk".into(), name: Some("Yurii".into()), email: Some("foo@bar.com".into()) }
}

const YURII: &str = "Yurii (https://github.com/yrashk) <foo@bar.com>";

#[test]
fn author_becomes_one_file() {
    let author = yurii();
    let files: Files<&str, Vec<u8>> = (&author).into();
    assert_eq!(listed(files), expect(&[(".authors", YURII)]));
    assert_eq!(listed(author_files(&Some(yurii()))), expect(&[(".authors", YURII)]));
    assert_eq!(listed(author_files(&None)), expect(&[]));
}

#[test]
fn missing_value_becomes_no_files() {
    let none: Option<&Author> = None;
    assert!(Files::<&str, Vec<u8>>::from(none).0.is_empty());
    let author = yurii();
    assert_eq!(listed(Files::from(Some(&author))), expect(&[(".authors", YURII)]));
}

#[test]
fn actor_lines() {
    let user = Actor::User(yurii());
    let line: String = (&user).into();
    assert_eq!(line, YURII);
    let bot = Actor::Bot { login: "dependabot".into() };
    let line: String = (&bot).into();
    assert_eq!(line, "https://github.com/dependabot");
    let files: Files<&str, Vec<u8>> = (&bot).into();
    assert_eq!(listed(files), expect(&[(".authors", "https://github.com/dependabot")]));
    assert_eq!(listed(actor_files(&Some(user))), expect(&[(".authors", YURII)]));
    assert_eq!(listed(actor_files(&None)), expect(&[]));
}

#[test]
fn closer_lines() {
    let commit = Closer::Commit { oid: "4f2a9c1".into() };
    let line: String = (&commit).into();
    assert_eq!(line, "Closed with 4f2a9c1");
    let merged = Closer::PullRequest { number: 42 };
    let line: String = (&merged).into();
    assert_eq!(line, "Closed with pull request 42");
    let files: Files<&str, Vec<u8>> = (&merged).into();
    assert_eq!(
        listed(files),
        expect(&[(".type/Commented", ""), ("text", "Closed with pull request 42")])
    );
    assert_eq!(
        listed(closer_files(&Some(commit))),
        expect(&[(".type/Commented", ""), ("text", "Closed with 4f2a9c1")])
    );
    assert_eq!(listed(closer_files(&None)), expect(&[]));
}

#[test]
fn followed_by_keeps_both_in_order() {
    let first = Files(vec![("a", 1), ("b", 2)]);
    let second = Files(vec![("c", 3)]);
    assert_eq!(first.followed_by(second).0, vec![("a", 1), ("b", 2), ("c", 3)]);
    let empty: Files<&str, u8> = Files(vec![]);
    assert_eq!(empty.followed_by(Files(vec![("x", 9)])).0, vec![("x", 9)]);
    assert!(Files::empty().extended_by(Files::empty()).0.is_empty());
}

#[test]
fn files_are_added_at_the_end() {
    let mut files = Files::empty();
    files.push_marker(".type/Closed");
    files.push_text("text", "héllo");
    assert_eq!(files.0, vec![(".type/Closed", vec![]), ("text", "héllo".as_bytes().to_vec())]);
}

#[test]
fn summary_and_details() {
    let author = Some(yurii());
    assert_eq!(
        listed(summary_changed("2018-03-01T10:00:00Z", "A title", "https://github.com/o/r/issues/1", &author)),
        expect(&[
            (".type/SummaryChanged", ""),
            (".timestamp", "2018-03-01T10:00:00Z"),
            ("text", "A title"),
            (".imported", "https://github.com/o/r/issues/1"),
            (".authors", YURII),
        ])
    );
    assert_eq!(
        listed(details_changed("2018-03-01T10:00:00Z", "A body", "https://github.com/o/r/issues/1", &None)),
        expect(&[
            (".type/DetailsChanged", ""),
            (".timestamp", "2018-03-01T10:00:00Z"),
            ("text", "A body"),
            (".imported", "https://github.com/o/r/issues/1"),
        ])
    );
}

#[test]
fn merge_request_with_and_without_patch() {
    let author = Some(yurii());
    assert_eq!(
        listed(merge_requested("t", "body", "u", Some("diff --git"), &author)),
        expect(&[
            (".type/DetailsChanged", ""),
            (".type/MergeRequested", ""),
            (".timestamp", "t"),
            ("text", "body"),
            (".imported", "u"),
            ("git/pr.patch", "diff --git"),
            (".authors", YURII),
        ])
    );
    assert_eq!(
        listed(merge_requested("t", "body", "u", None, &None)),
        expect(&[
            (".type/DetailsChanged", ""),
            (".type/MergeRequested", ""),
            (".timestamp", "t"),
            ("text", "body"),
            (".imported", "u"),
        ])
    );
}

#[test]
fn comment_is_imported_from_its_own_address() {
    let item = TimelineItem::IssueComment {
        url: "https://github.com/o/r/issues/1#issuecomment-5".into(),
        body: "I agree".into(),
        created_at: "2018-03-02T10:00:00Z".into(),
        updated_at: "2018-03-03T10:00:00Z".into(),
        author: Some(yurii()),
    };
    for kind in [Kind::Issue, Kind::PullRequest] {
        assert_eq!(
            timeline_record(&item, kind, "https://github.com/o/r/issues/1").map(listed),
            Some(expect(&[
                (".type/Commented", ""),
                (".timestamp", "2018-03-02T10:00:00Z"),
                ("text", "I agree"),
                (".imported", "https://github.com/o/r/issues/1#issuecomment-5"),
                (".authors", YURII),
            ]))
        );
    }
}

#[test]
fn closing_names_the_closer_before_the_actor() {
    let item = TimelineItem::ClosedEvent {
        actor: Some(Actor::Bot { login: "bors".into() }),
        closer: Some(Closer::PullRequest { number: 12 }),
        created_at: "2018-03-04T10:00:00Z".into(),
    };
    assert_eq!(
        timeline_record(&item, Kind::Issue, "https://github.com/o/r/issues/1").map(listed),
        Some(expect(&[
            (".type/Closed", ""),
            (".timestamp", "2018-03-04T10:00:00Z"),
            (".imported", "https://github.com/o/r/issues/1"),
            (".type/Commented", ""),
            ("text", "Closed with pull request 12"),
            (".authors", "https://github.com/bors"),
        ]))
    );
    let bare = TimelineItem::ClosedEvent { actor: None, closer: None, created_at: "t".into() };
    assert_eq!(
        timeline_record(&bare, Kind::PullRequest, "u").map(listed),
        Some(expect(&[(".type/Closed", ""), (".timestamp", "t"), (".imported", "u")]))
    );
}

#[test]
fn plain_events() {
    let actor = || Some(Actor::User(yurii()));
    let cases = [
        (TimelineItem::ReopenedEvent { actor: actor(), created_at: "t".into() }, ".type/Reopened"),
        (TimelineItem::LockedEvent { actor: actor(), created_at: "t".into() }, ".type/Locked"),
        (TimelineItem::UnlockedEvent { actor: actor(), created_at: "t".into() }, ".type/Unlocked"),
    ];
    for (item, kind) in cases.iter() {
        assert_eq!(
            timeline_record(item, Kind::Issue, "u").map(listed),
            Some(expect(&[(*kind, ""), (".timestamp", "t"), (".imported", "u"), (".authors", YURII)]))
        );
    }
}

#[test]
fn merge_counts_for_pull_requests_only() {
    let item = TimelineItem::MergedEvent { actor: None, created_at: "t".into() };
    assert_eq!(
        timeline_record(&item, Kind::PullRequest, "u").map(listed),
        Some(expect(&[
            (".type/Closed", ""),
            (".type/Merged", ""),
            (".timestamp", "t"),
            (".imported", "u"),
        ]))
    );
    assert!(timeline_record(&item, Kind::Issue, "u").is_none());
}

#[test]
fn other_events_are_passed_over() {
    for item in [
        TimelineItem::Commit {},
        TimelineItem::CrossReferencedEvent {},
        TimelineItem::LabeledEvent {},
        TimelineItem::RenamedTitleEvent {},
        TimelineItem::PullRequestReview {},
    ] {
        assert!(timeline_record(&item, Kind::Issue, "u").is_none());
        assert!(timeline_record(&item, Kind::PullRequest, "u").is_none());
    }
}

#[test]
fn names_and_messages() {
    assert_eq!(item_name(Kind::Issue, 0), "github-issue-0");
    assert_eq!(item_name(Kind::Issue, 7), "github-issue-7");
    assert_eq!(item_name(Kind::Issue, 10), "github-issue-10");
    assert_eq!(item_name(Kind::PullRequest, 1234567890), "github-pr-1234567890");
    assert_eq!(item_name(Kind::PullRequest, usize::MAX), format!("github-pr-{}", usize::MAX));
    assert_eq!(progress_message(31, "Fix it"), "[ #31 Fix it ] ");
    assert_eq!(patch_url("https://github.com/o/r/pull/3"), "https://github.com/o/r/pull/3.patch");
}

#[test]
fn progress_counts_pull_requests_where_there_are_any() {
    assert_eq!(progress_total(5, None), Some(5));
    assert_eq!(progress_total(5, Some(3)), Some(8));
    assert_eq!(progress_total(0, Some(0)), Some(0));
    assert_eq!(progress_total(usize::MAX, Some(1)), (usize::MAX as u64).checked_add(1));
}
