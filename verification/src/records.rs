//! The records that an imported issue or pull request is written as.
//!
//! Every function here only says which files a record is made of; writing
//! them is left to the caller.

use crate::actor::Actor;
use crate::author::Author;
use crate::decimal::push_decimal;
use crate::files::Files;
use crate::timeline::{Closer, Kind, TimelineItem};
use vstd::prelude::*;

verus! {

/// The file that names the author, where one is known.
pub open spec fn author_entries(author: Option<Author>) -> Seq<(Seq<char>, Seq<u8>)> {
    match author {
        Some(author) => seq![crate::files::text_entry(".authors"@, author.line())],
        None => Seq::empty(),
    }
}

/// The file that names the actor, where one is known.
pub open spec fn actor_entries(actor: Option<Actor>) -> Seq<(Seq<char>, Seq<u8>)> {
    match actor {
        Some(actor) => seq![crate::files::text_entry(".authors"@, actor.line())],
        None => Seq::empty(),
    }
}

/// The comment that says what closed an issue, where that is known.
pub open spec fn closer_entries(closer: Option<Closer>) -> Seq<(Seq<char>, Seq<u8>)> {
    match closer {
        Some(closer) => seq![
            crate::files::marker_entry(".type/Commented"@),
            crate::files::text_entry("text"@, closer.line()),
        ],
        None => Seq::empty(),
    }
}

/// The files of a record that carries a text: its type, when it was made,
/// the text, and where it was imported from.
pub open spec fn text_entries(
    kind: Seq<char>,
    created_at: Seq<char>,
    text: Seq<char>,
    url: Seq<char>,
) -> Seq<(Seq<char>, Seq<u8>)> {
    seq![
        crate::files::marker_entry(kind),
        crate::files::text_entry(".timestamp"@, created_at),
        crate::files::text_entry("text"@, text),
        crate::files::text_entry(".imported"@, url),
    ]
}

/// The files of a record that only says that something happened.
pub open spec fn event_entries(kind: Seq<char>, created_at: Seq<char>, url: Seq<char>) -> Seq<
    (Seq<char>, Seq<u8>),
> {
    seq![
        crate::files::marker_entry(kind),
        crate::files::text_entry(".timestamp"@, created_at),
        crate::files::text_entry(".imported"@, url),
    ]
}

/// The files of the record that opens a pull request: details and a merge
/// request at once, with the patch where one was fetched.
pub open spec fn merge_request_entries(
    created_at: Seq<char>,
    body: Seq<char>,
    url: Seq<char>,
    patch: Option<Seq<char>>,
) -> Seq<(Seq<char>, Seq<u8>)> {
    seq![
        crate::files::marker_entry(".type/DetailsChanged"@),
        crate::files::marker_entry(".type/MergeRequested"@),
        crate::files::text_entry(".timestamp"@, created_at),
        crate::files::text_entry("text"@, body),
        crate::files::text_entry(".imported"@, url),
    ] + match patch {
        Some(patch) => seq![crate::files::text_entry("git/pr.patch"@, patch)],
        None => Seq::empty(),
    }
}

/// The files of a merge: the pull request is closed and merged at once.
pub open spec fn merged_entries(created_at: Seq<char>, url: Seq<char>) -> Seq<
    (Seq<char>, Seq<u8>),
> {
    seq![
        crate::files::marker_entry(".type/Closed"@),
        crate::files::marker_entry(".type/Merged"@),
        crate::files::text_entry(".timestamp"@, created_at),
        crate::files::text_entry(".imported"@, url),
    ]
}

/// The record that an entry of the timeline of `url` is imported as; `None`
/// for the entries that are passed over. A merge counts for pull requests
/// only.
pub open spec fn timeline_entries(item: TimelineItem, kind: Kind, url: Seq<char>) -> Option<
    Seq<(Seq<char>, Seq<u8>)>,
> {
    match item {
        TimelineItem::IssueComment { url: comment, body, created_at, updated_at, author } => Some(
            text_entries(".type/Commented"@, created_at@, body@, comment@) + author_entries(
                author,
            ),
        ),
        TimelineItem::ClosedEvent { actor, closer, created_at } => Some(
            event_entries(".type/Closed"@, created_at@, url) + closer_entries(closer)
                + actor_entries(actor),
        ),
        TimelineItem::ReopenedEvent { actor, created_at } => Some(
            event_entries(".type/Reopened"@, created_at@, url) + actor_entries(actor),
        ),
        TimelineItem::LockedEvent { actor, created_at } => Some(
            event_entries(".type/Locked"@, created_at@, url) + actor_entries(actor),
        ),
        TimelineItem::UnlockedEvent { actor, created_at } => Some(
            event_entries(".type/Unlocked"@, created_at@, url) + actor_entries(actor),
        ),
        TimelineItem::MergedEvent { actor, created_at } => match kind {
            Kind::PullRequest => Some(merged_entries(created_at@, url) + actor_entries(actor)),
            Kind::Issue => None,
        },
        _ => None,
    }
}

/// The files that name the author of a record.
pub fn author_files<'a>(author: &'a Option<Author>) -> (files: Files<&'a str, Vec<u8>>)
    ensures
        files.entries() == author_entries(*author),
{
    Files::from(author.as_ref())
}

/// The files that name whoever caused an event.
pub fn actor_files<'a>(actor: &'a Option<Actor>) -> (files: Files<&'a str, Vec<u8>>)
    ensures
        files.entries() == actor_entries(*actor),
{
    Files::from(actor.as_ref())
}

/// The files that say what closed an issue.
pub fn closer_files<'a>(closer: &'a Option<Closer>) -> (files: Files<&'a str, Vec<u8>>)
    ensures
        files.entries() == closer_entries(*closer),
{
    Files::from(closer.as_ref())
}

fn text_files<'a>(kind: &'a str, created_at: &str, text: &str, url: &str) -> (files: Files<
    &'a str,
    Vec<u8>,
>)
    ensures
        files.entries() == text_entries(kind@, created_at@, text@, url@),
{
    let mut files = Files::empty();
    files.push_marker(kind);
    files.push_text(".timestamp", created_at);
    files.push_text("text", text);
    files.push_text(".imported", url);
    assert(files.entries() =~= text_entries(kind@, created_at@, text@, url@));
    files
}

fn event_files<'a>(kind: &'a str, created_at: &str, url: &str) -> (files: Files<&'a str, Vec<u8>>)
    ensures
        files.entries() == event_entries(kind@, created_at@, url@),
{
    let mut files = Files::empty();
    files.push_marker(kind);
    files.push_text(".timestamp", created_at);
    files.push_text(".imported", url);
    assert(files.entries() =~= event_entries(kind@, created_at@, url@));
    files
}

/// The record that gives an issue or a pull request its title.
pub fn summary_changed<'a>(
    created_at: &str,
    title: &str,
    url: &str,
    author: &'a Option<Author>,
) -> (files: Files<&'a str, Vec<u8>>)
    ensures
        files.entries() == text_entries(".type/SummaryChanged"@, created_at@, title@, url@)
            + author_entries(*author),
{
    text_files(".type/SummaryChanged", created_at, title, url).extended_by(author_files(author))
}

/// The record that gives an issue its description.
pub fn details_changed<'a>(
    created_at: &str,
    body: &str,
    url: &str,
    author: &'a Option<Author>,
) -> (files: Files<&'a str, Vec<u8>>)
    ensures
        files.entries() == text_entries(".type/DetailsChanged"@, created_at@, body@, url@)
            + author_entries(*author),
{
    text_files(".type/DetailsChanged", created_at, body, url).extended_by(author_files(author))
}

/// The record that gives a pull request its description and asks for the
/// merge, with the patch where one could be fetched.
pub fn merge_requested<'a>(
    created_at: &str,
    body: &str,
    url: &str,
    patch: Option<&str>,
    author: &'a Option<Author>,
) -> (files: Files<&'a str, Vec<u8>>)
    ensures
        files.entries() == merge_request_entries(
            created_at@,
            body@,
            url@,
            match patch {
                Some(patch) => Some(patch@),
                None => None,
            },
        ) + author_entries(*author),
{
    let mut files = Files::empty();
    files.push_marker(".type/DetailsChanged");
    files.push_marker(".type/MergeRequested");
    files.push_text(".timestamp", created_at);
    files.push_text("text", body);
    files.push_text(".imported", url);
    match patch {
        Some(patch) => {
            files.push_text("git/pr.patch", patch);
        },
        None => {},
    }
    assert(files.entries() =~= merge_request_entries(
        created_at@,
        body@,
        url@,
        match patch {
            Some(patch) => Some(patch@),
            None => None,
        },
    ));
    files.extended_by(author_files(author))
}

/// The record for one entry of the timeline of the issue or pull request at
/// `url`, or `None` where the entry is passed over.
pub fn timeline_record<'a>(item: &'a TimelineItem, kind: Kind, url: &str) -> (record: Option<
    Files<&'a str, Vec<u8>>,
>)
    ensures
        match record {
            Some(files) => timeline_entries(*item, kind, url@) == Some(files.entries()),
            None => timeline_entries(*item, kind, url@) is None,
        },
{
    match item {
        TimelineItem::IssueComment { url: comment, body, created_at, updated_at: _, author } => {
            Some(
                text_files(
                    ".type/Commented",
                    created_at.as_str(),
                    body.as_str(),
                    comment.as_str(),
                ).extended_by(author_files(author)),
            )
        },
        TimelineItem::ClosedEvent { actor, closer, created_at } => {
            Some(
                event_files(".type/Closed", created_at.as_str(), url).extended_by(
                    closer_files(closer),
                ).extended_by(actor_files(actor)),
            )
        },
        TimelineItem::ReopenedEvent { actor, created_at } => {
            Some(event_files(".type/Reopened", created_at.as_str(), url).extended_by(actor_files(actor)))
        },
        TimelineItem::LockedEvent { actor, created_at } => {
            Some(event_files(".type/Locked", created_at.as_str(), url).extended_by(actor_files(actor)))
        },
        TimelineItem::UnlockedEvent { actor, created_at } => {
            Some(event_files(".type/Unlocked", created_at.as_str(), url).extended_by(actor_files(actor)))
        },
        TimelineItem::MergedEvent { actor, created_at } => {
            match kind {
                Kind::PullRequest => {
                    let mut files = Files::empty();
                    files.push_marker(".type/Closed");
                    files.push_marker(".type/Merged");
                    files.push_text(".timestamp", created_at.as_str());
                    files.push_text(".imported", url);
                    assert(files.entries() =~= merged_entries(created_at@, url@));
                    Some(files.extended_by(actor_files(actor)))
                },
                Kind::Issue => None,
            }
        },
        _ => None,
    }
}

/// The name under which an issue or a pull request is kept: `github-issue-`
/// or `github-pr-` and the number.
pub open spec fn item_name_text(kind: Kind, number: nat) -> Seq<char> {
    (match kind {
        Kind::Issue => "github-issue-"@,
        Kind::PullRequest => "github-pr-"@,
    }) + crate::decimal::decimal(number)
}

/// The name under which an issue or a pull request is kept.
pub fn item_name(kind: Kind, number: usize) -> (name: String)
    ensures
        name@ == item_name_text(kind, number as nat),
{
    let mut name = match kind {
        Kind::Issue => String::from_str("github-issue-"),
        Kind::PullRequest => String::from_str("github-pr-"),
    };
    push_decimal(&mut name, number);
    name
}

/// What is shown while number `number` is imported.
pub fn progress_message(number: usize, title: &str) -> (message: String)
    ensures
        message@ == "[ #"@ + crate::decimal::decimal(number as nat) + " "@ + title@ + " ] "@,
{
    let mut message = String::from_str("[ #");
    push_decimal(&mut message, number);
    message.append(" ");
    message.append(title);
    message.append(" ] ");
    message
}

/// Where the patch of the pull request at `url` is found.
pub fn patch_url(url: &str) -> (patch: String)
    ensures
        patch@ == url@ + ".patch"@,
{
    let mut patch = String::from_str(url);
    patch.append(".patch");
    patch
}

/// How many items an import has to go through: the issues that the source
/// reports, and the pull requests where there is one at all. `None` where
/// the sum is beyond `u64`.
pub fn progress_total(issues: usize, pull_requests: Option<usize>) -> (total: Option<u64>)
    ensures
        total == ({
            let sum = issues + match pull_requests {
                Some(count) => count as int,
                None => 0,
            };
            if sum <= u64::MAX {
                Some(sum as u64)
            } else {
                None
            }
        }),
{
    let extra: u64 = match pull_requests {
        Some(count) => count as u64,
        None => 0,
    };
    (issues as u64).checked_add(extra)
}

} // verus!
