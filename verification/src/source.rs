//! Where to import from.

use regex::Regex;
use vstd::prelude::*;

verus! {

/// The address that every GitHub source begins with.
pub const GITHUB: &'static str = "https://github.com/";

/// The pattern that finds the owner and the repository in a GitHub source.
pub const GITHUB_REPOSITORY: &'static str = "https://github.com/([^/]+)/([^/]+)(\\.git)?";

/// A repository on GitHub.
#[derive(Debug)]
pub struct Source {
    pub owner: String,
    pub repository: String,
}

/// Why a source cannot be imported from.
#[derive(Debug, PartialEq, Eq, Structural, Clone, Copy)]
pub enum SourceError {
    /// The source does not begin with the address of a known provider.
    Unrecognized,
    /// The pattern to search for was not accepted.
    Pattern,
    /// The pattern matched nowhere, or matched without an owner or a repository.
    NoRepository,
    /// The match has fewer groups than an owner and a repository take.
    Invalid,
}

/// `regex::Error`: why a pattern was not compiled. It is handed on unread.
#[verifier::external_type_specification]
#[verifier::external_body]
pub struct ExRegexError(regex::Error);

/// Whether `regex::Regex::new` compiles `pattern`.
pub uninterp spec fn regex_accepts(pattern: Seq<char>) -> bool;

/// What `regex::Regex::captures` finds in `haystack` for `pattern`: nothing
/// where there is no match, else one entry for each group of the pattern,
/// the whole match first, with the text of each group that took part.
pub uninterp spec fn regex_captures(pattern: Seq<char>, haystack: Seq<char>) -> Option<
    Seq<Option<Seq<char>>>,
>;

/// The groups of a match as sequences of characters.
pub open spec fn groups_view(groups: Option<Vec<Option<String>>>) -> Option<
    Seq<Option<Seq<char>>>,
> {
    match groups {
        Some(groups) => Some(
            Seq::new(
                groups@.len(),
                |i: int|
                    match groups@[i] {
                        Some(text) => Some(text@),
                        None => None,
                    },
            ),
        ),
        None => None,
    }
}

/// Compiles `pattern` with `regex::Regex::new` and searches `haystack` with
/// `regex::Regex::captures`.
///
/// Trusted: the error is the one of the compilation, which depends on the
/// pattern alone; the groups are those of the leftmost match, copied out in
/// the order of `regex::Captures::iter`, which depend on the pattern and the
/// haystack alone.
#[verifier::external_body]
fn captures(pattern: &str, haystack: &str) -> (found: Result<
    Option<Vec<Option<String>>>,
    regex::Error,
>)
    ensures
        found is Ok <==> regex_accepts(pattern@),
        found matches Ok(groups) ==> groups_view(groups) == regex_captures(pattern@, haystack@),
{
    let regex = Regex::new(pattern)?;
    Ok(
        regex.captures(haystack).map(
            |found| found.iter().map(|group| group.map(|part| part.as_str().to_string())).collect(),
        ),
    )
}

/// Searches `text` for `pattern`: the groups of the leftmost match, or `None`
/// where there is no match.
pub fn find_groups(pattern: &str, text: &str) -> (found: Result<
    Option<Vec<Option<String>>>,
    SourceError,
>)
    ensures
        match found {
            Ok(groups) => regex_accepts(pattern@) && groups_view(groups) == regex_captures(
                pattern@,
                text@,
            ),
            Err(error) => !regex_accepts(pattern@) && error == SourceError::Pattern,
        },
{
    match captures(pattern, text) {
        Ok(groups) => Ok(groups),
        Err(_) => Err(SourceError::Pattern),
    }
}

/// Whether `text` begins with `prefix`.
pub fn starts_with(text: &str, prefix: &str) -> (begins: bool)
    ensures
        begins == prefix@.is_prefix_of(text@),
{
    let length = prefix.unicode_len();
    if text.unicode_len() < length {
        return false;
    }
    let mut i: usize = 0;
    while i < length
        invariant
            i <= length,
            length == prefix@.len(),
            length <= text@.len(),
            forall|j: int| 0 <= j < i ==> prefix@[j] == text@[j],
        decreases length - i,
    {
        if prefix.get_char(i) != text.get_char(i) {
            return false;
        }
        i += 1;
    }
    assert(prefix@ =~= text@.subrange(0, prefix@.len() as int));
    true
}

/// Whether `source` names something on GitHub.
pub fn recognizes(source: &str) -> (known: bool)
    ensures
        known == GITHUB@.is_prefix_of(source@),
{
    starts_with(source, GITHUB)
}

/// The owner and the repository that the groups of a match stand for.
pub open spec fn repository_of(groups: Option<Seq<Option<Seq<char>>>>) -> Result<
    (Seq<char>, Seq<char>),
    SourceError,
> {
    match groups {
        None => Err(SourceError::NoRepository),
        Some(groups) => if groups.len() < 3 {
            Err(SourceError::Invalid)
        } else {
            match (groups[1], groups[2]) {
                (Some(owner), Some(repository)) => Ok((owner, repository)),
                _ => Err(SourceError::NoRepository),
            }
        },
    }
}

/// What a GitHub source names, given what the pattern accepts and finds.
pub open spec fn parsed(source: Seq<char>) -> Result<(Seq<char>, Seq<char>), SourceError> {
    if !GITHUB@.is_prefix_of(source) {
        Err(SourceError::Unrecognized)
    } else if !regex_accepts(GITHUB_REPOSITORY@) {
        Err(SourceError::Pattern)
    } else {
        repository_of(regex_captures(GITHUB_REPOSITORY@, source))
    }
}

impl Source {
    /// The owner and the repository as sequences of characters.
    pub open spec fn names(&self) -> (Seq<char>, Seq<char>) {
        (self.owner@, self.repository@)
    }

    /// The view of a result of parsing.
    pub open spec fn outcome(result: Result<Source, SourceError>) -> Result<
        (Seq<char>, Seq<char>),
        SourceError,
    > {
        match result {
            Ok(source) => Ok(source.names()),
            Err(error) => Err(error),
        }
    }

    /// Reads the owner and the repository off the groups of a match: the
    /// second and the third of at least three.
    pub fn from_groups(groups: Option<Vec<Option<String>>>) -> (result: Result<
        Source,
        SourceError,
    >)
        ensures
            Source::outcome(result) == repository_of(groups_view(groups)),
    {
        match groups {
            None => Err(SourceError::NoRepository),
            Some(parts) => {
                if parts.len() < 3 {
                    return Err(SourceError::Invalid);
                }
                match (&parts[1], &parts[2]) {
                    (Some(owner), Some(repository)) => Ok(
                        Source { owner: owner.clone(), repository: repository.clone() },
                    ),
                    _ => Err(SourceError::NoRepository),
                }
            },
        }
    }

    /// Finds the owner and the repository in a source.
    pub fn parse(source: &str) -> (result: Result<Source, SourceError>)
        ensures
            Source::outcome(result) == parsed(source@),
    {
        if !recognizes(source) {
            return Err(SourceError::Unrecognized);
        }
        match find_groups(GITHUB_REPOSITORY, source) {
            Err(error) => Err(error),
            Ok(groups) => Source::from_groups(groups),
        }
    }
}

} // verus!
