use sit_issue_import::source::{find_groups, recognizes, starts_with, Source, SourceError};

fn names(result: Result<Source, SourceError>) -> Result<(String, String), SourceError> {
    result.map(|source| (source.owner, source.repository))
}

#[test]
fn finds_owner_and_repository() {
    assert_eq!(
        names(Source::parse("https://github.com/sit-it/sit")),
        Ok(("sit-it".to_string(), "sit".to_string()))
    );
    assert_eq!(
        names(Source::parse("https://github.com/rust-lang/rust/issues/1")),
        Ok(("rust-lang".to_string(), "rust".to_string()))
    );
}

#[test]
fn keeps_a_git_suffix_with_the_repository() {
    assert_eq!(
        names(Source::parse("https://github.com/sit-it/sit.git")),
        Ok(("sit-it".to_string(), "sit.git".to_string()))
    );
}

#[test]
fn refuses_other_providers() {
    assert_eq!(names(Source::parse("https://gitlab.com/a/b")), Err(SourceError::Unrecognized));
    assert_eq!(names(Source::parse("")), Err(SourceError::Unrecognized));
    assert_eq!(names(Source::parse("http://github.com/a/b")), Err(SourceError::Unrecognized));
}

#[test]
fn reports_a_source_without_repository() {
    assert_eq!(names(Source::parse("https://github.com/")), Err(SourceError::NoRepository));
    assert_eq!(names(Source::parse("https://github.com/owner")), Err(SourceError::NoRepository));
    assert_eq!(names(Source::parse("https://github.com/owner/")), Err(SourceError::NoRepository));
}

#[test]
fn reads_groups_by_their_place() {
    let group = |text: &str| Some(text.to_string());
    assert_eq!(names(Source::from_groups(None)), Err(SourceError::NoRepository));
    assert_eq!(names(Source::from_groups(Some(vec![]))), Err(SourceError::Invalid));
    assert_eq!(
        names(Source::from_groups(Some(vec![group("all"), group("o")]))),
        Err(SourceError::Invalid)
    );
    assert_eq!(
        names(Source::from_groups(Some(vec![group("all"), group("o"), group("r")]))),
        Ok(("o".to_string(), "r".to_string()))
    );
    assert_eq!(
        names(Source::from_groups(Some(vec![group("all"), group("o"), group("r"), None]))),
        Ok(("o".to_string(), "r".to_string()))
    );
    assert_eq!(
        names(Source::from_groups(Some(vec![group("all"), None, group("r")]))),
        Err(SourceError::NoRepository)
    );
    assert_eq!(
        names(Source::from_groups(Some(vec![group("all"), group("o"), None]))),
        Err(SourceError::NoRepository)
    );
}

#[test]
fn prefixes() {
    assert!(recognizes("https://github.com/a/b"));
    assert!(recognizes("https://github.com/"));
    assert!(!recognizes("https://github.com"));
    assert!(!recognizes(" https://github.com/a/b"));
    assert!(starts_with("abc", ""));
    assert!(starts_with("abc", "abc"));
    assert!(!starts_with("abc", "abcd"));
    assert!(!starts_with("abc", "b"));
    assert!(starts_with("déjà vu", "déjà"));
    assert!(!starts_with("deja vu", "déjà"));
}

#[test]
fn refuses_a_broken_pattern() {
    assert_eq!(find_groups("(", "anything"), Err(SourceError::Pattern));
    assert_eq!(find_groups("[a-", "anything"), Err(SourceError::Pattern));
}

#[test]
fn finds_the_groups_of_the_leftmost_match() {
    let group = |text: &str| Some(text.to_string());
    assert_eq!(find_groups("a(b)?(c)", "xx"), Ok(None));
    assert_eq!(find_groups("a(b)?(c)", "zac-abc"), Ok(Some(vec![group("ac"), None, group("c")])));
    assert_eq!(find_groups("b+", "abbbc"), Ok(Some(vec![group("bbb")])));
}
