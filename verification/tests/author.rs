use sit_issue_import::author::Author;

#[test]
fn to_string() {
    let author = Author {
        login: "yrashk".into(),
        name: None,
        email: None,
    };
    let s: String = (&author).into();
    assert_eq!(s, "(https://github.com/yrashk)");

    let author = Author {
        login: "yrashk".into(),
        name: Some("Yurii".into()),
        email: None,
    };
    let s: String = (&author).into();
    assert_eq!(s, "Yurii (https://github.com/yrashk)");

    let author = Author {
        login: "yrashk".into(),
        name: Some("Yurii".into()),
        email: Some("foo@bar.com".into()),
    };
    let s: String = (&author).into();
    assert_eq!(s, "Yurii (https://github.com/yrashk) <foo@bar.com>");

    let author = Author {
        login: "yrashk".into(),
        name: None,
        email: Some("foo@bar.com".into()),
    };
    let s: String = (&author).into();
    assert_eq!(s, "(https://github.com/yrashk) <foo@bar.com>");

    let author = Author {
        login: "yrashk".into(),
        name: None,
        email: Some("".into()),
    };
    let s: String = (&author).into();
    assert_eq!(s, "(https://github.com/yrashk)");

    let author = Author {
        login: "yrashk".into(),
        name: Some("Yurii".into()),
        email: None,
    };
    let s: String = (&author).into();
    assert_eq!(s, "Yurii (https://github.com/yrashk)");
}
