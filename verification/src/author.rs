//! Who wrote an issue, a pull request or a comment.

use crate::files::Files;
use vstd::prelude::*;

verus! {

/// A GitHub user as the API describes one.
#[derive(PartialEq, Debug)]
pub struct Author {
    pub login: String,
    pub name: Option<String>,
    pub email: Option<String>,
}

impl Author {
    /// The name and a space, where a name is given and not empty.
    pub open spec fn name_part(&self) -> Seq<char> {
        match self.name {
            Some(name) => if name@.len() > 0 {
                name@ + " "@
            } else {
                Seq::empty()
            },
            None => Seq::empty(),
        }
    }

    /// A space and the address in angle brackets, where one is given and not empty.
    pub open spec fn email_part(&self) -> Seq<char> {
        match self.email {
            Some(email) => if email@.len() > 0 {
                " <"@ + email@ + ">"@
            } else {
                Seq::empty()
            },
            None => Seq::empty(),
        }
    }

    /// The line that names the author: the name, the profile's address in
    /// round brackets and the mail address in angle brackets, separated by
    /// single spaces, without the parts that are missing or empty.
    pub open spec fn line(&self) -> Seq<char> {
        self.name_part() + "(https://github.com/"@ + self.login@ + ")"@ + self.email_part()
    }
}

/// What the conversion gives is stated on `from` itself, over its view: a
/// value with heap contents cannot be written down in ghost code.
impl vstd::std_specs::convert::FromSpecImpl<&Author> for String {
    open spec fn obeys_from_spec() -> bool {
        false
    }

    open spec fn from_spec(author: &Author) -> String {
        arbitrary()
    }
}

impl From<&Author> for String {
    fn from(author: &Author) -> (text: String)
        ensures
            text@ == author.line(),
    {
        let mut text = String::new();
        match &author.name {
            Some(name) => {
                if !name.as_str().is_empty() {
                    text.append(name.as_str());
                    text.append(" ");
                }
            },
            None => {},
        }
        text.append("(https://github.com/");
        text.append(author.login.as_str());
        text.append(")");
        match &author.email {
            Some(email) => {
                if !email.as_str().is_empty() {
                    text.append(" <");
                    text.append(email.as_str());
                    text.append(">");
                }
            },
            None => {},
        }
        text
    }
}

/// What the conversion gives is stated on `from` itself, over its view: a
/// value with heap contents cannot be written down in ghost code.
impl<'a> vstd::std_specs::convert::FromSpecImpl<&'a Author> for Files<&'a str, Vec<u8>> {
    open spec fn obeys_from_spec() -> bool {
        false
    }

    open spec fn from_spec(author: &'a Author) -> Self {
        arbitrary()
    }
}

impl<'a> From<&'a Author> for Files<&'a str, Vec<u8>> {
    /// The one file that names the author of a record.
    fn from(author: &'a Author) -> (files: Self)
        ensures
            files.entries() == seq![crate::files::text_entry(".authors"@, author.line())],
    {
        let line: String = author.into();
        let mut files = Files::empty();
        files.push_text(".authors", line.as_str());
        assert(files.entries() =~= seq![crate::files::text_entry(".authors"@, author.line())]);
        files
    }
}

} // verus!
