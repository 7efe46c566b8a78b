//! Who caused an event.

use crate::author::Author;
use crate::files::Files;
use vstd::prelude::*;

verus! {

/// A user, or a program that acts under a login of its own.
#[derive(Debug)]
pub enum Actor {
    User(Author),
    Bot { login: String },
}

impl Actor {
    /// The line that names the actor: a user's author line, a bot's profile address.
    pub open spec fn line(&self) -> Seq<char> {
        match self {
            Actor::User(author) => author.line(),
            Actor::Bot { login } => "https://github.com/"@ + login@,
        }
    }
}

/// What the conversion gives is stated on `from` itself, over its view: a
/// value with heap contents cannot be written down in ghost code.
impl vstd::std_specs::convert::FromSpecImpl<&Actor> for String {
    open spec fn obeys_from_spec() -> bool {
        false
    }

    open spec fn from_spec(actor: &Actor) -> String {
        arbitrary()
    }
}

impl From<&Actor> for String {
    fn from(actor: &Actor) -> (text: String)
        ensures
            text@ == actor.line(),
    {
        match actor {
            Actor::User(author) => author.into(),
            Actor::Bot { login } => {
                let mut text = String::from_str("https://github.com/");
                text.append(login.as_str());
                text
            },
        }
    }
}

/// What the conversion gives is stated on `from` itself, over its view: a
/// value with heap contents cannot be written down in ghost code.
impl<'a> vstd::std_specs::convert::FromSpecImpl<&'a Actor> for Files<&'a str, Vec<u8>> {
    open spec fn obeys_from_spec() -> bool {
        false
    }

    open spec fn from_spec(actor: &'a Actor) -> Self {
        arbitrary()
    }
}

impl<'a> From<&'a Actor> for Files<&'a str, Vec<u8>> {
    /// The one file that names the author of a record.
    fn from(actor: &'a Actor) -> (files: Self)
        ensures
            files.entries() == seq![crate::files::text_entry(".authors"@, actor.line())],
    {
        let line: String = actor.into();
        let mut files = Files::empty();
        files.push_text(".authors", line.as_str());
        assert(files.entries() =~= seq![crate::files::text_entry(".authors"@, actor.line())]);
        files
    }
}

} // verus!
