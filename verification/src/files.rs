//! The files that make up one record.

use vstd::prelude::*;

verus! {

/// Named contents, in the order in which they are to be written.
pub struct Files<S, R>(pub Vec<(S, R)>);

impl<S, R> View for Files<S, R> {
    type V = Seq<(S, R)>;

    open spec fn view(&self) -> Seq<(S, R)> {
        self.0@
    }
}

impl<S, R> Files<S, R> {
    /// These files, then those of `other`.
    pub fn followed_by(self, other: Self) -> (both: Self)
        ensures
            both@ == self@ + other@,
    {
        let mut first = self;
        let mut second = other;
        first.0.append(&mut second.0);
        first
    }
}

/// What the conversion gives is stated on `from` itself, over its view: a
/// value with heap contents cannot be written down in ghost code.
impl<T, S, R> vstd::std_specs::convert::FromSpecImpl<Option<T>> for Files<S, R> where T: Into<Files<S, R>> {
    open spec fn obeys_from_spec() -> bool {
        false
    }

    open spec fn from_spec(val: Option<T>) -> Self {
        arbitrary()
    }
}

impl<T, S, R> From<Option<T>> for Files<S, R> where T: Into<Files<S, R>> {
    /// No files for `None`; for `Some`, the files that the value converts to.
    fn from(val: Option<T>) -> (files: Self)
        ensures
            match val {
                None => files@ == Seq::<(S, R)>::empty(),
                Some(v) => call_ensures(T::into, (v,), files),
            },
    {
        match val {
            None => Files(Vec::new()),
            Some(v) => v.into(),
        }
    }
}

impl<'a> Files<&'a str, Vec<u8>> {
    /// Each file as its name and its bytes.
    pub open spec fn entries(&self) -> Seq<(Seq<char>, Seq<u8>)> {
        Seq::new(self@.len(), |i: int| (self@[i].0@, self@[i].1@))
    }

    /// No files.
    pub fn empty() -> (files: Self)
        ensures
            files.entries() == Seq::<(Seq<char>, Seq<u8>)>::empty(),
    {
        let files = Files(Vec::new());
        assert(files.entries() =~= Seq::<(Seq<char>, Seq<u8>)>::empty());
        files
    }

    /// Adds a file that holds `text`.
    pub fn push_text(&mut self, name: &'a str, text: &str)
        ensures
            final(self).entries() == old(self).entries().push(text_entry(name@, text@)),
    {
        self.0.push((name, text.as_bytes_vec()));
        assert(self.entries() =~= old(self).entries().push(text_entry(name@, text@)));
    }

    /// Adds a file that holds nothing.
    pub fn push_marker(&mut self, name: &'a str)
        ensures
            final(self).entries() == old(self).entries().push(marker_entry(name@)),
    {
        self.0.push((name, Vec::new()));
        assert(self.entries() =~= old(self).entries().push(marker_entry(name@)));
    }

    /// These files, then those of `other`.
    pub fn extended_by(self, other: Self) -> (both: Self)
        ensures
            both.entries() == self.entries() + other.entries(),
    {
        let both = self.followed_by(other);
        assert(both.entries() =~= self.entries() + other.entries());
        both
    }
}

/// A file that holds `text`, encoded as UTF-8.
pub open spec fn text_entry(name: Seq<char>, text: Seq<char>) -> (Seq<char>, Seq<u8>) {
    (name, vstd::utf8::encode_utf8(text))
}

/// A file without contents, whose name alone says something.
pub open spec fn marker_entry(name: Seq<char>) -> (Seq<char>, Seq<u8>) {
    (name, Seq::empty())
}

} // verus!
