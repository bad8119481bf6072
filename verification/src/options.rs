//! What an invocation was asked, as the words and values it was given.

use vstd::prelude::*;

use crate::json::{
    first_member, flag_of, found, member, member_views, natural_of, text_of, Json, JsonView,
};
use crate::text::{str_view, text_view};

verus! {

/// The arguments of one invocation, by name.
#[derive(Debug, PartialEq)]
pub struct Options {
    /// Each argument with its value.
    pub entries: Vec<(String, Json)>,
}

impl View for Options {
    type V = Seq<(Seq<char>, JsonView)>;

    open spec fn view(&self) -> Seq<(Seq<char>, JsonView)> {
        member_views(self.entries@)
    }
}

/// Text that is there and is not empty.
pub open spec fn nonempty(text: Option<Seq<char>>) -> Option<Seq<char>> {
    match text {
        Some(text) => if text.len() > 0 {
            Some(text)
        } else {
            None
        },
        None => None,
    }
}

/// The text an argument was given as, where it was given as text.
pub open spec fn text_option(options: Seq<(Seq<char>, JsonView)>, name: Seq<char>) -> Option<
    Seq<char>,
> {
    text_of(member(options, name))
}

/// A number that is there and is not zero.
pub open spec fn positive(n: Option<int>) -> Option<int> {
    match n {
        Some(n) => if n > 0 {
            Some(n)
        } else {
            None
        },
        None => None,
    }
}

impl Options {
    /// The value of an argument, where it was given.
    pub fn get(&self, name: &str) -> (r: Option<&Json>)
        ensures
            found(r) == member(self@, name@),
    {
        first_member(&self.entries, name)
    }

    /// The text of an argument, where it was given as text.
    pub fn text(&self, name: &str) -> (r: Option<&str>)
        ensures
            str_view(r) == text_option(self@, name@),
    {
        match self.get(name) {
            Some(json) => json.as_str(),
            None => None,
        }
    }

    /// The text of an argument, where it was given as text that is not empty.
    pub fn some_text(&self, name: &str) -> (r: Option<String>)
        ensures
            text_view(r) == nonempty(text_option(self@, name@)),
    {
        match self.text(name) {
            Some(text) => if crate::text::chars(text).len() > 0 {
                Some(text.to_owned())
            } else {
                None
            },
            None => None,
        }
    }

    /// The flag of an argument, where it was given as one.
    pub fn flag(&self, name: &str) -> (r: Option<bool>)
        ensures
            r == flag_of(member(self@, name@)),
    {
        match self.get(name) {
            Some(json) => json.as_bool(),
            None => None,
        }
    }

    /// The number of an argument, where it was given as a whole one that is not below zero.
    pub fn natural(&self, name: &str) -> (r: Option<u64>)
        ensures
            match r {
                Some(n) => natural_of(member(self@, name@)) == Some(n as int),
                None => natural_of(member(self@, name@)) is None,
            },
    {
        match self.get(name) {
            Some(json) => json.as_u64(),
            None => None,
        }
    }

    /// The number of an argument, where it was given as a whole one above zero.
    pub fn positive(&self, name: &str) -> (r: Option<u64>)
        ensures
            match r {
                Some(n) => positive(natural_of(member(self@, name@))) == Some(n as int),
                None => positive(natural_of(member(self@, name@))) is None,
            },
    {
        match self.natural(name) {
            Some(n) => if n > 0 {
                Some(n)
            } else {
                None
            },
            None => None,
        }
    }
}

}
