//! The error type of the generators: a chain of messages, the outermost
//! context first and the root cause last.

use vstd::prelude::*;
use vstd::string::*;
use crate::text::{join, join_strings, views};

verus! {

/// A failure with the contexts it passed through.
#[derive(Clone, Debug)]
pub struct Error {
    /// Outermost context first; the root cause is the last entry.
    pub chain: Vec<String>,
}

impl View for Error {
    type V = Seq<Seq<char>>;

    open spec fn view(&self) -> Seq<Seq<char>> {
        views(self.chain@)
    }
}

/// The separator between a context and what it wraps in a full message.
pub open spec fn chain_separator() -> Seq<char> {
    ": "@
}

impl Error {
    /// An error with a root cause and no context.
    pub fn msg(message: String) -> (e: Error)
        ensures
            e@ == seq![message@],
    {
        let mut chain: Vec<String> = Vec::new();
        chain.push(message);
        let e = Error { chain };
        assert(e@ =~= seq![message@]);
        e
    }

    /// An error with a root cause given as a string slice.
    pub fn new(message: &str) -> (e: Error)
        ensures
            e@ == seq![message@],
    {
        Error::msg(String::from_str(message))
    }

    /// Wraps the error in one more context.
    pub fn context(self, context: String) -> (e: Error)
        ensures
            e@ == seq![context@] + self@,
    {
        let mut chain = self.chain;
        chain.insert(0, context);
        let e = Error { chain };
        assert(e@ =~= seq![context@] + self@);
        e
    }

    /// A copy of the error with all its contexts.
    pub fn copy(&self) -> (e: Error)
        ensures
            e@ == self@,
    {
        let e = Error { chain: self.chain.clone() };
        assert(e@ =~= self@);
        e
    }

    /// The outermost message alone.
    pub fn outermost(&self) -> (s: String)
        ensures
            s@ == outermost_message(self@),
    {
        if self.chain.len() == 0 {
            String::new()
        } else {
            self.chain[0].clone()
        }
    }

    /// All messages, outermost first, separated by `": "`.
    pub fn full_message(&self) -> (s: String)
        ensures
            s@ == full_message(self@),
    {
        join_strings(&self.chain, ": ")
    }
}

/// The outermost message of a chain, empty for an empty chain.
pub open spec fn outermost_message(chain: Seq<Seq<char>>) -> Seq<char> {
    if chain.len() == 0 {
        Seq::empty()
    } else {
        chain[0]
    }
}

/// The messages of a chain separated by `": "`.
pub open spec fn full_message(chain: Seq<Seq<char>>) -> Seq<char> {
    join(chain, chain_separator())
}

} // verus!
