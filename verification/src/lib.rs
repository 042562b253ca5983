use vstd::prelude::*;

pub mod auth;
pub mod channel;
pub mod command;
pub mod config;
pub mod dispatcher;
pub mod grammar;
pub mod host;
pub mod keyword_list;
pub mod message;
pub mod params;
pub mod recipient;
pub mod reply;
pub mod sender;
pub mod server;
pub mod simple;
pub mod stats_query;
pub mod target_mask;
pub mod text;
pub mod user;

verus! {

/// The error returned by every parser in this crate: it names the grammar
/// component that refused the input and carries nothing else.
#[derive(PartialEq, Eq, Debug, Clone, Copy)]
pub struct ParseError(&'static str);

impl View for ParseError {
    type V = Seq<char>;

    closed spec fn view(&self) -> Seq<char> {
        self.0@
    }
}

impl ParseError {
    pub fn new(struct_name: &'static str) -> (r: Self)
        ensures
            r@ == struct_name@,
    {
        ParseError(struct_name)
    }
}

} // verus!
