//! The two identities a person has on IRC: the login name (`Username`) and
//! the nick by which they are known (`Nickname`).
use crate::grammar::{Atom, Grammar};
use crate::text::{from_chars, to_chars};
use crate::ParseError;
use vstd::prelude::*;

verus! {

/// The login name of an IRC user (not the nick): one or more octets, none of
/// which is NUL, CR, LF, space, or `@`.
#[derive(PartialEq, Eq, Debug, Clone)]
pub struct Username {
    raw: String,
}

/// The characters a username may hold.
pub open spec fn username_char(c: char) -> bool {
    c != '\u{0}' && c != '\r' && c != '\n' && c != ' ' && c != '@'
}

pub fn is_username_char(c: char) -> (r: bool)
    ensures
        r == username_char(c),
{
    c != '\u{0}' && c != '\r' && c != '\n' && c != ' ' && c != '@'
}

impl View for Username {
    type V = Seq<char>;

    closed spec fn view(&self) -> Seq<char> {
        self.raw@
    }
}

impl Grammar for Username {
    open spec fn accepts(s: Seq<char>) -> bool {
        s.len() >= 1 && forall|i: int| 0 <= i < s.len() ==> username_char(s[i])
    }

    open spec fn value_of(s: Seq<char>) -> Seq<char> {
        s
    }

    open spec fn model_wf(m: Seq<char>) -> bool {
        Self::accepts(m)
    }

    open spec fn text_of(m: Seq<char>) -> Seq<char> {
        m
    }

    proof fn lemma_value_wf(s: Seq<char>) {
    }

    proof fn lemma_canonical(m: Seq<char>) {
    }

    fn parse_chars(v: &Vec<char>) -> (r: Result<Self, ParseError>) {
        if v.len() == 0 {
            return Err(ParseError::new("Username"));
        }
        let mut i: usize = 0;
        while i < v.len()
            invariant
                i <= v@.len(),
                forall|j: int| 0 <= j < i ==> username_char(v@[j]),
            decreases v@.len() - i,
        {
            if !is_username_char(v[i]) {
                return Err(ParseError::new("Username"));
            }
            i = i + 1;
        }
        Ok(Username { raw: from_chars(v) })
    }

    fn render_chars(&self) -> (r: Vec<char>) {
        to_chars(self.raw.as_str())
    }
}

impl Atom for Username {
    proof fn lemma_nonempty(s: Seq<char>) {
    }
}

impl Username {
    /// A copy of this value.
    pub fn duplicate(&self) -> (r: Self)
        ensures
            r@ == self@,
    {
        Username { raw: self.raw.clone() }
    }

    /// Parse a username from text.
    pub fn parse(s: &str) -> (r: Result<Self, ParseError>)
        ensures
            r is Ok <==> Self::accepts(s@),
            r matches Ok(t) ==> t@ == s@,
    {
        let v = to_chars(s);
        Self::parse_chars(&v)
    }

    /// The textual form of this username.
    pub fn render(&self) -> (r: String)
        requires
            Self::model_wf(self@),
        ensures
            r@ == self@,
    {
        self.raw.clone()
    }
}

/// The nickname by which a user is primarily known: a letter or one of
/// ``[]\`_^{|}`` followed by any mix of letters, digits, those specials,
/// and `-`. The nine-character limit of the RFC is deliberately not
/// enforced.
#[derive(PartialEq, Eq, Debug, Clone)]
pub struct Nickname {
    raw: String,
}

/// A letter or one of the special characters `[ ] \ ` _ ^ { | }`:
/// what a nickname may start with.
pub open spec fn nick_start_char(c: char) -> bool {
    0x41 <= (c as u32) <= 0x7d
}

/// What the rest of a nickname may hold: the start set plus digits and `-`.
pub open spec fn nick_rest_char(c: char) -> bool {
    nick_start_char(c) || ('0' <= c <= '9') || c == '-'
}

pub fn is_nick_start_char(c: char) -> (r: bool)
    ensures
        r == nick_start_char(c),
{
    let u = c as u32;
    0x41 <= u && u <= 0x7d
}

pub fn is_nick_rest_char(c: char) -> (r: bool)
    ensures
        r == nick_rest_char(c),
{
    is_nick_start_char(c) || ('0' <= c && c <= '9') || c == '-'
}

impl View for Nickname {
    type V = Seq<char>;

    closed spec fn view(&self) -> Seq<char> {
        self.raw@
    }
}

impl Grammar for Nickname {
    open spec fn accepts(s: Seq<char>) -> bool {
        s.len() >= 1 && nick_start_char(s[0]) && forall|i: int|
            1 <= i < s.len() ==> nick_rest_char(s[i])
    }

    open spec fn value_of(s: Seq<char>) -> Seq<char> {
        s
    }

    open spec fn model_wf(m: Seq<char>) -> bool {
        Self::accepts(m)
    }

    open spec fn text_of(m: Seq<char>) -> Seq<char> {
        m
    }

    proof fn lemma_value_wf(s: Seq<char>) {
    }

    proof fn lemma_canonical(m: Seq<char>) {
    }

    fn parse_chars(v: &Vec<char>) -> (r: Result<Self, ParseError>) {
        if v.len() == 0 {
            return Err(ParseError::new("Nickname"));
        }
        if !is_nick_start_char(v[0]) {
            return Err(ParseError::new("Nickname"));
        }
        let mut i: usize = 1;
        while i < v.len()
            invariant
                1 <= i <= v@.len(),
                forall|j: int| 1 <= j < i ==> nick_rest_char(v@[j]),
            decreases v@.len() - i,
        {
            if !is_nick_rest_char(v[i]) {
                return Err(ParseError::new("Nickname"));
            }
            i = i + 1;
        }
        Ok(Nickname { raw: from_chars(v) })
    }

    fn render_chars(&self) -> (r: Vec<char>) {
        to_chars(self.raw.as_str())
    }
}

impl Atom for Nickname {
    proof fn lemma_nonempty(s: Seq<char>) {
    }
}

impl Nickname {
    /// A copy of this value.
    pub fn duplicate(&self) -> (r: Self)
        ensures
            r@ == self@,
    {
        Nickname { raw: self.raw.clone() }
    }

    /// Parse a nickname from text.
    pub fn parse(s: &str) -> (r: Result<Self, ParseError>)
        ensures
            r is Ok <==> Self::accepts(s@),
            r matches Ok(t) ==> t@ == s@,
    {
        let v = to_chars(s);
        Self::parse_chars(&v)
    }

    /// The textual form of this nickname.
    pub fn render(&self) -> (r: String)
        requires
            Self::model_wf(self@),
        ensures
            r@ == self@,
    {
        self.raw.clone()
    }
}

} // verus!
