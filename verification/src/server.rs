//! Host and server names: one or more dot-separated labels, each beginning
//! and ending with an ASCII alphanumeric and otherwise holding only
//! alphanumerics, `-`, or `_`.
use crate::grammar::Grammar;
use crate::text::{from_chars, to_chars};
use crate::ParseError;
use vstd::prelude::*;

verus! {

pub open spec fn alnum_char(c: char) -> bool {
    ('a' <= c <= 'z') || ('A' <= c <= 'Z') || ('0' <= c <= '9')
}

pub fn is_alnum_char(c: char) -> (r: bool)
    ensures
        r == alnum_char(c),
{
    ('a' <= c && c <= 'z') || ('A' <= c && c <= 'Z') || ('0' <= c && c <= '9')
}

/// What a name may hold anywhere: label characters and the separating dots.
pub open spec fn name_char(c: char) -> bool {
    alnum_char(c) || c == '-' || c == '_' || c == '.'
}

pub fn is_name_char(c: char) -> (r: bool)
    ensures
        r == name_char(c),
{
    is_alnum_char(c) || c == '-' || c == '_' || c == '.'
}

/// A well-formed dotted name: non-empty, every character admissible, and
/// every label starting and ending with an alphanumeric. The border rules
/// are stated per character: the first and last characters of the whole
/// name, and both neighbours of every dot, must be alphanumeric; that also
/// rules out empty labels and a trailing dot.
pub open spec fn name_ok(s: Seq<char>) -> bool {
    &&& s.len() >= 1
    &&& alnum_char(s[0])
    &&& alnum_char(s[s.len() - 1])
    &&& forall|i: int| 0 <= i < s.len() ==> name_char(#[trigger] s[i])
    &&& forall|i: int|
        0 < i < s.len() - 1 && #[trigger] s[i] == '.' ==> alnum_char(s[i - 1]) && alnum_char(
            s[i + 1],
        )
}

/// Check `name_ok` in one pass.
pub fn check_name(v: &Vec<char>) -> (r: bool)
    ensures
        r == name_ok(v@),
{
    if v.len() == 0 {
        return false;
    }
    if !is_alnum_char(v[0]) {
        return false;
    }
    if !is_alnum_char(v[v.len() - 1]) {
        return false;
    }
    let mut i: usize = 0;
    while i < v.len()
        invariant
            i <= v@.len(),
            v@.len() >= 1,
            alnum_char(v@[0]),
            alnum_char(v@[v@.len() - 1]),
            forall|j: int| 0 <= j < i ==> name_char(#[trigger] v@[j]),
            forall|j: int|
                0 < j < i && j < v@.len() - 1 && #[trigger] v@[j] == '.' ==> alnum_char(v@[j - 1])
                    && alnum_char(v@[j + 1]),
        decreases v@.len() - i,
    {
        if !is_name_char(v[i]) {
            return false;
        }
        if v[i] == '.' {
            if i == 0 || i == v.len() - 1 {
                return false;
            }
            if !is_alnum_char(v[i - 1]) || !is_alnum_char(v[i + 1]) {
                return false;
            }
        }
        i = i + 1;
    }
    true
}

/// Validate a dotted name, handing the text back unchanged on success. Every
/// name-shaped entity parses through this one check.
pub fn name_from_string(raw: &str) -> (r: Option<String>)
    ensures
        r is Some <==> name_ok(raw@),
        r matches Some(x) ==> x@ == raw@,
{
    let v = to_chars(raw);
    if check_name(&v) {
        Some(from_chars(&v))
    } else {
        None
    }
}

/// The name of an IRC server.
#[derive(PartialEq, Eq, Debug, Clone)]
pub struct Servername {
    raw: String,
}

impl View for Servername {
    type V = Seq<char>;

    closed spec fn view(&self) -> Seq<char> {
        self.raw@
    }
}

impl Grammar for Servername {
    open spec fn accepts(s: Seq<char>) -> bool {
        name_ok(s)
    }

    open spec fn value_of(s: Seq<char>) -> Seq<char> {
        s
    }

    open spec fn model_wf(m: Seq<char>) -> bool {
        name_ok(m)
    }

    open spec fn text_of(m: Seq<char>) -> Seq<char> {
        m
    }

    proof fn lemma_value_wf(s: Seq<char>) {
    }

    proof fn lemma_canonical(m: Seq<char>) {
    }

    fn parse_chars(v: &Vec<char>) -> (r: Result<Self, ParseError>) {
        if check_name(v) {
            let raw = from_chars(v);
            let t = Servername { raw };
            proof {
                assert(t@ == v@);
                assert(Servername::accepts(v@));
                assert(Servername::value_of(v@) == v@);
            }
            Ok(t)
        } else {
            Err(ParseError::new("Servername"))
        }
    }

    fn render_chars(&self) -> (r: Vec<char>) {
        to_chars(self.raw.as_str())
    }
}

impl Servername {
    /// A copy of this value.
    pub fn duplicate(&self) -> (r: Self)
        ensures
            r@ == self@,
    {
        Servername { raw: self.raw.clone() }
    }

    /// Parse a server name from text.
    pub fn parse(s: &str) -> (r: Result<Self, ParseError>)
        ensures
            r is Ok <==> name_ok(s@),
            r matches Ok(t) ==> t@ == s@,
    {
        let v = to_chars(s);
        Self::parse_chars(&v)
    }

    /// The textual form of this server name.
    pub fn render(&self) -> (r: String)
        requires
            Self::model_wf(self@),
        ensures
            r@ == self@,
    {
        self.raw.clone()
    }
}

/// The name of a host, under the same label grammar as a server name.
#[derive(PartialEq, Eq, Debug, Clone)]
pub struct Hostname {
    raw: String,
}

impl View for Hostname {
    type V = Seq<char>;

    closed spec fn view(&self) -> Seq<char> {
        self.raw@
    }
}

impl Grammar for Hostname {
    open spec fn accepts(s: Seq<char>) -> bool {
        name_ok(s)
    }

    open spec fn value_of(s: Seq<char>) -> Seq<char> {
        s
    }

    open spec fn model_wf(m: Seq<char>) -> bool {
        name_ok(m)
    }

    open spec fn text_of(m: Seq<char>) -> Seq<char> {
        m
    }

    proof fn lemma_value_wf(s: Seq<char>) {
    }

    proof fn lemma_canonical(m: Seq<char>) {
    }

    fn parse_chars(v: &Vec<char>) -> (r: Result<Self, ParseError>) {
        if check_name(v) {
            let raw = from_chars(v);
            let t = Hostname { raw };
            proof {
                assert(name_ok(v@));
                assert(Hostname::accepts(v@));
                assert(t@ == v@);
                assert(Hostname::value_of(v@) == v@);
            }
            Ok(t)
        } else {
            Err(ParseError::new("Hostname"))
        }
    }

    fn render_chars(&self) -> (r: Vec<char>) {
        to_chars(self.raw.as_str())
    }
}

impl Hostname {
    /// A copy of this value.
    pub fn duplicate(&self) -> (r: Self)
        ensures
            r@ == self@,
    {
        Hostname { raw: self.raw.clone() }
    }

    /// Parse a host name from text.
    pub fn parse(s: &str) -> (r: Result<Self, ParseError>)
        ensures
            r is Ok <==> name_ok(s@),
            r matches Ok(t) ==> t@ == s@,
    {
        let v = to_chars(s);
        Self::parse_chars(&v)
    }

    /// The textual form of this host name.
    pub fn render(&self) -> (r: String)
        requires
            Self::model_wf(self@),
        ensures
            r@ == self@,
    {
        self.raw.clone()
    }
}

} // verus!
