//! Masks addressing many hosts or servers at once: a `#` or `$` prefix
//! followed by a dotted pattern with `*` and `?` wildcards, none of them in
//! the final label.
use crate::grammar::Grammar;
use crate::server::{alnum_char, is_alnum_char};
use crate::text::{from_chars, seq_contains, to_chars};
use crate::ParseError;
use vstd::prelude::*;

verus! {

pub open spec fn wild_char(c: char) -> bool {
    c == '*' || c == '?'
}

/// What may stand at the edge of a mask label.
pub open spec fn mask_edge_char(c: char) -> bool {
    alnum_char(c) || wild_char(c)
}

/// What a mask may hold anywhere.
pub open spec fn mask_char(c: char) -> bool {
    alnum_char(c) || wild_char(c) || c == '-' || c == '.'
}

pub fn is_wild_char(c: char) -> (r: bool)
    ensures
        r == wild_char(c),
{
    c == '*' || c == '?'
}

pub fn is_mask_edge_char(c: char) -> (r: bool)
    ensures
        r == mask_edge_char(c),
{
    is_alnum_char(c) || is_wild_char(c)
}

pub fn is_mask_char(c: char) -> (r: bool)
    ensures
        r == mask_char(c),
{
    is_alnum_char(c) || is_wild_char(c) || c == '-' || c == '.'
}

/// A well-formed mask body: longer than two characters, at least one dot,
/// labels edged by alphanumerics or wildcards, and no wildcard anywhere
/// after the last dot.
pub open spec fn mask_ok(s: Seq<char>) -> bool {
    &&& s.len() > 2
    &&& seq_contains(s, '.')
    &&& mask_edge_char(s[0])
    &&& mask_edge_char(s[s.len() - 1])
    &&& forall|i: int| 0 <= i < s.len() ==> mask_char(#[trigger] s[i])
    &&& forall|i: int|
        0 < i < s.len() - 1 && #[trigger] s[i] == '.' ==> mask_edge_char(s[i - 1])
            && mask_edge_char(s[i + 1])
    &&& forall|i: int|
        0 <= i < s.len() && wild_char(#[trigger] s[i]) ==> exists|j: int|
            i < j < s.len() && s[j] == '.'
}

/// Check `mask_ok` in one pass: scan for admissible characters and label
/// edges while remembering the last dot, then refuse wildcards behind it.
pub fn check_mask(v: &Vec<char>) -> (r: bool)
    ensures
        r == mask_ok(v@),
{
    if v.len() <= 2 {
        return false;
    }
    if !is_mask_edge_char(v[0]) || !is_mask_edge_char(v[v.len() - 1]) {
        return false;
    }
    let mut i: usize = 0;
    let mut last_dot: usize = 0;
    let mut seen_dot: bool = false;
    while i < v.len()
        invariant
            i <= v@.len(),
            v@.len() > 2,
            mask_edge_char(v@[0]),
            mask_edge_char(v@[v@.len() - 1]),
            forall|j: int| 0 <= j < i ==> mask_char(#[trigger] v@[j]),
            forall|j: int|
                0 < j < i && j < v@.len() - 1 && #[trigger] v@[j] == '.' ==> mask_edge_char(
                    v@[j - 1],
                ) && mask_edge_char(v@[j + 1]),
            seen_dot ==> last_dot < i && v@[last_dot as int] == '.',
            !seen_dot ==> forall|j: int| 0 <= j < i ==> v@[j] != '.',
            seen_dot ==> forall|j: int| last_dot < j < i ==> v@[j] != '.',
        decreases v@.len() - i,
    {
        if !is_mask_char(v[i]) {
            return false;
        }
        if v[i] == '.' {
            if i == 0 || i == v.len() - 1 {
                return false;
            }
            if !is_mask_edge_char(v[i - 1]) || !is_mask_edge_char(v[i + 1]) {
                return false;
            }
            last_dot = i;
            seen_dot = true;
        }
        i = i + 1;
    }
    if !seen_dot {
        proof {
            if seq_contains(v@, '.') {
                let k = choose|k: int| 0 <= k < v@.len() && v@[k] == '.';
                assert(v@[k] != '.');
            }
        }
        return false;
    }
    let mut k: usize = last_dot + 1;
    while k < v.len()
        invariant
            last_dot < k <= v@.len(),
            v@[last_dot as int] == '.',
            forall|j: int| last_dot < j < v@.len() ==> v@[j] != '.',
            forall|j: int| last_dot < j < k ==> !wild_char(v@[j]),
            v@.len() > 2,
            mask_edge_char(v@[0]),
            mask_edge_char(v@[v@.len() - 1]),
            forall|j: int| 0 <= j < v@.len() ==> mask_char(#[trigger] v@[j]),
            forall|j: int|
                0 < j < v@.len() - 1 && #[trigger] v@[j] == '.' ==> mask_edge_char(v@[j - 1])
                    && mask_edge_char(v@[j + 1]),
        decreases v@.len() - k,
    {
        if is_wild_char(v[k]) {
            proof {
                assert forall|j: int| k < j < v@.len() implies v@[j] != '.' by {}
                assert(!mask_ok(v@)) by {
                    if mask_ok(v@) {
                        let j = choose|j: int| k < j < v@.len() && v@[j] == '.';
                        assert(v@[j] != '.');
                    }
                }
            }
            return false;
        }
        k = k + 1;
    }
    proof {
        assert(seq_contains(v@, '.'));
        assert forall|i2: int|
            0 <= i2 < v@.len() && wild_char(#[trigger] v@[i2]) implies exists|j: int|
            i2 < j < v@.len() && v@[j] == '.' by {
            if i2 > last_dot {
                assert(!wild_char(v@[i2]));
            } else if i2 < last_dot {
                assert(last_dot < v@.len() && v@[last_dot as int] == '.');
            } else {
                assert(v@[i2] == '.');
                assert(!wild_char(v@[i2]));
            }
        }
    }
    true
}

/// Validate a mask body, handing the text back unchanged on success.
pub fn mask_from_string(raw: &str) -> (r: Option<String>)
    ensures
        r is Some <==> mask_ok(raw@),
        r matches Some(x) ==> x@ == raw@,
{
    let v = to_chars(raw);
    if check_mask(&v) {
        Some(from_chars(&v))
    } else {
        None
    }
}

/// A mask over host names, written `#<mask>` inside a target mask.
#[derive(PartialEq, Eq, Debug, Clone)]
pub struct HostMask {
    raw: String,
}

impl View for HostMask {
    type V = Seq<char>;

    closed spec fn view(&self) -> Seq<char> {
        self.raw@
    }
}

impl Grammar for HostMask {
    open spec fn accepts(s: Seq<char>) -> bool {
        mask_ok(s)
    }

    open spec fn value_of(s: Seq<char>) -> Seq<char> {
        s
    }

    open spec fn model_wf(m: Seq<char>) -> bool {
        mask_ok(m)
    }

    open spec fn text_of(m: Seq<char>) -> Seq<char> {
        m
    }

    proof fn lemma_value_wf(s: Seq<char>) {
    }

    proof fn lemma_canonical(m: Seq<char>) {
    }

    fn parse_chars(v: &Vec<char>) -> (r: Result<Self, ParseError>) {
        if check_mask(v) {
            let raw = from_chars(v);
            let t = HostMask { raw };
            proof {
                assert(t@ == v@);
                assert(HostMask::accepts(v@));
                assert(HostMask::value_of(v@) == v@);
            }
            Ok(t)
        } else {
            Err(ParseError::new("HostMask"))
        }
    }

    fn render_chars(&self) -> (r: Vec<char>) {
        to_chars(self.raw.as_str())
    }
}

impl HostMask {
    /// Parse a host mask body.
    pub fn parse(s: &str) -> (r: Result<Self, ParseError>)
        ensures
            r is Ok <==> mask_ok(s@),
            r matches Ok(t) ==> t@ == s@,
    {
        let v = to_chars(s);
        Self::parse_chars(&v)
    }

    /// The textual form of this mask body.
    pub fn render(&self) -> (r: String)
        requires
            Self::model_wf(self@),
        ensures
            r@ == self@,
    {
        self.raw.clone()
    }
}

/// A mask over server names, written `$<mask>` inside a target mask.
#[derive(PartialEq, Eq, Debug, Clone)]
pub struct ServerMask {
    raw: String,
}

impl View for ServerMask {
    type V = Seq<char>;

    closed spec fn view(&self) -> Seq<char> {
        self.raw@
    }
}

impl Grammar for ServerMask {
    open spec fn accepts(s: Seq<char>) -> bool {
        mask_ok(s)
    }

    open spec fn value_of(s: Seq<char>) -> Seq<char> {
        s
    }

    open spec fn model_wf(m: Seq<char>) -> bool {
        mask_ok(m)
    }

    open spec fn text_of(m: Seq<char>) -> Seq<char> {
        m
    }

    proof fn lemma_value_wf(s: Seq<char>) {
    }

    proof fn lemma_canonical(m: Seq<char>) {
    }

    fn parse_chars(v: &Vec<char>) -> (r: Result<Self, ParseError>) {
        if check_mask(v) {
            let raw = from_chars(v);
            let t = ServerMask { raw };
            proof {
                assert(t@ == v@);
                assert(ServerMask::accepts(v@));
                assert(ServerMask::value_of(v@) == v@);
            }
            Ok(t)
        } else {
            Err(ParseError::new("ServerMask"))
        }
    }

    fn render_chars(&self) -> (r: Vec<char>) {
        to_chars(self.raw.as_str())
    }
}

impl ServerMask {
    /// Parse a server mask body.
    pub fn parse(s: &str) -> (r: Result<Self, ParseError>)
        ensures
            r is Ok <==> mask_ok(s@),
            r matches Ok(t) ==> t@ == s@,
    {
        let v = to_chars(s);
        Self::parse_chars(&v)
    }

    /// The textual form of this mask body.
    pub fn render(&self) -> (r: String)
        requires
            Self::model_wf(self@),
        ensures
            r@ == self@,
    {
        self.raw.clone()
    }
}

/// The abstract form of a target mask: which kind it is, and the mask body.
pub enum TargetMaskModel {
    Host(Seq<char>),
    Server(Seq<char>),
}

/// A mask aimed at hosts (`#`) or at servers (`$`).
#[derive(PartialEq, Eq, Debug, Clone)]
pub enum TargetMask {
    Host(HostMask),
    Server(ServerMask),
}

impl View for TargetMask {
    type V = TargetMaskModel;

    open spec fn view(&self) -> TargetMaskModel {
        match self {
            TargetMask::Host(m) => TargetMaskModel::Host(m@),
            TargetMask::Server(m) => TargetMaskModel::Server(m@),
        }
    }
}

impl Grammar for TargetMask {
    open spec fn accepts(s: Seq<char>) -> bool {
        s.len() >= 1 && (s[0] == '#' || s[0] == '$') && mask_ok(s.skip(1))
    }

    open spec fn value_of(s: Seq<char>) -> TargetMaskModel {
        if s[0] == '#' {
            TargetMaskModel::Host(s.skip(1))
        } else {
            TargetMaskModel::Server(s.skip(1))
        }
    }

    open spec fn model_wf(m: TargetMaskModel) -> bool {
        match m {
            TargetMaskModel::Host(b) => mask_ok(b),
            TargetMaskModel::Server(b) => mask_ok(b),
        }
    }

    open spec fn text_of(m: TargetMaskModel) -> Seq<char> {
        match m {
            TargetMaskModel::Host(b) => seq!['#'] + b,
            TargetMaskModel::Server(b) => seq!['$'] + b,
        }
    }

    proof fn lemma_value_wf(s: Seq<char>) {
        assert(Self::text_of(Self::value_of(s)) =~= s);
    }

    proof fn lemma_canonical(m: TargetMaskModel) {
        match m {
            TargetMaskModel::Host(b) => {
                assert((seq!['#'] + b).skip(1) =~= b);
            },
            TargetMaskModel::Server(b) => {
                assert((seq!['$'] + b).skip(1) =~= b);
            },
        }
    }

    fn parse_chars(v: &Vec<char>) -> (r: Result<Self, ParseError>) {
        if v.len() == 0 {
            return Err(ParseError::new("TargetMask"));
        }
        let body = crate::text::subvec(v, 1, v.len());
        proof {
            assert(body@ =~= v@.skip(1));
        }
        if v[0] == '#' {
            match HostMask::parse_chars(&body) {
                Ok(m) => Ok(TargetMask::Host(m)),
                Err(_) => Err(ParseError::new("HostMask")),
            }
        } else if v[0] == '$' {
            match ServerMask::parse_chars(&body) {
                Ok(m) => Ok(TargetMask::Server(m)),
                Err(_) => Err(ParseError::new("ServerMask")),
            }
        } else {
            Err(ParseError::new("TargetMask"))
        }
    }

    fn render_chars(&self) -> (r: Vec<char>) {
        let mut r: Vec<char> = Vec::new();
        match self {
            TargetMask::Host(m) => {
                r.push('#');
                let body = m.render_chars();
                crate::text::push_range(&mut r, &body, 0, body.len());
                proof {
                    assert(body@.subrange(0, body@.len() as int) =~= body@);
                    assert(seq!['#'] + body@ =~= r@);
                }
            },
            TargetMask::Server(m) => {
                r.push('$');
                let body = m.render_chars();
                crate::text::push_range(&mut r, &body, 0, body.len());
                proof {
                    assert(body@.subrange(0, body@.len() as int) =~= body@);
                    assert(seq!['$'] + body@ =~= r@);
                }
            },
        }
        r
    }
}

impl TargetMask {
    /// Parse a `#`- or `$`-prefixed target mask.
    pub fn parse(s: &str) -> (r: Result<Self, ParseError>)
        ensures
            r is Ok <==> Self::accepts(s@),
            r matches Ok(t) ==> t@ == Self::value_of(s@),
    {
        let v = to_chars(s);
        Self::parse_chars(&v)
    }

    /// The textual form of this target mask, prefix included.
    pub fn render(&self) -> (r: String)
        requires
            Self::model_wf(self@),
        ensures
            r@ == Self::text_of(self@),
    {
        let v = self.render_chars();
        from_chars(&v)
    }
}

} // verus!
