//! Hosts: an IP address literal, or a host name. Address literals are
//! validated against the textual grammars of IPv4 dotted-decimal notation
//! and RFC 4291 IPv6 notation (hex groups, one optional `::` gap, and an
//! optional embedded IPv4 tail); the accepted spelling is kept as is.
use crate::grammar::Grammar;
use crate::server::{name_ok, Hostname};
use crate::text::{from_chars, spec_split, split_all, subvec, to_chars};
use crate::ParseError;
use vstd::prelude::*;

verus! {

pub open spec fn digit_char(c: char) -> bool {
    '0' <= c <= '9'
}

pub open spec fn digit_val(c: char) -> int {
    c as int - '0' as int
}

pub open spec fn hex_char(c: char) -> bool {
    digit_char(c) || ('a' <= c <= 'f') || ('A' <= c <= 'F')
}

pub fn is_digit_char(c: char) -> (r: bool)
    ensures
        r == digit_char(c),
{
    '0' <= c && c <= '9'
}

pub fn is_hex_char(c: char) -> (r: bool)
    ensures
        r == hex_char(c),
{
    is_digit_char(c) || ('a' <= c && c <= 'f') || ('A' <= c && c <= 'F')
}

/// The number a digit string denotes.
pub open spec fn dec_val(s: Seq<char>) -> int
    decreases s.len(),
{
    if s.len() == 0 {
        0
    } else {
        10 * dec_val(s.take(s.len() - 1)) + digit_val(s[s.len() - 1])
    }
}

/// One octet of a dotted-decimal IPv4 address: one to three digits, no
/// leading zero, value at most 255.
pub open spec fn v4_octet_ok(g: Seq<char>) -> bool {
    &&& 1 <= g.len() <= 3
    &&& forall|i: int| 0 <= i < g.len() ==> digit_char(#[trigger] g[i])
    &&& (g.len() > 1 ==> g[0] != '0')
    &&& dec_val(g) <= 255
}

/// Dotted-decimal IPv4 notation: exactly four octets.
pub open spec fn ipv4_ok(s: Seq<char>) -> bool {
    let g = spec_split(s, '.');
    g.len() == 4 && forall|i: int| 0 <= i < g.len() ==> v4_octet_ok(#[trigger] g[i])
}

/// One group of an IPv6 address: one to four hex digits.
pub open spec fn v6_group_ok(g: Seq<char>) -> bool {
    1 <= g.len() <= 4 && forall|i: int| 0 <= i < g.len() ==> hex_char(#[trigger] g[i])
}

/// The position of the first `::` in `s`, or `s.len()` when there is none.
pub open spec fn first_gap(s: Seq<char>) -> int
    decreases s.len(),
{
    if s.len() < 2 {
        s.len() as int
    } else if s[0] == ':' && s[1] == ':' {
        0
    } else {
        1 + first_gap(s.skip(1))
    }
}

pub proof fn lemma_first_gap(s: Seq<char>)
    ensures
        0 <= first_gap(s) <= s.len(),
        first_gap(s) < s.len() ==> first_gap(s) + 1 < s.len() && s[first_gap(s)] == ':' && s[
            first_gap(s) + 1] == ':',
        forall|j: int|
            0 <= j < first_gap(s) && j + 1 < s.len() ==> !(#[trigger] s[j] == ':' && s[j + 1]
                == ':'),
    decreases s.len(),
{
    if s.len() < 2 {
    } else if s[0] == ':' && s[1] == ':' {
    } else {
        lemma_first_gap(s.skip(1));
        let f = first_gap(s.skip(1));
        assert forall|j: int|
            0 <= j < 1 + f && j + 1 < s.len() implies !(#[trigger] s[j] == ':' && s[j + 1]
            == ':') by {
            if j > 0 {
                assert(s.skip(1)[j - 1] == s[j]);
                assert(s.skip(1)[j] == s[j + 1]);
            }
        }
        if f < s.skip(1).len() {
            assert(s[1 + f] == s.skip(1)[f]);
            assert(s[1 + f + 1] == s.skip(1)[f + 1]);
        }
    }
}

/// The groups before the `::` gap: either nothing, or plain hex groups.
pub open spec fn gap_head_ok(l: Seq<char>) -> bool {
    l.len() == 0 || forall|i: int|
        0 <= i < spec_split(l, ':').len() ==> v6_group_ok(#[trigger] spec_split(l, ':')[i])
}

pub open spec fn gap_head_count(l: Seq<char>) -> int {
    if l.len() == 0 {
        0
    } else {
        spec_split(l, ':').len() as int
    }
}

/// The groups after the `::` gap: either nothing, or hex groups of which
/// the last may instead be an embedded IPv4 address.
pub open spec fn gap_tail_ok(r: Seq<char>) -> bool {
    let g = spec_split(r, ':');
    r.len() == 0 || ((forall|i: int| 0 <= i < g.len() - 1 ==> v6_group_ok(#[trigger] g[i])) && (
    v6_group_ok(g[g.len() - 1]) || ipv4_ok(g[g.len() - 1])))
}

/// How many 16-bit pieces the tail stands for: an embedded IPv4 address
/// counts as two.
pub open spec fn gap_tail_count(r: Seq<char>) -> int {
    let g = spec_split(r, ':');
    if r.len() == 0 {
        0
    } else if ipv4_ok(g[g.len() - 1]) {
        g.len() + 1 as int
    } else {
        g.len() as int
    }
}

/// RFC 4291 IPv6 text: eight hex groups, or six and an embedded IPv4 tail,
/// or a single `::` gap standing for at least one zero group.
pub open spec fn ipv6_ok(s: Seq<char>) -> bool {
    let gap = first_gap(s);
    let g = spec_split(s, ':');
    if gap == s.len() {
        (g.len() == 8 && forall|i: int| 0 <= i < g.len() ==> v6_group_ok(#[trigger] g[i])) || (
        g.len() == 7 && (forall|i: int| 0 <= i < 6 ==> v6_group_ok(#[trigger] g[i])) && ipv4_ok(
            g[6],
        ))
    } else {
        let l = s.take(gap);
        let r = s.skip(gap + 2);
        gap_head_ok(l) && gap_tail_ok(r) && gap_head_count(l) + gap_tail_count(r) <= 7
    }
}

/// An IP address in either notation.
pub open spec fn ip_text_ok(s: Seq<char>) -> bool {
    ipv4_ok(s) || ipv6_ok(s)
}

/// Check one dotted-decimal octet.
fn check_v4_octet(v: &Vec<char>) -> (r: bool)
    ensures
        r == v4_octet_ok(v@),
{
    if v.len() < 1 || v.len() > 3 {
        return false;
    }
    if v.len() > 1 && v[0] == '0' {
        return false;
    }
    let mut i: usize = 0;
    let mut val: u32 = 0;
    proof {
        assert(v@.take(0) =~= Seq::<char>::empty());
    }
    while i < v.len()
        invariant
            i <= v@.len(),
            v@.len() <= 3,
            forall|j: int| 0 <= j < i ==> digit_char(#[trigger] v@[j]),
            val == dec_val(v@.take(i as int)),
            i == 0 ==> val == 0,
            i == 1 ==> val <= 9,
            i == 2 ==> val <= 99,
            i == 3 ==> val <= 999,
        decreases v@.len() - i,
    {
        let c = v[i];
        if !is_digit_char(c) {
            return false;
        }
        proof {
            assert(v@.take(i + 1).take(i as int) =~= v@.take(i as int));
            assert(v@.take(i + 1)[i as int] == v@[i as int]);
        }
        val = val * 10 + (c as u32 - 48);
        i = i + 1;
    }
    proof {
        assert(v@.take(v@.len() as int) =~= v@);
    }
    val <= 255
}

/// Check dotted-decimal IPv4 notation.
#[verifier::loop_isolation(false)]
pub fn check_ipv4(v: &Vec<char>) -> (r: bool)
    ensures
        r == ipv4_ok(v@),
{
    let groups = split_all(v, '.');
    if groups.len() != 4 {
        return false;
    }
    let mut i: usize = 0;
    while i < groups.len()
        invariant
            i <= groups@.len(),
            groups@.len() == spec_split(v@, '.').len(),
            forall|j: int| 0 <= j < groups@.len() ==> groups@[j]@ == spec_split(v@, '.')[j],
            forall|j: int| 0 <= j < i ==> v4_octet_ok(#[trigger] spec_split(v@, '.')[j]),
        decreases groups@.len() - i,
    {
        if !check_v4_octet(&groups[i]) {
            proof {
                assert(!v4_octet_ok(spec_split(v@, '.')[i as int]));
            }
            return false;
        }
        i = i + 1;
    }
    true
}

/// Check one hex group.
fn check_v6_group(v: &Vec<char>) -> (r: bool)
    ensures
        r == v6_group_ok(v@),
{
    if v.len() < 1 || v.len() > 4 {
        return false;
    }
    let mut i: usize = 0;
    while i < v.len()
        invariant
            i <= v@.len(),
            forall|j: int| 0 <= j < i ==> hex_char(#[trigger] v@[j]),
        decreases v@.len() - i,
    {
        if !is_hex_char(v[i]) {
            return false;
        }
        i = i + 1;
    }
    true
}

/// Find the first `::`, or the length when there is none.
fn find_gap(v: &Vec<char>) -> (r: usize)
    ensures
        r == first_gap(v@),
{
    let mut i: usize = 0;
    loop
        invariant
            i <= v@.len(),
            v@.len() >= 1 ==> i <= v@.len(),
            forall|j: int|
                0 <= j < i && j + 1 < v@.len() ==> !(#[trigger] v@[j] == ':' && v@[j + 1] == ':'),
        decreases v@.len() - i,
    {
        if v.len() - i <= 1 {
            proof {
                lemma_first_gap(v@);
                if first_gap(v@) < v@.len() {
                    assert(!(v@[first_gap(v@)] == ':' && v@[first_gap(v@) + 1] == ':'));
                }
            }
            return v.len();
        }
        if v[i] == ':' && v[i + 1] == ':' {
            proof {
                lemma_first_gap(v@);
                let f = first_gap(v@);
                if f < i {
                    assert(!(v@[f] == ':' && v@[f + 1] == ':'));
                }
                if f > i {
                    assert(!(v@[i as int] == ':' && v@[i + 1] == ':'));
                }
            }
            return i;
        }
        i = i + 1;
    }
}

/// Check a run of hex groups, all pieces of `v` split on `:`.
fn check_hex_groups(v: &Vec<char>) -> (r: bool)
    ensures
        r == (forall|i: int|
            0 <= i < spec_split(v@, ':').len() ==> v6_group_ok(#[trigger] spec_split(v@, ':')[i])),
{
    let groups = split_all(v, ':');
    let mut i: usize = 0;
    while i < groups.len()
        invariant
            i <= groups@.len(),
            groups@.len() == spec_split(v@, ':').len(),
            forall|j: int| 0 <= j < groups@.len() ==> groups@[j]@ == spec_split(v@, ':')[j],
            forall|j: int| 0 <= j < i ==> v6_group_ok(#[trigger] spec_split(v@, ':')[j]),
        decreases groups@.len() - i,
    {
        if !check_v6_group(&groups[i]) {
            proof {
                assert(!v6_group_ok(spec_split(v@, ':')[i as int]));
            }
            return false;
        }
        i = i + 1;
    }
    true
}

/// Check RFC 4291 IPv6 text.
#[verifier::loop_isolation(false)]
pub fn check_ipv6(v: &Vec<char>) -> (r: bool)
    ensures
        r == ipv6_ok(v@),
{
    let gap = find_gap(v);
    proof {
        lemma_first_gap(v@);
    }
    if gap == v.len() {
        let groups = split_all(v, ':');
        if groups.len() == 8 {
            check_hex_groups(v)
        } else if groups.len() == 7 {
            let mut i: usize = 0;
            while i < 6
                invariant
                    i <= 6,
                    groups@.len() == 7,
                    groups@.len() == spec_split(v@, ':').len(),
                    forall|j: int| 0 <= j < groups@.len() ==> groups@[j]@ == spec_split(v@, ':')[j],
                    forall|j: int| 0 <= j < i ==> v6_group_ok(#[trigger] spec_split(v@, ':')[j]),
                decreases 6 - i,
            {
                if !check_v6_group(&groups[i]) {
                    proof {
                        assert(!v6_group_ok(spec_split(v@, ':')[i as int]));
                    }
                    return false;
                }
                i = i + 1;
            }
            check_ipv4(&groups[6])
        } else {
            false
        }
    } else {
        let left = subvec(v, 0, gap);
        let right = subvec(v, gap + 2, v.len());
        proof {
            assert(left@ =~= v@.take(gap as int));
            assert(right@ =~= v@.skip(gap + 2));
        }
        let head_count: usize = if left.len() == 0 {
            0
        } else {
            if !check_hex_groups(&left) {
                return false;
            }
            let groups = split_all(&left, ':');
            groups.len()
        };
        let tail_count: usize = if right.len() == 0 {
            0
        } else {
            let groups = split_all(&right, ':');
            proof {
                crate::text::lemma_split_len(right@, ':');
            }
            let mut i: usize = 0;
            while i < groups.len() - 1
                invariant
                    i < groups@.len(),
                    groups@.len() == spec_split(right@, ':').len(),
                    forall|j: int|
                        0 <= j < groups@.len() ==> groups@[j]@ == spec_split(right@, ':')[j],
                    forall|j: int| 0 <= j < i ==> v6_group_ok(#[trigger] spec_split(right@, ':')[j]),
                decreases groups@.len() - i,
            {
                if !check_v6_group(&groups[i]) {
                    proof {
                        assert(!v6_group_ok(spec_split(right@, ':')[i as int]));
                        assert(!gap_tail_ok(right@));
                    }
                    return false;
                }
                i = i + 1;
            }
            let last = &groups[groups.len() - 1];
            if check_v6_group(last) {
                proof {
                    assert(!ipv4_ok(last@)) by {
                        if ipv4_ok(last@) {
                            lemma_v4_has_dot(last@);
                        }
                    }
                }
                groups.len()
            } else if check_ipv4(last) {
                if groups.len() > 6 {
                    return false;
                }
                groups.len() + 1
            } else {
                return false;
            }
        };
        if head_count <= 7 && tail_count <= 7 - head_count {
            true
        } else {
            false
        }
    }
}

/// An address in IPv4 notation has a dot, so it is never a hex group.
proof fn lemma_v4_has_dot(s: Seq<char>)
    requires
        ipv4_ok(s),
    ensures
        !v6_group_ok(s),
{
    let g = spec_split(s, '.');
    if v6_group_ok(s) {
        assert forall|j: int| 0 <= j < s.len() implies s[j] != '.' by {
            assert(hex_char(s[j]));
        }
        crate::text::lemma_split_none(s, '.');
    }
}

/// An IP address literal, kept in the spelling it arrived in.
#[derive(PartialEq, Eq, Debug, Clone)]
pub struct HostAddr {
    raw: String,
}

impl View for HostAddr {
    type V = Seq<char>;

    closed spec fn view(&self) -> Seq<char> {
        self.raw@
    }
}

impl HostAddr {
    /// A copy of this address.
    pub fn duplicate(&self) -> (r: Self)
        ensures
            r@ == self@,
    {
        HostAddr { raw: self.raw.clone() }
    }

    /// Parse an IP address literal.
    pub fn parse(s: &str) -> (r: Result<Self, ParseError>)
        ensures
            r is Ok <==> ip_text_ok(s@),
            r matches Ok(t) ==> t@ == s@,
    {
        let v = to_chars(s);
        Self::parse_chars(&v)
    }

    /// Parse an IP address literal from characters.
    pub fn parse_chars(v: &Vec<char>) -> (r: Result<Self, ParseError>)
        ensures
            r is Ok <==> ip_text_ok(v@),
            r matches Ok(t) ==> t@ == v@,
    {
        if check_ipv4(v) || check_ipv6(v) {
            Ok(HostAddr { raw: from_chars(v) })
        } else {
            Err(ParseError::new("HostAddr"))
        }
    }

    /// The textual form of this address.
    pub fn render(&self) -> (r: String)
        requires
            ip_text_ok(self@),
        ensures
            r@ == self@,
    {
        self.raw.clone()
    }
}

/// The abstract form of a host: an address literal or a name.
pub enum HostModel {
    Addr(Seq<char>),
    Name(Seq<char>),
}

/// A host: an IP address if the text reads as one, else a host name.
#[derive(PartialEq, Eq, Debug, Clone)]
pub enum Host {
    Hostaddr(HostAddr),
    Hostname(Hostname),
}

impl View for Host {
    type V = HostModel;

    open spec fn view(&self) -> HostModel {
        match self {
            Host::Hostaddr(a) => HostModel::Addr(a@),
            Host::Hostname(h) => HostModel::Name(h@),
        }
    }
}

impl Grammar for Host {
    open spec fn accepts(s: Seq<char>) -> bool {
        ip_text_ok(s) || name_ok(s)
    }

    open spec fn value_of(s: Seq<char>) -> HostModel {
        if ip_text_ok(s) {
            HostModel::Addr(s)
        } else {
            HostModel::Name(s)
        }
    }

    open spec fn model_wf(m: HostModel) -> bool {
        match m {
            HostModel::Addr(b) => ip_text_ok(b),
            HostModel::Name(b) => name_ok(b) && !ip_text_ok(b),
        }
    }

    open spec fn text_of(m: HostModel) -> Seq<char> {
        match m {
            HostModel::Addr(b) => b,
            HostModel::Name(b) => b,
        }
    }

    proof fn lemma_value_wf(s: Seq<char>) {
    }

    proof fn lemma_canonical(m: HostModel) {
    }

    fn parse_chars(v: &Vec<char>) -> (r: Result<Self, ParseError>) {
        match HostAddr::parse_chars(v) {
            Ok(a) => Ok(Host::Hostaddr(a)),
            Err(_) => {
                match Hostname::parse_chars(v) {
                    Ok(h) => Ok(Host::Hostname(h)),
                    Err(_) => Err(ParseError::new("Host")),
                }
            },
        }
    }

    fn render_chars(&self) -> (r: Vec<char>) {
        match self {
            Host::Hostaddr(a) => to_chars(a.render().as_str()),
            Host::Hostname(h) => h.render_chars(),
        }
    }
}

impl Host {
    /// A copy of this host.
    pub fn duplicate(&self) -> (r: Self)
        ensures
            r@ == self@,
    {
        match self {
            Host::Hostaddr(a) => Host::Hostaddr(a.duplicate()),
            Host::Hostname(h) => Host::Hostname(h.duplicate()),
        }
    }

    /// Parse a host: an IP address first, then a host name.
    pub fn parse(s: &str) -> (r: Result<Self, ParseError>)
        ensures
            r is Ok <==> Self::accepts(s@),
            r matches Ok(t) ==> t@ == Self::value_of(s@),
    {
        let v = to_chars(s);
        Self::parse_chars(&v)
    }

    /// The textual form of this host.
    pub fn render(&self) -> (r: String)
        requires
            Self::model_wf(self@),
        ensures
            r@ == Self::text_of(self@),
    {
        let v = self.render_chars();
        from_chars(&v)
    }
}

} // verus!
