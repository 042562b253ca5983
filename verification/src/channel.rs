//! Channels and their parts: the namespace prefix, the five-character safe
//! channel identifier, the name body, the optional server-mask suffix, and
//! the channel key.
use crate::grammar::{Atom, Grammar};
use crate::target_mask::{mask_ok, ServerMask};
use crate::text::{first_at, first_at_exec, from_chars, lemma_first_at, lemma_first_at_is, push_range, subvec, to_chars};
use crate::ParseError;
use vstd::prelude::*;

verus! {

/// A character of a safe channel identifier: `A`-`Z` or `0`-`9`.
pub open spec fn id_char(c: char) -> bool {
    ('A' <= c <= 'Z') || ('0' <= c <= '9')
}

pub fn is_id_char(c: char) -> (r: bool)
    ensures
        r == id_char(c),
{
    ('A' <= c && c <= 'Z') || ('0' <= c && c <= '9')
}

pub open spec fn channel_id_ok(s: Seq<char>) -> bool {
    s.len() == 5 && forall|i: int| 0 <= i < s.len() ==> id_char(#[trigger] s[i])
}

/// A character of a channel name: any octet except NUL, BELL, CR, LF,
/// space, comma, and colon.
pub open spec fn channel_name_char(c: char) -> bool {
    c != '\u{0}' && c != '\u{7}' && c != '\r' && c != '\n' && c != ' ' && c != ',' && c != ':'
}

pub fn is_channel_name_char(c: char) -> (r: bool)
    ensures
        r == channel_name_char(c),
{
    c != '\u{0}' && c != '\u{7}' && c != '\r' && c != '\n' && c != ' ' && c != ',' && c != ':'
}

pub open spec fn channel_name_ok(s: Seq<char>) -> bool {
    s.len() >= 1 && forall|i: int| 0 <= i < s.len() ==> channel_name_char(#[trigger] s[i])
}

/// A character of a channel key: 7-bit ASCII except NUL, ACK, TAB, LF, VT,
/// CR, and space.
pub open spec fn key_char(c: char) -> bool {
    (c as u32) < 128 && c != '\u{0}' && c != '\u{6}' && c != '\u{9}' && c != '\n' && c != '\u{b}'
        && c != '\r' && c != ' '
}

pub fn is_key_char(c: char) -> (r: bool)
    ensures
        r == key_char(c),
{
    (c as u32) < 128 && c != '\u{0}' && c != '\u{6}' && c != '\u{9}' && c != '\n' && c != '\u{b}'
        && c != '\r' && c != ' '
}

pub open spec fn channel_key_ok(s: Seq<char>) -> bool {
    1 <= s.len() <= 23 && forall|i: int| 0 <= i < s.len() ==> key_char(#[trigger] s[i])
}

/// The five-character identifier of a safe channel.
#[derive(PartialEq, Eq, Debug, Clone)]
pub struct ChannelID {
    raw: String,
}

impl View for ChannelID {
    type V = Seq<char>;

    closed spec fn view(&self) -> Seq<char> {
        self.raw@
    }
}

impl Grammar for ChannelID {
    open spec fn accepts(s: Seq<char>) -> bool {
        channel_id_ok(s)
    }

    open spec fn value_of(s: Seq<char>) -> Seq<char> {
        s
    }

    open spec fn model_wf(m: Seq<char>) -> bool {
        channel_id_ok(m)
    }

    open spec fn text_of(m: Seq<char>) -> Seq<char> {
        m
    }

    proof fn lemma_value_wf(s: Seq<char>) {
    }

    proof fn lemma_canonical(m: Seq<char>) {
    }

    fn parse_chars(v: &Vec<char>) -> (r: Result<Self, ParseError>) {
        if v.len() != 5 {
            return Err(ParseError::new("ChannelID"));
        }
        let mut i: usize = 0;
        while i < v.len()
            invariant
                i <= v@.len(),
                forall|j: int| 0 <= j < i ==> id_char(#[trigger] v@[j]),
            decreases v@.len() - i,
        {
            if !is_id_char(v[i]) {
                return Err(ParseError::new("ChannelID"));
            }
            i = i + 1;
        }
        Ok(ChannelID { raw: from_chars(v) })
    }

    fn render_chars(&self) -> (r: Vec<char>) {
        to_chars(self.raw.as_str())
    }
}

impl ChannelID {
    /// Parse a safe channel identifier.
    pub fn parse(s: &str) -> (r: Result<Self, ParseError>)
        ensures
            r is Ok <==> channel_id_ok(s@),
            r matches Ok(t) ==> t@ == s@,
    {
        let v = to_chars(s);
        Self::parse_chars(&v)
    }

    /// The textual form of this identifier.
    pub fn render(&self) -> (r: String)
        requires
            Self::model_wf(self@),
        ensures
            r@ == self@,
    {
        self.raw.clone()
    }
}

/// The name part of a channel, without prefix or suffix.
#[derive(PartialEq, Eq, Debug, Clone)]
pub struct ChannelName {
    raw: String,
}

impl View for ChannelName {
    type V = Seq<char>;

    closed spec fn view(&self) -> Seq<char> {
        self.raw@
    }
}

impl Grammar for ChannelName {
    open spec fn accepts(s: Seq<char>) -> bool {
        channel_name_ok(s)
    }

    open spec fn value_of(s: Seq<char>) -> Seq<char> {
        s
    }

    open spec fn model_wf(m: Seq<char>) -> bool {
        channel_name_ok(m)
    }

    open spec fn text_of(m: Seq<char>) -> Seq<char> {
        m
    }

    proof fn lemma_value_wf(s: Seq<char>) {
    }

    proof fn lemma_canonical(m: Seq<char>) {
    }

    fn parse_chars(v: &Vec<char>) -> (r: Result<Self, ParseError>) {
        if v.len() == 0 {
            return Err(ParseError::new("ChannelName"));
        }
        let mut i: usize = 0;
        while i < v.len()
            invariant
                i <= v@.len(),
                forall|j: int| 0 <= j < i ==> channel_name_char(#[trigger] v@[j]),
            decreases v@.len() - i,
        {
            if !is_channel_name_char(v[i]) {
                return Err(ParseError::new("ChannelName"));
            }
            i = i + 1;
        }
        Ok(ChannelName { raw: from_chars(v) })
    }

    fn render_chars(&self) -> (r: Vec<char>) {
        to_chars(self.raw.as_str())
    }
}

impl ChannelName {
    /// Parse a channel name body.
    pub fn parse(s: &str) -> (r: Result<Self, ParseError>)
        ensures
            r is Ok <==> channel_name_ok(s@),
            r matches Ok(t) ==> t@ == s@,
    {
        let v = to_chars(s);
        Self::parse_chars(&v)
    }

    /// The textual form of this name.
    pub fn render(&self) -> (r: String)
        requires
            Self::model_wf(self@),
        ensures
            r@ == self@,
    {
        self.raw.clone()
    }
}

/// A password restricting access to a channel.
#[derive(PartialEq, Eq, Debug, Clone)]
pub struct ChannelKey {
    raw: String,
}

impl View for ChannelKey {
    type V = Seq<char>;

    closed spec fn view(&self) -> Seq<char> {
        self.raw@
    }
}

impl Grammar for ChannelKey {
    open spec fn accepts(s: Seq<char>) -> bool {
        channel_key_ok(s)
    }

    open spec fn value_of(s: Seq<char>) -> Seq<char> {
        s
    }

    open spec fn model_wf(m: Seq<char>) -> bool {
        channel_key_ok(m)
    }

    open spec fn text_of(m: Seq<char>) -> Seq<char> {
        m
    }

    proof fn lemma_value_wf(s: Seq<char>) {
    }

    proof fn lemma_canonical(m: Seq<char>) {
    }

    fn parse_chars(v: &Vec<char>) -> (r: Result<Self, ParseError>) {
        if v.len() == 0 || v.len() > 23 {
            return Err(ParseError::new("ChannelKey"));
        }
        let mut i: usize = 0;
        while i < v.len()
            invariant
                i <= v@.len(),
                forall|j: int| 0 <= j < i ==> key_char(#[trigger] v@[j]),
            decreases v@.len() - i,
        {
            if !is_key_char(v[i]) {
                return Err(ParseError::new("ChannelKey"));
            }
            i = i + 1;
        }
        Ok(ChannelKey { raw: from_chars(v) })
    }

    fn render_chars(&self) -> (r: Vec<char>) {
        to_chars(self.raw.as_str())
    }
}

impl Atom for ChannelKey {
    proof fn lemma_nonempty(s: Seq<char>) {
    }
}

impl ChannelKey {
    /// Parse a channel key.
    pub fn parse(s: &str) -> (r: Result<Self, ParseError>)
        ensures
            r is Ok <==> channel_key_ok(s@),
            r matches Ok(t) ==> t@ == s@,
    {
        let v = to_chars(s);
        Self::parse_chars(&v)
    }

    /// The textual form of this key.
    pub fn render(&self) -> (r: String)
        requires
            Self::model_wf(self@),
        ensures
            r@ == self@,
    {
        self.raw.clone()
    }
}

/// The abstract form of a channel namespace.
pub enum ChannelTypeModel {
    Local,
    Safe(Seq<char>),
    NoMode,
    Public,
}

/// The namespace of a channel: `&` local, `+` without modes, `#` public, or
/// `!` safe with its five-character identifier.
#[derive(PartialEq, Eq, Debug, Clone)]
pub enum ChannelType {
    Local,
    Safe(ChannelID),
    NoMode,
    Public,
}

impl View for ChannelType {
    type V = ChannelTypeModel;

    open spec fn view(&self) -> ChannelTypeModel {
        match self {
            ChannelType::Local => ChannelTypeModel::Local,
            ChannelType::Safe(id) => ChannelTypeModel::Safe(id@),
            ChannelType::NoMode => ChannelTypeModel::NoMode,
            ChannelType::Public => ChannelTypeModel::Public,
        }
    }
}

/// The prefix a channel type renders as: one character, or `!` followed by
/// the safe channel identifier.
pub open spec fn ctype_text(m: ChannelTypeModel) -> Seq<char> {
    match m {
        ChannelTypeModel::Local => seq!['&'],
        ChannelTypeModel::NoMode => seq!['+'],
        ChannelTypeModel::Public => seq!['#'],
        ChannelTypeModel::Safe(id) => seq!['!'] + id,
    }
}

pub open spec fn ctype_wf(m: ChannelTypeModel) -> bool {
    match m {
        ChannelTypeModel::Safe(id) => channel_id_ok(id),
        _ => true,
    }
}

impl Grammar for ChannelType {
    open spec fn accepts(s: Seq<char>) -> bool {
        (s.len() == 1 && (s[0] == '&' || s[0] == '+' || s[0] == '#')) || (s.len() == 6 && s[0]
            == '!' && channel_id_ok(s.skip(1)))
    }

    open spec fn value_of(s: Seq<char>) -> ChannelTypeModel {
        if s[0] == '&' {
            ChannelTypeModel::Local
        } else if s[0] == '+' {
            ChannelTypeModel::NoMode
        } else if s[0] == '#' {
            ChannelTypeModel::Public
        } else {
            ChannelTypeModel::Safe(s.skip(1))
        }
    }

    open spec fn model_wf(m: ChannelTypeModel) -> bool {
        ctype_wf(m)
    }

    open spec fn text_of(m: ChannelTypeModel) -> Seq<char> {
        ctype_text(m)
    }

    proof fn lemma_value_wf(s: Seq<char>) {
        if s.len() == 1 {
            assert(Self::text_of(Self::value_of(s)) =~= s);
        } else {
            assert(seq!['!'] + s.skip(1) =~= s);
        }
    }

    proof fn lemma_canonical(m: ChannelTypeModel) {
        match m {
            ChannelTypeModel::Safe(id) => {
                assert((seq!['!'] + id).skip(1) =~= id);
            },
            _ => {},
        }
    }

    fn parse_chars(v: &Vec<char>) -> (r: Result<Self, ParseError>) {
        if v.len() == 1 {
            if v[0] == '&' {
                Ok(ChannelType::Local)
            } else if v[0] == '+' {
                Ok(ChannelType::NoMode)
            } else if v[0] == '#' {
                Ok(ChannelType::Public)
            } else {
                Err(ParseError::new("ChannelType"))
            }
        } else if v.len() == 6 && v[0] == '!' {
            let body = subvec(v, 1, v.len());
            proof {
                assert(body@ =~= v@.skip(1));
            }
            match ChannelID::parse_chars(&body) {
                Ok(id) => Ok(ChannelType::Safe(id)),
                Err(_) => Err(ParseError::new("ChannelType")),
            }
        } else {
            Err(ParseError::new("ChannelType"))
        }
    }

    fn render_chars(&self) -> (r: Vec<char>) {
        let mut r: Vec<char> = Vec::new();
        match self {
            ChannelType::Local => {
                r.push('&');
                proof {
                    assert(r@ =~= ctype_text(self@));
                }
            },
            ChannelType::NoMode => {
                r.push('+');
                proof {
                    assert(r@ =~= ctype_text(self@));
                }
            },
            ChannelType::Public => {
                r.push('#');
                proof {
                    assert(r@ =~= ctype_text(self@));
                }
            },
            ChannelType::Safe(id) => {
                r.push('!');
                let body = id.render_chars();
                push_range(&mut r, &body, 0, body.len());
                proof {
                    assert(body@.subrange(0, body@.len() as int) =~= body@);
                    assert(r@ =~= ctype_text(self@));
                }
            },
        }
        r
    }
}

impl ChannelType {
    /// Parse a channel type prefix standing alone.
    pub fn parse(s: &str) -> (r: Result<Self, ParseError>)
        ensures
            r is Ok <==> Self::accepts(s@),
            r matches Ok(t) ==> t@ == Self::value_of(s@),
    {
        let v = to_chars(s);
        Self::parse_chars(&v)
    }

    /// The prefix this channel type renders as.
    pub fn render(&self) -> (r: String)
        requires
            ctype_wf(self@),
        ensures
            r@ == ctype_text(self@),
    {
        let v = self.render_chars();
        from_chars(&v)
    }
}

/// The abstract form of a channel.
pub struct ChannelModel {
    pub ctype: ChannelTypeModel,
    pub name: Seq<char>,
    pub mask: Option<Seq<char>>,
}

/// The channel body: prefix and name, without the mask suffix.
pub open spec fn channel_body_text(m: ChannelModel) -> Seq<char> {
    ctype_text(m.ctype) + m.name
}

/// Which channel bodies the parser takes: two to fifty characters, a safe
/// channel when `!` leads and an identifier fits, else a one-character
/// prefix and a name.
pub open spec fn channel_body_ok(b: Seq<char>) -> bool {
    &&& 2 <= b.len() <= 50
    &&& if b[0] == '!' && b.len() > 6 {
        channel_id_ok(b.subrange(1, 6)) && channel_name_ok(b.skip(6))
    } else {
        (b[0] == '&' || b[0] == '+' || b[0] == '#') && channel_name_ok(b.skip(1))
    }
}

pub open spec fn channel_body_value(b: Seq<char>) -> ChannelModel {
    if b[0] == '!' && b.len() > 6 {
        ChannelModel { ctype: ChannelTypeModel::Safe(b.subrange(1, 6)), name: b.skip(6), mask: None }
    } else {
        ChannelModel {
            ctype: if b[0] == '&' {
                ChannelTypeModel::Local
            } else if b[0] == '+' {
                ChannelTypeModel::NoMode
            } else {
                ChannelTypeModel::Public
            },
            name: b.skip(1),
            mask: None,
        }
    }
}

/// A channel: `<prefix><name>`, optionally restricted to the servers a mask
/// names by a `:<mask>` suffix.
#[derive(PartialEq, Eq, Debug, Clone)]
pub struct Channel {
    channel_type: ChannelType,
    channel_name: ChannelName,
    server_mask: Option<ServerMask>,
}

impl View for Channel {
    type V = ChannelModel;

    closed spec fn view(&self) -> ChannelModel {
        ChannelModel {
            ctype: self.channel_type@,
            name: self.channel_name@,
            mask: match &self.server_mask {
                Some(m) => Some(m@),
                None => None,
            },
        }
    }
}

impl Grammar for Channel {
    open spec fn accepts(s: Seq<char>) -> bool {
        let d = first_at(s, ':');
        if d < s.len() {
            channel_body_ok(s.take(d)) && mask_ok(s.skip(d + 1))
        } else {
            channel_body_ok(s)
        }
    }

    open spec fn value_of(s: Seq<char>) -> ChannelModel {
        let d = first_at(s, ':');
        if d < s.len() {
            ChannelModel { mask: Some(s.skip(d + 1)), ..channel_body_value(s.take(d)) }
        } else {
            channel_body_value(s)
        }
    }

    open spec fn model_wf(m: ChannelModel) -> bool {
        &&& ctype_wf(m.ctype)
        &&& channel_name_ok(m.name)
        &&& channel_body_text(m).len() <= 50
        &&& match m.mask {
            Some(k) => mask_ok(k),
            None => true,
        }
    }

    open spec fn text_of(m: ChannelModel) -> Seq<char> {
        channel_body_text(m) + match m.mask {
            Some(k) => seq![':'] + k,
            None => Seq::<char>::empty(),
        }
    }

    proof fn lemma_value_wf(s: Seq<char>) {
        let d = first_at(s, ':');
        lemma_first_at(s, ':');
        if d < s.len() {
            let b = s.take(d);
            lemma_channel_body(b);
            assert(channel_body_text(channel_body_value(b)) + (seq![':'] + s.skip(d + 1)) =~= s);
        } else {
            lemma_channel_body(s);
            assert(channel_body_text(channel_body_value(s)) + Seq::<char>::empty() =~= s);
        }
    }

    proof fn lemma_canonical(m: ChannelModel) {
        let b = channel_body_text(m);
        lemma_channel_body_of_model(m);
        let t = Self::text_of(m);
        match m.mask {
            Some(k) => {
                assert forall|j: int| 0 <= j < b.len() implies t[j] != ':' by {
                    assert(t[j] == b[j]);
                }
                assert(t[b.len() as int] == ':');
                lemma_first_at_is(t, ':', b.len() as int);
                assert(t.take(b.len() as int) =~= b);
                assert(t.skip(b.len() as int + 1) =~= k);
                assert(Self::value_of(t).ctype == channel_body_value(b).ctype);
            },
            None => {
                assert(t =~= b);
                assert forall|j: int| 0 <= j < t.len() implies t[j] != ':' by {
                    assert(t[j] == b[j]);
                }
                assert(!crate::text::seq_contains(t, ':'));
                lemma_first_at_is(t, ':', t.len() as int);
            },
        }
    }

    fn parse_chars(v: &Vec<char>) -> (r: Result<Self, ParseError>) {
        let d = first_at_exec(v, ':');
        proof {
            lemma_first_at(v@, ':');
        }
        let server_mask: Option<ServerMask> = if d < v.len() {
            let mask_part = subvec(v, d + 1, v.len());
            proof {
                assert(mask_part@ =~= v@.skip(d + 1));
            }
            match ServerMask::parse_chars(&mask_part) {
                Ok(m) => Some(m),
                Err(e) => {
                    return Err(e);
                },
            }
        } else {
            None
        };
        let body = subvec(v, 0, d);
        proof {
            if (d as int) < v@.len() {
                assert(body@ =~= v@.take(d as int));
            } else {
                assert(body@ =~= v@);
            }
        }
        if body.len() < 2 || body.len() > 50 {
            return Err(ParseError::new("Channel"));
        }
        if body[0] == '!' && body.len() > 6 {
            let id_part = subvec(&body, 1, 6);
            proof {
                assert(id_part@ =~= body@.subrange(1, 6));
            }
            let id = match ChannelID::parse_chars(&id_part) {
                Ok(id) => id,
                Err(e) => {
                    return Err(e);
                },
            };
            let name_part = subvec(&body, 6, body.len());
            proof {
                assert(name_part@ =~= body@.skip(6));
            }
            let name = match ChannelName::parse_chars(&name_part) {
                Ok(n) => n,
                Err(e) => {
                    return Err(e);
                },
            };
            Ok(Channel { channel_type: ChannelType::Safe(id), channel_name: name, server_mask })
        } else {
            let channel_type = if body[0] == '&' {
                ChannelType::Local
            } else if body[0] == '+' {
                ChannelType::NoMode
            } else if body[0] == '#' {
                ChannelType::Public
            } else {
                return Err(ParseError::new("Channel"));
            };
            let name_part = subvec(&body, 1, body.len());
            proof {
                assert(name_part@ =~= body@.skip(1));
            }
            let name = match ChannelName::parse_chars(&name_part) {
                Ok(n) => n,
                Err(e) => {
                    return Err(e);
                },
            };
            Ok(Channel { channel_type, channel_name: name, server_mask })
        }
    }

    fn render_chars(&self) -> (r: Vec<char>) {
        let mut r = self.channel_type.render_chars();
        let name = self.channel_name.render_chars();
        push_range(&mut r, &name, 0, name.len());
        proof {
            assert(name@.subrange(0, name@.len() as int) =~= name@);
        }
        match &self.server_mask {
            Some(m) => {
                r.push(':');
                let k = m.render_chars();
                push_range(&mut r, &k, 0, k.len());
                proof {
                    assert(k@.subrange(0, k@.len() as int) =~= k@);
                    assert(r@ =~= Channel::text_of(self@));
                }
            },
            None => {
                proof {
                    assert(r@ =~= Channel::text_of(self@));
                }
            },
        }
        r
    }
}

/// Decomposing an accepted channel body and re-rendering it gives the body
/// back, and the decomposition is well-formed.
proof fn lemma_channel_body(b: Seq<char>)
    requires
        channel_body_ok(b),
    ensures
        ctype_wf(channel_body_value(b).ctype),
        channel_name_ok(channel_body_value(b).name),
        channel_body_text(channel_body_value(b)) == b,
{
    if b[0] == '!' && b.len() > 6 {
        assert((seq!['!'] + b.subrange(1, 6)) + b.skip(6) =~= b);
    } else {
        assert(seq![b[0]] + b.skip(1) =~= b);
    }
}

/// The body text of a well-formed model decomposes back into the model.
proof fn lemma_channel_body_of_model(m: ChannelModel)
    requires
        ctype_wf(m.ctype),
        channel_name_ok(m.name),
        channel_body_text(m).len() <= 50,
    ensures
        channel_body_ok(channel_body_text(m)),
        channel_body_value(channel_body_text(m)).ctype == m.ctype,
        channel_body_value(channel_body_text(m)).name == m.name,
        forall|j: int|
            0 <= j < channel_body_text(m).len() ==> #[trigger] channel_body_text(m)[j] != ':',
{
    let b = channel_body_text(m);
    match m.ctype {
        ChannelTypeModel::Safe(id) => {
            assert(b.len() == 6 + m.name.len());
            assert(b[0] == '!');
            assert(b.subrange(1, 6) =~= id);
            assert(b.skip(6) =~= m.name);
            assert forall|j: int| 0 <= j < b.len() implies b[j] != ':' by {
                if j == 0 {
                } else if j < 6 {
                    assert(id_char(id[j - 1]));
                } else {
                    assert(channel_name_char(m.name[j - 6]));
                }
            }
        },
        _ => {
            assert(b.len() == 1 + m.name.len());
            assert(b.skip(1) =~= m.name);
            assert(b[0] == '&' || b[0] == '+' || b[0] == '#');
            assert(b[0] != '!');
            assert forall|j: int| 0 <= j < b.len() implies b[j] != ':' by {
                if j > 0 {
                    assert(channel_name_char(m.name[j - 1]));
                }
            }
        },
    }
}

impl Atom for Channel {
    proof fn lemma_nonempty(s: Seq<char>) {
        let d = first_at(s, ':');
        lemma_first_at(s, ':');
    }
}

impl Channel {
    /// Build a channel from its parts.
    pub fn new(channel_type: ChannelType, channel_name: ChannelName, server_mask: Option<
        ServerMask,
    >) -> (r: Channel)
        ensures
            r@ == (ChannelModel {
                ctype: channel_type@,
                name: channel_name@,
                mask: match server_mask {
                    Some(m) => Some(m@),
                    None => None,
                },
            }),
    {
        Channel { channel_type, channel_name, server_mask }
    }

    /// Parse a channel, mask suffix included.
    pub fn parse(s: &str) -> (r: Result<Self, ParseError>)
        ensures
            r is Ok <==> Self::accepts(s@),
            r matches Ok(t) ==> t@ == Self::value_of(s@),
    {
        let v = to_chars(s);
        Self::parse_chars(&v)
    }

    /// The textual form of this channel.
    pub fn render(&self) -> (r: String)
        requires
            Self::model_wf(self@),
        ensures
            r@ == Self::text_of(self@),
    {
        let v = self.render_chars();
        from_chars(&v)
    }
}

/// A channel's text opens with its namespace prefix.
pub proof fn lemma_channel_text_first(m: ChannelModel)
    requires
        ctype_wf(m.ctype),
        channel_name_ok(m.name),
    ensures
        Channel::text_of(m).len() >= 1,
        Channel::text_of(m)[0] == '&' || Channel::text_of(m)[0] == '+' || Channel::text_of(m)[0]
            == '#' || Channel::text_of(m)[0] == '!',
{
    let t = Channel::text_of(m);
    match m.ctype {
        ChannelTypeModel::Local => {
            assert(t[0] == '&');
        },
        ChannelTypeModel::NoMode => {
            assert(t[0] == '+');
        },
        ChannelTypeModel::Public => {
            assert(t[0] == '#');
        },
        ChannelTypeModel::Safe(id) => {
            assert(t[0] == '!');
        },
    }
}

} // verus!
