//! The origin prefix of a message: a server name, or a user written
//! `nick`, `nick@host`, or `nick!user@host`. A text that holds a dot and
//! reads as a server name is a server; otherwise the `!` and `@`
//! separators decide the user form.
use crate::grammar::Grammar;
use crate::host::{Host, HostModel};
use crate::server::{name_char, name_ok, Servername};
use crate::text::{find_char, first_at, from_chars, lemma_first_at, lemma_first_at_is, push_range, seq_contains, subvec, to_chars};
use crate::user::{nick_rest_char, nick_start_char, username_char, Nickname, Username};
use crate::ParseError;
use vstd::prelude::*;

verus! {

/// `c` occurs in `s` exactly once, namely first.
pub open spec fn only_one(s: Seq<char>, c: char) -> bool {
    first_at(s, c) < s.len() && forall|k: int| first_at(s, c) < k < s.len() ==> s[k] != c
}

/// The abstract form of a sender.
pub enum SenderModel {
    User { nickname: Seq<char>, user: Option<Seq<char>>, host: Option<HostModel> },
    Server(Seq<char>),
}

/// Whoever originated a message: a user or a server.
#[derive(PartialEq, Eq, Debug, Clone)]
pub enum Sender {
    User { nickname: Nickname, user: Option<Username>, host: Option<Host> },
    Server(Servername),
}

impl View for Sender {
    type V = SenderModel;

    open spec fn view(&self) -> SenderModel {
        match self {
            Sender::User { nickname, user, host } => SenderModel::User {
                nickname: nickname@,
                user: match user {
                    Some(u) => Some(u@),
                    None => None,
                },
                host: match host {
                    Some(h) => Some(h@),
                    None => None,
                },
            },
            Sender::Server(s) => SenderModel::Server(s@),
        }
    }
}

/// The server disambiguation rule: a dotted text that reads as a server
/// name is a server, whatever else it might read as.
pub open spec fn sender_is_server(s: Seq<char>) -> bool {
    name_ok(s) && seq_contains(s, '.')
}

impl Grammar for Sender {
    open spec fn accepts(s: Seq<char>) -> bool {
        ||| sender_is_server(s)
        ||| (!sender_is_server(s) && {
            let i = first_at(s, '!');
            let j = first_at(s, '@');
            ||| (i == s.len() && j == s.len() && Nickname::accepts(s))
            ||| (i == s.len() && only_one(s, '@') && Nickname::accepts(s.take(j))
                && Host::accepts(s.skip(j + 1)))
            ||| (only_one(s, '!') && only_one(s, '@') && i < j && Nickname::accepts(s.take(i))
                && Username::accepts(s.subrange(i + 1, j)) && Host::accepts(s.skip(j + 1)))
        })
    }

    open spec fn value_of(s: Seq<char>) -> SenderModel {
        if sender_is_server(s) {
            SenderModel::Server(s)
        } else {
            let i = first_at(s, '!');
            let j = first_at(s, '@');
            if i == s.len() && j == s.len() {
                SenderModel::User { nickname: s, user: None, host: None }
            } else if i == s.len() {
                SenderModel::User {
                    nickname: s.take(j),
                    user: None,
                    host: Some(Host::value_of(s.skip(j + 1))),
                }
            } else {
                SenderModel::User {
                    nickname: s.take(i),
                    user: Some(s.subrange(i + 1, j)),
                    host: Some(Host::value_of(s.skip(j + 1))),
                }
            }
        }
    }

    open spec fn model_wf(m: SenderModel) -> bool {
        match m {
            SenderModel::Server(b) => name_ok(b) && seq_contains(b, '.'),
            SenderModel::User { nickname, user, host } => {
                &&& Nickname::accepts(nickname)
                &&& match (user, host) {
                    (None, None) => true,
                    (None, Some(hm)) => Host::model_wf(hm) && host_text_plain(Host::text_of(hm)),
                    (Some(u), Some(hm)) => Username::accepts(u) && !seq_contains(u, '!')
                        && Host::model_wf(hm) && host_text_plain(Host::text_of(hm)),
                    (Some(_), None) => false,
                }
            },
        }
    }

    open spec fn text_of(m: SenderModel) -> Seq<char> {
        match m {
            SenderModel::Server(b) => b,
            SenderModel::User { nickname, user, host } => match (user, host) {
                (_, None) => nickname,
                (None, Some(hm)) => nickname + seq!['@'] + Host::text_of(hm),
                (Some(u), Some(hm)) => nickname + seq!['!'] + u + seq!['@'] + Host::text_of(hm),
            },
        }
    }

    proof fn lemma_value_wf(s: Seq<char>) {
        if sender_is_server(s) {
        } else {
            let i = first_at(s, '!');
            let j = first_at(s, '@');
            lemma_first_at(s, '!');
            lemma_first_at(s, '@');
            if i == s.len() && j == s.len() {
            } else if i == s.len() {
                let h = s.skip(j + 1);
                Host::lemma_value_wf(h);
                assert(host_text_plain(h)) by {
                    assert forall|k: int| 0 <= k < h.len() implies h[k] != '@' && h[k] != '!' by {
                        assert(h[k] == s[j + 1 + k]);
                    }
                }
                assert(Self::text_of(Self::value_of(s)) =~= s);
            } else {
                let h = s.skip(j + 1);
                let u = s.subrange(i + 1, j);
                Host::lemma_value_wf(h);
                assert(host_text_plain(h)) by {
                    assert forall|k: int| 0 <= k < h.len() implies h[k] != '@' && h[k] != '!' by {
                        assert(h[k] == s[j + 1 + k]);
                    }
                }
                assert(!seq_contains(u, '!')) by {
                    assert forall|k: int| 0 <= k < u.len() implies u[k] != '!' by {
                        assert(u[k] == s[i + 1 + k]);
                    }
                }
                assert(Self::text_of(Self::value_of(s)) =~= s);
            }
        }
    }

    proof fn lemma_canonical(m: SenderModel) {
        let t = Self::text_of(m);
        match m {
            SenderModel::Server(b) => {},
            SenderModel::User { nickname, user, host } => {
                lemma_nick_chars(nickname);
                match (user, host) {
                    (None, None) => {
                        assert(!seq_contains(t, '.')) by {
                            if seq_contains(t, '.') {
                                let k = choose|k: int| 0 <= k < t.len() && t[k] == '.';
                                assert(t[k] != '.');
                            }
                        }
                        lemma_first_at_is(t, '!', t.len() as int);
                        lemma_first_at_is(t, '@', t.len() as int);
                    },
                    (Some(_), None) => {},
                    (None, Some(hm)) => {
                        let h = Host::text_of(hm);
                        let n = nickname.len() as int;
                        assert(t[n] == '@');
                        assert(!name_ok(t)) by {
                            assert(!name_char('@'));
                        }
                        assert forall|k: int| 0 <= k < t.len() && k != n implies t[k] != '@' by {
                            if k < n {
                                assert(t[k] == nickname[k]);
                            } else {
                                assert(t[k] == h[k - n - 1]);
                            }
                        }
                        assert forall|k: int| 0 <= k < t.len() implies t[k] != '!' by {
                            if k < n {
                                assert(t[k] == nickname[k]);
                            } else if k > n {
                                assert(t[k] == h[k - n - 1]);
                            }
                        }
                        lemma_first_at_is(t, '@', n);
                        lemma_first_at_is(t, '!', t.len() as int);
                        assert(t.take(n) =~= nickname);
                        assert(t.skip(n + 1) =~= h);
                        Host::lemma_canonical(hm);
                    },
                    (Some(u), Some(hm)) => {
                        let h = Host::text_of(hm);
                        let n = nickname.len() as int;
                        let ju = n + 1 + u.len() as int;
                        assert(t[n] == '!');
                        assert(t[ju] == '@');
                        assert(!name_ok(t)) by {
                            assert(!name_char('@'));
                        }
                        assert forall|k: int| 0 <= k < t.len() && k != ju implies t[k] != '@' by {
                            if k < n {
                                assert(t[k] == nickname[k]);
                            } else if n < k < ju {
                                assert(t[k] == u[k - n - 1]);
                                assert(username_char(u[k - n - 1]));
                            } else if k > ju {
                                assert(t[k] == h[k - ju - 1]);
                            }
                        }
                        assert forall|k: int| 0 <= k < t.len() && k != n implies t[k] != '!' by {
                            if k < n {
                                assert(t[k] == nickname[k]);
                            } else if n < k < ju {
                                assert(t[k] == u[k - n - 1]);
                            } else if k > ju {
                                assert(t[k] == h[k - ju - 1]);
                            }
                        }
                        lemma_first_at_is(t, '!', n);
                        lemma_first_at_is(t, '@', ju);
                        assert(t.take(n) =~= nickname);
                        assert(t.subrange(n + 1, ju) =~= u);
                        assert(t.skip(ju + 1) =~= h);
                        Host::lemma_canonical(hm);
                    },
                }
            },
        }
    }

    fn parse_chars(v: &Vec<char>) -> (r: Result<Self, ParseError>) {
        proof {
            lemma_first_at(v@, '!');
            lemma_first_at(v@, '@');
        }
        if crate::server::check_name(v) && crate::text::contains_char(v, 0, '.') {
            proof {
                assert(v@.skip(0) =~= v@);
            }
            match Servername::parse_chars(v) {
                Ok(sn) => {
                    return Ok(Sender::Server(sn));
                },
                Err(e) => {
                    return Err(e);
                },
            }
        }
        proof {
            assert(v@.skip(0) =~= v@);
            assert(!sender_is_server(v@));
        }
        let i = crate::text::first_at_exec(v, '!');
        let j = crate::text::first_at_exec(v, '@');
        if i == v.len() && j == v.len() {
            match Nickname::parse_chars(v) {
                Ok(n) => Ok(Sender::User { nickname: n, user: None, host: None }),
                Err(e) => Err(e),
            }
        } else if i == v.len() {
            if find_char(v, j + 1, '@').is_some() {
                proof {
                    assert(!Sender::accepts(v@));
                }
                return Err(ParseError::new("Sender"));
            }
            let nick_part = subvec(v, 0, j);
            let host_part = subvec(v, j + 1, v.len());
            proof {
                assert(nick_part@ =~= v@.take(j as int));
                assert(host_part@ =~= v@.skip(j + 1));
            }
            let n = match Nickname::parse_chars(&nick_part) {
                Ok(n) => n,
                Err(e) => {
                    return Err(e);
                },
            };
            let h = match Host::parse_chars(&host_part) {
                Ok(h) => h,
                Err(e) => {
                    return Err(e);
                },
            };
            Ok(Sender::User { nickname: n, user: None, host: Some(h) })
        } else if i < j && j < v.len() {
            if find_char(v, i + 1, '!').is_some() || find_char(v, j + 1, '@').is_some() {
                proof {
                    assert(!Sender::accepts(v@));
                }
                return Err(ParseError::new("Sender"));
            }
            let nick_part = subvec(v, 0, i);
            let user_part = subvec(v, i + 1, j);
            let host_part = subvec(v, j + 1, v.len());
            proof {
                assert(nick_part@ =~= v@.take(i as int));
                assert(user_part@ =~= v@.subrange(i + 1, j as int));
                assert(host_part@ =~= v@.skip(j + 1));
            }
            let n = match Nickname::parse_chars(&nick_part) {
                Ok(n) => n,
                Err(e) => {
                    return Err(e);
                },
            };
            let u = match Username::parse_chars(&user_part) {
                Ok(u) => u,
                Err(e) => {
                    return Err(e);
                },
            };
            let h = match Host::parse_chars(&host_part) {
                Ok(h) => h,
                Err(e) => {
                    return Err(e);
                },
            };
            Ok(Sender::User { nickname: n, user: Some(u), host: Some(h) })
        } else {
            proof {
                assert(!Sender::accepts(v@));
            }
            Err(ParseError::new("Sender"))
        }
    }

    fn render_chars(&self) -> (r: Vec<char>) {
        match self {
            Sender::Server(sn) => sn.render_chars(),
            Sender::User { nickname, user, host } => {
                let mut r = nickname.render_chars();
                match host {
                    None => {
                        proof {
                            assert(r@ =~= Sender::text_of(self@));
                        }
                    },
                    Some(h) => {
                        match user {
                            Some(u) => {
                                r.push('!');
                                let uc = u.render_chars();
                                push_range(&mut r, &uc, 0, uc.len());
                                proof {
                                    assert(uc@.subrange(0, uc@.len() as int) =~= uc@);
                                }
                            },
                            None => {},
                        }
                        r.push('@');
                        let hc = h.render_chars();
                        push_range(&mut r, &hc, 0, hc.len());
                        proof {
                            assert(hc@.subrange(0, hc@.len() as int) =~= hc@);
                            assert(r@ =~= Sender::text_of(self@));
                        }
                    },
                }
                r
            },
        }
    }
}

/// A host's rendered text never holds `@` or `!`; senders built from parts
/// record that as part of well-formedness.
pub open spec fn host_text_plain(h: Seq<char>) -> bool {
    !seq_contains(h, '@') && !seq_contains(h, '!')
}

/// Nickname characters exclude the separators and the dot.
pub proof fn lemma_nick_chars(n: Seq<char>)
    requires
        Nickname::accepts(n),
    ensures
        forall|k: int| 0 <= k < n.len() ==> n[k] != '.' && n[k] != '@' && n[k] != '!' && n[k]
            != '%',
{
    assert forall|k: int| 0 <= k < n.len() implies n[k] != '.' && n[k] != '@' && n[k] != '!' && n[k]
        != '%' by {
        if k == 0 {
            assert(nick_start_char(n[0]));
        } else {
            assert(nick_rest_char(n[k]));
        }
    }
}

impl Sender {
    /// A copy of this sender.
    pub fn duplicate(&self) -> (r: Self)
        ensures
            r@ == self@,
    {
        match self {
            Sender::Server(sn) => Sender::Server(sn.duplicate()),
            Sender::User { nickname, user, host } => Sender::User {
                nickname: nickname.duplicate(),
                user: match user {
                    Some(u) => Some(u.duplicate()),
                    None => None,
                },
                host: match host {
                    Some(h) => Some(h.duplicate()),
                    None => None,
                },
            },
        }
    }

    /// Parse a sender prefix.
    pub fn parse(s: &str) -> (r: Result<Self, ParseError>)
        ensures
            r is Ok <==> Self::accepts(s@),
            r matches Ok(t) ==> t@ == Self::value_of(s@),
    {
        let v = to_chars(s);
        Self::parse_chars(&v)
    }

    /// The textual form of this sender.
    pub fn render(&self) -> (r: String)
        requires
            Self::model_wf(self@),
        ensures
            r@ == Self::text_of(self@),
    {
        let v = self.render_chars();
        from_chars(&v)
    }
}

} // verus!
