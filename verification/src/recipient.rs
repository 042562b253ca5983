//! A single message target, disambiguated in a fixed order: a wildcarded
//! `#` mask, then a channel, then a target mask, then a nickname, and last
//! the punctuation-split user forms `nick!user@host`, `user%host@server`,
//! `user%host`, and `user@server`.
use crate::channel::{Channel, ChannelModel};
use crate::grammar::{Atom, Grammar};
use crate::host::{Host, HostModel};
use crate::sender::{host_text_plain, lemma_nick_chars, only_one};
use crate::server::{name_char, name_ok, Servername};
use crate::target_mask::{mask_char, mask_ok, TargetMask, TargetMaskModel};
use crate::text::{find_char, first_at, first_at_exec, from_chars, lemma_first_at, lemma_first_at_is, push_range, seq_contains, subvec, to_chars};
use crate::user::{nick_rest_char, nick_start_char, username_char, Nickname, Username};
use crate::ParseError;
use vstd::prelude::*;

verus! {

/// The abstract form of a recipient.
pub enum RecipientModel {
    Channel(ChannelModel),
    Nickname(Seq<char>),
    NicknameUserHost(Seq<char>, Seq<char>, HostModel),
    TargetMask(TargetMaskModel),
    UserHost(Seq<char>, HostModel),
    UserHostServername(Seq<char>, HostModel, Seq<char>),
    UserServername(Seq<char>, Seq<char>),
}

/// One addressee of a message such as PRIVMSG.
#[derive(PartialEq, Eq, Debug, Clone)]
pub enum Recipient {
    Channel(Channel),
    Nickname(Nickname),
    NicknameUserHost(Nickname, Username, Host),
    TargetMask(TargetMask),
    UserHost(Username, Host),
    UserHostServername(Username, Host, Servername),
    UserServername(Username, Servername),
}

impl View for Recipient {
    type V = RecipientModel;

    open spec fn view(&self) -> RecipientModel {
        match self {
            Recipient::Channel(c) => RecipientModel::Channel(c@),
            Recipient::Nickname(n) => RecipientModel::Nickname(n@),
            Recipient::NicknameUserHost(n, u, h) => RecipientModel::NicknameUserHost(n@, u@, h@),
            Recipient::TargetMask(m) => RecipientModel::TargetMask(m@),
            Recipient::UserHost(u, h) => RecipientModel::UserHost(u@, h@),
            Recipient::UserHostServername(u, h, sn) => RecipientModel::UserHostServername(
                u@,
                h@,
                sn@,
            ),
            Recipient::UserServername(u, sn) => RecipientModel::UserServername(u@, sn@),
        }
    }
}

/// The opening rule: a `#`-led text with a wildcard is first tried as a
/// target mask.
pub open spec fn wild_mask_first(s: Seq<char>) -> bool {
    s.len() > 0 && s[0] == '#' && (seq_contains(s, '*') || seq_contains(s, '?'))
        && TargetMask::accepts(s)
}

/// The `nick!user@host` split: exactly one `!` before exactly one `@`, and
/// no `%`.
pub open spec fn split_nuh(s: Seq<char>) -> bool {
    let i = first_at(s, '!');
    let j = first_at(s, '@');
    &&& only_one(s, '!')
    &&& only_one(s, '@')
    &&& i < j
    &&& first_at(s, '%') == s.len()
    &&& Nickname::accepts(s.take(i))
    &&& Username::accepts(s.subrange(i + 1, j))
    &&& Host::accepts(s.skip(j + 1))
}

/// The `user%host@servername` split: exactly one `%` before exactly one
/// `@`, and no `!`.
pub open spec fn split_uhs(s: Seq<char>) -> bool {
    let p = first_at(s, '%');
    let j = first_at(s, '@');
    &&& first_at(s, '!') == s.len()
    &&& only_one(s, '%')
    &&& only_one(s, '@')
    &&& p < j
    &&& Username::accepts(s.take(p))
    &&& Host::accepts(s.subrange(p + 1, j))
    &&& name_ok(s.skip(j + 1))
}

/// The `user%host` split: exactly one `%`, no `!`, no `@`.
pub open spec fn split_uh(s: Seq<char>) -> bool {
    let p = first_at(s, '%');
    &&& first_at(s, '!') == s.len()
    &&& first_at(s, '@') == s.len()
    &&& only_one(s, '%')
    &&& Username::accepts(s.take(p))
    &&& Host::accepts(s.skip(p + 1))
}

/// The `user@servername` split: exactly one `@`, no `!`, no `%`.
pub open spec fn split_us(s: Seq<char>) -> bool {
    let j = first_at(s, '@');
    &&& first_at(s, '!') == s.len()
    &&& first_at(s, '%') == s.len()
    &&& only_one(s, '@')
    &&& Username::accepts(s.take(j))
    &&& name_ok(s.skip(j + 1))
}

impl Grammar for Recipient {
    open spec fn accepts(s: Seq<char>) -> bool {
        ||| wild_mask_first(s)
        ||| Channel::accepts(s)
        ||| TargetMask::accepts(s)
        ||| Nickname::accepts(s)
        ||| split_nuh(s)
        ||| split_uhs(s)
        ||| split_uh(s)
        ||| split_us(s)
    }

    open spec fn value_of(s: Seq<char>) -> RecipientModel {
        if wild_mask_first(s) {
            RecipientModel::TargetMask(TargetMask::value_of(s))
        } else if Channel::accepts(s) {
            RecipientModel::Channel(Channel::value_of(s))
        } else if TargetMask::accepts(s) {
            RecipientModel::TargetMask(TargetMask::value_of(s))
        } else if Nickname::accepts(s) {
            RecipientModel::Nickname(s)
        } else if split_nuh(s) {
            let i = first_at(s, '!');
            let j = first_at(s, '@');
            RecipientModel::NicknameUserHost(
                s.take(i),
                s.subrange(i + 1, j),
                Host::value_of(s.skip(j + 1)),
            )
        } else if split_uhs(s) {
            let p = first_at(s, '%');
            let j = first_at(s, '@');
            RecipientModel::UserHostServername(
                s.take(p),
                Host::value_of(s.subrange(p + 1, j)),
                s.skip(j + 1),
            )
        } else if split_uh(s) {
            let p = first_at(s, '%');
            RecipientModel::UserHost(s.take(p), Host::value_of(s.skip(p + 1)))
        } else {
            let j = first_at(s, '@');
            RecipientModel::UserServername(s.take(j), s.skip(j + 1))
        }
    }

    open spec fn model_wf(m: RecipientModel) -> bool {
        match m {
            RecipientModel::Channel(cm) => Channel::model_wf(cm) && !wild_mask_first(
                Channel::text_of(cm),
            ),
            RecipientModel::Nickname(n) => Nickname::accepts(n),
            RecipientModel::NicknameUserHost(n, u, hm) => Nickname::accepts(n)
                && Username::accepts(u) && !seq_contains(u, '!') && !seq_contains(u, '%')
                && Host::model_wf(hm) && host_text_solid(Host::text_of(hm)),
            RecipientModel::TargetMask(tm) => TargetMask::model_wf(tm) && match tm {
                TargetMaskModel::Host(b) => seq_contains(b, '*') || seq_contains(b, '?')
                    || !Channel::accepts(seq!['#'] + b),
                TargetMaskModel::Server(_) => true,
            },
            RecipientModel::UserHost(u, hm) => Username::accepts(u) && !seq_contains(u, '!')
                && !seq_contains(u, '%') && Host::model_wf(hm) && host_text_solid(
                Host::text_of(hm),
            ) && !Channel::accepts(Self::text_of(m)),
            RecipientModel::UserHostServername(u, hm, sn) => Username::accepts(u) && !seq_contains(
                u,
                '!',
            ) && !seq_contains(u, '%') && Host::model_wf(hm) && host_text_solid(Host::text_of(hm))
                && name_ok(sn) && !Channel::accepts(Self::text_of(m)),
            RecipientModel::UserServername(u, sn) => Username::accepts(u) && !seq_contains(u, '!')
                && !seq_contains(u, '%') && name_ok(sn) && !Channel::accepts(Self::text_of(m)),
        }
    }

    open spec fn text_of(m: RecipientModel) -> Seq<char> {
        match m {
            RecipientModel::Channel(cm) => Channel::text_of(cm),
            RecipientModel::Nickname(n) => n,
            RecipientModel::NicknameUserHost(n, u, hm) => n + seq!['!'] + u + seq!['@']
                + Host::text_of(hm),
            RecipientModel::TargetMask(tm) => TargetMask::text_of(tm),
            RecipientModel::UserHost(u, hm) => u + seq!['%'] + Host::text_of(hm),
            RecipientModel::UserHostServername(u, hm, sn) => u + seq!['%'] + Host::text_of(hm)
                + seq!['@'] + sn,
            RecipientModel::UserServername(u, sn) => u + seq!['@'] + sn,
        }
    }

    proof fn lemma_value_wf(s: Seq<char>) {
        lemma_first_at(s, '!');
        lemma_first_at(s, '@');
        lemma_first_at(s, '%');
        if wild_mask_first(s) {
            TargetMask::lemma_value_wf(s);
            match TargetMask::value_of(s) {
                TargetMaskModel::Host(b) => {
                    assert(b =~= s.skip(1));
                    if seq_contains(s, '*') {
                        let k = choose|k: int| 0 <= k < s.len() && s[k] == '*';
                        assert(k >= 1);
                        assert(b[k - 1] == '*');
                        assert(seq_contains(b, '*'));
                    } else {
                        let k = choose|k: int| 0 <= k < s.len() && s[k] == '?';
                        assert(k >= 1);
                        assert(b[k - 1] == '?');
                        assert(seq_contains(b, '?'));
                    }
                },
                TargetMaskModel::Server(_) => {},
            }
        } else if Channel::accepts(s) {
            Channel::lemma_value_wf(s);
        } else if TargetMask::accepts(s) {
            TargetMask::lemma_value_wf(s);
            match TargetMask::value_of(s) {
                TargetMaskModel::Host(b) => {
                    assert(b =~= s.skip(1));
                    assert(seq!['#'] + b =~= s);
                },
                TargetMaskModel::Server(_) => {},
            }
        } else if Nickname::accepts(s) {
        } else if split_nuh(s) {
            let i = first_at(s, '!');
            let j = first_at(s, '@');
            let u = s.subrange(i + 1, j);
            let h = s.skip(j + 1);
            Host::lemma_value_wf(h);
            lemma_part_absences(s, i + 1, j, '!');
            lemma_part_absences(s, i + 1, j, '%');
            lemma_suffix_absences(s, j + 1, '@');
            lemma_suffix_absences(s, j + 1, '!');
            lemma_suffix_absences(s, j + 1, '%');
            assert(Recipient::text_of(Recipient::value_of(s)) =~= s);
        } else if split_uhs(s) {
            let p = first_at(s, '%');
            let j = first_at(s, '@');
            let h = s.subrange(p + 1, j);
            Host::lemma_value_wf(h);
            lemma_part_absences(s, 0, p, '!');
            lemma_part_absences(s, 0, p, '%');
            lemma_part_absences(s, p + 1, j, '@');
            lemma_part_absences(s, p + 1, j, '!');
            lemma_part_absences(s, p + 1, j, '%');
            assert(!Channel::accepts(s));
            assert(Recipient::text_of(Recipient::value_of(s)) =~= s);
        } else if split_uh(s) {
            let p = first_at(s, '%');
            let h = s.skip(p + 1);
            Host::lemma_value_wf(h);
            lemma_part_absences(s, 0, p, '!');
            lemma_part_absences(s, 0, p, '%');
            lemma_suffix_absences(s, p + 1, '%');
            lemma_suffix_absences(s, p + 1, '!');
            lemma_suffix_absences(s, p + 1, '@');
            assert(!Channel::accepts(s));
            assert(Recipient::text_of(Recipient::value_of(s)) =~= s);
        } else if split_us(s) {
            let j = first_at(s, '@');
            lemma_part_absences(s, 0, j, '!');
            lemma_part_absences(s, 0, j, '%');
            assert(!Channel::accepts(s));
            assert(Recipient::text_of(Recipient::value_of(s)) =~= s);
        }
    }

    proof fn lemma_canonical(m: RecipientModel) {
        let t = Self::text_of(m);
        match m {
            RecipientModel::Channel(cm) => {
                Channel::lemma_canonical(cm);
            },
            RecipientModel::Nickname(n) => {
                lemma_nick_text_plain(n);
            },
            RecipientModel::TargetMask(tm) => {
                TargetMask::lemma_canonical(tm);
                match tm {
                    TargetMaskModel::Server(b) => {
                        lemma_mask_channel_free(t);
                        assert(!wild_mask_first(t));
                    },
                    TargetMaskModel::Host(b) => {
                        if seq_contains(b, '*') || seq_contains(b, '?') {
                            assert(t.skip(1) =~= b);
                            if seq_contains(b, '*') {
                                let k = choose|k: int| 0 <= k < b.len() && b[k] == '*';
                                assert(t[k + 1] == '*');
                                assert(seq_contains(t, '*'));
                            } else {
                                let k = choose|k: int| 0 <= k < b.len() && b[k] == '?';
                                assert(t[k + 1] == '?');
                                assert(seq_contains(t, '?'));
                            }
                            assert(wild_mask_first(t));
                        } else {
                            assert(!Channel::accepts(t)) by {
                                assert(seq!['#'] + b =~= t);
                            }
                            assert(!wild_mask_first(t)) by {
                                if seq_contains(t, '*') {
                                    let k = choose|k: int| 0 <= k < t.len() && t[k] == '*';
                                    assert(k >= 1);
                                    assert(b[k - 1] == '*');
                                    assert(seq_contains(b, '*'));
                                } else if seq_contains(t, '?') {
                                    let k = choose|k: int| 0 <= k < t.len() && t[k] == '?';
                                    assert(k >= 1);
                                    assert(b[k - 1] == '?');
                                    assert(seq_contains(b, '?'));
                                }
                            }
                        }
                    },
                }
            },
            RecipientModel::NicknameUserHost(n, u, hm) => {
                let h = Host::text_of(hm);
                let i = n.len() as int;
                let j = i + 1 + u.len() as int;
                lemma_nick_chars(n);
                assert(t[i] == '!');
                assert(t[j] == '@');
                assert forall|k: int| 0 <= k < t.len() && k != i implies t[k] != '!' by {
                    lemma_concat_char_cases(n, u, h, t, k);
                }
                assert forall|k: int| 0 <= k < t.len() && k != j implies t[k] != '@' by {
                    lemma_concat_char_cases(n, u, h, t, k);
                }
                assert forall|k: int| 0 <= k < t.len() implies t[k] != '%' by {
                    lemma_concat_char_cases(n, u, h, t, k);
                }
                lemma_first_at_is(t, '!', i);
                lemma_first_at_is(t, '@', j);
                lemma_first_at_is(t, '%', t.len() as int);
                lemma_nick_lead_excludes(t, i);
                assert(t.take(i) =~= n);
                assert(t.subrange(i + 1, j) =~= u);
                assert(t.skip(j + 1) =~= h);
                Host::lemma_canonical(hm);
                assert(split_nuh(t));
            },
            RecipientModel::UserHost(u, hm) => {
                let h = Host::text_of(hm);
                let p = u.len() as int;
                assert(t[p] == '%');
                assert forall|k: int| 0 <= k < t.len() && k != p implies t[k] != '%' by {
                    lemma_two_part_chars(u, h, t, k);
                }
                assert forall|k: int| 0 <= k < t.len() implies t[k] != '!' && t[k] != '@' by {
                    lemma_two_part_chars(u, h, t, k);
                }
                lemma_first_at_is(t, '%', p);
                lemma_first_at_is(t, '!', t.len() as int);
                lemma_first_at_is(t, '@', t.len() as int);
                lemma_percent_excludes(t, p);
                assert(t.take(p) =~= u);
                assert(t.skip(p + 1) =~= h);
                Host::lemma_canonical(hm);
                assert(split_uh(t));
            },
            RecipientModel::UserHostServername(u, hm, sn) => {
                let h = Host::text_of(hm);
                let p = u.len() as int;
                let j = p + 1 + h.len() as int;
                assert(t[p] == '%');
                assert(t[j] == '@');
                assert forall|k: int| 0 <= k < t.len() && k != p implies t[k] != '%' by {
                    lemma_concat_char_cases2(u, h, sn, t, k);
                }
                assert forall|k: int| 0 <= k < t.len() && k != j implies t[k] != '@' by {
                    lemma_concat_char_cases2(u, h, sn, t, k);
                }
                assert forall|k: int| 0 <= k < t.len() implies t[k] != '!' by {
                    lemma_concat_char_cases2(u, h, sn, t, k);
                }
                lemma_first_at_is(t, '%', p);
                lemma_first_at_is(t, '@', j);
                lemma_first_at_is(t, '!', t.len() as int);
                lemma_percent_excludes(t, p);
                assert(t.take(p) =~= u);
                assert(t.subrange(p + 1, j) =~= h);
                assert(t.skip(j + 1) =~= sn);
                Host::lemma_canonical(hm);
                assert(split_uhs(t));
            },
            RecipientModel::UserServername(u, sn) => {
                let j = u.len() as int;
                assert(t[j] == '@');
                assert forall|k: int| 0 <= k < t.len() && k != j implies t[k] != '@' by {
                    lemma_two_part_chars2(u, sn, t, k);
                }
                assert forall|k: int| 0 <= k < t.len() implies t[k] != '!' && t[k] != '%' by {
                    lemma_two_part_chars2(u, sn, t, k);
                }
                lemma_first_at_is(t, '@', j);
                lemma_first_at_is(t, '!', t.len() as int);
                lemma_first_at_is(t, '%', t.len() as int);
                lemma_at_excludes(t, j);
                assert(t.take(j) =~= u);
                assert(t.skip(j + 1) =~= sn);
                assert(split_us(t));
            },
        }
    }

    fn parse_chars(v: &Vec<char>) -> (r: Result<Self, ParseError>) {
        proof {
            lemma_first_at(v@, '!');
            lemma_first_at(v@, '@');
            lemma_first_at(v@, '%');
            assert(v@.skip(0) =~= v@);
        }
        if v.len() > 0 && v[0] == '#' && (crate::text::contains_char(v, 0, '*')
            || crate::text::contains_char(v, 0, '?')) {
            match TargetMask::parse_chars(v) {
                Ok(tm) => {
                    return Ok(Recipient::TargetMask(tm));
                },
                Err(_) => {},
            }
        }
        match Channel::parse_chars(v) {
            Ok(c) => {
                return Ok(Recipient::Channel(c));
            },
            Err(_) => {},
        }
        match TargetMask::parse_chars(v) {
            Ok(tm) => {
                return Ok(Recipient::TargetMask(tm));
            },
            Err(_) => {},
        }
        match Nickname::parse_chars(v) {
            Ok(n) => {
                return Ok(Recipient::Nickname(n));
            },
            Err(_) => {},
        }
        let i = first_at_exec(v, '!');
        let j = first_at_exec(v, '@');
        let p = first_at_exec(v, '%');
        let ex_bang = i < v.len() && find_char(v, i + 1, '!').is_some();
        let ex_at = j < v.len() && find_char(v, j + 1, '@').is_some();
        let ex_pct = p < v.len() && find_char(v, p + 1, '%').is_some();
        if i < v.len() && j < v.len() && i < j && p == v.len() && !ex_bang && !ex_at {
            let n_part = subvec(v, 0, i);
            let u_part = subvec(v, i + 1, j);
            let h_part = subvec(v, j + 1, v.len());
            proof {
                assert(n_part@ =~= v@.take(i as int));
                assert(u_part@ =~= v@.subrange(i + 1, j as int));
                assert(h_part@ =~= v@.skip(j + 1));
            }
            let n = match Nickname::parse_chars(&n_part) {
                Ok(x) => x,
                Err(e) => {
                    return Err(e);
                },
            };
            let u = match Username::parse_chars(&u_part) {
                Ok(x) => x,
                Err(e) => {
                    return Err(e);
                },
            };
            let h = match Host::parse_chars(&h_part) {
                Ok(x) => x,
                Err(e) => {
                    return Err(e);
                },
            };
            Ok(Recipient::NicknameUserHost(n, u, h))
        } else if p < v.len() && j < v.len() && p < j && i == v.len() && !ex_pct && !ex_at {
            let u_part = subvec(v, 0, p);
            let h_part = subvec(v, p + 1, j);
            let s_part = subvec(v, j + 1, v.len());
            proof {
                assert(u_part@ =~= v@.take(p as int));
                assert(h_part@ =~= v@.subrange(p + 1, j as int));
                assert(s_part@ =~= v@.skip(j + 1));
            }
            let u = match Username::parse_chars(&u_part) {
                Ok(x) => x,
                Err(e) => {
                    return Err(e);
                },
            };
            let h = match Host::parse_chars(&h_part) {
                Ok(x) => x,
                Err(e) => {
                    return Err(e);
                },
            };
            let sn = match Servername::parse_chars(&s_part) {
                Ok(x) => x,
                Err(e) => {
                    return Err(e);
                },
            };
            Ok(Recipient::UserHostServername(u, h, sn))
        } else if p < v.len() && i == v.len() && j == v.len() && !ex_pct {
            let u_part = subvec(v, 0, p);
            let h_part = subvec(v, p + 1, v.len());
            proof {
                assert(u_part@ =~= v@.take(p as int));
                assert(h_part@ =~= v@.skip(p + 1));
            }
            let u = match Username::parse_chars(&u_part) {
                Ok(x) => x,
                Err(e) => {
                    return Err(e);
                },
            };
            let h = match Host::parse_chars(&h_part) {
                Ok(x) => x,
                Err(e) => {
                    return Err(e);
                },
            };
            Ok(Recipient::UserHost(u, h))
        } else if j < v.len() && i == v.len() && p == v.len() && !ex_at {
            let u_part = subvec(v, 0, j);
            let s_part = subvec(v, j + 1, v.len());
            proof {
                assert(u_part@ =~= v@.take(j as int));
                assert(s_part@ =~= v@.skip(j + 1));
            }
            let u = match Username::parse_chars(&u_part) {
                Ok(x) => x,
                Err(e) => {
                    return Err(e);
                },
            };
            let sn = match Servername::parse_chars(&s_part) {
                Ok(x) => x,
                Err(e) => {
                    return Err(e);
                },
            };
            Ok(Recipient::UserServername(u, sn))
        } else {
            proof {
                assert(!Recipient::accepts(v@));
            }
            Err(ParseError::new("Recipient"))
        }
    }

    fn render_chars(&self) -> (r: Vec<char>) {
        match self {
            Recipient::Channel(c) => c.render_chars(),
            Recipient::Nickname(n) => n.render_chars(),
            Recipient::TargetMask(tm) => tm.render_chars(),
            Recipient::NicknameUserHost(n, u, h) => {
                let mut r = n.render_chars();
                r.push('!');
                let uc = u.render_chars();
                push_range(&mut r, &uc, 0, uc.len());
                r.push('@');
                let hc = h.render_chars();
                push_range(&mut r, &hc, 0, hc.len());
                proof {
                    assert(uc@.subrange(0, uc@.len() as int) =~= uc@);
                    assert(hc@.subrange(0, hc@.len() as int) =~= hc@);
                    assert(r@ =~= Recipient::text_of(self@));
                }
                r
            },
            Recipient::UserHost(u, h) => {
                let mut r = u.render_chars();
                r.push('%');
                let hc = h.render_chars();
                push_range(&mut r, &hc, 0, hc.len());
                proof {
                    assert(hc@.subrange(0, hc@.len() as int) =~= hc@);
                    assert(r@ =~= Recipient::text_of(self@));
                }
                r
            },
            Recipient::UserHostServername(u, h, sn) => {
                let mut r = u.render_chars();
                r.push('%');
                let hc = h.render_chars();
                push_range(&mut r, &hc, 0, hc.len());
                r.push('@');
                let sc = sn.render_chars();
                push_range(&mut r, &sc, 0, sc.len());
                proof {
                    assert(hc@.subrange(0, hc@.len() as int) =~= hc@);
                    assert(sc@.subrange(0, sc@.len() as int) =~= sc@);
                    assert(r@ =~= Recipient::text_of(self@));
                }
                r
            },
            Recipient::UserServername(u, sn) => {
                let mut r = u.render_chars();
                r.push('@');
                let sc = sn.render_chars();
                push_range(&mut r, &sc, 0, sc.len());
                proof {
                    assert(sc@.subrange(0, sc@.len() as int) =~= sc@);
                    assert(r@ =~= Recipient::text_of(self@));
                }
                r
            },
        }
    }
}

/// A host's rendered text holds none of the recipient separators.
pub open spec fn host_text_solid(h: Seq<char>) -> bool {
    host_text_plain(h) && !seq_contains(h, '%')
}

/// In a concatenation `a + sep + b + sep2 + c`, a character away from the
/// separator positions comes from one of the parts.
proof fn lemma_concat_char_cases(n: Seq<char>, u: Seq<char>, h: Seq<char>, t: Seq<char>, k: int)
    requires
        t == n + seq!['!'] + u + seq!['@'] + h,
        0 <= k < t.len(),
    ensures
        k < n.len() ==> t[k] == n[k],
        k == n.len() ==> t[k] == '!',
        n.len() < k < n.len() + 1 + u.len() ==> t[k] == u[k - n.len() - 1],
        k == n.len() + 1 + u.len() ==> t[k] == '@',
        k > n.len() + 1 + u.len() ==> t[k] == h[k - n.len() - u.len() - 2],
{
}

proof fn lemma_concat_char_cases2(u: Seq<char>, h: Seq<char>, sn: Seq<char>, t: Seq<char>, k: int)
    requires
        t == u + seq!['%'] + h + seq!['@'] + sn,
        0 <= k < t.len(),
    ensures
        k < u.len() ==> t[k] == u[k],
        k == u.len() ==> t[k] == '%',
        u.len() < k < u.len() + 1 + h.len() ==> t[k] == h[k - u.len() - 1],
        k == u.len() + 1 + h.len() ==> t[k] == '@',
        k > u.len() + 1 + h.len() ==> t[k] == sn[k - u.len() - h.len() - 2],
{
}

proof fn lemma_two_part_chars(u: Seq<char>, h: Seq<char>, t: Seq<char>, k: int)
    requires
        t == u + seq!['%'] + h,
        0 <= k < t.len(),
    ensures
        k < u.len() ==> t[k] == u[k],
        k == u.len() ==> t[k] == '%',
        k > u.len() ==> t[k] == h[k - u.len() - 1],
{
}

proof fn lemma_two_part_chars2(u: Seq<char>, sn: Seq<char>, t: Seq<char>, k: int)
    requires
        t == u + seq!['@'] + sn,
        0 <= k < t.len(),
    ensures
        k < u.len() ==> t[k] == u[k],
        k == u.len() ==> t[k] == '@',
        k > u.len() ==> t[k] == sn[k - u.len() - 1],
{
}

/// The characters of a part of an accepted split carry over from the whole.
proof fn lemma_part_absences(s: Seq<char>, from: int, to: int, c: char)
    requires
        0 <= from <= to <= s.len(),
        forall|k: int| from <= k < to ==> s[k] != c,
    ensures
        !seq_contains(s.subrange(from, to), c),
{
    if seq_contains(s.subrange(from, to), c) {
        let k = choose|k: int| 0 <= k < s.subrange(from, to).len() && s.subrange(from, to)[k] == c;
        assert(s[from + k] == c);
    }
}

proof fn lemma_suffix_absences(s: Seq<char>, from: int, c: char)
    requires
        0 <= from <= s.len(),
        forall|k: int| from <= k < s.len() ==> s[k] != c,
    ensures
        !seq_contains(s.skip(from), c),
{
    if seq_contains(s.skip(from), c) {
        let k = choose|k: int| 0 <= k < s.skip(from).len() && s.skip(from)[k] == c;
        assert(s[from + k] == c);
    }
}

/// A nickname text is never taken by the channel, mask, or wild-mask rules.
proof fn lemma_nick_text_plain(n: Seq<char>)
    requires
        Nickname::accepts(n),
    ensures
        !wild_mask_first(n),
        !Channel::accepts(n),
        !TargetMask::accepts(n),
        first_at(n, '!') == n.len(),
        first_at(n, '@') == n.len(),
        first_at(n, '%') == n.len(),
{
    assert(nick_start_char(n[0]));
    assert(n[0] != '#' && n[0] != '$' && n[0] != '&' && n[0] != '+' && n[0] != '!' && n[0] != ':');
    assert forall|k: int| 0 <= k < n.len() implies n[k] != '!' && n[k] != '@' && n[k] != '%' && n[k]
        != ':' by {
        if k == 0 {
            assert(nick_start_char(n[0]));
        } else {
            assert(nick_rest_char(n[k]));
        }
    }
    lemma_first_at_is(n, '!', n.len() as int);
    lemma_first_at_is(n, '@', n.len() as int);
    lemma_first_at_is(n, '%', n.len() as int);
    lemma_first_at_is(n, ':', n.len() as int);
    assert(!Channel::accepts(n)) by {
        assert(first_at(n, ':') == n.len());
    }
}

/// When a text starts with a nickname-start character, the channel and mask
/// rules do not take it.
proof fn lemma_nick_lead_excludes(t: Seq<char>, i: int)
    requires
        0 < i <= t.len(),
        Nickname::accepts(t.take(i)),
        t.len() > 0,
    ensures
        !wild_mask_first(t),
        !Channel::accepts(t),
        !TargetMask::accepts(t),
{
    assert(t[0] == t.take(i)[0]);
    assert(nick_start_char(t[0]));
    assert(t[0] != '#' && t[0] != '$' && t[0] != '&' && t[0] != '+' && t[0] != '!' && t[0] != ':');
    lemma_lead_excludes(t);
}

/// A text whose first character is none of the channel or mask openers is
/// taken by neither rule.
pub proof fn lemma_lead_excludes(t: Seq<char>)
    requires
        t.len() > 0,
        t[0] != '#',
        t[0] != '$',
        t[0] != '&',
        t[0] != '+',
        t[0] != '!',
        t[0] != ':',
    ensures
        !wild_mask_first(t),
        !Channel::accepts(t),
        !TargetMask::accepts(t),
{
    lemma_first_at(t, ':');
    let d = first_at(t, ':');
    if d < t.len() {
        assert(d > 0);
        assert(t.take(d)[0] == t[0]);
    }
}

/// A text with a `%` in it is taken by neither the mask rules nor the
/// nickname rule.
proof fn lemma_percent_excludes(t: Seq<char>, p: int)
    requires
        0 <= p < t.len(),
        t[p] == '%',
    ensures
        !wild_mask_first(t),
        !TargetMask::accepts(t),
        !Nickname::accepts(t),
{
    if TargetMask::accepts(t) {
        assert(p >= 1);
        assert(t.skip(1)[p - 1] == '%');
        assert(mask_char(t.skip(1)[p - 1]));
    }
    if Nickname::accepts(t) {
        if p == 0 {
            assert(nick_start_char(t[0]));
        } else {
            assert(nick_rest_char(t[p]));
        }
    }
}

/// A text with an `@` in it is taken by neither the mask rules nor the
/// nickname rule.
proof fn lemma_at_excludes(t: Seq<char>, p: int)
    requires
        0 <= p < t.len(),
        t[p] == '@',
    ensures
        !wild_mask_first(t),
        !TargetMask::accepts(t),
        !Nickname::accepts(t),
{
    if TargetMask::accepts(t) {
        assert(p >= 1);
        assert(t.skip(1)[p - 1] == '@');
        assert(mask_char(t.skip(1)[p - 1]));
    }
    if Nickname::accepts(t) {
        if p == 0 {
            assert(nick_start_char(t[0]));
        } else {
            assert(nick_rest_char(t[p]));
        }
    }
}

/// A mask text holds no channel-name separators, so it cannot be a channel.
proof fn lemma_mask_channel_free(t: Seq<char>)
    requires
        t.len() >= 1,
        t[0] == '$' || t[0] == '#',
        mask_ok(t.skip(1)),
    ensures
        t[0] == '$' ==> !Channel::accepts(t),
{
    if t[0] == '$' {
        lemma_first_at(t, ':');
        let d = first_at(t, ':');
        assert forall|k: int| 0 <= k < t.len() implies t[k] != ':' by {
            if k >= 1 {
                assert(mask_char(t.skip(1)[k - 1]));
            }
        }
        lemma_first_at_is(t, ':', t.len() as int);
        if Channel::accepts(t) {
            assert(t.take(t.len() as int)[0] == '$');
        }
    }
}

impl Atom for Recipient {
    proof fn lemma_nonempty(s: Seq<char>) {
        if s.len() == 0 {
            lemma_first_at(s, '!');
            lemma_first_at(s, '@');
            lemma_first_at(s, '%');
            if Channel::accepts(s) {
                lemma_first_at(s, ':');
            }
        }
    }
}

impl Recipient {
    /// Parse one message target.
    pub fn parse(s: &str) -> (r: Result<Self, ParseError>)
        ensures
            r is Ok <==> Self::accepts(s@),
            r matches Ok(t) ==> t@ == Self::value_of(s@),
    {
        let v = to_chars(s);
        Self::parse_chars(&v)
    }

    /// The textual form of this target.
    pub fn render(&self) -> (r: String)
        requires
            Self::model_wf(self@),
        ensures
            r@ == Self::text_of(self@),
    {
        let v = self.render_chars();
        from_chars(&v)
    }
}

} // verus!
