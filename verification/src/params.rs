//! The parameter list of a message: up to fifteen parameters, split on
//! single spaces, with one optional trailing parameter introduced by `:`
//! that may hold spaces, and with the fifteenth parameter swallowing the
//! rest of the input.
use crate::text::{find_char, first_at, from_chars, lemma_first_at, lemma_first_at_is, lemma_join_push, push_range, push_str_chars, seq_contains, spec_join, subvec, to_chars};
use crate::ParseError;
use vstd::prelude::*;

verus! {

/// The tokenizer, position by position: an empty input yields nothing; a
/// leading `:` makes the rest one trailing parameter; once fourteen
/// parameters are taken the rest is the fifteenth; otherwise tokens run to
/// the next space, and runs of spaces are skipped.
pub open spec fn spec_params(s: Seq<char>, n: int) -> Seq<Seq<char>>
    decreases s.len(),
{
    if s.len() == 0 {
        Seq::empty()
    } else if s[0] == ':' {
        seq![s.skip(1)]
    } else if n >= 14 {
        seq![s]
    } else {
        let sp = first_at(s, ' ');
        if 0 < sp < s.len() {
            seq![s.take(sp)] + spec_params(s.skip(sp + 1), n + 1)
        } else if sp == 0 {
            spec_params(s.skip(1), n)
        } else {
            seq![s]
        }
    }
}

/// What a parameter body denotes.
pub open spec fn params_of(s: Seq<char>) -> Seq<Seq<char>> {
    spec_params(s, 0)
}

/// Whether a space has been taken into the list: only the final parameter
/// may hold one.
pub open spec fn params_has_space(ms: Seq<Seq<char>>) -> bool {
    ms.len() > 0 && seq_contains(ms[ms.len() - 1], ' ')
}

/// The shape every parsed list has: at most fifteen parameters, spaces at
/// most in the last.
pub open spec fn params_wf(ms: Seq<Seq<char>>) -> bool {
    ms.len() <= 15 && forall|i: int| 0 <= i < ms.len() - 1 ==> !seq_contains(#[trigger] ms[i], ' ')
}

/// How one parameter is written: a `:` announces one with spaces, an empty
/// one is first written `*` (the final fix-up turns a trailing `*` into a
/// bare `:`), the rest stand as they are.
pub open spec fn render_arg(a: Seq<char>) -> Seq<char> {
    if seq_contains(a, ' ') {
        seq![':'] + a
    } else if a.len() == 0 {
        seq!['*']
    } else {
        a
    }
}

pub open spec fn params_args_text(ms: Seq<Seq<char>>) -> Seq<char> {
    spec_join(ms.map_values(|a: Seq<char>| render_arg(a)), ' ')
}

/// The rendered list: parameters joined by single spaces, with an empty
/// final parameter written as a bare `:`.
pub open spec fn spec_render_params(ms: Seq<Seq<char>>) -> Seq<char> {
    let joined = params_args_text(ms);
    if ms.len() > 0 && ms[ms.len() - 1].len() == 0 {
        joined.update(joined.len() - 1, ':')
    } else {
        joined
    }
}

pub proof fn lemma_spec_params_wf(s: Seq<char>, n: int)
    requires
        0 <= n,
    ensures
        spec_params(s, n).len() + n <= 15 || spec_params(s, n).len() <= 1,
        forall|i: int|
            0 <= i < spec_params(s, n).len() - 1 ==> !seq_contains(
                #[trigger] spec_params(s, n)[i],
                ' ',
            ),
    decreases s.len(),
{
    if s.len() == 0 {
    } else if s[0] == ':' {
    } else if n >= 14 {
    } else {
        let sp = first_at(s, ' ');
        lemma_first_at(s, ' ');
        if 0 < sp < s.len() {
            lemma_spec_params_wf(s.skip(sp + 1), n + 1);
            let r = spec_params(s, n);
            let rest = spec_params(s.skip(sp + 1), n + 1);
            assert forall|i: int| 0 <= i < r.len() - 1 implies !seq_contains(
                #[trigger] r[i],
                ' ',
            ) by {
                if i == 0 {
                    if seq_contains(s.take(sp), ' ') {
                        let k = choose|k: int| 0 <= k < sp && s.take(sp)[k] == ' ';
                        assert(s[k] == ' ');
                    }
                } else {
                    assert(r[i] == rest[i - 1]);
                }
            }
        } else if sp == 0 {
            lemma_spec_params_wf(s.skip(1), n);
        } else {
        }
    }
}

/// An ordered sequence of up to fifteen parameter strings under the
/// trailing rule: once a parameter with a space is taken, it must stay the
/// final one, so nothing more can be pushed.
#[derive(PartialEq, Eq, Debug)]
pub struct MessageParams {
    args: Vec<String>,
    has_space: bool,
}

impl View for MessageParams {
    type V = Seq<Seq<char>>;

    closed spec fn view(&self) -> Seq<Seq<char>> {
        self.args@.map_values(|a: String| a@)
    }
}

impl MessageParams {
    /// The container's private bookkeeping matches its contents.
    pub closed spec fn inv(&self) -> bool {
        params_wf(self@) && self.has_space == params_has_space(self@)
    }

    /// An empty parameter list.
    pub fn new() -> (r: MessageParams)
        ensures
            r@ == Seq::<Seq<char>>::empty(),
            r.inv(),
    {
        let args: Vec<String> = Vec::new();
        let r = MessageParams { args, has_space: false };
        proof {
            assert(r@ =~= Seq::<Seq<char>>::empty());
        }
        r
    }

    /// Append one parameter. Refused when fifteen are already held, and
    /// when an earlier parameter carried a space; a parameter with a space
    /// is accepted and closes the list.
    pub fn push(&mut self, value: String) -> (r: Result<(), ParseError>)
        requires
            old(self).inv(),
        ensures
            final(self).inv(),
            old(self)@.len() >= 15 || params_has_space(old(self)@) ==> r is Err && final(self)@
                == old(self)@,
            old(self)@.len() < 15 && !params_has_space(old(self)@) ==> r is Ok && final(self)@
                == old(self)@.push(value@),
    {
        if self.args.len() >= 15 || self.has_space {
            return Err(ParseError::new("MessageParams"));
        }
        let v = to_chars(value.as_str());
        proof {
            assert(v@.skip(0) =~= v@);
        }
        if crate::text::contains_char(&v, 0, ' ') {
            self.has_space = true;
        }
        let ghost before = self@;
        self.args.push(value);
        proof {
            assert(self@ =~= before.push(value@));
            assert forall|i: int| 0 <= i < self@.len() - 1 implies !seq_contains(
                #[trigger] self@[i],
                ' ',
            ) by {
                if i < before.len() - 1 {
                    assert(before[i] == self@[i]);
                } else if i == before.len() - 1 && i >= 0 {
                    assert(!params_has_space(before));
                    assert(before[i] == self@[i]);
                }
            }
        }
        Ok(())
    }

    /// How many parameters are held.
    pub fn len(&self) -> (r: usize)
        ensures
            r == self@.len(),
    {
        self.args.len()
    }

    /// The parameter at `index`, if it is in range.
    pub fn get(&self, index: usize) -> (r: Option<&String>)
        ensures
            match r {
                Some(a) => index < self@.len() && a@ == self@[index as int],
                None => index >= self@.len(),
            },
    {
        if index < self.args.len() {
            Some(&self.args[index])
        } else {
            None
        }
    }

    /// Tokenize a parameter body. This parser refuses nothing: every text
    /// yields a list.
    pub fn parse(s: &str) -> (r: Result<MessageParams, ParseError>)
        ensures
            r is Ok,
            r matches Ok(t) ==> t@ == params_of(s@) && t.inv(),
    {
        let v = to_chars(s);
        Ok(Self::parse_chars(&v))
    }

    /// Tokenize a parameter body given as characters.
    pub fn parse_chars(v: &Vec<char>) -> (r: MessageParams)
        ensures
            r@ == params_of(v@),
            r.inv(),
    {
        let mut args: Vec<String> = Vec::new();
        let mut idx: usize = 0;
        let mut done = false;
        proof {
            assert(v@.skip(0) =~= v@);
            assert(args@.map_values(|a: String| a@) =~= Seq::<Seq<char>>::empty());
        }
        while !done
            invariant
                idx <= v@.len(),
                args@.len() <= 15,
                !done ==> args@.len() <= 14,
                !done ==> params_of(v@) == args@.map_values(|a: String| a@) + spec_params(
                    v@.skip(idx as int),
                    args@.len() as int,
                ),
                done ==> params_of(v@) == args@.map_values(|a: String| a@),
                !done ==> forall|i: int|
                    0 <= i < args@.len() ==> !seq_contains(#[trigger] args@[i]@, ' '),
                forall|i: int|
                    0 <= i < args@.len() - 1 ==> !seq_contains(#[trigger] args@[i]@, ' '),
            decreases v@.len() - idx + if done {
                0int
            } else {
                1int
            },
        {
            let ghost rest = v@.skip(idx as int);
            let ghost pre = args@.map_values(|a: String| a@);
            if idx >= v.len() {
                done = true;
                proof {
                    assert(rest.len() == 0);
                    assert(pre + spec_params(rest, args@.len() as int) =~= pre);
                }
            } else if v[idx] == ':' {
                let piece = subvec(v, idx + 1, v.len());
                proof {
                    assert(rest[0] == ':');
                    assert(piece@ =~= rest.skip(1));
                }
                args.push(from_chars(&piece));
                done = true;
                proof {
                    assert(args@.map_values(|a: String| a@) =~= pre.push(rest.skip(1)));
                    assert(pre + seq![rest.skip(1)] =~= pre.push(rest.skip(1)));
                }
            } else if args.len() >= 14 {
                let piece = subvec(v, idx, v.len());
                proof {
                    assert(piece@ =~= rest);
                }
                args.push(from_chars(&piece));
                done = true;
                proof {
                    assert(args@.map_values(|a: String| a@) =~= pre.push(rest));
                    assert(pre + seq![rest] =~= pre.push(rest));
                }
            } else {
                match find_char(v, idx, ' ') {
                    None => {
                        let piece = subvec(v, idx, v.len());
                        proof {
                            assert(piece@ =~= rest);
                            assert forall|k: int| 0 <= k < rest.len() implies rest[k] != ' ' by {
                                assert(rest[k] == v@[idx + k]);
                            }
                            lemma_first_at_is(rest, ' ', rest.len() as int);
                            assert(!seq_contains(rest, ' ')) by {
                                if seq_contains(rest, ' ') {
                                    let k = choose|k: int| 0 <= k < rest.len() && rest[k] == ' ';
                                    assert(rest[k] != ' ');
                                }
                            }
                        }
                        args.push(from_chars(&piece));
                        done = true;
                        proof {
                            assert(args@.map_values(|a: String| a@) =~= pre.push(rest));
                            assert(pre + seq![rest] =~= pre.push(rest));
                        }
                    },
                    Some(sp) => {
                        proof {
                            assert(rest[sp - idx] == ' ');
                            assert forall|k: int| 0 <= k < sp - idx implies rest[k] != ' ' by {
                                assert(rest[k] == v@[idx + k]);
                            }
                            lemma_first_at_is(rest, ' ', sp - idx);
                        }
                        if sp == idx {
                            proof {
                                assert(rest.skip(1) =~= v@.skip(idx + 1));
                            }
                            idx = idx + 1;
                        } else {
                            let piece = subvec(v, idx, sp);
                            proof {
                                assert(piece@ =~= rest.take(sp - idx));
                                assert(rest.take(sp - idx) =~= v@.subrange(idx as int, sp as int));
                                assert(!seq_contains(piece@, ' ')) by {
                                    if seq_contains(piece@, ' ') {
                                        let k = choose|k: int|
                                            0 <= k < piece@.len() && piece@[k] == ' ';
                                        assert(rest[k] != ' ');
                                    }
                                }
                                assert(rest.skip(sp - idx + 1) =~= v@.skip(sp + 1));
                            }
                            args.push(from_chars(&piece));
                            proof {
                                assert(args@.map_values(|a: String| a@) =~= pre.push(
                                    rest.take(sp - idx),
                                ));
                                assert(pre + (seq![rest.take(sp - idx)] + spec_params(
                                    rest.skip(sp - idx + 1),
                                    pre.len() as int,
                                )) =~= pre.push(rest.take(sp - idx)) + spec_params(
                                    rest.skip(sp - idx + 1),
                                    pre.len() as int,
                                ));
                            }
                            idx = sp + 1;
                        }
                    },
                }
            }
        }
        let has_space = if args.len() > 0 {
            let last = to_chars(args[args.len() - 1].as_str());
            crate::text::contains_char(&last, 0, ' ')
        } else {
            false
        };
        let r = MessageParams { args, has_space };
        proof {
            if r@.len() > 0 {
                assert(r@[r@.len() - 1].skip(0) =~= r@[r@.len() - 1]);
            }
        }
        r
    }

    /// Build a parameter list from already-validated parts: at most
    /// fifteen, spaces at most in the last.
    pub fn from_parts(args: Vec<String>) -> (r: MessageParams)
        requires
            params_wf(args@.map_values(|a: String| a@)),
        ensures
            r@ == args@.map_values(|a: String| a@),
            r.inv(),
    {
        let has_space = if args.len() > 0 {
            let last = to_chars(args[args.len() - 1].as_str());
            proof {
                assert(last@.skip(0) =~= last@);
            }
            crate::text::contains_char(&last, 0, ' ')
        } else {
            false
        };
        let r = MessageParams { args, has_space };
        r
    }

    /// The rendered parameter list.
    pub fn render(&self) -> (r: String)
        ensures
            r@ == spec_render_params(self@),
    {
        let v = self.render_chars();
        from_chars(&v)
    }

    /// The rendered parameter list as characters.
    pub fn render_chars(&self) -> (r: Vec<char>)
        ensures
            r@ == spec_render_params(self@),
    {
        let mut r: Vec<char> = Vec::new();
        let ghost ms = self@;
        let mut i: usize = 0;
        proof {
            assert(ms.take(0).map_values(|a: Seq<char>| render_arg(a)) =~= Seq::<Seq<char>>::empty());
        }
        while i < self.args.len()
            invariant
                i <= self.args@.len(),
                ms == self@,
                r@ == spec_join(ms.take(i as int).map_values(|a: Seq<char>| render_arg(a)), ' '),
            decreases self.args@.len() - i,
        {
            let a = to_chars(self.args[i].as_str());
            let ghost before = r@;
            proof {
                assert(a@ == ms[i as int]);
                lemma_join_push(
                    ms.take(i as int).map_values(|x: Seq<char>| render_arg(x)),
                    render_arg(ms[i as int]),
                    ' ',
                );
                assert(ms.take(i + 1).map_values(|x: Seq<char>| render_arg(x)) =~= ms.take(
                    i as int,
                ).map_values(|x: Seq<char>| render_arg(x)).push(render_arg(ms[i as int])));
                assert(a@.skip(0) =~= a@);
            }
            if i > 0 {
                r.push(' ');
            }
            if crate::text::contains_char(&a, 0, ' ') {
                r.push(':');
                push_range(&mut r, &a, 0, a.len());
                proof {
                    assert(a@.subrange(0, a@.len() as int) =~= a@);
                    assert(render_arg(ms[i as int]) =~= seq![':'] + a@);
                    if i == 0 {
                        assert(r@ =~= render_arg(ms[0]));
                    } else {
                        assert(r@ =~= before + seq![' '] + render_arg(ms[i as int]));
                    }
                }
            } else if a.len() == 0 {
                r.push('*');
                proof {
                    assert(render_arg(ms[i as int]) =~= seq!['*']);
                    if i == 0 {
                        assert(r@ =~= render_arg(ms[0]));
                    } else {
                        assert(r@ =~= before + seq![' '] + render_arg(ms[i as int]));
                    }
                }
            } else {
                push_range(&mut r, &a, 0, a.len());
                proof {
                    assert(a@.subrange(0, a@.len() as int) =~= a@);
                    assert(render_arg(ms[i as int]) =~= a@);
                    if i == 0 {
                        assert(r@ =~= render_arg(ms[0]));
                    } else {
                        assert(r@ =~= before + seq![' '] + render_arg(ms[i as int]));
                    }
                }
            }
            i = i + 1;
        }
        proof {
            assert(ms.take(ms.len() as int) =~= ms);
        }
        if self.args.len() > 0 {
            let last = to_chars(self.args[self.args.len() - 1].as_str());
            if last.len() == 0 {
                proof {
                    assert(ms[ms.len() - 1].len() == 0);
                    lemma_joined_nonempty(ms);
                }
                let dropped = r.pop();
                r.push(':');
                proof {
                    let joined = params_args_text(ms);
                    assert(r@ =~= joined.update(joined.len() - 1, ':'));
                }
            } else {
                proof {
                    assert(ms[ms.len() - 1].len() != 0);
                }
            }
        }
        r
    }

    /// The rendered list preceded by a prefix word and a space.
    pub fn to_string_with_prefix(&self, prefix: &str) -> (r: String)
        ensures
            r@ == prefix@ + seq![' '] + spec_render_params(self@),
    {
        let mut out: Vec<char> = Vec::new();
        push_str_chars(&mut out, prefix);
        out.push(' ');
        let body = self.render_chars();
        push_range(&mut out, &body, 0, body.len());
        proof {
            assert(body@.subrange(0, body@.len() as int) =~= body@);
            assert(out@ =~= prefix@ + seq![' '] + spec_render_params(self@));
        }
        from_chars(&out)
    }
}

/// A rendered non-empty list is non-empty: every written parameter takes at
/// least one character.
proof fn lemma_joined_nonempty(ms: Seq<Seq<char>>)
    requires
        ms.len() > 0,
    ensures
        params_args_text(ms).len() >= render_arg(ms[ms.len() - 1]).len(),
        params_args_text(ms).len() >= 1,
        render_arg(ms[ms.len() - 1]).len() >= 1,
        params_args_text(ms).last() == render_arg(ms[ms.len() - 1]).last(),
    decreases ms.len(),
{
    let ps = ms.map_values(|a: Seq<char>| render_arg(a));
    if ms.len() == 1 {
        assert(spec_join(ps, ' ') == ps[0]);
        assert(render_arg(ms[0]).len() >= 1);
    } else {
        let tail = ms.skip(1);
        lemma_joined_nonempty(tail);
        assert(tail[tail.len() - 1] == ms[ms.len() - 1]);
        assert(tail.map_values(|a: Seq<char>| render_arg(a)) =~= ps.skip(1));
        assert(spec_join(ps, ' ') == ps[0] + seq![' '] + spec_join(ps.skip(1), ' '));
    }
}

/// A middle parameter: non-empty, spaceless, and not opening with `:`.
pub open spec fn middle_ok(a: Seq<char>) -> bool {
    a.len() > 0 && !seq_contains(a, ' ') && a[0] != ':'
}

/// What the final parameter may be: anything except a spaceless non-empty
/// parameter that opens with `:`, which rendering could not protect.
pub open spec fn last_ok(a: Seq<char>) -> bool {
    !(a.len() > 0 && a[0] == ':' && !seq_contains(a, ' '))
}

/// The lists whose rendering tokenizes back to themselves: one to fifteen
/// parameters, middles proper, and a representable final parameter.
pub open spec fn params_renderable(ms: Seq<Seq<char>>) -> bool {
    &&& 1 <= ms.len() <= 15
    &&& forall|i: int| 0 <= i < ms.len() - 1 ==> middle_ok(#[trigger] ms[i])
    &&& last_ok(ms[ms.len() - 1])
}

/// Splitting a rendered list off at its first parameter.
proof fn lemma_render_step(ms: Seq<Seq<char>>)
    requires
        ms.len() >= 2,
    ensures
        spec_render_params(ms) == render_arg(ms[0]) + seq![' '] + spec_render_params(ms.skip(1)),
{
    let ps = ms.map_values(|a: Seq<char>| render_arg(a));
    let rest = ms.skip(1);
    assert(rest.map_values(|a: Seq<char>| render_arg(a)) =~= ps.skip(1));
    assert(params_args_text(ms) == ps[0] + seq![' '] + params_args_text(rest));
    lemma_joined_nonempty(rest);
    if ms.len() > 0 && ms[ms.len() - 1].len() == 0 {
        let joined = params_args_text(ms);
        let jr = params_args_text(rest);
        assert(rest[rest.len() - 1].len() == 0);
        assert(joined.update(joined.len() - 1, ':') =~= ps[0] + seq![' '] + jr.update(
            jr.len() - 1,
            ':',
        ));
    }
}

/// Tokenizing a rendered list gives the parameters back, at any starting
/// count that leaves room for them.
pub proof fn lemma_params_roundtrip_at(ms: Seq<Seq<char>>, n: int)
    requires
        0 <= n,
        n + ms.len() <= 15,
        ms.len() >= 1,
        forall|i: int| 0 <= i < ms.len() - 1 ==> middle_ok(#[trigger] ms[i]),
        last_ok(ms[ms.len() - 1]),
    ensures
        spec_params(spec_render_params(ms), n) == ms,
    decreases ms.len(),
{
    let t = spec_render_params(ms);
    if ms.len() == 1 {
        let a = ms[0];
        let ps = ms.map_values(|x: Seq<char>| render_arg(x));
        assert(params_args_text(ms) == ps[0]);
        if a.len() == 0 {
            assert(render_arg(a) =~= seq!['*']);
            assert(t =~= seq![':']);
            assert(t[0] == ':');
            assert(spec_params(t, n) == seq![t.skip(1)]);
            assert(t.skip(1) =~= a);
            assert(seq![t.skip(1)] =~= ms);
        } else if seq_contains(a, ' ') {
            assert(render_arg(a) == seq![':'] + a);
            assert(t == seq![':'] + a);
            assert(t[0] == ':');
            assert(spec_params(t, n) == seq![t.skip(1)]);
            assert(t.skip(1) =~= a);
            assert(seq![t.skip(1)] =~= ms);
        } else {
            assert(render_arg(a) == a);
            assert(t == a);
            assert(a[0] != ':');
            if n >= 14 {
                assert(spec_params(t, n) == seq![t]);
            } else {
                assert forall|k: int| 0 <= k < t.len() implies t[k] != ' ' by {
                    if seq_contains(a, ' ') {
                    }
                    assert(!seq_contains(a, ' '));
                    if t[k] == ' ' {
                        assert(seq_contains(a, ' '));
                    }
                }
                lemma_first_at_is(t, ' ', t.len() as int);
                assert(spec_params(t, n) == seq![t]);
            }
            assert(seq![t] =~= ms);
        }
    } else {
        let a = ms[0];
        let rest = ms.skip(1);
        lemma_render_step(ms);
        assert(middle_ok(a));
        assert(render_arg(a) == a);
        let tr = spec_render_params(rest);
        assert(t == a + seq![' '] + tr);
        assert(t[0] == a[0]);
        assert(a[0] != ':');
        assert(n < 14);
        assert(t[a.len() as int] == ' ');
        assert forall|k: int| 0 <= k < a.len() implies t[k] != ' ' by {
            assert(t[k] == a[k]);
            if a[k] == ' ' {
                assert(seq_contains(a, ' '));
            }
        }
        lemma_first_at_is(t, ' ', a.len() as int);
        let sp = first_at(t, ' ');
        assert(0 < sp < t.len());
        assert(t.take(sp) =~= a);
        assert(t.skip(sp + 1) =~= tr);
        assert forall|i: int| 0 <= i < rest.len() - 1 implies middle_ok(#[trigger] rest[i]) by {
            assert(rest[i] == ms[i + 1]);
        }
        assert(rest[rest.len() - 1] == ms[ms.len() - 1]);
        lemma_params_roundtrip_at(rest, n + 1);
        assert(seq![a] + rest =~= ms);
    }
}

/// The round trip at the head of a message: tokenizing a rendered list
/// gives the parameters back.
pub proof fn lemma_params_roundtrip(ms: Seq<Seq<char>>)
    requires
        params_renderable(ms),
    ensures
        params_of(spec_render_params(ms)) == ms,
{
    lemma_params_roundtrip_at(ms, 0);
}

/// Peeling one middle parameter off the front of a body.
pub proof fn lemma_params_step(a: Seq<char>, rest: Seq<char>, n: int)
    requires
        middle_ok(a),
        0 <= n < 14,
    ensures
        spec_params(a + seq![' '] + rest, n) == seq![a] + spec_params(rest, n + 1),
{
    let t = a + seq![' '] + rest;
    assert(t[0] == a[0]);
    assert(t[a.len() as int] == ' ');
    assert forall|k: int| 0 <= k < a.len() implies t[k] != ' ' by {
        assert(t[k] == a[k]);
        if a[k] == ' ' {
            assert(seq_contains(a, ' '));
        }
    }
    lemma_first_at_is(t, ' ', a.len() as int);
    assert(t.take(a.len() as int) =~= a);
    assert(t.skip(a.len() as int + 1) =~= rest);
}

/// When every parameter is a proper middle, the rendering is a plain
/// space-join.
pub proof fn lemma_all_middle_render(ms: Seq<Seq<char>>)
    requires
        forall|i: int| 0 <= i < ms.len() ==> middle_ok(#[trigger] ms[i]),
    ensures
        spec_render_params(ms) == spec_join(ms, ' '),
{
    let ps = ms.map_values(|a: Seq<char>| render_arg(a));
    assert(ps =~= ms) by {
        assert forall|i: int| 0 <= i < ms.len() implies ps[i] == ms[i] by {
            assert(middle_ok(ms[i]));
            assert(!seq_contains(ms[i], ' '));
        }
    }
    if ms.len() > 0 {
        assert(ms[ms.len() - 1].len() != 0);
    }
}

} // verus!
