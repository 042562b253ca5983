//! A full protocol line: an optional sender prefix and a body that is
//! either a command or a numeric reply with parameters.
use crate::command::{command_of, command_text, command_wf, Command, CommandModel};
use crate::params::{params_of, params_renderable, spec_render_params, MessageParams};
use crate::reply::{code_of_text, reply_accepts, reply_code, reply_of, reply_text, reply_wf, ReplyType};
use crate::sender::{Sender, SenderModel};
use crate::text::{first_at, first_at_exec, from_chars, lemma_first_at, lemma_first_at_is, push_range, push_str_chars, seq_contains, subvec, to_chars};
use crate::ParseError;
use crate::grammar::Grammar;
use vstd::prelude::*;

verus! {

/// The abstract form of a message body.
pub enum BodyModel {
    Command(CommandModel),
    Reply(ReplyType, Seq<Seq<char>>),
}

/// The abstract form of a message.
pub struct MessageModel {
    pub sender: Option<SenderModel>,
    pub body: BodyModel,
}

/// The body of a message: a command, or a numeric reply with parameters.
#[derive(PartialEq, Eq, Debug)]
pub enum MessageBody {
    Command(Command),
    Reply(ReplyType, MessageParams),
}

impl View for MessageBody {
    type V = BodyModel;

    open spec fn view(&self) -> BodyModel {
        match self {
            MessageBody::Command(c) => BodyModel::Command(c@),
            MessageBody::Reply(rt, ps) => BodyModel::Reply(*rt, ps@),
        }
    }
}

/// One line of the protocol.
#[derive(PartialEq, Eq, Debug)]
pub struct Message {
    pub sender: Option<Sender>,
    pub body: MessageBody,
}

impl View for Message {
    type V = MessageModel;

    open spec fn view(&self) -> MessageModel {
        MessageModel {
            sender: match &self.sender {
                Some(sn) => Some(sn@),
                None => None,
            },
            body: self.body@,
        }
    }
}

/// The text with every trailing CR and LF removed.
pub open spec fn spec_trim(s: Seq<char>) -> Seq<char>
    decreases s.len(),
{
    if s.len() > 0 && (s[s.len() - 1] == '\r' || s[s.len() - 1] == '\n') {
        spec_trim(s.take(s.len() - 1))
    } else {
        s
    }
}

pub open spec fn upper_char(c: char) -> bool {
    'A' <= c <= 'Z'
}

/// What a message body denotes: a command when it opens with an uppercase
/// letter, a reply when it opens with a digit.
pub open spec fn body_of(b: Seq<char>) -> Option<BodyModel> {
    if b.len() > 0 && upper_char(b[0]) {
        match command_of(b) {
            Some(c) => Some(BodyModel::Command(c)),
            None => None,
        }
    } else if b.len() > 0 && crate::host::digit_char(b[0]) {
        let d = first_at(b, ' ');
        if d < b.len() {
            if reply_accepts(b.take(d)) {
                Some(
                    BodyModel::Reply(reply_of(code_of_text(b.take(d))), params_of(b.skip(d + 1))),
                )
            } else {
                None
            }
        } else {
            if reply_accepts(b) {
                Some(BodyModel::Reply(reply_of(code_of_text(b)), Seq::empty()))
            } else {
                None
            }
        }
    } else {
        None
    }
}

/// What a full line denotes: trailing line terminators are dropped, a
/// `:`-led prefix up to the first space is the sender, the rest is the
/// body.
pub open spec fn message_of(s: Seq<char>) -> Option<MessageModel> {
    let t = spec_trim(s);
    if t.len() > 0 && t[0] == ':' && seq_contains(t, ' ') {
        let d = first_at(t, ' ');
        if Sender::accepts(t.subrange(1, d)) {
            match body_of(t.skip(d + 1)) {
                Some(b) => Some(
                    MessageModel { sender: Some(Sender::value_of(t.subrange(1, d))), body: b },
                ),
                None => None,
            }
        } else {
            None
        }
    } else {
        match body_of(t) {
            Some(b) => Some(MessageModel { sender: None, body: b }),
            None => None,
        }
    }
}

/// The canonical text of a body.
pub open spec fn body_text(b: BodyModel) -> Seq<char> {
    match b {
        BodyModel::Command(c) => command_text(c),
        BodyModel::Reply(rt, ps) => if ps.len() == 0 {
            reply_text(reply_code(rt))
        } else {
            reply_text(reply_code(rt)) + seq![' '] + spec_render_params(ps)
        },
    }
}

/// The canonical text of a message, without a line terminator.
pub open spec fn message_text(m: MessageModel) -> Seq<char> {
    match m.sender {
        Some(sn) => seq![':'] + Sender::text_of(sn) + seq![' '] + body_text(m.body),
        None => body_text(m.body),
    }
}

/// The bodies whose rendering parses back: a well-formed command whose
/// text opens with its uppercase verb, or a well-formed reply whose
/// parameters the tokenizer can carry; in both cases the text must not end
/// in a line terminator of its own.
pub open spec fn body_wf(b: BodyModel) -> bool {
    &&& match b {
        BodyModel::Command(c) => command_wf(c) && upper_char(body_text(b)[0]),
        BodyModel::Reply(rt, ps) => reply_wf(rt) && (ps.len() == 0 || params_renderable(ps)),
    }
    &&& body_text(b).len() > 0
    &&& body_text(b)[body_text(b).len() - 1] != '\r'
    &&& body_text(b)[body_text(b).len() - 1] != '\n'
}

/// The messages whose rendering parses back.
pub open spec fn message_wf(m: MessageModel) -> bool {
    &&& body_wf(m.body)
    &&& match m.sender {
        Some(sn) => Sender::model_wf(sn) && crate::params::middle_ok(Sender::text_of(sn)),
        None => true,
    }
}

impl Message {
    /// Parse one line, tolerating trailing CR and LF.
    pub fn parse(s: &str) -> (r: Result<Message, ParseError>)
        ensures
            r is Ok <==> message_of(s@) is Some,
            r matches Ok(t) ==> Some(t@) == message_of(s@),
    {
        let v = to_chars(s);
        let mut end = v.len();
        proof {
            assert(v@.take(v@.len() as int) =~= v@);
        }
        while end > 0 && (v[end - 1] == '\r' || v[end - 1] == '\n')
            invariant
                end <= v@.len(),
                spec_trim(v@) == spec_trim(v@.take(end as int)),
            decreases end,
        {
            proof {
                assert(v@.take(end as int).take(end - 1) =~= v@.take(end - 1));
            }
            end = end - 1;
        }
        let t = subvec(&v, 0, end);
        proof {
            assert(t@ =~= v@.take(end as int));
            assert(spec_trim(t@) == t@);
            lemma_first_at(t@, ' ');
            assert(t@.skip(0) =~= t@);
        }
        if t.len() > 0 && t[0] == ':' && crate::text::contains_char(&t, 0, ' ') {
            proof {
                assert(t@.skip(0) =~= t@);
            }
            let d = first_at_exec(&t, ' ');
            let sender_part = subvec(&t, 1, d);
            let body_part = subvec(&t, d + 1, t.len());
            proof {
                assert(sender_part@ =~= t@.subrange(1, d as int));
                assert(body_part@ =~= t@.skip(d + 1));
            }
            let sn = match Sender::parse_chars(&sender_part) {
                Ok(x) => x,
                Err(e) => {
                    return Err(e);
                },
            };
            match Self::parse_body(&body_part) {
                Ok(b) => Ok(Message { sender: Some(sn), body: b }),
                Err(e) => Err(e),
            }
        } else {
            proof {
                if t@.len() > 0 && t@[0] == ':' {
                    assert(!seq_contains(t@, ' '));
                }
            }
            match Self::parse_body(&t) {
                Ok(b) => Ok(Message { sender: None, body: b }),
                Err(e) => Err(e),
            }
        }
    }

    /// Parse a body: a command after an uppercase letter, a reply after a
    /// digit.
    fn parse_body(v: &Vec<char>) -> (r: Result<MessageBody, ParseError>)
        ensures
            r is Ok <==> body_of(v@) is Some,
            r matches Ok(t) ==> Some(t@) == body_of(v@),
    {
        if v.len() == 0 {
            return Err(ParseError::new("MessageBody"));
        }
        let c0 = v[0];
        if 'A' <= c0 && c0 <= 'Z' {
            match Command::parse_chars(v) {
                Ok(c) => Ok(MessageBody::Command(c)),
                Err(e) => Err(e),
            }
        } else if crate::host::is_digit_char(c0) {
            proof {
                lemma_first_at(v@, ' ');
            }
            let d = first_at_exec(v, ' ');
            if d < v.len() {
                let head = subvec(v, 0, d);
                let rest = subvec(v, d + 1, v.len());
                proof {
                    assert(head@ =~= v@.take(d as int));
                    assert(rest@ =~= v@.skip(d + 1));
                }
                let rt = match ReplyType::parse_chars(&head) {
                    Ok(x) => x,
                    Err(e) => {
                        return Err(e);
                    },
                };
                let ps = MessageParams::parse_chars(&rest);
                Ok(MessageBody::Reply(rt, ps))
            } else {
                let rt = match ReplyType::parse_chars(v) {
                    Ok(x) => x,
                    Err(e) => {
                        return Err(e);
                    },
                };
                let ps = MessageParams::new();
                proof {
                    assert(ps@ =~= Seq::<Seq<char>>::empty());
                }
                Ok(MessageBody::Reply(rt, ps))
            }
        } else {
            Err(ParseError::new("MessageBody"))
        }
    }

    /// The canonical line for this message, without a terminator.
    pub fn render(&self) -> (r: String)
        requires
            message_wf(self@),
        ensures
            r@ == message_text(self@),
    {
        let body = match &self.body {
            MessageBody::Command(c) => {
                let b = c.render();
                proof {
                    assert(b@ == body_text(self@.body));
                }
                b
            },
            MessageBody::Reply(rt, ps) => {
                let mut out = rt.render_chars();
                if ps.len() > 0 {
                    out.push(' ');
                    let pv = ps.render_chars();
                    push_range(&mut out, &pv, 0, pv.len());
                    proof {
                        assert(pv@.subrange(0, pv@.len() as int) =~= pv@);
                        assert(out@ =~= body_text(self@.body));
                    }
                } else {
                    proof {
                        assert(out@ =~= body_text(self@.body));
                    }
                }
                from_chars(&out)
            },
        };
        match &self.sender {
            Some(sn) => {
                let mut out: Vec<char> = Vec::new();
                out.push(':');
                let st = sn.render_chars();
                push_range(&mut out, &st, 0, st.len());
                out.push(' ');
                push_str_chars(&mut out, body.as_str());
                proof {
                    assert(st@.subrange(0, st@.len() as int) =~= st@);
                    assert(out@ =~= message_text(self@));
                }
                from_chars(&out)
            },
            None => body,
        }
    }
}

/// Trimming strips an appended CR LF exactly, when the text itself does
/// not end in a terminator.
proof fn lemma_trim_crlf(t: Seq<char>)
    requires
        t.len() > 0,
        t[t.len() - 1] != '\r',
        t[t.len() - 1] != '\n',
    ensures
        spec_trim(t + seq!['\r', '\n']) == t,
{
    let u = t + seq!['\r', '\n'];
    assert(u[u.len() - 1] == '\n');
    assert(u.take(u.len() - 1) =~= t + seq!['\r']);
    let w = t + seq!['\r'];
    assert(w[w.len() - 1] == '\r');
    assert(w.take(w.len() - 1) =~= t);
    assert(spec_trim(u) == spec_trim(w));
    assert(spec_trim(w) == spec_trim(t));
    assert(spec_trim(t) == t);
}

/// Every well-formed message, rendered and sent with its CR LF terminator,
/// parses back to the same message.
pub proof fn lemma_message_roundtrip(m: MessageModel)
    requires
        message_wf(m),
    ensures
        message_of(message_text(m) + seq!['\r', '\n']) == Some(m),
{
    let bt = body_text(m.body);
    let t = message_text(m);
    assert(t.len() > 0);
    assert(t[t.len() - 1] == bt[bt.len() - 1]) by {
        match m.sender {
            Some(sn) => {
                assert(t == seq![':'] + Sender::text_of(sn) + seq![' '] + bt);
            },
            None => {},
        }
    }
    lemma_trim_crlf(t);
    lemma_body_roundtrip(m.body);
    match m.sender {
        None => {
            assert(t == bt);
            assert(!(t.len() > 0 && t[0] == ':' && seq_contains(t, ' '))) by {
                assert(upper_char(bt[0]) || crate::host::digit_char(bt[0])) by {
                    match m.body {
                        BodyModel::Command(c) => {},
                        BodyModel::Reply(rt, ps) => {
                            assert(bt[0] == reply_text(reply_code(rt))[0]);
                            assert(crate::host::digit_char(reply_text(reply_code(rt))[0])) by {
                                crate::reply::lemma_reply_code_of(rt);
                            }
                        },
                    }
                }
            }
        },
        Some(sn) => {
            let st = Sender::text_of(sn);
            assert(t == seq![':'] + st + seq![' '] + bt);
            assert(t[0] == ':');
            let d = st.len() + 1;
            assert(t[d as int] == ' ');
            assert forall|k: int| 0 <= k < d implies t[k] != ' ' by {
                if k >= 1 {
                    assert(t[k] == st[k - 1]);
                    if st[k - 1] == ' ' {
                        assert(seq_contains(st, ' '));
                    }
                }
            }
            lemma_first_at_is(t, ' ', d as int);
            assert(seq_contains(t, ' '));
            assert(t.subrange(1, d as int) =~= st);
            assert(t.skip(d as int + 1) =~= bt);
            Sender::lemma_canonical(sn);
        },
    }
}

/// A well-formed body parses back from its canonical text.
proof fn lemma_body_roundtrip(b: BodyModel)
    requires
        body_wf(b),
    ensures
        body_of(body_text(b)) == Some(b),
{
    let t = body_text(b);
    match b {
        BodyModel::Command(c) => {
            crate::command::lemma_command_roundtrip(c);
            assert(t.len() > 0);
            assert(upper_char(t[0]));
            assert(command_of(t) == Some(c));
            assert(body_of(t) == Some(BodyModel::Command(c)));
        },
        BodyModel::Reply(rt, ps) => {
            crate::reply::lemma_reply_code_of(rt);
            let code = reply_code(rt);
            let rt_text = reply_text(code);
            assert(crate::host::digit_char(rt_text[0]));
            assert(rt_text.len() == 3);
            assert(!upper_char(t[0])) by {
                assert(t[0] == rt_text[0]);
            }
            assert(reply_accepts(rt_text)) by {
                crate::reply::lemma_digit_round(rt_text[0]);
                assert(code_of_text(rt_text) == code) by {
                    assert(crate::host::digit_val(rt_text[0]) == code / 100);
                    assert(crate::host::digit_val(rt_text[1]) == (code / 10) % 10);
                    assert(crate::host::digit_val(rt_text[2]) == code % 10);
                    assert(100 * (code / 100) + 10 * ((code / 10) % 10) + code % 10 == code) by (nonlinear_arith)
                        requires
                            0 <= code <= 599,
                    ;
                }
            }
            if ps.len() == 0 {
                assert(ps =~= Seq::<Seq<char>>::empty());
                assert(t == rt_text);
                assert forall|k: int| 0 <= k < t.len() implies t[k] != ' ' by {
                    assert(crate::host::digit_char(t[k]));
                }
                lemma_first_at_is(t, ' ', t.len() as int);
                assert(body_of(t) == Some(BodyModel::Reply(reply_of(code_of_text(t)), Seq::<Seq<
                    char,
                >>::empty())));
            } else {
                assert(t == rt_text + seq![' '] + spec_render_params(ps));
                assert(t[3] == ' ');
                assert forall|k: int| 0 <= k < 3 implies t[k] != ' ' by {
                    assert(t[k] == rt_text[k]);
                    assert(crate::host::digit_char(rt_text[k]));
                }
                lemma_first_at_is(t, ' ', 3);
                assert(t.take(3) =~= rt_text);
                assert(t.skip(4) =~= spec_render_params(ps));
                crate::params::lemma_params_roundtrip(ps);
            }
        },
    }
}

} // verus!
