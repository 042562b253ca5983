//! The command vocabulary: one variant per RFC command shape, a parser
//! keyed on the verb and the parameter count, and a canonical renderer.
use crate::channel::{Channel, ChannelModel};
use crate::grammar::Grammar;
use crate::host::{digit_char, digit_val, dec_val, is_digit_char};
use crate::keyword_list::{klist_texts, KeywordList};
use crate::params::{last_ok, middle_ok, params_of, spec_render_params, MessageParams};
use crate::recipient::{Recipient, RecipientModel};
use crate::sender::{Sender, SenderModel};
use crate::server::Servername;
use crate::stats_query::StatsQuery;
use crate::target_mask::ServerMask;
use crate::text::{first_at, first_at_exec, from_chars, lemma_first_at, lemma_first_at_is, push_range, push_str_chars, seq_contains, spec_join, subvec, to_chars};
use crate::user::{Nickname, Username};
use crate::ParseError;
use vstd::prelude::*;

verus! {

/// The abstract form of a command.
pub enum CommandModel {
    Pass { password: Seq<char> },
    Nick { nickname: Seq<char> },
    User { username: Seq<char>, mode: u8, realname: Seq<char> },
    Oper { user: Seq<char>, password: Seq<char> },
    UserMode { nickname: Seq<char>, modes: Seq<char> },
    Service { nickname: Seq<char>, distribution: Seq<char>, info: Seq<char> },
    Quit { message: Option<Seq<char>> },
    SQuit { server: Seq<char>, comment: Seq<char> },
    Join { channels: Seq<ChannelModel>, keys: Seq<Seq<char>> },
    Part { channels: Seq<ChannelModel>, message: Option<Seq<char>> },
    ChannelMode { channel: ChannelModel, modes: Seq<char> },
    Topic { channel: ChannelModel, topic: Option<Seq<char>> },
    Names { channels: Seq<ChannelModel>, target: Option<Seq<char>> },
    List { channels: Seq<ChannelModel>, target: Option<Seq<char>> },
    Invite { nickname: Seq<char>, channel: ChannelModel },
    Kick { channels: Seq<ChannelModel>, users: Seq<Seq<char>>, comment: Option<Seq<char>> },
    Privmsg { recipients: Seq<RecipientModel>, message: Seq<char> },
    Notice { recipients: Seq<RecipientModel>, message: Seq<char> },
    Motd { target: Option<Seq<char>> },
    LUsers { mask: Option<Seq<char>>, target: Option<Seq<char>> },
    Version { target: Option<Seq<char>> },
    Stats { query: Option<StatsQuery>, target: Option<Seq<char>> },
    Links { mask: Option<Seq<char>>, target: Option<Seq<char>> },
    Time { target: Option<Seq<char>> },
    Connect { target: Seq<char>, port: u16, remote: Option<Seq<char>> },
    Trace { target: Option<Seq<char>> },
    Admin { target: Option<Seq<char>> },
    Info { target: Option<Seq<char>> },
    ServList { mask: Option<Seq<char>>, service_type: Option<Seq<char>> },
    SQuery { recipient: RecipientModel, message: Seq<char> },
    Who { mask: Option<Seq<char>>, op_only: bool },
    WhoIs { mask: Seq<char>, target: Option<Seq<char>> },
    WhoWas { nicknames: Seq<Seq<char>>, count: Option<u16>, target: Option<Seq<char>> },
    Kill { nickname: Seq<char>, comment: Seq<char> },
    Ping { from: Option<SenderModel>, to: Option<SenderModel> },
    Pong { from: SenderModel, to: Option<SenderModel> },
    Error { message: Seq<char> },
    Away { message: Option<Seq<char>> },
    Rehash,
    Die,
    Restart,
    Summon { user: Seq<char>, target: Option<Seq<char>>, channel: Option<ChannelModel> },
    Users { target: Option<Seq<char>> },
    WallOps { message: Seq<char> },
    UserHost { nicknames: Seq<Seq<char>> },
    IsOn { nicknames: Seq<Seq<char>> },
}

/// A client or server command with typed fields.
#[derive(PartialEq, Eq, Debug)]
pub enum Command {
    Pass { password: String },
    Nick { nickname: Nickname },
    User { username: Username, mode: u8, realname: String },
    Oper { user: Username, password: String },
    UserMode { nickname: Nickname, modes: String },
    Service { nickname: Nickname, distribution: ServerMask, info: String },
    Quit { message: Option<String> },
    SQuit { server: Servername, comment: String },
    Join { channels: KeywordList<Channel>, keys: KeywordList<crate::channel::ChannelKey> },
    Part { channels: KeywordList<Channel>, message: Option<String> },
    ChannelMode { channel: Channel, modes: String },
    Topic { channel: Channel, topic: Option<String> },
    Names { channels: KeywordList<Channel>, target: Option<ServerMask> },
    List { channels: KeywordList<Channel>, target: Option<ServerMask> },
    Invite { nickname: Nickname, channel: Channel },
    Kick {
        channels: KeywordList<Channel>,
        users: KeywordList<Username>,
        comment: Option<String>,
    },
    Privmsg { recipients: KeywordList<Recipient>, message: String },
    Notice { recipients: KeywordList<Recipient>, message: String },
    Motd { target: Option<ServerMask> },
    LUsers { mask: Option<ServerMask>, target: Option<Servername> },
    Version { target: Option<ServerMask> },
    Stats { query: Option<StatsQuery>, target: Option<ServerMask> },
    Links { mask: Option<ServerMask>, target: Option<ServerMask> },
    Time { target: Option<ServerMask> },
    Connect { target: Servername, port: u16, remote: Option<Servername> },
    Trace { target: Option<String> },
    Admin { target: Option<String> },
    Info { target: Option<String> },
    ServList { mask: Option<String>, service_type: Option<String> },
    SQuery { recipient: Recipient, message: String },
    Who { mask: Option<String>, op_only: bool },
    WhoIs { mask: String, target: Option<ServerMask> },
    WhoWas { nicknames: KeywordList<Nickname>, count: Option<u16>, target: Option<ServerMask> },
    Kill { nickname: Nickname, comment: String },
    Ping { from: Option<Sender>, to: Option<Sender> },
    Pong { from: Sender, to: Option<Sender> },
    Error { message: String },
    Away { message: Option<String> },
    Rehash,
    Die,
    Restart,
    Summon { user: Username, target: Option<Servername>, channel: Option<Channel> },
    Users { target: Option<Servername> },
    WallOps { message: String },
    UserHost { nicknames: KeywordList<Nickname> },
    IsOn { nicknames: KeywordList<Nickname> },
}

pub open spec fn view_opt_str(o: Option<String>) -> Option<Seq<char>> {
    match o {
        Some(s) => Some(s@),
        None => None,
    }
}

pub open spec fn view_opt<T: View>(o: Option<T>) -> Option<T::V> {
    match o {
        Some(t) => Some(t@),
        None => None,
    }
}

impl View for Command {
    type V = CommandModel;

    open spec fn view(&self) -> CommandModel {
        match self {
            Command::Pass { password } => CommandModel::Pass { password: password@ },
            Command::Nick { nickname } => CommandModel::Nick { nickname: nickname@ },
            Command::User { username, mode, realname } => CommandModel::User {
                username: username@,
                mode: *mode,
                realname: realname@,
            },
            Command::Oper { user, password } => CommandModel::Oper {
                user: user@,
                password: password@,
            },
            Command::UserMode { nickname, modes } => CommandModel::UserMode {
                nickname: nickname@,
                modes: modes@,
            },
            Command::Service { nickname, distribution, info } => CommandModel::Service {
                nickname: nickname@,
                distribution: distribution@,
                info: info@,
            },
            Command::Quit { message } => CommandModel::Quit { message: view_opt_str(*message) },
            Command::SQuit { server, comment } => CommandModel::SQuit {
                server: server@,
                comment: comment@,
            },
            Command::Join { channels, keys } => CommandModel::Join {
                channels: channels@,
                keys: keys@,
            },
            Command::Part { channels, message } => CommandModel::Part {
                channels: channels@,
                message: view_opt_str(*message),
            },
            Command::ChannelMode { channel, modes } => CommandModel::ChannelMode {
                channel: channel@,
                modes: modes@,
            },
            Command::Topic { channel, topic } => CommandModel::Topic {
                channel: channel@,
                topic: view_opt_str(*topic),
            },
            Command::Names { channels, target } => CommandModel::Names {
                channels: channels@,
                target: view_opt(*target),
            },
            Command::List { channels, target } => CommandModel::List {
                channels: channels@,
                target: view_opt(*target),
            },
            Command::Invite { nickname, channel } => CommandModel::Invite {
                nickname: nickname@,
                channel: channel@,
            },
            Command::Kick { channels, users, comment } => CommandModel::Kick {
                channels: channels@,
                users: users@,
                comment: view_opt_str(*comment),
            },
            Command::Privmsg { recipients, message } => CommandModel::Privmsg {
                recipients: recipients@,
                message: message@,
            },
            Command::Notice { recipients, message } => CommandModel::Notice {
                recipients: recipients@,
                message: message@,
            },
            Command::Motd { target } => CommandModel::Motd { target: view_opt(*target) },
            Command::LUsers { mask, target } => CommandModel::LUsers {
                mask: view_opt(*mask),
                target: view_opt(*target),
            },
            Command::Version { target } => CommandModel::Version { target: view_opt(*target) },
            Command::Stats { query, target } => CommandModel::Stats {
                query: match query {
                    Some(q) => Some(*q),
                    None => None,
                },
                target: view_opt(*target),
            },
            Command::Links { mask, target } => CommandModel::Links {
                mask: view_opt(*mask),
                target: view_opt(*target),
            },
            Command::Time { target } => CommandModel::Time { target: view_opt(*target) },
            Command::Connect { target, port, remote } => CommandModel::Connect {
                target: target@,
                port: *port,
                remote: view_opt(*remote),
            },
            Command::Trace { target } => CommandModel::Trace { target: view_opt_str(*target) },
            Command::Admin { target } => CommandModel::Admin { target: view_opt_str(*target) },
            Command::Info { target } => CommandModel::Info { target: view_opt_str(*target) },
            Command::ServList { mask, service_type } => CommandModel::ServList {
                mask: view_opt_str(*mask),
                service_type: view_opt_str(*service_type),
            },
            Command::SQuery { recipient, message } => CommandModel::SQuery {
                recipient: recipient@,
                message: message@,
            },
            Command::Who { mask, op_only } => CommandModel::Who {
                mask: view_opt_str(*mask),
                op_only: *op_only,
            },
            Command::WhoIs { mask, target } => CommandModel::WhoIs {
                mask: mask@,
                target: view_opt(*target),
            },
            Command::WhoWas { nicknames, count, target } => CommandModel::WhoWas {
                nicknames: nicknames@,
                count: *count,
                target: view_opt(*target),
            },
            Command::Kill { nickname, comment } => CommandModel::Kill {
                nickname: nickname@,
                comment: comment@,
            },
            Command::Ping { from, to } => CommandModel::Ping {
                from: view_opt(*from),
                to: view_opt(*to),
            },
            Command::Pong { from, to } => CommandModel::Pong { from: from@, to: view_opt(*to) },
            Command::Error { message } => CommandModel::Error { message: message@ },
            Command::Away { message } => CommandModel::Away { message: view_opt_str(*message) },
            Command::Rehash => CommandModel::Rehash,
            Command::Die => CommandModel::Die,
            Command::Restart => CommandModel::Restart,
            Command::Summon { user, target, channel } => CommandModel::Summon {
                user: user@,
                target: view_opt(*target),
                channel: view_opt(*channel),
            },
            Command::Users { target } => CommandModel::Users { target: view_opt(*target) },
            Command::WallOps { message } => CommandModel::WallOps { message: message@ },
            Command::UserHost { nicknames } => CommandModel::UserHost { nicknames: nicknames@ },
            Command::IsOn { nicknames } => CommandModel::IsOn { nicknames: nicknames@ },
        }
    }
}

/// The verb: everything before the first space, or the whole body.
pub open spec fn verb_of(s: Seq<char>) -> Seq<char> {
    if first_at(s, ' ') < s.len() {
        s.take(first_at(s, ' '))
    } else {
        s
    }
}

/// The raw parameter body: everything after the first space.
pub open spec fn rest_of(s: Seq<char>) -> Seq<char> {
    if first_at(s, ' ') < s.len() {
        s.skip(first_at(s, ' ') + 1)
    } else {
        Seq::empty()
    }
}

/// The tokenized parameters of the body.
pub open spec fn args_of(s: Seq<char>) -> Seq<Seq<char>> {
    params_of(rest_of(s))
}

/// The digits of a decimal text, with an optional leading `+` dropped.
pub open spec fn uint_digits(s: Seq<char>) -> Seq<char> {
    if s.len() >= 1 && s[0] == '+' {
        s.skip(1)
    } else {
        s
    }
}

/// A decimal unsigned number as `u8`/`u16` read it: an optional `+`, then
/// digits, within the bound.
pub open spec fn uint_text_ok(s: Seq<char>, max: int) -> bool {
    &&& uint_digits(s).len() >= 1
    &&& forall|i: int| 0 <= i < uint_digits(s).len() ==> digit_char(#[trigger] uint_digits(s)[i])
    &&& dec_val(uint_digits(s)) <= max
}

/// The number such a text denotes.
pub open spec fn uint_text_val(s: Seq<char>) -> int {
    dec_val(uint_digits(s))
}

/// The MODE disambiguation: the modes string is the raw parameter body
/// after its first space.
pub open spec fn modes_of(s: Seq<char>) -> Seq<char> {
    if first_at(s, ' ') < s.len() {
        s.skip(first_at(s, ' ') + 1)
    } else {
        Seq::empty()
    }
}

/// The verbs this dispatch group handles.
pub open spec fn verbs_a(vb: Seq<char>) -> bool {
    vb == "PASS"@ || vb == "NICK"@ || vb == "USER"@ || vb == "OPER"@ || vb == "MODE"@ || vb == "SERVICE"@
}

pub open spec fn command_a(s: Seq<char>) -> Option<CommandModel> {
    let verb = verb_of(s);
    let args = args_of(s);
    let raw = rest_of(s);
    let n = args.len() as int;
    if verb == "PASS"@ && n == 1 {
        Some(CommandModel::Pass { password: args[0] })} else if verb == "NICK"@ && n == 1 {
        if Nickname::accepts(args[0]) {
            Some(CommandModel::Nick { nickname: args[0] })
        } else {
            None
        }} else if verb == "USER"@ && n == 4 {
        if Username::accepts(args[0]) && uint_text_ok(args[1], 255) {
            Some(CommandModel::User {
                username: args[0],
                mode: uint_text_val(args[1]) as u8,
                realname: args[3],
            })
        } else {
            None
        }} else if verb == "OPER"@ && n == 2 {
        if Username::accepts(args[0]) {
            Some(CommandModel::Oper { user: args[0], password: args[1] })
        } else {
            None
        }} else if verb == "MODE"@ && 2 <= n <= 15 {
        if Channel::accepts(args[0]) {
            Some(CommandModel::ChannelMode {
                channel: Channel::value_of(args[0]),
                modes: modes_of(raw),
            })
        } else if Nickname::accepts(args[0]) {
            Some(CommandModel::UserMode { nickname: args[0], modes: modes_of(raw) })
        } else {
            None
        }} else if verb == "SERVICE"@ && n == 6 {
        if Nickname::accepts(args[0]) && crate::target_mask::mask_ok(args[2]) {
            Some(CommandModel::Service {
                nickname: args[0],
                distribution: args[2],
                info: args[5],
            })
        } else {
            None
        }} else {
        None
    }
}

/// The verbs this dispatch group handles.
pub open spec fn verbs_b(vb: Seq<char>) -> bool {
    vb == "QUIT"@ || vb == "SQUIT"@ || vb == "JOIN"@ || vb == "PART"@ || vb == "TOPIC"@
}

pub open spec fn command_b(s: Seq<char>) -> Option<CommandModel> {
    let verb = verb_of(s);
    let args = args_of(s);
    let raw = rest_of(s);
    let n = args.len() as int;
    if verb == "QUIT"@ && n == 0 {
        Some(CommandModel::Quit { message: None })} else if verb == "QUIT"@ && n == 1 {
        Some(CommandModel::Quit { message: Some(args[0]) })} else if verb == "SQUIT"@ && n == 2 {
        if crate::server::name_ok(args[0]) {
            Some(CommandModel::SQuit { server: args[0], comment: args[1] })
        } else {
            None
        }} else if verb == "JOIN"@ && n == 1 {
        if args[0] == seq!['0'] {
            Some(CommandModel::Join { channels: Seq::empty(), keys: Seq::empty() })
        } else if KeywordList::<Channel>::accepts(args[0]) {
            Some(CommandModel::Join {
                channels: KeywordList::<Channel>::value_of(args[0]),
                keys: Seq::empty(),
            })
        } else {
            None
        }} else if verb == "JOIN"@ && n == 2 {
        if KeywordList::<Channel>::accepts(args[0]) && KeywordList::<
            crate::channel::ChannelKey,
        >::accepts(args[1]) {
            Some(CommandModel::Join {
                channels: KeywordList::<Channel>::value_of(args[0]),
                keys: KeywordList::<crate::channel::ChannelKey>::value_of(args[1]),
            })
        } else {
            None
        }} else if verb == "PART"@ && (n == 1 || n == 2) {
        if KeywordList::<Channel>::accepts(args[0]) {
            Some(CommandModel::Part {
                channels: KeywordList::<Channel>::value_of(args[0]),
                message: if n == 2 {
                    Some(args[1])
                } else {
                    None
                },
            })
        } else {
            None
        }} else if verb == "TOPIC"@ && (n == 1 || n == 2) {
        if Channel::accepts(args[0]) {
            Some(CommandModel::Topic {
                channel: Channel::value_of(args[0]),
                topic: if n == 2 {
                    Some(args[1])
                } else {
                    None
                },
            })
        } else {
            None
        }} else {
        None
    }
}

/// The verbs this dispatch group handles.
pub open spec fn verbs_c(vb: Seq<char>) -> bool {
    vb == "NAMES"@ || vb == "LIST"@ || vb == "INVITE"@ || vb == "KICK"@ || vb == "PRIVMSG"@ || vb == "NOTICE"@
}

pub open spec fn command_c(s: Seq<char>) -> Option<CommandModel> {
    let verb = verb_of(s);
    let args = args_of(s);
    let raw = rest_of(s);
    let n = args.len() as int;
    if verb == "NAMES"@ && n == 0 {
        Some(CommandModel::Names { channels: Seq::empty(), target: None })} else if verb == "NAMES"@ && (n == 1 || n == 2) {
        if KeywordList::<Channel>::accepts(args[0]) && (n == 1 || crate::target_mask::mask_ok(
            args[1],
        )) {
            Some(CommandModel::Names {
                channels: KeywordList::<Channel>::value_of(args[0]),
                target: if n == 2 {
                    Some(args[1])
                } else {
                    None
                },
            })
        } else {
            None
        }} else if verb == "LIST"@ && n == 0 {
        Some(CommandModel::List { channels: Seq::empty(), target: None })} else if verb == "LIST"@ && (n == 1 || n == 2) {
        if KeywordList::<Channel>::accepts(args[0]) && (n == 1 || crate::target_mask::mask_ok(
            args[1],
        )) {
            Some(CommandModel::List {
                channels: KeywordList::<Channel>::value_of(args[0]),
                target: if n == 2 {
                    Some(args[1])
                } else {
                    None
                },
            })
        } else {
            None
        }} else if verb == "INVITE"@ && n == 2 {
        if Nickname::accepts(args[0]) && Channel::accepts(args[1]) {
            Some(CommandModel::Invite { nickname: args[0], channel: Channel::value_of(args[1]) })
        } else {
            None
        }} else if verb == "KICK"@ && (n == 2 || n == 3) {
        if KeywordList::<Channel>::accepts(args[0]) && KeywordList::<Username>::accepts(args[1]) {
            Some(CommandModel::Kick {
                channels: KeywordList::<Channel>::value_of(args[0]),
                users: KeywordList::<Username>::value_of(args[1]),
                comment: if n == 3 {
                    Some(args[2])
                } else {
                    None
                },
            })
        } else {
            None
        }} else if verb == "PRIVMSG"@ && n == 2 {
        if KeywordList::<Recipient>::accepts(args[0]) {
            Some(CommandModel::Privmsg {
                recipients: KeywordList::<Recipient>::value_of(args[0]),
                message: args[1],
            })
        } else {
            None
        }} else if verb == "NOTICE"@ && n == 2 {
        if KeywordList::<Recipient>::accepts(args[0]) {
            Some(CommandModel::Notice {
                recipients: KeywordList::<Recipient>::value_of(args[0]),
                message: args[1],
            })
        } else {
            None
        }} else {
        None
    }
}

/// The verbs this dispatch group handles.
pub open spec fn verbs_d(vb: Seq<char>) -> bool {
    vb == "MOTD"@ || vb == "LUSERS"@ || vb == "VERSION"@ || vb == "STATS"@ || vb == "LINKS"@ || vb == "TIME"@
}

pub open spec fn command_d(s: Seq<char>) -> Option<CommandModel> {
    let verb = verb_of(s);
    let args = args_of(s);
    let raw = rest_of(s);
    let n = args.len() as int;
    if verb == "MOTD"@ && n == 0 {
        Some(CommandModel::Motd { target: None })} else if verb == "MOTD"@ && n == 1 {
        if crate::target_mask::mask_ok(args[0]) {
            Some(CommandModel::Motd { target: Some(args[0]) })
        } else {
            None
        }} else if verb == "LUSERS"@ && n == 0 {
        Some(CommandModel::LUsers { mask: None, target: None })} else if verb == "LUSERS"@ && (n == 1 || n == 2) {
        if crate::target_mask::mask_ok(args[0]) && (n == 1 || crate::server::name_ok(args[1])) {
            Some(CommandModel::LUsers {
                mask: Some(args[0]),
                target: if n == 2 {
                    Some(args[1])
                } else {
                    None
                },
            })
        } else {
            None
        }} else if verb == "VERSION"@ && n == 0 {
        Some(CommandModel::Version { target: None })} else if verb == "VERSION"@ && n == 1 {
        if crate::target_mask::mask_ok(args[0]) {
            Some(CommandModel::Version { target: Some(args[0]) })
        } else {
            None
        }} else if verb == "STATS"@ && n == 0 {
        Some(CommandModel::Stats { query: None, target: None })} else if verb == "STATS"@ && (n == 1 || n == 2) {
        if StatsQuery::accepts(args[0]) && (n == 1 || crate::target_mask::mask_ok(args[1])) {
            Some(CommandModel::Stats {
                query: Some(StatsQuery::value_of(args[0])),
                target: if n == 2 {
                    Some(args[1])
                } else {
                    None
                },
            })
        } else {
            None
        }} else if verb == "LINKS"@ && n == 0 {
        Some(CommandModel::Links { mask: None, target: None })} else if verb == "LINKS"@ && n == 1 {
        if crate::target_mask::mask_ok(args[0]) {
            Some(CommandModel::Links { mask: Some(args[0]), target: None })
        } else {
            None
        }} else if verb == "LINKS"@ && n == 2 {
        if crate::target_mask::mask_ok(args[0]) && crate::target_mask::mask_ok(args[1]) {
            Some(CommandModel::Links { mask: Some(args[1]), target: Some(args[0]) })
        } else {
            None
        }} else if verb == "TIME"@ && n == 0 {
        Some(CommandModel::Time { target: None })} else if verb == "TIME"@ && n == 1 {
        if crate::target_mask::mask_ok(args[0]) {
            Some(CommandModel::Time { target: Some(args[0]) })
        } else {
            None
        }} else {
        None
    }
}

/// The verbs this dispatch group handles.
pub open spec fn verbs_e(vb: Seq<char>) -> bool {
    vb == "CONNECT"@ || vb == "TRACE"@ || vb == "ADMIN"@ || vb == "INFO"@ || vb == "SERVLIST"@ || vb == "SQUERY"@
}

pub open spec fn command_e(s: Seq<char>) -> Option<CommandModel> {
    let verb = verb_of(s);
    let args = args_of(s);
    let raw = rest_of(s);
    let n = args.len() as int;
    if verb == "CONNECT"@ && (n == 2 || n == 3) {
        if crate::server::name_ok(args[0]) && uint_text_ok(args[1], 65535) && (n == 2
            || crate::server::name_ok(args[2])) {
            Some(CommandModel::Connect {
                target: args[0],
                port: uint_text_val(args[1]) as u16,
                remote: if n == 3 {
                    Some(args[2])
                } else {
                    None
                },
            })
        } else {
            None
        }} else if verb == "TRACE"@ && n == 0 {
        Some(CommandModel::Trace { target: None })} else if verb == "TRACE"@ && n == 1 {
        Some(CommandModel::Trace { target: Some(args[0]) })} else if verb == "ADMIN"@ && n == 0 {
        Some(CommandModel::Admin { target: None })} else if verb == "ADMIN"@ && n == 1 {
        Some(CommandModel::Admin { target: Some(args[0]) })} else if verb == "INFO"@ && n == 0 {
        Some(CommandModel::Info { target: None })} else if verb == "INFO"@ && n == 1 {
        Some(CommandModel::Info { target: Some(args[0]) })} else if verb == "SERVLIST"@ && n == 0 {
        Some(CommandModel::ServList { mask: None, service_type: None })} else if verb == "SERVLIST"@ && n == 1 {
        Some(CommandModel::ServList { mask: Some(args[0]), service_type: None })} else if verb == "SERVLIST"@ && n == 2 {
        Some(CommandModel::ServList { mask: Some(args[0]), service_type: Some(args[1]) })} else if verb == "SQUERY"@ && n == 2 {
        if Recipient::accepts(args[0]) {
            Some(CommandModel::SQuery {
                recipient: Recipient::value_of(args[0]),
                message: args[1],
            })
        } else {
            None
        }} else {
        None
    }
}

/// The verbs this dispatch group handles.
pub open spec fn verbs_f(vb: Seq<char>) -> bool {
    vb == "WHO"@ || vb == "WHOIS"@ || vb == "WHOWAS"@ || vb == "KILL"@ || vb == "PING"@ || vb == "PONG"@
}

pub open spec fn command_f(s: Seq<char>) -> Option<CommandModel> {
    let verb = verb_of(s);
    let args = args_of(s);
    let raw = rest_of(s);
    let n = args.len() as int;
    if verb == "WHO"@ && n == 0 {
        Some(CommandModel::Who { mask: None, op_only: false })} else if verb == "WHO"@ && n == 1 {
        Some(CommandModel::Who { mask: Some(args[0]), op_only: false })} else if verb == "WHO"@ && n == 2 {
        if args[1] == seq!['o'] {
            Some(CommandModel::Who { mask: Some(args[0]), op_only: true })
        } else {
            None
        }} else if verb == "WHOIS"@ && n == 1 {
        Some(CommandModel::WhoIs { mask: args[0], target: None })} else if verb == "WHOIS"@ && n == 2 {
        if crate::target_mask::mask_ok(args[0]) {
            Some(CommandModel::WhoIs { mask: args[1], target: Some(args[0]) })
        } else {
            None
        }} else if verb == "WHOWAS"@ && (n == 1 || n == 2 || n == 3) {
        if KeywordList::<Nickname>::accepts(args[0]) && (n == 1 || uint_text_ok(args[1], 65535))
            && (n <= 2 || crate::target_mask::mask_ok(args[2])) {
            Some(CommandModel::WhoWas {
                nicknames: KeywordList::<Nickname>::value_of(args[0]),
                count: if n >= 2 {
                    Some(uint_text_val(args[1]) as u16)
                } else {
                    None
                },
                target: if n == 3 {
                    Some(args[2])
                } else {
                    None
                },
            })
        } else {
            None
        }} else if verb == "KILL"@ && n == 2 {
        if Nickname::accepts(args[0]) {
            Some(CommandModel::Kill { nickname: args[0], comment: args[1] })
        } else {
            None
        }} else if verb == "PING"@ && n == 0 {
        Some(CommandModel::Ping { from: None, to: None })} else if verb == "PING"@ && n == 1 {
        if Sender::accepts(args[0]) {
            if raw.len() >= 1 && raw[0] == ':' {
                Some(CommandModel::Ping { from: Some(Sender::value_of(args[0])), to: None })
            } else {
                Some(CommandModel::Ping { from: None, to: Some(Sender::value_of(args[0])) })
            }
        } else {
            None
        }} else if verb == "PING"@ && n == 2 {
        if Sender::accepts(args[0]) && Sender::accepts(args[1]) {
            Some(CommandModel::Ping {
                from: Some(Sender::value_of(args[0])),
                to: Some(Sender::value_of(args[1])),
            })
        } else {
            None
        }} else if verb == "PONG"@ && (n == 1 || n == 2) {
        if Sender::accepts(args[0]) && (n == 1 || Sender::accepts(args[1])) {
            Some(CommandModel::Pong {
                from: Sender::value_of(args[0]),
                to: if n == 2 {
                    Some(Sender::value_of(args[1]))
                } else {
                    None
                },
            })
        } else {
            None
        }} else {
        None
    }
}

/// The verbs this dispatch group handles.
pub open spec fn verbs_g(vb: Seq<char>) -> bool {
    vb == "ERROR"@ || vb == "AWAY"@ || vb == "REHASH"@ || vb == "DIE"@ || vb == "RESTART"@ || vb == "SUMMON"@ || vb == "USERS"@ || vb == "WALLOPS"@ || vb == "USERHOST"@ || vb == "ISON"@
}

pub open spec fn command_g(s: Seq<char>) -> Option<CommandModel> {
    let verb = verb_of(s);
    let args = args_of(s);
    let raw = rest_of(s);
    let n = args.len() as int;
    if verb == "ERROR"@ && n == 1 {
        Some(CommandModel::Error { message: args[0] })} else if verb == "AWAY"@ && n == 0 {
        Some(CommandModel::Away { message: None })} else if verb == "AWAY"@ && n == 1 {
        Some(CommandModel::Away { message: Some(args[0]) })} else if verb == "REHASH"@ && n == 0 {
        Some(CommandModel::Rehash)} else if verb == "DIE"@ && n == 0 {
        Some(CommandModel::Die)} else if verb == "RESTART"@ && n == 0 {
        Some(CommandModel::Restart)} else if verb == "SUMMON"@ && (n == 1 || n == 2 || n == 3) {
        if Username::accepts(args[0]) && (n == 1 || crate::server::name_ok(args[1])) && (n <= 2
            || Channel::accepts(args[2])) {
            Some(CommandModel::Summon {
                user: args[0],
                target: if n >= 2 {
                    Some(args[1])
                } else {
                    None
                },
                channel: if n == 3 {
                    Some(Channel::value_of(args[2]))
                } else {
                    None
                },
            })
        } else {
            None
        }} else if verb == "USERS"@ && n == 0 {
        Some(CommandModel::Users { target: None })} else if verb == "USERS"@ && n == 1 {
        if crate::server::name_ok(args[0]) {
            Some(CommandModel::Users { target: Some(args[0]) })
        } else {
            None
        }} else if verb == "WALLOPS"@ && n == 1 {
        Some(CommandModel::WallOps { message: args[0] })} else if verb == "USERHOST"@ && 1 <= n <= 15 {
        if KeywordList::<Nickname>::accepts(spec_join(args, ',')) {
            Some(CommandModel::UserHost {
                nicknames: KeywordList::<Nickname>::value_of(spec_join(args, ',')),
            })
        } else {
            None
        }} else if verb == "ISON"@ && 1 <= n <= 15 {
        if KeywordList::<Nickname>::accepts(spec_join(args, ',')) {
            Some(CommandModel::IsOn {
                nicknames: KeywordList::<Nickname>::value_of(spec_join(args, ',')),
            })
        } else {
            None
        }} else {
        None
    }
}

/// What a command body denotes, keyed on the verb and the parameter
/// count: `None` is a refused body.
pub open spec fn command_of(s: Seq<char>) -> Option<CommandModel> {
    let verb = verb_of(s);
    if verbs_a(verb) {
        command_a(s)
    } else if verbs_b(verb) {
        command_b(s)
    } else if verbs_c(verb) {
        command_c(s)
    } else if verbs_d(verb) {
        command_d(s)
    } else if verbs_e(verb) {
        command_e(s)
    } else if verbs_f(verb) {
        command_f(s)
    } else if verbs_g(verb) {
        command_g(s)
    } else {
        None
    }
}


/// The characters of one parameter.
fn arg_chars(args: &MessageParams, i: usize) -> (r: Vec<char>)
    requires
        i < args@.len(),
    ensures
        r@ == args@[i as int],
{
    match args.get(i) {
        Some(a) => to_chars(a.as_str()),
        None => {
            proof {
                assert(false);
            }
            Vec::new()
        },
    }
}

/// One parameter as an owned string.
fn arg_string(args: &MessageParams, i: usize) -> (r: String)
    requires
        i < args@.len(),
    ensures
        r@ == args@[i as int],
{
    match args.get(i) {
        Some(a) => a.clone(),
        None => {
            proof {
                assert(false);
            }
            String::new()
        },
    }
}

/// Whether the verb equals a keyword.
fn verb_is(verb: &Vec<char>, s: &str) -> (r: bool)
    ensures
        r == (verb@ == s@),
{
    let r = crate::text::range_eq_str(verb, 0, verb.len(), s);
    proof {
        assert(verb@.subrange(0, verb@.len() as int) =~= verb@);
    }
    r
}

/// Whether one parameter is exactly one given character.
fn arg_is_char(args: &MessageParams, i: usize, c: char) -> (r: bool)
    requires
        i < args@.len(),
    ensures
        r == (args@[i as int] == seq![c]),
{
    let a = arg_chars(args, i);
    if a.len() == 1 && a[0] == c {
        proof {
            assert(a@ =~= seq![c]);
        }
        true
    } else {
        proof {
            if args@[i as int] == seq![c] {
                assert(a@.len() == 1 && a@[0] == c);
            }
        }
        false
    }
}

/// Parse a decimal unsigned number with an optional `+`, refusing values
/// over `max`.
pub fn parse_uint(v: &Vec<char>, max: u32) -> (r: Option<u32>)
    requires
        max <= 65535,
    ensures
        r is Some <==> uint_text_ok(v@, max as int),
        r matches Some(x) ==> x == uint_text_val(v@) && x <= max,
{
    let start: usize = if v.len() >= 1 && v[0] == '+' {
        1
    } else {
        0
    };
    let ghost d = if start == 1 {
        v@.skip(1)
    } else {
        v@
    };
    if v.len() == start {
        proof {
            assert(uint_digits(v@) == d);
            assert(uint_digits(v@).len() == 0);
        }
        return None;
    }
    let mut i: usize = start;
    let mut val: u32 = 0;
    proof {
        assert(d.take(0) =~= Seq::<char>::empty());
    }
    while i < v.len()
        invariant
            start <= i <= v@.len(),
            start <= 1,
            (start == 1) == (v@.len() >= 1 && v@[0] == '+'),
            max <= 65535,
            d == if start == 1 {
                v@.skip(1)
            } else {
                v@
            },
            d.len() == v@.len() - start,
            forall|j: int| 0 <= j < i - start ==> digit_char(#[trigger] d[j]),
            val <= max ==> val == dec_val(d.take(i - start)),
            val > max ==> dec_val(d.take(i - start)) > max,
            val <= 655359,
        decreases v@.len() - i,
    {
        let c = v[i];
        proof {
            assert(d[i - start] == v@[i as int]);
        }
        if !is_digit_char(c) {
            proof {
                assert(uint_digits(v@) == d);
                assert(!digit_char(uint_digits(v@)[i - start]));
                assert(!uint_text_ok(v@, max as int));
            }
            return None;
        }
        proof {
            assert(d.take(i - start + 1).take(i - start) =~= d.take(i - start));
            assert(d.take(i - start + 1)[i - start] == d[i - start]);
        }
        if val <= max {
            val = val * 10 + (c as u32 - 48);
        } else {
            proof {
                let pre = dec_val(d.take(i - start));
                assert(dec_val(d.take(i - start + 1)) == 10 * pre + digit_val(d[i - start]));
            }
        }
        i = i + 1;
    }
    proof {
        assert(d.take(v@.len() - start) =~= d);
    }
    if val <= max {
        Some(val)
    } else {
        None
    }
}

/// Join the parameters with commas, the USERHOST and ISON list form.
fn join_args(args: &MessageParams) -> (r: Vec<char>)
    ensures
        r@ == spec_join(args@, ','),
{
    let mut r: Vec<char> = Vec::new();
    let mut i: usize = 0;
    let n = args.len();
    proof {
        assert(args@.take(0) =~= Seq::<Seq<char>>::empty());
    }
    while i < n
        invariant
            i <= args@.len(),
            n == args@.len(),
            r@ == spec_join(args@.take(i as int), ','),
        decreases args@.len() - i,
    {
        let a = arg_chars(args, i);
        proof {
            crate::text::lemma_join_push(args@.take(i as int), a@, ',');
            assert(args@.take(i + 1) =~= args@.take(i as int).push(a@));
        }
        if i > 0 {
            r.push(',');
        }
        push_range(&mut r, &a, 0, a.len());
        proof {
            assert(a@.subrange(0, a@.len() as int) =~= a@);
            if i == 0 {
                assert(args@.take(0).len() == 0);
            }
        }
        i = i + 1;
    }
    proof {
        assert(args@.take(args@.len() as int) =~= args@);
    }
    r
}

#[verifier::rlimit(100)]
fn parse_a(Ghost(s): Ghost<Seq<char>>, verb: &Vec<char>, args: &MessageParams, raw: &Vec<char>) -> (r:
    Result<Command, ParseError>)
    requires
        verb@ == verb_of(s),
        args@ == args_of(s),
        raw@ == rest_of(s),
    ensures
        r is Ok <==> command_a(s) is Some,
        r matches Ok(c) ==> Some(c@) == command_a(s),
{
    let n = args.len();
    if verb_is(&verb, "PASS") && n == 1 {
            Ok(Command::Pass { password: arg_string(&args, 0) })} else if verb_is(&verb, "NICK") && n == 1 {
            let a = arg_chars(&args, 0);
            match Nickname::parse_chars(&a) {
                Ok(nickname) => Ok(Command::Nick { nickname }),
                Err(e) => Err(e),
            }} else if verb_is(&verb, "USER") && n == 4 {
            let a0 = arg_chars(&args, 0);
            let a1 = arg_chars(&args, 1);
            let username = match Username::parse_chars(&a0) {
                Ok(x) => x,
                Err(e) => {
                    return Err(e);
                },
            };
            let mode = match parse_uint(&a1, 255) {
                Some(x) => x as u8,
                None => {
                    return Err(ParseError::new("Command"));
                },
            };
            Ok(Command::User { username, mode, realname: arg_string(&args, 3) })} else if verb_is(&verb, "OPER") && n == 2 {
            let a0 = arg_chars(&args, 0);
            match Username::parse_chars(&a0) {
                Ok(user) => Ok(Command::Oper { user, password: arg_string(&args, 1) }),
                Err(e) => Err(e),
            }} else if verb_is(&verb, "MODE") && 2 <= n && n <= 15 {
            let msp = first_at_exec(&raw, ' ');
            proof {
                lemma_first_at(raw@, ' ');
            }
            let modes: String = if msp < raw.len() {
                let mv = subvec(&raw, msp + 1, raw.len());
                proof {
                    assert(mv@ =~= modes_of(rest_of(s)));
                }
                from_chars(&mv)
            } else {
                proof {
                    assert(Seq::<char>::empty() =~= modes_of(rest_of(s)));
                }
                String::new()
            };
            let a0 = arg_chars(&args, 0);
            match Channel::parse_chars(&a0) {
                Ok(channel) => Ok(Command::ChannelMode { channel, modes }),
                Err(_) => {
                    match Nickname::parse_chars(&a0) {
                        Ok(nickname) => Ok(Command::UserMode { nickname, modes }),
                        Err(_) => Err(ParseError::new("Command")),
                    }
                },
            }} else if verb_is(&verb, "SERVICE") && n == 6 {
            let a0 = arg_chars(&args, 0);
            let a2 = arg_chars(&args, 2);
            let nickname = match Nickname::parse_chars(&a0) {
                Ok(x) => x,
                Err(e) => {
                    return Err(e);
                },
            };
            let distribution = match ServerMask::parse_chars(&a2) {
                Ok(x) => x,
                Err(e) => {
                    return Err(e);
                },
            };
            Ok(Command::Service { nickname, distribution, info: arg_string(&args, 5) })} else {
        Err(ParseError::new("Command"))
    }
}

#[verifier::rlimit(100)]
fn parse_b(Ghost(s): Ghost<Seq<char>>, verb: &Vec<char>, args: &MessageParams, raw: &Vec<char>) -> (r:
    Result<Command, ParseError>)
    requires
        verb@ == verb_of(s),
        args@ == args_of(s),
        raw@ == rest_of(s),
    ensures
        r is Ok <==> command_b(s) is Some,
        r matches Ok(c) ==> Some(c@) == command_b(s),
{
    let n = args.len();
    if verb_is(&verb, "QUIT") && n == 0 {
            Ok(Command::Quit { message: None })} else if verb_is(&verb, "QUIT") && n == 1 {
            Ok(Command::Quit { message: Some(arg_string(&args, 0)) })} else if verb_is(&verb, "SQUIT") && n == 2 {
            let a0 = arg_chars(&args, 0);
            match Servername::parse_chars(&a0) {
                Ok(server) => Ok(Command::SQuit { server, comment: arg_string(&args, 1) }),
                Err(e) => Err(e),
            }} else if verb_is(&verb, "JOIN") && n == 1 {
            if arg_is_char(&args, 0, '0') {
                Ok(Command::Join { channels: KeywordList::new(), keys: KeywordList::new() })
            } else {
                let a0 = arg_chars(&args, 0);
                match KeywordList::<Channel>::parse_chars(&a0) {
                    Ok(channels) => Ok(Command::Join { channels, keys: KeywordList::new() }),
                    Err(e) => Err(e),
                }
            }} else if verb_is(&verb, "JOIN") && n == 2 {
            let a0 = arg_chars(&args, 0);
            let a1 = arg_chars(&args, 1);
            let channels = match KeywordList::<Channel>::parse_chars(&a0) {
                Ok(x) => x,
                Err(e) => {
                    return Err(e);
                },
            };
            let keys = match KeywordList::<crate::channel::ChannelKey>::parse_chars(&a1) {
                Ok(x) => x,
                Err(e) => {
                    return Err(e);
                },
            };
            Ok(Command::Join { channels, keys })} else if verb_is(&verb, "PART") && (n == 1 || n == 2) {
            let a0 = arg_chars(&args, 0);
            match KeywordList::<Channel>::parse_chars(&a0) {
                Ok(channels) => Ok(Command::Part {
                    channels,
                    message: if n == 2 {
                        Some(arg_string(&args, 1))
                    } else {
                        None
                    },
                }),
                Err(e) => Err(e),
            }} else if verb_is(&verb, "TOPIC") && (n == 1 || n == 2) {
            let a0 = arg_chars(&args, 0);
            match Channel::parse_chars(&a0) {
                Ok(channel) => Ok(Command::Topic {
                    channel,
                    topic: if n == 2 {
                        Some(arg_string(&args, 1))
                    } else {
                        None
                    },
                }),
                Err(e) => Err(e),
            }} else {
        Err(ParseError::new("Command"))
    }
}

#[verifier::rlimit(100)]
fn parse_c(Ghost(s): Ghost<Seq<char>>, verb: &Vec<char>, args: &MessageParams, raw: &Vec<char>) -> (r:
    Result<Command, ParseError>)
    requires
        verb@ == verb_of(s),
        args@ == args_of(s),
        raw@ == rest_of(s),
    ensures
        r is Ok <==> command_c(s) is Some,
        r matches Ok(c) ==> Some(c@) == command_c(s),
{
    let n = args.len();
    if verb_is(&verb, "NAMES") && n == 0 {
            Ok(Command::Names { channels: KeywordList::new(), target: None })} else if verb_is(&verb, "NAMES") && (n == 1 || n == 2) {
            let a0 = arg_chars(&args, 0);
            let channels = match KeywordList::<Channel>::parse_chars(&a0) {
                Ok(x) => x,
                Err(e) => {
                    return Err(e);
                },
            };
            if n == 2 {
                let a1 = arg_chars(&args, 1);
                match ServerMask::parse_chars(&a1) {
                    Ok(t) => Ok(Command::Names { channels, target: Some(t) }),
                    Err(e) => Err(e),
                }
            } else {
                Ok(Command::Names { channels, target: None })
            }} else if verb_is(&verb, "LIST") && n == 0 {
            Ok(Command::List { channels: KeywordList::new(), target: None })} else if verb_is(&verb, "LIST") && (n == 1 || n == 2) {
            let a0 = arg_chars(&args, 0);
            let channels = match KeywordList::<Channel>::parse_chars(&a0) {
                Ok(x) => x,
                Err(e) => {
                    return Err(e);
                },
            };
            if n == 2 {
                let a1 = arg_chars(&args, 1);
                match ServerMask::parse_chars(&a1) {
                    Ok(t) => Ok(Command::List { channels, target: Some(t) }),
                    Err(e) => Err(e),
                }
            } else {
                Ok(Command::List { channels, target: None })
            }} else if verb_is(&verb, "INVITE") && n == 2 {
            let a0 = arg_chars(&args, 0);
            let a1 = arg_chars(&args, 1);
            let nickname = match Nickname::parse_chars(&a0) {
                Ok(x) => x,
                Err(e) => {
                    return Err(e);
                },
            };
            let channel = match Channel::parse_chars(&a1) {
                Ok(x) => x,
                Err(e) => {
                    return Err(e);
                },
            };
            Ok(Command::Invite { nickname, channel })} else if verb_is(&verb, "KICK") && (n == 2 || n == 3) {
            let a0 = arg_chars(&args, 0);
            let a1 = arg_chars(&args, 1);
            let channels = match KeywordList::<Channel>::parse_chars(&a0) {
                Ok(x) => x,
                Err(e) => {
                    return Err(e);
                },
            };
            let users = match KeywordList::<Username>::parse_chars(&a1) {
                Ok(x) => x,
                Err(e) => {
                    return Err(e);
                },
            };
            Ok(Command::Kick {
                channels,
                users,
                comment: if n == 3 {
                    Some(arg_string(&args, 2))
                } else {
                    None
                },
            })} else if verb_is(&verb, "PRIVMSG") && n == 2 {
            let a0 = arg_chars(&args, 0);
            match KeywordList::<Recipient>::parse_chars(&a0) {
                Ok(recipients) => Ok(Command::Privmsg {
                    recipients,
                    message: arg_string(&args, 1),
                }),
                Err(e) => Err(e),
            }} else if verb_is(&verb, "NOTICE") && n == 2 {
            let a0 = arg_chars(&args, 0);
            match KeywordList::<Recipient>::parse_chars(&a0) {
                Ok(recipients) => Ok(Command::Notice {
                    recipients,
                    message: arg_string(&args, 1),
                }),
                Err(e) => Err(e),
            }} else {
        Err(ParseError::new("Command"))
    }
}

#[verifier::rlimit(100)]
fn parse_d(Ghost(s): Ghost<Seq<char>>, verb: &Vec<char>, args: &MessageParams, raw: &Vec<char>) -> (r:
    Result<Command, ParseError>)
    requires
        verb@ == verb_of(s),
        args@ == args_of(s),
        raw@ == rest_of(s),
    ensures
        r is Ok <==> command_d(s) is Some,
        r matches Ok(c) ==> Some(c@) == command_d(s),
{
    let n = args.len();
    if verb_is(&verb, "MOTD") && n == 0 {
            Ok(Command::Motd { target: None })} else if verb_is(&verb, "MOTD") && n == 1 {
            let a0 = arg_chars(&args, 0);
            match ServerMask::parse_chars(&a0) {
                Ok(t) => Ok(Command::Motd { target: Some(t) }),
                Err(e) => Err(e),
            }} else if verb_is(&verb, "LUSERS") && n == 0 {
            Ok(Command::LUsers { mask: None, target: None })} else if verb_is(&verb, "LUSERS") && (n == 1 || n == 2) {
            let a0 = arg_chars(&args, 0);
            let mask = match ServerMask::parse_chars(&a0) {
                Ok(x) => x,
                Err(e) => {
                    return Err(e);
                },
            };
            if n == 2 {
                let a1 = arg_chars(&args, 1);
                match Servername::parse_chars(&a1) {
                    Ok(t) => Ok(Command::LUsers { mask: Some(mask), target: Some(t) }),
                    Err(e) => Err(e),
                }
            } else {
                Ok(Command::LUsers { mask: Some(mask), target: None })
            }} else if verb_is(&verb, "VERSION") && n == 0 {
            Ok(Command::Version { target: None })} else if verb_is(&verb, "VERSION") && n == 1 {
            let a0 = arg_chars(&args, 0);
            match ServerMask::parse_chars(&a0) {
                Ok(t) => Ok(Command::Version { target: Some(t) }),
                Err(e) => Err(e),
            }} else if verb_is(&verb, "STATS") && n == 0 {
            Ok(Command::Stats { query: None, target: None })} else if verb_is(&verb, "STATS") && (n == 1 || n == 2) {
            let a0 = arg_chars(&args, 0);
            let query = match StatsQuery::parse_chars(&a0) {
                Ok(x) => x,
                Err(e) => {
                    return Err(e);
                },
            };
            if n == 2 {
                let a1 = arg_chars(&args, 1);
                match ServerMask::parse_chars(&a1) {
                    Ok(t) => Ok(Command::Stats { query: Some(query), target: Some(t) }),
                    Err(e) => Err(e),
                }
            } else {
                Ok(Command::Stats { query: Some(query), target: None })
            }} else if verb_is(&verb, "LINKS") && n == 0 {
            Ok(Command::Links { mask: None, target: None })} else if verb_is(&verb, "LINKS") && n == 1 {
            let a0 = arg_chars(&args, 0);
            match ServerMask::parse_chars(&a0) {
                Ok(m) => Ok(Command::Links { mask: Some(m), target: None }),
                Err(e) => Err(e),
            }} else if verb_is(&verb, "LINKS") && n == 2 {
            let a0 = arg_chars(&args, 0);
            let a1 = arg_chars(&args, 1);
            let target = match ServerMask::parse_chars(&a0) {
                Ok(x) => x,
                Err(e) => {
                    return Err(e);
                },
            };
            let mask = match ServerMask::parse_chars(&a1) {
                Ok(x) => x,
                Err(e) => {
                    return Err(e);
                },
            };
            Ok(Command::Links { mask: Some(mask), target: Some(target) })} else if verb_is(&verb, "TIME") && n == 0 {
            Ok(Command::Time { target: None })} else if verb_is(&verb, "TIME") && n == 1 {
            let a0 = arg_chars(&args, 0);
            match ServerMask::parse_chars(&a0) {
                Ok(t) => Ok(Command::Time { target: Some(t) }),
                Err(e) => Err(e),
            }} else {
        Err(ParseError::new("Command"))
    }
}

#[verifier::rlimit(100)]
fn parse_e(Ghost(s): Ghost<Seq<char>>, verb: &Vec<char>, args: &MessageParams, raw: &Vec<char>) -> (r:
    Result<Command, ParseError>)
    requires
        verb@ == verb_of(s),
        args@ == args_of(s),
        raw@ == rest_of(s),
    ensures
        r is Ok <==> command_e(s) is Some,
        r matches Ok(c) ==> Some(c@) == command_e(s),
{
    let n = args.len();
    if verb_is(&verb, "CONNECT") && (n == 2 || n == 3) {
            let a0 = arg_chars(&args, 0);
            let a1 = arg_chars(&args, 1);
            let target = match Servername::parse_chars(&a0) {
                Ok(x) => x,
                Err(e) => {
                    return Err(e);
                },
            };
            let port = match parse_uint(&a1, 65535) {
                Some(x) => x as u16,
                None => {
                    return Err(ParseError::new("Command"));
                },
            };
            if n == 3 {
                let a2 = arg_chars(&args, 2);
                match Servername::parse_chars(&a2) {
                    Ok(remote) => Ok(Command::Connect { target, port, remote: Some(remote) }),
                    Err(e) => Err(e),
                }
            } else {
                Ok(Command::Connect { target, port, remote: None })
            }} else if verb_is(&verb, "TRACE") && n == 0 {
            Ok(Command::Trace { target: None })} else if verb_is(&verb, "TRACE") && n == 1 {
            Ok(Command::Trace { target: Some(arg_string(&args, 0)) })} else if verb_is(&verb, "ADMIN") && n == 0 {
            Ok(Command::Admin { target: None })} else if verb_is(&verb, "ADMIN") && n == 1 {
            Ok(Command::Admin { target: Some(arg_string(&args, 0)) })} else if verb_is(&verb, "INFO") && n == 0 {
            Ok(Command::Info { target: None })} else if verb_is(&verb, "INFO") && n == 1 {
            Ok(Command::Info { target: Some(arg_string(&args, 0)) })} else if verb_is(&verb, "SERVLIST") && n == 0 {
            Ok(Command::ServList { mask: None, service_type: None })} else if verb_is(&verb, "SERVLIST") && n == 1 {
            Ok(Command::ServList { mask: Some(arg_string(&args, 0)), service_type: None })} else if verb_is(&verb, "SERVLIST") && n == 2 {
            Ok(Command::ServList {
                mask: Some(arg_string(&args, 0)),
                service_type: Some(arg_string(&args, 1)),
            })} else if verb_is(&verb, "SQUERY") && n == 2 {
            let a0 = arg_chars(&args, 0);
            match Recipient::parse_chars(&a0) {
                Ok(recipient) => Ok(Command::SQuery { recipient, message: arg_string(&args, 1) }),
                Err(e) => Err(e),
            }} else {
        Err(ParseError::new("Command"))
    }
}

#[verifier::rlimit(100)]
fn parse_f(Ghost(s): Ghost<Seq<char>>, verb: &Vec<char>, args: &MessageParams, raw: &Vec<char>) -> (r:
    Result<Command, ParseError>)
    requires
        verb@ == verb_of(s),
        args@ == args_of(s),
        raw@ == rest_of(s),
    ensures
        r is Ok <==> command_f(s) is Some,
        r matches Ok(c) ==> Some(c@) == command_f(s),
{
    let n = args.len();
    if verb_is(&verb, "WHO") && n == 0 {
            Ok(Command::Who { mask: None, op_only: false })} else if verb_is(&verb, "WHO") && n == 1 {
            Ok(Command::Who { mask: Some(arg_string(&args, 0)), op_only: false })} else if verb_is(&verb, "WHO") && n == 2 {
            if arg_is_char(&args, 1, 'o') {
                Ok(Command::Who { mask: Some(arg_string(&args, 0)), op_only: true })
            } else {
                Err(ParseError::new("Command"))
            }} else if verb_is(&verb, "WHOIS") && n == 1 {
            Ok(Command::WhoIs { mask: arg_string(&args, 0), target: None })} else if verb_is(&verb, "WHOIS") && n == 2 {
            let a0 = arg_chars(&args, 0);
            match ServerMask::parse_chars(&a0) {
                Ok(t) => Ok(Command::WhoIs { mask: arg_string(&args, 1), target: Some(t) }),
                Err(e) => Err(e),
            }} else if verb_is(&verb, "WHOWAS") && (n == 1 || n == 2 || n == 3) {
            let a0 = arg_chars(&args, 0);
            let nicknames = match KeywordList::<Nickname>::parse_chars(&a0) {
                Ok(x) => x,
                Err(e) => {
                    return Err(e);
                },
            };
            let count: Option<u16> = if n >= 2 {
                let a1 = arg_chars(&args, 1);
                match parse_uint(&a1, 65535) {
                    Some(x) => Some(x as u16),
                    None => {
                        return Err(ParseError::new("Command"));
                    },
                }
            } else {
                None
            };
            if n == 3 {
                let a2 = arg_chars(&args, 2);
                match ServerMask::parse_chars(&a2) {
                    Ok(t) => Ok(Command::WhoWas { nicknames, count, target: Some(t) }),
                    Err(e) => Err(e),
                }
            } else {
                Ok(Command::WhoWas { nicknames, count, target: None })
            }} else if verb_is(&verb, "KILL") && n == 2 {
            let a0 = arg_chars(&args, 0);
            match Nickname::parse_chars(&a0) {
                Ok(nickname) => Ok(Command::Kill { nickname, comment: arg_string(&args, 1) }),
                Err(e) => Err(e),
            }} else if verb_is(&verb, "PING") && n == 0 {
            Ok(Command::Ping { from: None, to: None })} else if verb_is(&verb, "PING") && n == 1 {
            let a0 = arg_chars(&args, 0);
            match Sender::parse_chars(&a0) {
                Ok(who) => {
                    if raw.len() >= 1 && raw[0] == ':' {
                        Ok(Command::Ping { from: Some(who), to: None })
                    } else {
                        Ok(Command::Ping { from: None, to: Some(who) })
                    }
                },
                Err(e) => Err(e),
            }} else if verb_is(&verb, "PING") && n == 2 {
            let a0 = arg_chars(&args, 0);
            let a1 = arg_chars(&args, 1);
            let from = match Sender::parse_chars(&a0) {
                Ok(x) => x,
                Err(e) => {
                    return Err(e);
                },
            };
            let to = match Sender::parse_chars(&a1) {
                Ok(x) => x,
                Err(e) => {
                    return Err(e);
                },
            };
            Ok(Command::Ping { from: Some(from), to: Some(to) })} else if verb_is(&verb, "PONG") && (n == 1 || n == 2) {
            let a0 = arg_chars(&args, 0);
            let from = match Sender::parse_chars(&a0) {
                Ok(x) => x,
                Err(e) => {
                    return Err(e);
                },
            };
            if n == 2 {
                let a1 = arg_chars(&args, 1);
                match Sender::parse_chars(&a1) {
                    Ok(to) => Ok(Command::Pong { from, to: Some(to) }),
                    Err(e) => Err(e),
                }
            } else {
                Ok(Command::Pong { from, to: None })
            }} else {
        Err(ParseError::new("Command"))
    }
}

#[verifier::rlimit(100)]
fn parse_g(Ghost(s): Ghost<Seq<char>>, verb: &Vec<char>, args: &MessageParams, raw: &Vec<char>) -> (r:
    Result<Command, ParseError>)
    requires
        verb@ == verb_of(s),
        args@ == args_of(s),
        raw@ == rest_of(s),
    ensures
        r is Ok <==> command_g(s) is Some,
        r matches Ok(c) ==> Some(c@) == command_g(s),
{
    let n = args.len();
    if verb_is(&verb, "ERROR") && n == 1 {
            Ok(Command::Error { message: arg_string(&args, 0) })} else if verb_is(&verb, "AWAY") && n == 0 {
            Ok(Command::Away { message: None })} else if verb_is(&verb, "AWAY") && n == 1 {
            Ok(Command::Away { message: Some(arg_string(&args, 0)) })} else if verb_is(&verb, "REHASH") && n == 0 {
            Ok(Command::Rehash)} else if verb_is(&verb, "DIE") && n == 0 {
            Ok(Command::Die)} else if verb_is(&verb, "RESTART") && n == 0 {
            Ok(Command::Restart)} else if verb_is(&verb, "SUMMON") && (n == 1 || n == 2 || n == 3) {
            let a0 = arg_chars(&args, 0);
            let user = match Username::parse_chars(&a0) {
                Ok(x) => x,
                Err(e) => {
                    return Err(e);
                },
            };
            let target: Option<Servername> = if n >= 2 {
                let a1 = arg_chars(&args, 1);
                match Servername::parse_chars(&a1) {
                    Ok(x) => Some(x),
                    Err(e) => {
                        return Err(e);
                    },
                }
            } else {
                None
            };
            if n == 3 {
                let a2 = arg_chars(&args, 2);
                match Channel::parse_chars(&a2) {
                    Ok(channel) => Ok(Command::Summon { user, target, channel: Some(channel) }),
                    Err(e) => Err(e),
                }
            } else {
                Ok(Command::Summon { user, target, channel: None })
            }} else if verb_is(&verb, "USERS") && n == 0 {
            Ok(Command::Users { target: None })} else if verb_is(&verb, "USERS") && n == 1 {
            let a0 = arg_chars(&args, 0);
            match Servername::parse_chars(&a0) {
                Ok(t) => Ok(Command::Users { target: Some(t) }),
                Err(e) => Err(e),
            }} else if verb_is(&verb, "WALLOPS") && n == 1 {
            Ok(Command::WallOps { message: arg_string(&args, 0) })} else if verb_is(&verb, "USERHOST") && 1 <= n && n <= 15 {
            let joined = join_args(&args);
            match KeywordList::<Nickname>::parse_chars(&joined) {
                Ok(nicknames) => Ok(Command::UserHost { nicknames }),
                Err(e) => Err(e),
            }} else if verb_is(&verb, "ISON") && 1 <= n && n <= 15 {
            let joined = join_args(&args);
            match KeywordList::<Nickname>::parse_chars(&joined) {
                Ok(nicknames) => Ok(Command::IsOn { nicknames }),
                Err(e) => Err(e),
            }} else {
        Err(ParseError::new("Command"))
    }
}

impl Command {
    /// Parse a command body: the verb, then the tokenized parameters,
    /// dispatched on the pair of verb and parameter count.
    pub fn parse(s: &str) -> (r: Result<Command, ParseError>)
        ensures
            r is Ok <==> command_of(s@) is Some,
            r matches Ok(c) ==> Some(c@) == command_of(s@),
    {
        let v = to_chars(s);
        Self::parse_chars(&v)
    }

    /// Parse a command body given as characters.
    #[verifier::rlimit(100)]
    pub fn parse_chars(v: &Vec<char>) -> (r: Result<Command, ParseError>)
        ensures
            r is Ok <==> command_of(v@) is Some,
            r matches Ok(c) ==> Some(c@) == command_of(v@),
    {
        let sp = first_at_exec(v, ' ');
        proof {
            lemma_first_at(v@, ' ');
        }
        let verb = subvec(v, 0, if sp < v.len() {
            sp
        } else {
            v.len()
        });
        let raw: Vec<char> = if sp < v.len() {
            subvec(v, sp + 1, v.len())
        } else {
            Vec::new()
        };
        proof {
            if (sp as int) < v@.len() {
                assert(verb@ =~= verb_of(v@));
                assert(raw@ =~= rest_of(v@));
            } else {
                assert(verb@ =~= v@);
                assert(verb@ =~= verb_of(v@));
                assert(raw@ =~= rest_of(v@));
            }
        }
        let args = MessageParams::parse_chars(&raw);
        if verb_is(&verb, "PASS") || verb_is(&verb, "NICK") || verb_is(&verb, "USER")
            || verb_is(&verb, "OPER") || verb_is(&verb, "MODE") || verb_is(&verb, "SERVICE") {
            parse_a(Ghost(v@), &verb, &args, &raw)
        } else if verb_is(&verb, "QUIT") || verb_is(&verb, "SQUIT") || verb_is(&verb, "JOIN")
            || verb_is(&verb, "PART") || verb_is(&verb, "TOPIC") {
            parse_b(Ghost(v@), &verb, &args, &raw)
        } else if verb_is(&verb, "NAMES") || verb_is(&verb, "LIST") || verb_is(&verb, "INVITE")
            || verb_is(&verb, "KICK") || verb_is(&verb, "PRIVMSG") || verb_is(&verb, "NOTICE") {
            parse_c(Ghost(v@), &verb, &args, &raw)
        } else if verb_is(&verb, "MOTD") || verb_is(&verb, "LUSERS") || verb_is(&verb, "VERSION")
            || verb_is(&verb, "STATS") || verb_is(&verb, "LINKS") || verb_is(&verb, "TIME") {
            parse_d(Ghost(v@), &verb, &args, &raw)
        } else if verb_is(&verb, "CONNECT") || verb_is(&verb, "TRACE") || verb_is(&verb, "ADMIN")
            || verb_is(&verb, "INFO") || verb_is(&verb, "SERVLIST") || verb_is(&verb, "SQUERY") {
            parse_e(Ghost(v@), &verb, &args, &raw)
        } else if verb_is(&verb, "WHO") || verb_is(&verb, "WHOIS") || verb_is(&verb, "WHOWAS")
            || verb_is(&verb, "KILL") || verb_is(&verb, "PING") || verb_is(&verb, "PONG") {
            parse_f(Ghost(v@), &verb, &args, &raw)
        } else if verb_is(&verb, "ERROR") || verb_is(&verb, "AWAY") || verb_is(&verb, "REHASH")
            || verb_is(&verb, "DIE") || verb_is(&verb, "RESTART") || verb_is(&verb, "SUMMON")
            || verb_is(&verb, "USERS") || verb_is(&verb, "WALLOPS") || verb_is(&verb, "USERHOST")
            || verb_is(&verb, "ISON") {
            parse_g(Ghost(v@), &verb, &args, &raw)
        } else {
            Err(ParseError::new("Command"))
        }
    }
}

/// A decimal rendering without sign or leading zeros.
pub open spec fn udec_text(n: int) -> Seq<char>
    decreases n,
{
    if n < 10 {
        seq![crate::reply::digit_of(n)]
    } else {
        udec_text(n / 10).push(crate::reply::digit_of(n % 10))
    }
}

pub proof fn lemma_udec_text(n: int)
    requires
        0 <= n,
    ensures
        udec_text(n).len() >= 1,
        forall|i: int| 0 <= i < udec_text(n).len() ==> digit_char(#[trigger] udec_text(n)[i]),
        dec_val(udec_text(n)) == n,
        middle_ok(udec_text(n)),
    decreases n,
{
    if n < 10 {
        assert(udec_text(n) =~= seq![crate::reply::digit_of(n)]);
        assert(digit_char(crate::reply::digit_of(n)));
        assert(digit_val(crate::reply::digit_of(n)) == n);
        assert(udec_text(n).take(0) =~= Seq::<char>::empty());
        assert(dec_val(Seq::<char>::empty()) == 0);
        assert(!seq_contains(udec_text(n), ' ')) by {
            if seq_contains(udec_text(n), ' ') {
                let k = choose|k: int| 0 <= k < 1 && udec_text(n)[k] == ' ';
                assert(digit_char(udec_text(n)[k]));
            }
        }
    } else {
        lemma_udec_text(n / 10);
        let pre = udec_text(n / 10);
        let t = udec_text(n);
        assert(t == pre.push(crate::reply::digit_of(n % 10)));
        assert(t.take(t.len() - 1) =~= pre);
        assert(digit_val(crate::reply::digit_of(n % 10)) == n % 10);
        assert(dec_val(t) == 10 * (n / 10) + n % 10);
        assert(10 * (n / 10) + n % 10 == n) by (nonlinear_arith)
            requires
                n >= 0,
        ;
        assert forall|i: int| 0 <= i < t.len() implies digit_char(#[trigger] t[i]) by {
            if i < pre.len() {
                assert(t[i] == pre[i]);
            }
        }
        assert(!seq_contains(t, ' ')) by {
            if seq_contains(t, ' ') {
                let k = choose|k: int| 0 <= k < t.len() && t[k] == ' ';
                assert(digit_char(t[k]));
            }
        }
        assert(t[0] == pre[0]);
    }
}

/// Render a number in decimal.
pub fn udec(n: u32) -> (r: Vec<char>)
    ensures
        r@ == udec_text(n as int),
    decreases n,
{
    if n < 10 {
        let mut r: Vec<char> = Vec::new();
        r.push(crate::reply::exec_digit_of(n));
        proof {
            assert(r@ =~= seq![crate::reply::digit_of(n as int)]);
        }
        r
    } else {
        let mut r = udec(n / 10);
        r.push(crate::reply::exec_digit_of(n % 10));
        r
    }
}

/// The verb, a space, and the rendered parameters.
pub open spec fn wa(verb: Seq<char>, args: Seq<Seq<char>>) -> Seq<char> {
    verb + seq![' '] + spec_render_params(args)
}

/// The canonical wire text of a command.
pub open spec fn command_text(m: CommandModel) -> Seq<char> {
    match m {
        CommandModel::Pass { password } => wa("PASS"@, seq![password]),
        CommandModel::Nick { nickname } => wa("NICK"@, seq![nickname]),
        CommandModel::User { username, mode, realname } => wa(
            "USER"@,
            seq![username, udec_text(mode as int), seq!['*'], realname],
        ),
        CommandModel::Oper { user, password } => wa("OPER"@, seq![user, password]),
        CommandModel::UserMode { nickname, modes } => wa("MODE"@, seq![nickname, modes]),
        CommandModel::Service { nickname, distribution, info } => wa(
            "SERVICE"@,
            seq![nickname, seq!['*'], distribution, seq!['0'], seq!['0'], info],
        ),
        CommandModel::Quit { message: None } => "QUIT"@,
        CommandModel::Quit { message: Some(msg) } => wa("QUIT"@, seq![msg]),
        CommandModel::SQuit { server, comment } => wa("SQUIT"@, seq![server, comment]),
        CommandModel::Join { channels, keys } => {
            if channels.len() == 0 {
                "JOIN 0"@
            } else if keys.len() == 0 {
                wa("JOIN"@, seq![KeywordList::<Channel>::text_of(channels)])
            } else {
                wa(
                    "JOIN"@,
                    seq![
                        KeywordList::<Channel>::text_of(channels),
                        KeywordList::<crate::channel::ChannelKey>::text_of(keys),
                    ],
                )
            }
        },
        CommandModel::Part { channels, message: None } => wa(
            "PART"@,
            seq![KeywordList::<Channel>::text_of(channels)],
        ),
        CommandModel::Part { channels, message: Some(msg) } => wa(
            "PART"@,
            seq![KeywordList::<Channel>::text_of(channels), msg],
        ),
        CommandModel::ChannelMode { channel, modes } => "MODE"@ + seq![' '] + Channel::text_of(
            channel,
        ) + seq![' '] + modes,
        CommandModel::Topic { channel, topic: None } => wa(
            "TOPIC"@,
            seq![Channel::text_of(channel)],
        ),
        CommandModel::Topic { channel, topic: Some(t) } => wa(
            "TOPIC"@,
            seq![Channel::text_of(channel), t],
        ),
        CommandModel::Names { channels, target } => {
            if channels.len() == 0 && target is None {
                "NAMES"@
            } else if target is None {
                wa("NAMES"@, seq![KeywordList::<Channel>::text_of(channels)])
            } else {
                wa("NAMES"@, seq![KeywordList::<Channel>::text_of(channels), target->0])
            }
        },
        CommandModel::List { channels, target } => {
            if channels.len() == 0 && target is None {
                "LIST"@
            } else if target is None {
                wa("LIST"@, seq![KeywordList::<Channel>::text_of(channels)])
            } else {
                wa("LIST"@, seq![KeywordList::<Channel>::text_of(channels), target->0])
            }
        },
        CommandModel::Invite { nickname, channel } => wa(
            "INVITE"@,
            seq![nickname, Channel::text_of(channel)],
        ),
        CommandModel::Kick { channels, users, comment } => {
            let ch = KeywordList::<Channel>::text_of(channels);
            let us = KeywordList::<Username>::text_of(users);
            match comment {
                None => wa("KICK"@, seq![ch, us]),
                Some(c) => wa("KICK"@, seq![ch, us, c]),
            }
        },
        CommandModel::Privmsg { recipients, message } => wa(
            "PRIVMSG"@,
            seq![KeywordList::<Recipient>::text_of(recipients), message],
        ),
        CommandModel::Notice { recipients, message } => wa(
            "NOTICE"@,
            seq![KeywordList::<Recipient>::text_of(recipients), message],
        ),
        CommandModel::Motd { target: None } => "MOTD"@,
        CommandModel::Motd { target: Some(t) } => wa("MOTD"@, seq![t]),
        CommandModel::LUsers { mask: None, target: None } => "LUSERS"@,
        CommandModel::LUsers { mask: None, target: Some(t) } => wa("LUSERS"@, seq![t]),
        CommandModel::LUsers { mask: Some(mk), target: None } => wa("LUSERS"@, seq![mk]),
        CommandModel::LUsers { mask: Some(mk), target: Some(t) } => wa("LUSERS"@, seq![mk, t]),
        CommandModel::Version { target: None } => "VERSION"@,
        CommandModel::Version { target: Some(t) } => wa("VERSION"@, seq![t]),
        CommandModel::Stats { query: None, target: _ } => "STATS"@,
        CommandModel::Stats { query: Some(q), target: None } => wa(
            "STATS"@,
            seq![seq![crate::stats_query::stats_query_char(q)]],
        ),
        CommandModel::Stats { query: Some(q), target: Some(t) } => wa(
            "STATS"@,
            seq![seq![crate::stats_query::stats_query_char(q)], t],
        ),
        CommandModel::Links { mask: None, target: None } => "LINKS"@,
        CommandModel::Links { mask: Some(mk), target: None } => wa("LINKS"@, seq![mk]),
        CommandModel::Links { mask: None, target: Some(t) } => wa("LINKS"@, seq![seq!['*'], t]),
        CommandModel::Links { mask: Some(mk), target: Some(t) } => wa("LINKS"@, seq![t, mk]),
        CommandModel::Time { target: None } => "TIME"@,
        CommandModel::Time { target: Some(t) } => wa("TIME"@, seq![t]),
        CommandModel::Connect { target, port, remote: None } => wa(
            "CONNECT"@,
            seq![target, udec_text(port as int)],
        ),
        CommandModel::Connect { target, port, remote: Some(rm) } => wa(
            "CONNECT"@,
            seq![target, udec_text(port as int), rm],
        ),
        CommandModel::Trace { target: None } => "TRACE"@,
        CommandModel::Trace { target: Some(t) } => wa("TRACE"@, seq![t]),
        CommandModel::Admin { target: None } => "ADMIN"@,
        CommandModel::Admin { target: Some(t) } => wa("ADMIN"@, seq![t]),
        CommandModel::Info { target: None } => "INFO"@,
        CommandModel::Info { target: Some(t) } => wa("INFO"@, seq![t]),
        CommandModel::ServList { mask: None, service_type: None } => "SERVLIST"@,
        CommandModel::ServList { mask: Some(mk), service_type: None } => wa(
            "SERVLIST"@,
            seq![mk],
        ),
        CommandModel::ServList { mask: None, service_type: Some(st) } => wa(
            "SERVLIST"@,
            seq![st],
        ),
        CommandModel::ServList { mask: Some(mk), service_type: Some(st) } => wa(
            "SERVLIST"@,
            seq![mk, st],
        ),
        CommandModel::SQuery { recipient, message } => wa(
            "SQUERY"@,
            seq![Recipient::text_of(recipient), message],
        ),
        CommandModel::Who { mask: None, op_only: _ } => "WHO"@,
        CommandModel::Who { mask: Some(mk), op_only: false } => wa("WHO"@, seq![mk]),
        CommandModel::Who { mask: Some(mk), op_only: true } => wa("WHO"@, seq![mk, seq!['o']]),
        CommandModel::WhoIs { mask, target: None } => wa("WHOIS"@, seq![mask]),
        CommandModel::WhoIs { mask, target: Some(t) } => wa("WHOIS"@, seq![t, mask]),
        CommandModel::WhoWas { nicknames, count, target } => {
            let nl = KeywordList::<Nickname>::text_of(nicknames);
            match (count, target) {
                (None, None) => wa("WHOWAS"@, seq![nl]),
                (None, Some(t)) => wa("WHOWAS"@, seq![nl, t]),
                (Some(c), None) => wa("WHOWAS"@, seq![nl, udec_text(c as int)]),
                (Some(c), Some(t)) => wa("WHOWAS"@, seq![nl, udec_text(c as int), t]),
            }
        },
        CommandModel::Kill { nickname, comment } => wa("KILL"@, seq![nickname, comment]),
        CommandModel::Ping { from: None, to: None } => "PING"@,
        CommandModel::Ping { from: None, to: Some(t) } => wa("PING"@, seq![Sender::text_of(t)]),
        CommandModel::Ping { from: Some(f), to: None } => "PING"@ + seq![' ', ':']
            + Sender::text_of(f),
        CommandModel::Ping { from: Some(f), to: Some(t) } => wa(
            "PING"@,
            seq![Sender::text_of(f), Sender::text_of(t)],
        ),
        CommandModel::Pong { from, to: None } => wa("PONG"@, seq![Sender::text_of(from)]),
        CommandModel::Pong { from, to: Some(t) } => wa(
            "PONG"@,
            seq![Sender::text_of(from), Sender::text_of(t)],
        ),
        CommandModel::Error { message } => wa("ERROR"@, seq![message]),
        CommandModel::Away { message: None } => "AWAY"@,
        CommandModel::Away { message: Some(msg) } => wa("AWAY"@, seq![msg]),
        CommandModel::Rehash => "REHASH"@,
        CommandModel::Die => "DIE"@,
        CommandModel::Restart => "RESTART"@,
        CommandModel::Summon { user, target, channel } => {
            match (target, channel) {
                (None, None) => wa("SUMMON"@, seq![user]),
                (None, Some(ch)) => wa("SUMMON"@, seq![user, Channel::text_of(ch)]),
                (Some(t), None) => wa("SUMMON"@, seq![user, t]),
                (Some(t), Some(ch)) => wa("SUMMON"@, seq![user, t, Channel::text_of(ch)]),
            }
        },
        CommandModel::Users { target: None } => "USERS"@,
        CommandModel::Users { target: Some(t) } => wa("USERS"@, seq![t]),
        CommandModel::WallOps { message } => wa("WALLOPS"@, seq![message]),
        CommandModel::UserHost { nicknames } => "USERHOST"@ + seq![' '] + spec_join(
            klist_texts::<Nickname>(nicknames),
            ' ',
        ),
        CommandModel::IsOn { nicknames } => "ISON"@ + seq![' '] + spec_join(
            klist_texts::<Nickname>(nicknames),
            ' ',
        ),
    }
}

/// The commands whose rendering parses back to the same value: entity
/// fields well-formed, parameters that the tokenizer can carry (middles
/// non-empty, spaceless, and not opening with `:`; a final parameter not
/// shaped like a stray trailing marker), and optional fields only in the
/// combinations the renderer can write down.
pub open spec fn command_wf(m: CommandModel) -> bool {
    match m {
        CommandModel::Pass { password } => last_ok(password),
        CommandModel::Nick { nickname } => Nickname::accepts(nickname),
        CommandModel::User { username, mode, realname } => Username::accepts(username)
            && middle_ok(username) && last_ok(realname),
        CommandModel::Oper { user, password } => Username::accepts(user) && middle_ok(user)
            && last_ok(password),
        CommandModel::UserMode { nickname, modes } => Nickname::accepts(nickname) && middle_ok(
            modes,
        ),
        CommandModel::Service { nickname, distribution, info } => Nickname::accepts(nickname)
            && crate::target_mask::mask_ok(distribution) && middle_ok(distribution) && last_ok(
            info,
        ),
        CommandModel::Quit { message } => match message {
            None => true,
            Some(msg) => last_ok(msg),
        },
        CommandModel::SQuit { server, comment } => crate::server::name_ok(server) && middle_ok(
            server,
        ) && last_ok(comment),
        CommandModel::Join { channels, keys } => {
            &&& KeywordList::<Channel>::model_wf(channels)
            &&& KeywordList::<crate::channel::ChannelKey>::model_wf(keys)
            &&& (channels.len() == 0 ==> keys.len() == 0)
            &&& (channels.len() >= 1 ==> middle_ok(KeywordList::<Channel>::text_of(channels)))
            &&& (keys.len() >= 1 ==> last_ok(
                KeywordList::<crate::channel::ChannelKey>::text_of(keys),
            ))
        },
        CommandModel::Part { channels, message } => {
            &&& KeywordList::<Channel>::model_wf(channels)
            &&& (channels.len() >= 1 ==> middle_ok(KeywordList::<Channel>::text_of(channels)))
            &&& match message {
                None => true,
                Some(msg) => channels.len() >= 1 && last_ok(msg),
            }
        },
        CommandModel::ChannelMode { channel, modes } => Channel::model_wf(channel) && middle_ok(
            Channel::text_of(channel),
        ) && 1 <= crate::params::spec_params(modes, 1).len() <= 14,
        CommandModel::Topic { channel, topic } => Channel::model_wf(channel) && middle_ok(
            Channel::text_of(channel),
        ) && match topic {
            None => true,
            Some(t) => last_ok(t),
        },
        CommandModel::Names { channels, target } => {
            &&& KeywordList::<Channel>::model_wf(channels)
            &&& (channels.len() >= 1 ==> middle_ok(KeywordList::<Channel>::text_of(channels)))
            &&& match target {
                None => true,
                Some(t) => channels.len() >= 1 && crate::target_mask::mask_ok(t) && middle_ok(t),
            }
        },
        CommandModel::List { channels, target } => {
            &&& KeywordList::<Channel>::model_wf(channels)
            &&& (channels.len() >= 1 ==> middle_ok(KeywordList::<Channel>::text_of(channels)))
            &&& match target {
                None => true,
                Some(t) => channels.len() >= 1 && crate::target_mask::mask_ok(t) && middle_ok(t),
            }
        },
        CommandModel::Invite { nickname, channel } => Nickname::accepts(nickname)
            && Channel::model_wf(channel) && middle_ok(Channel::text_of(channel)),
        CommandModel::Kick { channels, users, comment } => {
            &&& KeywordList::<Channel>::model_wf(channels)
            &&& KeywordList::<Username>::model_wf(users)
            &&& channels.len() >= 1
            &&& users.len() >= 1
            &&& middle_ok(KeywordList::<Channel>::text_of(channels))
            &&& match comment {
                None => last_ok(KeywordList::<Username>::text_of(users)),
                Some(c) => middle_ok(KeywordList::<Username>::text_of(users)) && last_ok(c),
            }
        },
        CommandModel::Privmsg { recipients, message } => {
            &&& KeywordList::<Recipient>::model_wf(recipients)
            &&& recipients.len() >= 1
            &&& middle_ok(KeywordList::<Recipient>::text_of(recipients))
            &&& last_ok(message)
        },
        CommandModel::Notice { recipients, message } => {
            &&& KeywordList::<Recipient>::model_wf(recipients)
            &&& recipients.len() >= 1
            &&& middle_ok(KeywordList::<Recipient>::text_of(recipients))
            &&& last_ok(message)
        },
        CommandModel::Motd { target } => match target {
            None => true,
            Some(t) => crate::target_mask::mask_ok(t) && middle_ok(t),
        },
        CommandModel::LUsers { mask, target } => {
            &&& match mask {
                None => true,
                Some(mk) => crate::target_mask::mask_ok(mk) && middle_ok(mk),
            }
            &&& match target {
                None => true,
                Some(t) => mask is Some && crate::server::name_ok(t) && middle_ok(t),
            }
        },
        CommandModel::Version { target } => match target {
            None => true,
            Some(t) => crate::target_mask::mask_ok(t) && middle_ok(t),
        },
        CommandModel::Stats { query, target } => {
            &&& match query {
                None => true,
                Some(q) => StatsQuery::model_wf(q),
            }
            &&& match target {
                None => true,
                Some(t) => query is Some && crate::target_mask::mask_ok(t) && middle_ok(t),
            }
        },
        CommandModel::Links { mask, target } => {
            &&& match mask {
                None => true,
                Some(mk) => crate::target_mask::mask_ok(mk) && middle_ok(mk),
            }
            &&& match target {
                None => true,
                Some(t) => mask is Some && crate::target_mask::mask_ok(t) && middle_ok(t),
            }
        },
        CommandModel::Time { target } => match target {
            None => true,
            Some(t) => crate::target_mask::mask_ok(t) && middle_ok(t),
        },
        CommandModel::Connect { target, port, remote } => crate::server::name_ok(target)
            && middle_ok(target) && match remote {
            None => true,
            Some(rm) => crate::server::name_ok(rm) && middle_ok(rm),
        },
        CommandModel::Trace { target } => match target {
            None => true,
            Some(t) => last_ok(t),
        },
        CommandModel::Admin { target } => match target {
            None => true,
            Some(t) => last_ok(t),
        },
        CommandModel::Info { target } => match target {
            None => true,
            Some(t) => last_ok(t),
        },
        CommandModel::ServList { mask, service_type } => {
            &&& match (mask, service_type) {
                (None, None) => true,
                (Some(mk), None) => last_ok(mk),
                (None, Some(_)) => false,
                (Some(mk), Some(st)) => middle_ok(mk) && last_ok(st),
            }
        },
        CommandModel::SQuery { recipient, message } => Recipient::model_wf(recipient)
            && middle_ok(Recipient::text_of(recipient)) && last_ok(message),
        CommandModel::Who { mask, op_only } => match mask {
            None => !op_only,
            Some(mk) => if op_only {
                middle_ok(mk)
            } else {
                last_ok(mk)
            },
        },
        CommandModel::WhoIs { mask, target } => match target {
            None => last_ok(mask),
            Some(t) => crate::target_mask::mask_ok(t) && middle_ok(t) && last_ok(mask),
        },
        CommandModel::WhoWas { nicknames, count, target } => {
            &&& KeywordList::<Nickname>::model_wf(nicknames)
            &&& nicknames.len() >= 1
            &&& middle_ok(KeywordList::<Nickname>::text_of(nicknames))
            &&& match target {
                None => true,
                Some(t) => count is Some && crate::target_mask::mask_ok(t) && middle_ok(t),
            }
        },
        CommandModel::Kill { nickname, comment } => Nickname::accepts(nickname) && last_ok(
            comment,
        ),
        CommandModel::Ping { from, to } => {
            &&& match from {
                None => true,
                Some(f) => Sender::model_wf(f) && middle_ok(Sender::text_of(f)),
            }
            &&& match to {
                None => true,
                Some(t) => Sender::model_wf(t) && middle_ok(Sender::text_of(t)),
            }
        },
        CommandModel::Pong { from, to } => {
            &&& Sender::model_wf(from)
            &&& middle_ok(Sender::text_of(from))
            &&& match to {
                None => true,
                Some(t) => Sender::model_wf(t) && middle_ok(Sender::text_of(t)),
            }
        },
        CommandModel::Error { message } => last_ok(message),
        CommandModel::Away { message } => match message {
            None => true,
            Some(msg) => last_ok(msg),
        },
        CommandModel::Rehash => true,
        CommandModel::Die => true,
        CommandModel::Restart => true,
        CommandModel::Summon { user, target, channel } => {
            &&& Username::accepts(user)
            &&& middle_ok(user)
            &&& match target {
                None => true,
                Some(t) => crate::server::name_ok(t) && middle_ok(t),
            }
            &&& match channel {
                None => true,
                Some(ch) => target is Some && Channel::model_wf(ch) && middle_ok(
                    Channel::text_of(ch),
                ),
            }
        },
        CommandModel::Users { target } => match target {
            None => true,
            Some(t) => crate::server::name_ok(t) && middle_ok(t),
        },
        CommandModel::WallOps { message } => last_ok(message),
        CommandModel::UserHost { nicknames } => {
            &&& KeywordList::<Nickname>::model_wf(nicknames)
            &&& 1 <= nicknames.len() <= 15
            &&& forall|i: int|
                0 <= i < nicknames.len() ==> middle_ok(#[trigger] klist_texts::<Nickname>(
                    nicknames,
                )[i])
        },
        CommandModel::IsOn { nicknames } => {
            &&& KeywordList::<Nickname>::model_wf(nicknames)
            &&& 1 <= nicknames.len() <= 15
            &&& forall|i: int|
                0 <= i < nicknames.len() ==> middle_ok(#[trigger] klist_texts::<Nickname>(
                    nicknames,
                )[i])
        },
    }
}

/// A literal as an owned string.
fn lit(s: &str) -> (r: String)
    ensures
        r@ == s@,
{
    let v = to_chars(s);
    from_chars(&v)
}

/// Render a verb with a parameter list.
fn rw(verb: &str, parts: Vec<String>) -> (r: String)
    requires
        crate::params::params_wf(parts@.map_values(|a: String| a@)),
    ensures
        r@ == wa(verb@, parts@.map_values(|a: String| a@)),
{
    let mp = MessageParams::from_parts(parts);
    mp.to_string_with_prefix(verb)
}

/// Join a nickname list with spaces, the USERHOST and ISON wire form.
fn join_klist_sp(l: &KeywordList<Nickname>) -> (r: Vec<char>)
    requires
        KeywordList::<Nickname>::model_wf(l@),
    ensures
        r@ == spec_join(klist_texts::<Nickname>(l@), ' '),
{
    let mut r: Vec<char> = Vec::new();
    let n = l.len();
    let mut i: usize = 0;
    proof {
        assert(klist_texts::<Nickname>(l@.take(0)) =~= Seq::<Seq<char>>::empty());
    }
    while i < n
        invariant
            i <= l@.len(),
            n == l@.len(),
            KeywordList::<Nickname>::model_wf(l@),
            r@ == spec_join(klist_texts::<Nickname>(l@.take(i as int)), ' '),
        decreases l@.len() - i,
    {
        let e = match l.get(i) {
            Some(e) => e,
            None => {
                proof {
                    assert(false);
                }
                return r;
            },
        };
        proof {
            assert(e@ == l@[i as int]);
        }
        let t = e.render_chars();
        proof {
            crate::text::lemma_join_push(klist_texts::<Nickname>(l@.take(i as int)), t@, ' ');
            assert(klist_texts::<Nickname>(l@.take(i + 1)) =~= klist_texts::<Nickname>(
                l@.take(i as int),
            ).push(t@));
        }
        if i > 0 {
            r.push(' ');
        }
        push_range(&mut r, &t, 0, t.len());
        proof {
            assert(t@.subrange(0, t@.len() as int) =~= t@);
            if i == 0 {
                assert(klist_texts::<Nickname>(l@.take(0)).len() == 0);
            }
        }
        i = i + 1;
    }
    proof {
        assert(l@.take(l@.len() as int) =~= l@);
    }
    r
}

impl Command {
    /// The canonical wire text of this command.
    #[verifier::rlimit(100)]
    pub fn render(&self) -> (r: String)
        requires
            command_wf(self@),
        ensures
            r@ == command_text(self@),
    {
        match self {
            Command::Pass { password } => {
                let parts = vec![password.clone()];
                proof {
                    assert(parts@.map_values(|a: String| a@) =~= seq![password@]);
                }
                rw("PASS", parts)
            },
            Command::Nick { nickname } => {
                let parts = vec![nickname.render()];
                proof {
                    assert(parts@.map_values(|a: String| a@) =~= seq![nickname@]);
                }
                rw("NICK", parts)
            },
            Command::User { username, mode, realname } => {
                let mv = udec(*mode as u32);
                let parts = vec![username.render(), from_chars(&mv), lit("*"), realname.clone()];
                proof {
                    lemma_udec_text(*mode as int);
                    reveal_strlit("*");
                    assert("*"@ =~= seq!['*']);
                    assert(parts@.map_values(|a: String| a@) =~= seq![
                        username@,
                        udec_text(*mode as int),
                        seq!['*'],
                        realname@,
                    ]);
                }
                rw("USER", parts)
            },
            Command::Oper { user, password } => {
                let parts = vec![user.render(), password.clone()];
                proof {
                    assert(parts@.map_values(|a: String| a@) =~= seq![user@, password@]);
                }
                rw("OPER", parts)
            },
            Command::UserMode { nickname, modes } => {
                let parts = vec![nickname.render(), modes.clone()];
                proof {
                    assert(parts@.map_values(|a: String| a@) =~= seq![nickname@, modes@]);
                }
                rw("MODE", parts)
            },
            Command::Service { nickname, distribution, info } => {
                let parts = vec![
                    nickname.render(),
                    lit("*"),
                    distribution.render(),
                    lit("0"),
                    lit("0"),
                    info.clone(),
                ];
                proof {
                    reveal_strlit("*");
                    reveal_strlit("0");
                    assert("*"@ =~= seq!['*']);
                    assert("0"@ =~= seq!['0']);
                    assert(parts@.map_values(|a: String| a@) =~= seq![
                        nickname@,
                        seq!['*'],
                        distribution@,
                        seq!['0'],
                        seq!['0'],
                        info@,
                    ]);
                }
                rw("SERVICE", parts)
            },
            Command::Quit { message: None } => lit("QUIT"),
            Command::Quit { message: Some(msg) } => {
                let parts = vec![msg.clone()];
                proof {
                    assert(parts@.map_values(|a: String| a@) =~= seq![msg@]);
                }
                rw("QUIT", parts)
            },
            Command::SQuit { server, comment } => {
                let parts = vec![server.render(), comment.clone()];
                proof {
                    assert(parts@.map_values(|a: String| a@) =~= seq![server@, comment@]);
                }
                rw("SQUIT", parts)
            },
            Command::Join { channels, keys } => {
                if channels.len() == 0 {
                    lit("JOIN 0")
                } else if keys.len() == 0 {
                    let parts = vec![channels.render()];
                    proof {
                        assert(parts@.map_values(|a: String| a@) =~= seq![
                            KeywordList::<Channel>::text_of(channels@),
                        ]);
                    }
                    rw("JOIN", parts)
                } else {
                    let parts = vec![channels.render(), keys.render()];
                    proof {
                        assert(parts@.map_values(|a: String| a@) =~= seq![
                            KeywordList::<Channel>::text_of(channels@),
                            KeywordList::<crate::channel::ChannelKey>::text_of(keys@),
                        ]);
                    }
                    rw("JOIN", parts)
                }
            },
            Command::Part { channels, message: None } => {
                let parts = vec![channels.render()];
                proof {
                    assert(parts@.map_values(|a: String| a@) =~= seq![
                        KeywordList::<Channel>::text_of(channels@),
                    ]);
                }
                rw("PART", parts)
            },
            Command::Part { channels, message: Some(msg) } => {
                let parts = vec![channels.render(), msg.clone()];
                proof {
                    assert(parts@.map_values(|a: String| a@) =~= seq![
                        KeywordList::<Channel>::text_of(channels@),
                        msg@,
                    ]);
                }
                rw("PART", parts)
            },
            Command::ChannelMode { channel, modes } => {
                let mut out: Vec<char> = Vec::new();
                push_str_chars(&mut out, "MODE ");
                let ct = channel.render_chars();
                push_range(&mut out, &ct, 0, ct.len());
                out.push(' ');
                push_str_chars(&mut out, modes.as_str());
                proof {
                    reveal_strlit("MODE ");
                    reveal_strlit("MODE");
                    assert(ct@.subrange(0, ct@.len() as int) =~= ct@);
                    assert("MODE "@ =~= "MODE"@ + seq![' ']);
                    assert(out@ =~= command_text(self@));
                }
                from_chars(&out)
            },
            Command::Topic { channel, topic: None } => {
                let parts = vec![channel.render()];
                proof {
                    assert(parts@.map_values(|a: String| a@) =~= seq![Channel::text_of(channel@)]);
                }
                rw("TOPIC", parts)
            },
            Command::Topic { channel, topic: Some(t) } => {
                let parts = vec![channel.render(), t.clone()];
                proof {
                    assert(parts@.map_values(|a: String| a@) =~= seq![
                        Channel::text_of(channel@),
                        t@,
                    ]);
                }
                rw("TOPIC", parts)
            },
            Command::Names { channels, target: None } => {
                if channels.len() == 0 {
                    lit("NAMES")
                } else {
                    let parts = vec![channels.render()];
                    proof {
                        assert(parts@.map_values(|a: String| a@) =~= seq![
                            KeywordList::<Channel>::text_of(channels@),
                        ]);
                    }
                    rw("NAMES", parts)
                }
            },
            Command::Names { channels, target: Some(t) } => {
                let parts = vec![channels.render(), t.render()];
                proof {
                    assert(parts@.map_values(|a: String| a@) =~= seq![
                        KeywordList::<Channel>::text_of(channels@),
                        t@,
                    ]);
                }
                rw("NAMES", parts)
            },
            Command::List { channels, target: None } => {
                if channels.len() == 0 {
                    lit("LIST")
                } else {
                    let parts = vec![channels.render()];
                    proof {
                        assert(parts@.map_values(|a: String| a@) =~= seq![
                            KeywordList::<Channel>::text_of(channels@),
                        ]);
                    }
                    rw("LIST", parts)
                }
            },
            Command::List { channels, target: Some(t) } => {
                let parts = vec![channels.render(), t.render()];
                proof {
                    assert(parts@.map_values(|a: String| a@) =~= seq![
                        KeywordList::<Channel>::text_of(channels@),
                        t@,
                    ]);
                }
                rw("LIST", parts)
            },
            Command::Invite { nickname, channel } => {
                let parts = vec![nickname.render(), channel.render()];
                proof {
                    assert(parts@.map_values(|a: String| a@) =~= seq![
                        nickname@,
                        Channel::text_of(channel@),
                    ]);
                }
                rw("INVITE", parts)
            },
            Command::Kick { channels, users, comment: None } => {
                let parts = vec![channels.render(), users.render()];
                proof {
                    assert(parts@.map_values(|a: String| a@) =~= seq![
                        KeywordList::<Channel>::text_of(channels@),
                        KeywordList::<Username>::text_of(users@),
                    ]);
                }
                rw("KICK", parts)
            },
            Command::Kick { channels, users, comment: Some(c) } => {
                let parts = vec![channels.render(), users.render(), c.clone()];
                proof {
                    assert(parts@.map_values(|a: String| a@) =~= seq![
                        KeywordList::<Channel>::text_of(channels@),
                        KeywordList::<Username>::text_of(users@),
                        c@,
                    ]);
                }
                rw("KICK", parts)
            },
            Command::Privmsg { recipients, message } => {
                let parts = vec![recipients.render(), message.clone()];
                proof {
                    assert(parts@.map_values(|a: String| a@) =~= seq![
                        KeywordList::<Recipient>::text_of(recipients@),
                        message@,
                    ]);
                }
                rw("PRIVMSG", parts)
            },
            Command::Notice { recipients, message } => {
                let parts = vec![recipients.render(), message.clone()];
                proof {
                    assert(parts@.map_values(|a: String| a@) =~= seq![
                        KeywordList::<Recipient>::text_of(recipients@),
                        message@,
                    ]);
                }
                rw("NOTICE", parts)
            },
            Command::Motd { target: None } => lit("MOTD"),
            Command::Motd { target: Some(t) } => {
                let parts = vec![t.render()];
                proof {
                    assert(parts@.map_values(|a: String| a@) =~= seq![t@]);
                }
                rw("MOTD", parts)
            },
            Command::LUsers { mask: None, target: None } => lit("LUSERS"),
            Command::LUsers { mask: None, target: Some(t) } => {
                let parts = vec![t.render()];
                proof {
                    assert(parts@.map_values(|a: String| a@) =~= seq![t@]);
                }
                rw("LUSERS", parts)
            },
            Command::LUsers { mask: Some(mk), target: None } => {
                let parts = vec![mk.render()];
                proof {
                    assert(parts@.map_values(|a: String| a@) =~= seq![mk@]);
                }
                rw("LUSERS", parts)
            },
            Command::LUsers { mask: Some(mk), target: Some(t) } => {
                let parts = vec![mk.render(), t.render()];
                proof {
                    assert(parts@.map_values(|a: String| a@) =~= seq![mk@, t@]);
                }
                rw("LUSERS", parts)
            },
            Command::Version { target: None } => lit("VERSION"),
            Command::Version { target: Some(t) } => {
                let parts = vec![t.render()];
                proof {
                    assert(parts@.map_values(|a: String| a@) =~= seq![t@]);
                }
                rw("VERSION", parts)
            },
            Command::Stats { query: None, target: _ } => lit("STATS"),
            Command::Stats { query: Some(q), target: None } => {
                let parts = vec![q.render()];
                proof {
                    assert(parts@.map_values(|a: String| a@) =~= seq![
                        seq![crate::stats_query::stats_query_char(q@)],
                    ]);
                }
                rw("STATS", parts)
            },
            Command::Stats { query: Some(q), target: Some(t) } => {
                let parts = vec![q.render(), t.render()];
                proof {
                    assert(parts@.map_values(|a: String| a@) =~= seq![
                        seq![crate::stats_query::stats_query_char(q@)],
                        t@,
                    ]);
                }
                rw("STATS", parts)
            },
            Command::Links { mask: None, target: None } => lit("LINKS"),
            Command::Links { mask: Some(mk), target: None } => {
                let parts = vec![mk.render()];
                proof {
                    assert(parts@.map_values(|a: String| a@) =~= seq![mk@]);
                }
                rw("LINKS", parts)
            },
            Command::Links { mask: None, target: Some(t) } => {
                let parts = vec![lit("*"), t.render()];
                proof {
                    reveal_strlit("*");
                    assert("*"@ =~= seq!['*']);
                    assert(parts@.map_values(|a: String| a@) =~= seq![seq!['*'], t@]);
                }
                rw("LINKS", parts)
            },
            Command::Links { mask: Some(mk), target: Some(t) } => {
                let parts = vec![t.render(), mk.render()];
                proof {
                    assert(parts@.map_values(|a: String| a@) =~= seq![t@, mk@]);
                }
                rw("LINKS", parts)
            },
            Command::Time { target: None } => lit("TIME"),
            Command::Time { target: Some(t) } => {
                let parts = vec![t.render()];
                proof {
                    assert(parts@.map_values(|a: String| a@) =~= seq![t@]);
                }
                rw("TIME", parts)
            },
            Command::Connect { target, port, remote: None } => {
                let pv = udec(*port as u32);
                let parts = vec![target.render(), from_chars(&pv)];
                proof {
                    lemma_udec_text(*port as int);
                    assert(parts@.map_values(|a: String| a@) =~= seq![
                        target@,
                        udec_text(*port as int),
                    ]);
                }
                rw("CONNECT", parts)
            },
            Command::Connect { target, port, remote: Some(rm) } => {
                let pv = udec(*port as u32);
                let parts = vec![target.render(), from_chars(&pv), rm.render()];
                proof {
                    lemma_udec_text(*port as int);
                    assert(parts@.map_values(|a: String| a@) =~= seq![
                        target@,
                        udec_text(*port as int),
                        rm@,
                    ]);
                }
                rw("CONNECT", parts)
            },
            Command::Trace { target: None } => lit("TRACE"),
            Command::Trace { target: Some(t) } => {
                let parts = vec![t.clone()];
                proof {
                    assert(parts@.map_values(|a: String| a@) =~= seq![t@]);
                }
                rw("TRACE", parts)
            },
            Command::Admin { target: None } => lit("ADMIN"),
            Command::Admin { target: Some(t) } => {
                let parts = vec![t.clone()];
                proof {
                    assert(parts@.map_values(|a: String| a@) =~= seq![t@]);
                }
                rw("ADMIN", parts)
            },
            Command::Info { target: None } => lit("INFO"),
            Command::Info { target: Some(t) } => {
                let parts = vec![t.clone()];
                proof {
                    assert(parts@.map_values(|a: String| a@) =~= seq![t@]);
                }
                rw("INFO", parts)
            },
            Command::ServList { mask: None, service_type: None } => lit("SERVLIST"),
            Command::ServList { mask: Some(mk), service_type: None } => {
                let parts = vec![mk.clone()];
                proof {
                    assert(parts@.map_values(|a: String| a@) =~= seq![mk@]);
                }
                rw("SERVLIST", parts)
            },
            Command::ServList { mask: None, service_type: Some(st) } => {
                let parts = vec![st.clone()];
                proof {
                    assert(parts@.map_values(|a: String| a@) =~= seq![st@]);
                }
                rw("SERVLIST", parts)
            },
            Command::ServList { mask: Some(mk), service_type: Some(st) } => {
                let parts = vec![mk.clone(), st.clone()];
                proof {
                    assert(parts@.map_values(|a: String| a@) =~= seq![mk@, st@]);
                }
                rw("SERVLIST", parts)
            },
            Command::SQuery { recipient, message } => {
                let parts = vec![recipient.render(), message.clone()];
                proof {
                    assert(parts@.map_values(|a: String| a@) =~= seq![
                        Recipient::text_of(recipient@),
                        message@,
                    ]);
                }
                rw("SQUERY", parts)
            },
            Command::Who { mask: None, op_only: _ } => lit("WHO"),
            Command::Who { mask: Some(mk), op_only } => {
                if *op_only {
                    let parts = vec![mk.clone(), lit("o")];
                    proof {
                        reveal_strlit("o");
                        assert("o"@ =~= seq!['o']);
                        assert(parts@.map_values(|a: String| a@) =~= seq![mk@, seq!['o']]);
                    }
                    rw("WHO", parts)
                } else {
                    let parts = vec![mk.clone()];
                    proof {
                        assert(parts@.map_values(|a: String| a@) =~= seq![mk@]);
                    }
                    rw("WHO", parts)
                }
            },
            Command::WhoIs { mask, target: None } => {
                let parts = vec![mask.clone()];
                proof {
                    assert(parts@.map_values(|a: String| a@) =~= seq![mask@]);
                }
                rw("WHOIS", parts)
            },
            Command::WhoIs { mask, target: Some(t) } => {
                let parts = vec![t.render(), mask.clone()];
                proof {
                    assert(parts@.map_values(|a: String| a@) =~= seq![t@, mask@]);
                }
                rw("WHOIS", parts)
            },
            Command::WhoWas { nicknames, count: None, target: None } => {
                let parts = vec![nicknames.render()];
                proof {
                    assert(parts@.map_values(|a: String| a@) =~= seq![
                        KeywordList::<Nickname>::text_of(nicknames@),
                    ]);
                }
                rw("WHOWAS", parts)
            },
            Command::WhoWas { nicknames, count: None, target: Some(t) } => {
                let parts = vec![nicknames.render(), t.render()];
                proof {
                    assert(parts@.map_values(|a: String| a@) =~= seq![
                        KeywordList::<Nickname>::text_of(nicknames@),
                        t@,
                    ]);
                }
                rw("WHOWAS", parts)
            },
            Command::WhoWas { nicknames, count: Some(c), target: None } => {
                let cv = udec(*c as u32);
                let parts = vec![nicknames.render(), from_chars(&cv)];
                proof {
                    lemma_udec_text(*c as int);
                    assert(parts@.map_values(|a: String| a@) =~= seq![
                        KeywordList::<Nickname>::text_of(nicknames@),
                        udec_text(*c as int),
                    ]);
                }
                rw("WHOWAS", parts)
            },
            Command::WhoWas { nicknames, count: Some(c), target: Some(t) } => {
                let cv = udec(*c as u32);
                let parts = vec![nicknames.render(), from_chars(&cv), t.render()];
                proof {
                    lemma_udec_text(*c as int);
                    assert(parts@.map_values(|a: String| a@) =~= seq![
                        KeywordList::<Nickname>::text_of(nicknames@),
                        udec_text(*c as int),
                        t@,
                    ]);
                }
                rw("WHOWAS", parts)
            },
            Command::Kill { nickname, comment } => {
                let parts = vec![nickname.render(), comment.clone()];
                proof {
                    assert(parts@.map_values(|a: String| a@) =~= seq![nickname@, comment@]);
                }
                rw("KILL", parts)
            },
            Command::Ping { from: None, to: None } => lit("PING"),
            Command::Ping { from: None, to: Some(t) } => {
                let parts = vec![t.render()];
                proof {
                    assert(parts@.map_values(|a: String| a@) =~= seq![Sender::text_of(t@)]);
                }
                rw("PING", parts)
            },
            Command::Ping { from: Some(f), to: None } => {
                let mut out: Vec<char> = Vec::new();
                push_str_chars(&mut out, "PING :");
                let ft = f.render_chars();
                push_range(&mut out, &ft, 0, ft.len());
                proof {
                    reveal_strlit("PING :");
                    reveal_strlit("PING");
                    assert(ft@.subrange(0, ft@.len() as int) =~= ft@);
                    assert("PING :"@ =~= "PING"@ + seq![' ', ':']);
                    assert(out@ =~= command_text(self@));
                }
                from_chars(&out)
            },
            Command::Ping { from: Some(f), to: Some(t) } => {
                let parts = vec![f.render(), t.render()];
                proof {
                    assert(parts@.map_values(|a: String| a@) =~= seq![
                        Sender::text_of(f@),
                        Sender::text_of(t@),
                    ]);
                }
                rw("PING", parts)
            },
            Command::Pong { from, to: None } => {
                let parts = vec![from.render()];
                proof {
                    assert(parts@.map_values(|a: String| a@) =~= seq![Sender::text_of(from@)]);
                }
                rw("PONG", parts)
            },
            Command::Pong { from, to: Some(t) } => {
                let parts = vec![from.render(), t.render()];
                proof {
                    assert(parts@.map_values(|a: String| a@) =~= seq![
                        Sender::text_of(from@),
                        Sender::text_of(t@),
                    ]);
                }
                rw("PONG", parts)
            },
            Command::Error { message } => {
                let parts = vec![message.clone()];
                proof {
                    assert(parts@.map_values(|a: String| a@) =~= seq![message@]);
                }
                rw("ERROR", parts)
            },
            Command::Away { message: None } => lit("AWAY"),
            Command::Away { message: Some(msg) } => {
                let parts = vec![msg.clone()];
                proof {
                    assert(parts@.map_values(|a: String| a@) =~= seq![msg@]);
                }
                rw("AWAY", parts)
            },
            Command::Rehash => lit("REHASH"),
            Command::Die => lit("DIE"),
            Command::Restart => lit("RESTART"),
            Command::Summon { user, target: None, channel: None } => {
                let parts = vec![user.render()];
                proof {
                    assert(parts@.map_values(|a: String| a@) =~= seq![user@]);
                }
                rw("SUMMON", parts)
            },
            Command::Summon { user, target: None, channel: Some(ch) } => {
                let parts = vec![user.render(), ch.render()];
                proof {
                    assert(parts@.map_values(|a: String| a@) =~= seq![
                        user@,
                        Channel::text_of(ch@),
                    ]);
                }
                rw("SUMMON", parts)
            },
            Command::Summon { user, target: Some(t), channel: None } => {
                let parts = vec![user.render(), t.render()];
                proof {
                    assert(parts@.map_values(|a: String| a@) =~= seq![user@, t@]);
                }
                rw("SUMMON", parts)
            },
            Command::Summon { user, target: Some(t), channel: Some(ch) } => {
                let parts = vec![user.render(), t.render(), ch.render()];
                proof {
                    assert(parts@.map_values(|a: String| a@) =~= seq![
                        user@,
                        t@,
                        Channel::text_of(ch@),
                    ]);
                }
                rw("SUMMON", parts)
            },
            Command::Users { target: None } => lit("USERS"),
            Command::Users { target: Some(t) } => {
                let parts = vec![t.render()];
                proof {
                    assert(parts@.map_values(|a: String| a@) =~= seq![t@]);
                }
                rw("USERS", parts)
            },
            Command::WallOps { message } => {
                let parts = vec![message.clone()];
                proof {
                    assert(parts@.map_values(|a: String| a@) =~= seq![message@]);
                }
                rw("WALLOPS", parts)
            },
            Command::UserHost { nicknames } => {
                let mut out: Vec<char> = Vec::new();
                push_str_chars(&mut out, "USERHOST ");
                let body = join_klist_sp(nicknames);
                push_range(&mut out, &body, 0, body.len());
                proof {
                    reveal_strlit("USERHOST ");
                    reveal_strlit("USERHOST");
                    assert(body@.subrange(0, body@.len() as int) =~= body@);
                    assert("USERHOST "@ =~= "USERHOST"@ + seq![' ']);
                    assert(out@ =~= command_text(self@));
                }
                from_chars(&out)
            },
            Command::IsOn { nicknames } => {
                let mut out: Vec<char> = Vec::new();
                push_str_chars(&mut out, "ISON ");
                let body = join_klist_sp(nicknames);
                push_range(&mut out, &body, 0, body.len());
                proof {
                    reveal_strlit("ISON ");
                    reveal_strlit("ISON");
                    assert(body@.subrange(0, body@.len() as int) =~= body@);
                    assert("ISON "@ =~= "ISON"@ + seq![' ']);
                    assert(out@ =~= command_text(self@));
                }
                from_chars(&out)
            },
        }
    }
}

/// Nickname texts are proper middle parameters.
pub proof fn lemma_nick_middle(n: Seq<char>)
    requires
        Nickname::accepts(n),
    ensures
        middle_ok(n),
{
    assert(crate::user::nick_start_char(n[0]));
    assert(!seq_contains(n, ' ')) by {
        if seq_contains(n, ' ') {
            let k = choose|k: int| 0 <= k < n.len() && n[k] == ' ';
            if k == 0 {
                assert(crate::user::nick_start_char(n[0]));
            } else {
                assert(crate::user::nick_rest_char(n[k]));
            }
        }
    }
}

/// Dotted names are proper middle parameters.
pub proof fn lemma_name_middle(t: Seq<char>)
    requires
        crate::server::name_ok(t),
    ensures
        middle_ok(t),
{
    assert(crate::server::alnum_char(t[0]));
    assert(!seq_contains(t, ' ')) by {
        if seq_contains(t, ' ') {
            let k = choose|k: int| 0 <= k < t.len() && t[k] == ' ';
            assert(crate::server::name_char(t[k]));
        }
    }
}

/// Mask bodies are proper middle parameters.
pub proof fn lemma_mask_middle(t: Seq<char>)
    requires
        crate::target_mask::mask_ok(t),
    ensures
        middle_ok(t),
{
    assert(crate::target_mask::mask_edge_char(t[0]));
    assert(!seq_contains(t, ' ')) by {
        if seq_contains(t, ' ') {
            let k = choose|k: int| 0 <= k < t.len() && t[k] == ' ';
            assert(crate::target_mask::mask_char(t[k]));
        }
    }
}

/// Decomposing a verb-with-parameters text.
pub proof fn lemma_with_args(verb: Seq<char>, args: Seq<Seq<char>>)
    requires
        verb.len() >= 1,
        !seq_contains(verb, ' '),
        crate::params::params_renderable(args),
    ensures
        verb_of(wa(verb, args)) == verb,
        rest_of(wa(verb, args)) == spec_render_params(args),
        args_of(wa(verb, args)) == args,
{
    let t = wa(verb, args);
    assert(t[verb.len() as int] == ' ');
    assert forall|k: int| 0 <= k < verb.len() implies t[k] != ' ' by {
        assert(t[k] == verb[k]);
        if verb[k] == ' ' {
            assert(seq_contains(verb, ' '));
        }
    }
    lemma_first_at_is(t, ' ', verb.len() as int);
    assert(t.take(verb.len() as int) =~= verb);
    assert(t.skip(verb.len() as int + 1) =~= spec_render_params(args));
    crate::params::lemma_params_roundtrip(args);
}

/// Decomposing a bare verb.
pub proof fn lemma_bare_verb(verb: Seq<char>)
    requires
        !seq_contains(verb, ' '),
    ensures
        verb_of(verb) == verb,
        rest_of(verb) == Seq::<char>::empty(),
        args_of(verb) == Seq::<Seq<char>>::empty(),
{
    assert forall|k: int| 0 <= k < verb.len() implies verb[k] != ' ' by {
        if verb[k] == ' ' {
            assert(seq_contains(verb, ' '));
        }
    }
    lemma_first_at_is(verb, ' ', verb.len() as int);
    assert(crate::params::spec_params(Seq::<char>::empty(), 0) =~= Seq::<Seq<char>>::empty());
}

/// A one-character middle parameter.
pub proof fn lemma_char_middle(c: char)
    requires
        c != ' ',
        c != ':',
    ensures
        middle_ok(seq![c]),
{
    assert(!seq_contains(seq![c], ' ')) by {
        if seq_contains(seq![c], ' ') {
            let k = choose|k: int| 0 <= k < 1 && seq![c][k] == ' ';
            assert(seq![c][k] == c);
        }
    }
}

/// Joining two parameters.
pub proof fn lemma_join_two(a: Seq<char>, b: Seq<char>)
    ensures
        spec_join(seq![a, b], ' ') == a + seq![' '] + b,
{
    assert(seq![a, b].skip(1) =~= seq![b]);
    assert(spec_join(seq![b], ' ') == b);
}



/// The concrete characters of every verb keyword, so that distinct verbs
/// compare distinct.
proof fn reveal_verbs()
    ensures
        "PASS"@ == seq!['P', 'A', 'S', 'S'],
        "NICK"@ == seq!['N', 'I', 'C', 'K'],
        "USER"@ == seq!['U', 'S', 'E', 'R'],
        "OPER"@ == seq!['O', 'P', 'E', 'R'],
        "MODE"@ == seq!['M', 'O', 'D', 'E'],
        "SERVICE"@ == seq!['S', 'E', 'R', 'V', 'I', 'C', 'E'],
        "QUIT"@ == seq!['Q', 'U', 'I', 'T'],
        "SQUIT"@ == seq!['S', 'Q', 'U', 'I', 'T'],
        "JOIN"@ == seq!['J', 'O', 'I', 'N'],
        "JOIN 0"@ == seq!['J', 'O', 'I', 'N', ' ', '0'],
        "PART"@ == seq!['P', 'A', 'R', 'T'],
        "TOPIC"@ == seq!['T', 'O', 'P', 'I', 'C'],
        "NAMES"@ == seq!['N', 'A', 'M', 'E', 'S'],
        "LIST"@ == seq!['L', 'I', 'S', 'T'],
        "INVITE"@ == seq!['I', 'N', 'V', 'I', 'T', 'E'],
        "KICK"@ == seq!['K', 'I', 'C', 'K'],
        "PRIVMSG"@ == seq!['P', 'R', 'I', 'V', 'M', 'S', 'G'],
        "NOTICE"@ == seq!['N', 'O', 'T', 'I', 'C', 'E'],
        "MOTD"@ == seq!['M', 'O', 'T', 'D'],
        "LUSERS"@ == seq!['L', 'U', 'S', 'E', 'R', 'S'],
        "VERSION"@ == seq!['V', 'E', 'R', 'S', 'I', 'O', 'N'],
        "STATS"@ == seq!['S', 'T', 'A', 'T', 'S'],
        "LINKS"@ == seq!['L', 'I', 'N', 'K', 'S'],
        "TIME"@ == seq!['T', 'I', 'M', 'E'],
        "CONNECT"@ == seq!['C', 'O', 'N', 'N', 'E', 'C', 'T'],
        "TRACE"@ == seq!['T', 'R', 'A', 'C', 'E'],
        "ADMIN"@ == seq!['A', 'D', 'M', 'I', 'N'],
        "INFO"@ == seq!['I', 'N', 'F', 'O'],
        "SERVLIST"@ == seq!['S', 'E', 'R', 'V', 'L', 'I', 'S', 'T'],
        "SQUERY"@ == seq!['S', 'Q', 'U', 'E', 'R', 'Y'],
        "WHO"@ == seq!['W', 'H', 'O'],
        "WHOIS"@ == seq!['W', 'H', 'O', 'I', 'S'],
        "WHOWAS"@ == seq!['W', 'H', 'O', 'W', 'A', 'S'],
        "KILL"@ == seq!['K', 'I', 'L', 'L'],
        "PING"@ == seq!['P', 'I', 'N', 'G'],
        "PONG"@ == seq!['P', 'O', 'N', 'G'],
        "ERROR"@ == seq!['E', 'R', 'R', 'O', 'R'],
        "AWAY"@ == seq!['A', 'W', 'A', 'Y'],
        "REHASH"@ == seq!['R', 'E', 'H', 'A', 'S', 'H'],
        "DIE"@ == seq!['D', 'I', 'E'],
        "RESTART"@ == seq!['R', 'E', 'S', 'T', 'A', 'R', 'T'],
        "SUMMON"@ == seq!['S', 'U', 'M', 'M', 'O', 'N'],
        "USERS"@ == seq!['U', 'S', 'E', 'R', 'S'],
        "WALLOPS"@ == seq!['W', 'A', 'L', 'L', 'O', 'P', 'S'],
        "USERHOST"@ == seq!['U', 'S', 'E', 'R', 'H', 'O', 'S', 'T'],
        "ISON"@ == seq!['I', 'S', 'O', 'N'],
        !crate::text::seq_contains("PASS"@, ' '),
        !crate::text::seq_contains("NICK"@, ' '),
        !crate::text::seq_contains("USER"@, ' '),
        !crate::text::seq_contains("OPER"@, ' '),
        !crate::text::seq_contains("MODE"@, ' '),
        !crate::text::seq_contains("SERVICE"@, ' '),
        !crate::text::seq_contains("QUIT"@, ' '),
        !crate::text::seq_contains("SQUIT"@, ' '),
        !crate::text::seq_contains("JOIN"@, ' '),
        !crate::text::seq_contains("PART"@, ' '),
        !crate::text::seq_contains("TOPIC"@, ' '),
        !crate::text::seq_contains("NAMES"@, ' '),
        !crate::text::seq_contains("LIST"@, ' '),
        !crate::text::seq_contains("INVITE"@, ' '),
        !crate::text::seq_contains("KICK"@, ' '),
        !crate::text::seq_contains("PRIVMSG"@, ' '),
        !crate::text::seq_contains("NOTICE"@, ' '),
        !crate::text::seq_contains("MOTD"@, ' '),
        !crate::text::seq_contains("LUSERS"@, ' '),
        !crate::text::seq_contains("VERSION"@, ' '),
        !crate::text::seq_contains("STATS"@, ' '),
        !crate::text::seq_contains("LINKS"@, ' '),
        !crate::text::seq_contains("TIME"@, ' '),
        !crate::text::seq_contains("CONNECT"@, ' '),
        !crate::text::seq_contains("TRACE"@, ' '),
        !crate::text::seq_contains("ADMIN"@, ' '),
        !crate::text::seq_contains("INFO"@, ' '),
        !crate::text::seq_contains("SERVLIST"@, ' '),
        !crate::text::seq_contains("SQUERY"@, ' '),
        !crate::text::seq_contains("WHO"@, ' '),
        !crate::text::seq_contains("WHOIS"@, ' '),
        !crate::text::seq_contains("WHOWAS"@, ' '),
        !crate::text::seq_contains("KILL"@, ' '),
        !crate::text::seq_contains("PING"@, ' '),
        !crate::text::seq_contains("PONG"@, ' '),
        !crate::text::seq_contains("ERROR"@, ' '),
        !crate::text::seq_contains("AWAY"@, ' '),
        !crate::text::seq_contains("REHASH"@, ' '),
        !crate::text::seq_contains("DIE"@, ' '),
        !crate::text::seq_contains("RESTART"@, ' '),
        !crate::text::seq_contains("SUMMON"@, ' '),
        !crate::text::seq_contains("USERS"@, ' '),
        !crate::text::seq_contains("WALLOPS"@, ' '),
        !crate::text::seq_contains("USERHOST"@, ' '),
        !crate::text::seq_contains("ISON"@, ' '),
{
    reveal_strlit("PASS");
    assert("PASS"@ =~= seq!['P', 'A', 'S', 'S']);
    reveal_strlit("NICK");
    assert("NICK"@ =~= seq!['N', 'I', 'C', 'K']);
    reveal_strlit("USER");
    assert("USER"@ =~= seq!['U', 'S', 'E', 'R']);
    reveal_strlit("OPER");
    assert("OPER"@ =~= seq!['O', 'P', 'E', 'R']);
    reveal_strlit("MODE");
    assert("MODE"@ =~= seq!['M', 'O', 'D', 'E']);
    reveal_strlit("SERVICE");
    assert("SERVICE"@ =~= seq!['S', 'E', 'R', 'V', 'I', 'C', 'E']);
    reveal_strlit("QUIT");
    assert("QUIT"@ =~= seq!['Q', 'U', 'I', 'T']);
    reveal_strlit("SQUIT");
    assert("SQUIT"@ =~= seq!['S', 'Q', 'U', 'I', 'T']);
    reveal_strlit("JOIN");
    assert("JOIN"@ =~= seq!['J', 'O', 'I', 'N']);
    reveal_strlit("JOIN 0");
    assert("JOIN 0"@ =~= seq!['J', 'O', 'I', 'N', ' ', '0']);
    reveal_strlit("PART");
    assert("PART"@ =~= seq!['P', 'A', 'R', 'T']);
    reveal_strlit("TOPIC");
    assert("TOPIC"@ =~= seq!['T', 'O', 'P', 'I', 'C']);
    reveal_strlit("NAMES");
    assert("NAMES"@ =~= seq!['N', 'A', 'M', 'E', 'S']);
    reveal_strlit("LIST");
    assert("LIST"@ =~= seq!['L', 'I', 'S', 'T']);
    reveal_strlit("INVITE");
    assert("INVITE"@ =~= seq!['I', 'N', 'V', 'I', 'T', 'E']);
    reveal_strlit("KICK");
    assert("KICK"@ =~= seq!['K', 'I', 'C', 'K']);
    reveal_strlit("PRIVMSG");
    assert("PRIVMSG"@ =~= seq!['P', 'R', 'I', 'V', 'M', 'S', 'G']);
    reveal_strlit("NOTICE");
    assert("NOTICE"@ =~= seq!['N', 'O', 'T', 'I', 'C', 'E']);
    reveal_strlit("MOTD");
    assert("MOTD"@ =~= seq!['M', 'O', 'T', 'D']);
    reveal_strlit("LUSERS");
    assert("LUSERS"@ =~= seq!['L', 'U', 'S', 'E', 'R', 'S']);
    reveal_strlit("VERSION");
    assert("VERSION"@ =~= seq!['V', 'E', 'R', 'S', 'I', 'O', 'N']);
    reveal_strlit("STATS");
    assert("STATS"@ =~= seq!['S', 'T', 'A', 'T', 'S']);
    reveal_strlit("LINKS");
    assert("LINKS"@ =~= seq!['L', 'I', 'N', 'K', 'S']);
    reveal_strlit("TIME");
    assert("TIME"@ =~= seq!['T', 'I', 'M', 'E']);
    reveal_strlit("CONNECT");
    assert("CONNECT"@ =~= seq!['C', 'O', 'N', 'N', 'E', 'C', 'T']);
    reveal_strlit("TRACE");
    assert("TRACE"@ =~= seq!['T', 'R', 'A', 'C', 'E']);
    reveal_strlit("ADMIN");
    assert("ADMIN"@ =~= seq!['A', 'D', 'M', 'I', 'N']);
    reveal_strlit("INFO");
    assert("INFO"@ =~= seq!['I', 'N', 'F', 'O']);
    reveal_strlit("SERVLIST");
    assert("SERVLIST"@ =~= seq!['S', 'E', 'R', 'V', 'L', 'I', 'S', 'T']);
    reveal_strlit("SQUERY");
    assert("SQUERY"@ =~= seq!['S', 'Q', 'U', 'E', 'R', 'Y']);
    reveal_strlit("WHO");
    assert("WHO"@ =~= seq!['W', 'H', 'O']);
    reveal_strlit("WHOIS");
    assert("WHOIS"@ =~= seq!['W', 'H', 'O', 'I', 'S']);
    reveal_strlit("WHOWAS");
    assert("WHOWAS"@ =~= seq!['W', 'H', 'O', 'W', 'A', 'S']);
    reveal_strlit("KILL");
    assert("KILL"@ =~= seq!['K', 'I', 'L', 'L']);
    reveal_strlit("PING");
    assert("PING"@ =~= seq!['P', 'I', 'N', 'G']);
    reveal_strlit("PONG");
    assert("PONG"@ =~= seq!['P', 'O', 'N', 'G']);
    reveal_strlit("ERROR");
    assert("ERROR"@ =~= seq!['E', 'R', 'R', 'O', 'R']);
    reveal_strlit("AWAY");
    assert("AWAY"@ =~= seq!['A', 'W', 'A', 'Y']);
    reveal_strlit("REHASH");
    assert("REHASH"@ =~= seq!['R', 'E', 'H', 'A', 'S', 'H']);
    reveal_strlit("DIE");
    assert("DIE"@ =~= seq!['D', 'I', 'E']);
    reveal_strlit("RESTART");
    assert("RESTART"@ =~= seq!['R', 'E', 'S', 'T', 'A', 'R', 'T']);
    reveal_strlit("SUMMON");
    assert("SUMMON"@ =~= seq!['S', 'U', 'M', 'M', 'O', 'N']);
    reveal_strlit("USERS");
    assert("USERS"@ =~= seq!['U', 'S', 'E', 'R', 'S']);
    reveal_strlit("WALLOPS");
    assert("WALLOPS"@ =~= seq!['W', 'A', 'L', 'L', 'O', 'P', 'S']);
    reveal_strlit("USERHOST");
    assert("USERHOST"@ =~= seq!['U', 'S', 'E', 'R', 'H', 'O', 'S', 'T']);
    reveal_strlit("ISON");
    assert("ISON"@ =~= seq!['I', 'S', 'O', 'N']);
    assert(!crate::text::seq_contains("PASS"@, ' ')) by {
        if crate::text::seq_contains("PASS"@, ' ') {
            let k = choose|k: int| 0 <= k < "PASS"@.len() && "PASS"@[k] == ' ';
        }
    }
    assert(!crate::text::seq_contains("NICK"@, ' ')) by {
        if crate::text::seq_contains("NICK"@, ' ') {
            let k = choose|k: int| 0 <= k < "NICK"@.len() && "NICK"@[k] == ' ';
        }
    }
    assert(!crate::text::seq_contains("USER"@, ' ')) by {
        if crate::text::seq_contains("USER"@, ' ') {
            let k = choose|k: int| 0 <= k < "USER"@.len() && "USER"@[k] == ' ';
        }
    }
    assert(!crate::text::seq_contains("OPER"@, ' ')) by {
        if crate::text::seq_contains("OPER"@, ' ') {
            let k = choose|k: int| 0 <= k < "OPER"@.len() && "OPER"@[k] == ' ';
        }
    }
    assert(!crate::text::seq_contains("MODE"@, ' ')) by {
        if crate::text::seq_contains("MODE"@, ' ') {
            let k = choose|k: int| 0 <= k < "MODE"@.len() && "MODE"@[k] == ' ';
        }
    }
    assert(!crate::text::seq_contains("SERVICE"@, ' ')) by {
        if crate::text::seq_contains("SERVICE"@, ' ') {
            let k = choose|k: int| 0 <= k < "SERVICE"@.len() && "SERVICE"@[k] == ' ';
        }
    }
    assert(!crate::text::seq_contains("QUIT"@, ' ')) by {
        if crate::text::seq_contains("QUIT"@, ' ') {
            let k = choose|k: int| 0 <= k < "QUIT"@.len() && "QUIT"@[k] == ' ';
        }
    }
    assert(!crate::text::seq_contains("SQUIT"@, ' ')) by {
        if crate::text::seq_contains("SQUIT"@, ' ') {
            let k = choose|k: int| 0 <= k < "SQUIT"@.len() && "SQUIT"@[k] == ' ';
        }
    }
    assert(!crate::text::seq_contains("JOIN"@, ' ')) by {
        if crate::text::seq_contains("JOIN"@, ' ') {
            let k = choose|k: int| 0 <= k < "JOIN"@.len() && "JOIN"@[k] == ' ';
        }
    }
    assert(!crate::text::seq_contains("PART"@, ' ')) by {
        if crate::text::seq_contains("PART"@, ' ') {
            let k = choose|k: int| 0 <= k < "PART"@.len() && "PART"@[k] == ' ';
        }
    }
    assert(!crate::text::seq_contains("TOPIC"@, ' ')) by {
        if crate::text::seq_contains("TOPIC"@, ' ') {
            let k = choose|k: int| 0 <= k < "TOPIC"@.len() && "TOPIC"@[k] == ' ';
        }
    }
    assert(!crate::text::seq_contains("NAMES"@, ' ')) by {
        if crate::text::seq_contains("NAMES"@, ' ') {
            let k = choose|k: int| 0 <= k < "NAMES"@.len() && "NAMES"@[k] == ' ';
        }
    }
    assert(!crate::text::seq_contains("LIST"@, ' ')) by {
        if crate::text::seq_contains("LIST"@, ' ') {
            let k = choose|k: int| 0 <= k < "LIST"@.len() && "LIST"@[k] == ' ';
        }
    }
    assert(!crate::text::seq_contains("INVITE"@, ' ')) by {
        if crate::text::seq_contains("INVITE"@, ' ') {
            let k = choose|k: int| 0 <= k < "INVITE"@.len() && "INVITE"@[k] == ' ';
        }
    }
    assert(!crate::text::seq_contains("KICK"@, ' ')) by {
        if crate::text::seq_contains("KICK"@, ' ') {
            let k = choose|k: int| 0 <= k < "KICK"@.len() && "KICK"@[k] == ' ';
        }
    }
    assert(!crate::text::seq_contains("PRIVMSG"@, ' ')) by {
        if crate::text::seq_contains("PRIVMSG"@, ' ') {
            let k = choose|k: int| 0 <= k < "PRIVMSG"@.len() && "PRIVMSG"@[k] == ' ';
        }
    }
    assert(!crate::text::seq_contains("NOTICE"@, ' ')) by {
        if crate::text::seq_contains("NOTICE"@, ' ') {
            let k = choose|k: int| 0 <= k < "NOTICE"@.len() && "NOTICE"@[k] == ' ';
        }
    }
    assert(!crate::text::seq_contains("MOTD"@, ' ')) by {
        if crate::text::seq_contains("MOTD"@, ' ') {
            let k = choose|k: int| 0 <= k < "MOTD"@.len() && "MOTD"@[k] == ' ';
        }
    }
    assert(!crate::text::seq_contains("LUSERS"@, ' ')) by {
        if crate::text::seq_contains("LUSERS"@, ' ') {
            let k = choose|k: int| 0 <= k < "LUSERS"@.len() && "LUSERS"@[k] == ' ';
        }
    }
    assert(!crate::text::seq_contains("VERSION"@, ' ')) by {
        if crate::text::seq_contains("VERSION"@, ' ') {
            let k = choose|k: int| 0 <= k < "VERSION"@.len() && "VERSION"@[k] == ' ';
        }
    }
    assert(!crate::text::seq_contains("STATS"@, ' ')) by {
        if crate::text::seq_contains("STATS"@, ' ') {
            let k = choose|k: int| 0 <= k < "STATS"@.len() && "STATS"@[k] == ' ';
        }
    }
    assert(!crate::text::seq_contains("LINKS"@, ' ')) by {
        if crate::text::seq_contains("LINKS"@, ' ') {
            let k = choose|k: int| 0 <= k < "LINKS"@.len() && "LINKS"@[k] == ' ';
        }
    }
    assert(!crate::text::seq_contains("TIME"@, ' ')) by {
        if crate::text::seq_contains("TIME"@, ' ') {
            let k = choose|k: int| 0 <= k < "TIME"@.len() && "TIME"@[k] == ' ';
        }
    }
    assert(!crate::text::seq_contains("CONNECT"@, ' ')) by {
        if crate::text::seq_contains("CONNECT"@, ' ') {
            let k = choose|k: int| 0 <= k < "CONNECT"@.len() && "CONNECT"@[k] == ' ';
        }
    }
    assert(!crate::text::seq_contains("TRACE"@, ' ')) by {
        if crate::text::seq_contains("TRACE"@, ' ') {
            let k = choose|k: int| 0 <= k < "TRACE"@.len() && "TRACE"@[k] == ' ';
        }
    }
    assert(!crate::text::seq_contains("ADMIN"@, ' ')) by {
        if crate::text::seq_contains("ADMIN"@, ' ') {
            let k = choose|k: int| 0 <= k < "ADMIN"@.len() && "ADMIN"@[k] == ' ';
        }
    }
    assert(!crate::text::seq_contains("INFO"@, ' ')) by {
        if crate::text::seq_contains("INFO"@, ' ') {
            let k = choose|k: int| 0 <= k < "INFO"@.len() && "INFO"@[k] == ' ';
        }
    }
    assert(!crate::text::seq_contains("SERVLIST"@, ' ')) by {
        if crate::text::seq_contains("SERVLIST"@, ' ') {
            let k = choose|k: int| 0 <= k < "SERVLIST"@.len() && "SERVLIST"@[k] == ' ';
        }
    }
    assert(!crate::text::seq_contains("SQUERY"@, ' ')) by {
        if crate::text::seq_contains("SQUERY"@, ' ') {
            let k = choose|k: int| 0 <= k < "SQUERY"@.len() && "SQUERY"@[k] == ' ';
        }
    }
    assert(!crate::text::seq_contains("WHO"@, ' ')) by {
        if crate::text::seq_contains("WHO"@, ' ') {
            let k = choose|k: int| 0 <= k < "WHO"@.len() && "WHO"@[k] == ' ';
        }
    }
    assert(!crate::text::seq_contains("WHOIS"@, ' ')) by {
        if crate::text::seq_contains("WHOIS"@, ' ') {
            let k = choose|k: int| 0 <= k < "WHOIS"@.len() && "WHOIS"@[k] == ' ';
        }
    }
    assert(!crate::text::seq_contains("WHOWAS"@, ' ')) by {
        if crate::text::seq_contains("WHOWAS"@, ' ') {
            let k = choose|k: int| 0 <= k < "WHOWAS"@.len() && "WHOWAS"@[k] == ' ';
        }
    }
    assert(!crate::text::seq_contains("KILL"@, ' ')) by {
        if crate::text::seq_contains("KILL"@, ' ') {
            let k = choose|k: int| 0 <= k < "KILL"@.len() && "KILL"@[k] == ' ';
        }
    }
    assert(!crate::text::seq_contains("PING"@, ' ')) by {
        if crate::text::seq_contains("PING"@, ' ') {
            let k = choose|k: int| 0 <= k < "PING"@.len() && "PING"@[k] == ' ';
        }
    }
    assert(!crate::text::seq_contains("PONG"@, ' ')) by {
        if crate::text::seq_contains("PONG"@, ' ') {
            let k = choose|k: int| 0 <= k < "PONG"@.len() && "PONG"@[k] == ' ';
        }
    }
    assert(!crate::text::seq_contains("ERROR"@, ' ')) by {
        if crate::text::seq_contains("ERROR"@, ' ') {
            let k = choose|k: int| 0 <= k < "ERROR"@.len() && "ERROR"@[k] == ' ';
        }
    }
    assert(!crate::text::seq_contains("AWAY"@, ' ')) by {
        if crate::text::seq_contains("AWAY"@, ' ') {
            let k = choose|k: int| 0 <= k < "AWAY"@.len() && "AWAY"@[k] == ' ';
        }
    }
    assert(!crate::text::seq_contains("REHASH"@, ' ')) by {
        if crate::text::seq_contains("REHASH"@, ' ') {
            let k = choose|k: int| 0 <= k < "REHASH"@.len() && "REHASH"@[k] == ' ';
        }
    }
    assert(!crate::text::seq_contains("DIE"@, ' ')) by {
        if crate::text::seq_contains("DIE"@, ' ') {
            let k = choose|k: int| 0 <= k < "DIE"@.len() && "DIE"@[k] == ' ';
        }
    }
    assert(!crate::text::seq_contains("RESTART"@, ' ')) by {
        if crate::text::seq_contains("RESTART"@, ' ') {
            let k = choose|k: int| 0 <= k < "RESTART"@.len() && "RESTART"@[k] == ' ';
        }
    }
    assert(!crate::text::seq_contains("SUMMON"@, ' ')) by {
        if crate::text::seq_contains("SUMMON"@, ' ') {
            let k = choose|k: int| 0 <= k < "SUMMON"@.len() && "SUMMON"@[k] == ' ';
        }
    }
    assert(!crate::text::seq_contains("USERS"@, ' ')) by {
        if crate::text::seq_contains("USERS"@, ' ') {
            let k = choose|k: int| 0 <= k < "USERS"@.len() && "USERS"@[k] == ' ';
        }
    }
    assert(!crate::text::seq_contains("WALLOPS"@, ' ')) by {
        if crate::text::seq_contains("WALLOPS"@, ' ') {
            let k = choose|k: int| 0 <= k < "WALLOPS"@.len() && "WALLOPS"@[k] == ' ';
        }
    }
    assert(!crate::text::seq_contains("USERHOST"@, ' ')) by {
        if crate::text::seq_contains("USERHOST"@, ' ') {
            let k = choose|k: int| 0 <= k < "USERHOST"@.len() && "USERHOST"@[k] == ' ';
        }
    }
    assert(!crate::text::seq_contains("ISON"@, ' ')) by {
        if crate::text::seq_contains("ISON"@, ' ') {
            let k = choose|k: int| 0 <= k < "ISON"@.len() && "ISON"@[k] == ' ';
        }
    }
}

proof fn lemma_canonical_a(m: CommandModel)
    requires
        command_wf(m),
        m is Pass || m is Nick || m is User || m is Oper || m is UserMode || m is ChannelMode
            || m is Service,
    ensures
        command_of(command_text(m)) == Some(m),
{
    reveal_verbs();
    match m {
        CommandModel::Pass { password } => {
            let args = seq![password];
            lemma_with_args("PASS"@, args);
        },
        CommandModel::Nick { nickname } => {
            let args = seq![nickname];
            lemma_nick_middle(nickname);
            lemma_with_args("NICK"@, args);
        },
        CommandModel::User { username, mode, realname } => {
            let mt = udec_text(mode as int);
            let args = seq![username, mt, seq!['*'], realname];
            lemma_udec_text(mode as int);
            lemma_char_middle('*');
            assert(args[0] == username && args[1] == mt && args[2] == seq!['*'] && args[3]
                == realname);
            lemma_with_args("USER"@, args);
            assert(uint_digits(mt) == mt) by {
                assert(digit_char(mt[0]));
            }
            assert(uint_text_ok(mt, 255));
            assert(uint_text_val(mt) == mode as int);
        },
        CommandModel::Oper { user, password } => {
            let args = seq![user, password];
            lemma_with_args("OPER"@, args);
        },
        CommandModel::UserMode { nickname, modes } => {
            let args = seq![nickname, modes];
            lemma_nick_middle(nickname);
            lemma_with_args("MODE"@, args);
            crate::params::lemma_all_middle_render(args);
            lemma_join_two(nickname, modes);
            let raw = rest_of(command_text(m));
            assert(raw == nickname + seq![' '] + modes);
            assert(raw[nickname.len() as int] == ' ');
            assert forall|k: int| 0 <= k < nickname.len() implies raw[k] != ' ' by {
                assert(raw[k] == nickname[k]);
                if nickname[k] == ' ' {
                    assert(seq_contains(nickname, ' '));
                }
            }
            lemma_first_at_is(raw, ' ', nickname.len() as int);
            assert(raw.skip(nickname.len() as int + 1) =~= modes);
            assert(crate::user::nick_start_char(nickname[0]));
            crate::recipient::lemma_lead_excludes(nickname);
            assert(modes_of(raw) == modes);
        },
        CommandModel::ChannelMode { channel, modes } => {
            let t = command_text(m);
            let ch = Channel::text_of(channel);
            Channel::lemma_canonical(channel);
            assert(t =~= "MODE"@ + seq![' '] + (ch + seq![' '] + modes));
            assert(t[4] == ' ');
            assert forall|k: int| 0 <= k < 4 implies t[k] != ' ' by {
                assert(t[k] == "MODE"@[k]);
            }
            lemma_first_at_is(t, ' ', 4);
            assert(verb_of(t) =~= "MODE"@);
            let raw = rest_of(t);
            assert(raw =~= ch + seq![' '] + modes);
            crate::params::lemma_params_step(ch, modes, 0);
            assert(args_of(t) == seq![ch] + crate::params::spec_params(modes, 1));
            let n = args_of(t).len() as int;
            assert(2 <= n <= 15);
            assert(args_of(t)[0] == ch);
            assert(raw[ch.len() as int] == ' ');
            assert forall|k: int| 0 <= k < ch.len() implies raw[k] != ' ' by {
                assert(raw[k] == ch[k]);
                if ch[k] == ' ' {
                    assert(seq_contains(ch, ' '));
                }
            }
            lemma_first_at_is(raw, ' ', ch.len() as int);
            assert(raw.skip(ch.len() as int + 1) =~= modes);
            assert(modes_of(raw) == modes);
            assert(verbs_a(verb_of(t)));
            assert(command_a(t) == Some(m));
        },
        CommandModel::Service { nickname, distribution, info } => {
            let args = seq![nickname, seq!['*'], distribution, seq!['0'], seq!['0'], info];
            lemma_nick_middle(nickname);
            lemma_char_middle('*');
            lemma_char_middle('0');
            assert(args[0] == nickname && args[2] == distribution && args[5] == info);
            assert(middle_ok(args[1]) && middle_ok(args[3]) && middle_ok(args[4]));
            lemma_with_args("SERVICE"@, args);
        },
        _ => {},
    }
}

#[verifier::rlimit(100)]
proof fn lemma_canonical_b(m: CommandModel)
    requires
        command_wf(m),
        m is Quit || m is SQuit || m is Join || m is Part || m is Topic,
    ensures
        command_of(command_text(m)) == Some(m),
{
    reveal_verbs();
    match m {
        CommandModel::Quit { message: None } => {
            lemma_bare_verb("QUIT"@);
            assert(verb_of(command_text(m)) == "QUIT"@);
            assert(!verbs_a("QUIT"@));
            assert(verbs_b("QUIT"@));
            assert(command_b(command_text(m)) == Some(m));
            assert(command_of(command_text(m)) == Some(m));
        },
        CommandModel::Quit { message: Some(msg) } => {
            lemma_with_args("QUIT"@, seq![msg]);
            assert(command_of(command_text(m)) == Some(m));
        },
        CommandModel::SQuit { server, comment } => {
            lemma_with_args("SQUIT"@, seq![server, comment]);
            assert(command_of(command_text(m)) == Some(m));
        },
        CommandModel::Join { channels, keys } => {
            if channels.len() == 0 {
                let t = "JOIN 0"@;
                assert(t[4] == ' ');
                assert forall|k: int| 0 <= k < 4 implies t[k] != ' ' by {}
                lemma_first_at_is(t, ' ', 4);
                assert(verb_of(t) =~= "JOIN"@);
                let raw = rest_of(t);
                assert(raw =~= seq!['0']);
                assert(raw[0] == '0');
                assert(!seq_contains(raw, ' ')) by {
                    if seq_contains(raw, ' ') {
                        let k = choose|k: int| 0 <= k < raw.len() && raw[k] == ' ';
                        assert(raw[k] == '0');
                    }
                }
                lemma_first_at_is(raw, ' ', 1);
                assert(args_of(t) =~= seq![seq!['0']]);
                assert(keys.len() == 0);
                assert(channels =~= Seq::<ChannelModel>::empty());
                assert(keys =~= Seq::<Seq<char>>::empty());
                assert(command_b(t) == Some(m));
            } else {
                let ch = KeywordList::<Channel>::text_of(channels);
                KeywordList::<Channel>::lemma_canonical(channels);
                assert(Channel::model_wf(channels[0]));
                crate::channel::lemma_channel_text_first(channels[0]);
                crate::keyword_list::lemma_klist_text_first::<Channel>(channels);
                assert(ch[0] != '0');
                assert(ch != seq!['0']);
                if keys.len() == 0 {
                    lemma_with_args("JOIN"@, seq![ch]);
                    assert(keys =~= Seq::<Seq<char>>::empty());
                } else {
                    let ks = KeywordList::<crate::channel::ChannelKey>::text_of(keys);
                    KeywordList::<crate::channel::ChannelKey>::lemma_canonical(keys);
                    lemma_with_args("JOIN"@, seq![ch, ks]);
                }
            }
        },
        CommandModel::Part { channels, message } => {
            let ch = KeywordList::<Channel>::text_of(channels);
            KeywordList::<Channel>::lemma_canonical(channels);
            match message {
                None => {
                    assert(last_ok(ch)) by {
                        if channels.len() == 0 {
                            assert(crate::keyword_list::klist_texts::<Channel>(channels) =~= Seq::<
                                Seq<char>,
                            >::empty());
                            assert(ch.len() == 0);
                        } else {
                        }
                    }
                    lemma_with_args("PART"@, seq![ch]);
                },
                Some(msg) => {
                    lemma_with_args("PART"@, seq![ch, msg]);
                },
            }
        },
        CommandModel::Topic { channel, topic } => {
            let ch = Channel::text_of(channel);
            Channel::lemma_canonical(channel);
            match topic {
                None => {
                    lemma_with_args("TOPIC"@, seq![ch]);
                },
                Some(t) => {
                    lemma_with_args("TOPIC"@, seq![ch, t]);
                },
            }
        },
        _ => {},
    }
    assert(command_of(command_text(m)) == Some(m));
}

#[verifier::rlimit(100)]
proof fn lemma_canonical_c(m: CommandModel)
    requires
        command_wf(m),
        m is Names || m is List || m is Invite || m is Kick || m is Privmsg || m is Notice,
    ensures
        command_of(command_text(m)) == Some(m),
{
    reveal_verbs();
    match m {
        CommandModel::Names { channels, target } => {
            if channels.len() == 0 && target is None {
                lemma_bare_verb("NAMES"@);
                assert(channels =~= Seq::<ChannelModel>::empty());
                assert(command_c(command_text(m)) == Some(m));
            } else {
                let ch = KeywordList::<Channel>::text_of(channels);
                KeywordList::<Channel>::lemma_canonical(channels);
                match target {
                    None => {
                        lemma_with_args("NAMES"@, seq![ch]);
                    },
                    Some(t) => {
                        lemma_with_args("NAMES"@, seq![ch, t]);
                    },
                }
            }
        },
        CommandModel::List { channels, target } => {
            if channels.len() == 0 && target is None {
                lemma_bare_verb("LIST"@);
                assert(channels =~= Seq::<ChannelModel>::empty());
                assert(command_c(command_text(m)) == Some(m));
            } else {
                let ch = KeywordList::<Channel>::text_of(channels);
                KeywordList::<Channel>::lemma_canonical(channels);
                match target {
                    None => {
                        lemma_with_args("LIST"@, seq![ch]);
                    },
                    Some(t) => {
                        lemma_with_args("LIST"@, seq![ch, t]);
                    },
                }
            }
        },
        CommandModel::Invite { nickname, channel } => {
            let ch = Channel::text_of(channel);
            Channel::lemma_canonical(channel);
            lemma_nick_middle(nickname);
            lemma_with_args("INVITE"@, seq![nickname, ch]);
        },
        CommandModel::Kick { channels, users, comment } => {
            let ch = KeywordList::<Channel>::text_of(channels);
            let us = KeywordList::<Username>::text_of(users);
            KeywordList::<Channel>::lemma_canonical(channels);
            KeywordList::<Username>::lemma_canonical(users);
            match comment {
                None => {
                    lemma_with_args("KICK"@, seq![ch, us]);
                },
                Some(c) => {
                    lemma_with_args("KICK"@, seq![ch, us, c]);
                },
            }
        },
        CommandModel::Privmsg { recipients, message } => {
            let rs = KeywordList::<Recipient>::text_of(recipients);
            KeywordList::<Recipient>::lemma_canonical(recipients);
            lemma_with_args("PRIVMSG"@, seq![rs, message]);
        },
        CommandModel::Notice { recipients, message } => {
            let rs = KeywordList::<Recipient>::text_of(recipients);
            KeywordList::<Recipient>::lemma_canonical(recipients);
            lemma_with_args("NOTICE"@, seq![rs, message]);
        },
        _ => {},
    }
}

#[verifier::rlimit(100)]
proof fn lemma_canonical_d(m: CommandModel)
    requires
        command_wf(m),
        m is Motd || m is LUsers || m is Version || m is Stats || m is Links || m is Time,
    ensures
        command_of(command_text(m)) == Some(m),
{
    reveal_verbs();
    match m {
        CommandModel::Motd { target: None } => {
            lemma_bare_verb("MOTD"@);
        },
        CommandModel::Motd { target: Some(t) } => {
            lemma_with_args("MOTD"@, seq![t]);
        },
        CommandModel::LUsers { mask: None, target: None } => {
            lemma_bare_verb("LUSERS"@);
        },
        CommandModel::LUsers { mask: None, target: Some(t) } => {},
        CommandModel::LUsers { mask: Some(mk), target: None } => {
            lemma_with_args("LUSERS"@, seq![mk]);
        },
        CommandModel::LUsers { mask: Some(mk), target: Some(t) } => {
            lemma_with_args("LUSERS"@, seq![mk, t]);
        },
        CommandModel::Version { target: None } => {
            lemma_bare_verb("VERSION"@);
        },
        CommandModel::Version { target: Some(t) } => {
            lemma_with_args("VERSION"@, seq![t]);
        },
        CommandModel::Stats { query: None, target } => {
            lemma_bare_verb("STATS"@);
            assert(target is None);
        },
        CommandModel::Stats { query: Some(q), target } => {
            let qc = crate::stats_query::stats_query_char(q);
            assert(qc != ' ' && qc != ':') by {
                match q {
                    StatsQuery::Unknown(c) => {
                        assert(crate::server::alnum_char(c));
                    },
                    _ => {},
                }
            }
            lemma_char_middle(qc);
            StatsQuery::lemma_canonical(q);
            match target {
                None => {
                    lemma_with_args("STATS"@, seq![seq![qc]]);
                },
                Some(t) => {
                    lemma_with_args("STATS"@, seq![seq![qc], t]);
                },
            }
        },
        CommandModel::Links { mask: None, target: None } => {
            lemma_bare_verb("LINKS"@);
        },
        CommandModel::Links { mask: None, target: Some(t) } => {},
        CommandModel::Links { mask: Some(mk), target: None } => {
            lemma_with_args("LINKS"@, seq![mk]);
        },
        CommandModel::Links { mask: Some(mk), target: Some(t) } => {
            lemma_with_args("LINKS"@, seq![t, mk]);
        },
        CommandModel::Time { target: None } => {
            lemma_bare_verb("TIME"@);
        },
        CommandModel::Time { target: Some(t) } => {
            lemma_with_args("TIME"@, seq![t]);
        },
        _ => {},
    }
}

#[verifier::rlimit(100)]
proof fn lemma_canonical_e(m: CommandModel)
    requires
        command_wf(m),
        m is Connect || m is Trace || m is Admin || m is Info || m is ServList || m is SQuery,
    ensures
        command_of(command_text(m)) == Some(m),
{
    reveal_verbs();
    match m {
        CommandModel::Connect { target, port, remote } => {
            let pt = udec_text(port as int);
            lemma_udec_text(port as int);
            assert(uint_digits(pt) == pt) by {
                assert(digit_char(pt[0]));
            }
            assert(uint_text_ok(pt, 65535));
            assert(uint_text_val(pt) == port as int);
            match remote {
                None => {
                    lemma_with_args("CONNECT"@, seq![target, pt]);
                },
                Some(rm) => {
                    lemma_with_args("CONNECT"@, seq![target, pt, rm]);
                },
            }
        },
        CommandModel::Trace { target: None } => {
            lemma_bare_verb("TRACE"@);
        },
        CommandModel::Trace { target: Some(t) } => {
            lemma_with_args("TRACE"@, seq![t]);
        },
        CommandModel::Admin { target: None } => {
            lemma_bare_verb("ADMIN"@);
        },
        CommandModel::Admin { target: Some(t) } => {
            lemma_with_args("ADMIN"@, seq![t]);
        },
        CommandModel::Info { target: None } => {
            lemma_bare_verb("INFO"@);
        },
        CommandModel::Info { target: Some(t) } => {
            lemma_with_args("INFO"@, seq![t]);
        },
        CommandModel::ServList { mask: None, service_type: None } => {
            lemma_bare_verb("SERVLIST"@);
        },
        CommandModel::ServList { mask: None, service_type: Some(st) } => {},
        CommandModel::ServList { mask: Some(mk), service_type: None } => {
            lemma_with_args("SERVLIST"@, seq![mk]);
        },
        CommandModel::ServList { mask: Some(mk), service_type: Some(st) } => {
            lemma_with_args("SERVLIST"@, seq![mk, st]);
        },
        CommandModel::SQuery { recipient, message } => {
            let rt = Recipient::text_of(recipient);
            Recipient::lemma_canonical(recipient);
            lemma_with_args("SQUERY"@, seq![rt, message]);
        },
        _ => {},
    }
}

#[verifier::rlimit(100)]
proof fn lemma_canonical_f(m: CommandModel)
    requires
        command_wf(m),
        m is Who || m is WhoIs || m is WhoWas || m is Kill || m is Ping || m is Pong,
    ensures
        command_of(command_text(m)) == Some(m),
{
    reveal_verbs();
    match m {
        CommandModel::Who { mask: None, op_only } => {
            lemma_bare_verb("WHO"@);
        },
        CommandModel::Who { mask: Some(mk), op_only } => {
            if op_only {
                lemma_char_middle('o');
                lemma_with_args("WHO"@, seq![mk, seq!['o']]);
            } else {
                lemma_with_args("WHO"@, seq![mk]);
            }
        },
        CommandModel::WhoIs { mask, target: None } => {
            lemma_with_args("WHOIS"@, seq![mask]);
        },
        CommandModel::WhoIs { mask, target: Some(t) } => {
            lemma_with_args("WHOIS"@, seq![t, mask]);
        },
        CommandModel::WhoWas { nicknames, count, target } => {
            let nl = KeywordList::<Nickname>::text_of(nicknames);
            KeywordList::<Nickname>::lemma_canonical(nicknames);
            match (count, target) {
                (None, None) => {
                    lemma_with_args("WHOWAS"@, seq![nl]);
                },
                (None, Some(t)) => {},
                (Some(c), None) => {
                    let ct = udec_text(c as int);
                    lemma_udec_text(c as int);
                    assert(uint_digits(ct) == ct) by {
                        assert(digit_char(ct[0]));
                    }
                    assert(uint_text_ok(ct, 65535));
                    lemma_with_args("WHOWAS"@, seq![nl, ct]);
                },
                (Some(c), Some(t)) => {
                    let ct = udec_text(c as int);
                    lemma_udec_text(c as int);
                    assert(uint_digits(ct) == ct) by {
                        assert(digit_char(ct[0]));
                    }
                    assert(uint_text_ok(ct, 65535));
                    lemma_with_args("WHOWAS"@, seq![nl, ct, t]);
                },
            }
        },
        CommandModel::Kill { nickname, comment } => {
            lemma_nick_middle(nickname);
            lemma_with_args("KILL"@, seq![nickname, comment]);
        },
        CommandModel::Ping { from: None, to: None } => {
            lemma_bare_verb("PING"@);
        },
        CommandModel::Ping { from: None, to: Some(tm) } => {
            let tt = Sender::text_of(tm);
            Sender::lemma_canonical(tm);
            lemma_with_args("PING"@, seq![tt]);
            crate::params::lemma_all_middle_render(seq![tt]);
            assert(spec_join(seq![tt], ' ') == tt);
            let raw = rest_of(command_text(m));
            assert(raw == tt);
            assert(raw[0] != ':');
        },
        CommandModel::Ping { from: Some(fm), to: None } => {
            let ft = Sender::text_of(fm);
            Sender::lemma_canonical(fm);
            let t = command_text(m);
            assert(t =~= "PING"@ + seq![' '] + (seq![':'] + ft));
            assert(t[4] == ' ');
            assert forall|k: int| 0 <= k < 4 implies t[k] != ' ' by {
                assert(t[k] == "PING"@[k]);
            }
            lemma_first_at_is(t, ' ', 4);
            assert(verb_of(t) =~= "PING"@);
            let raw = rest_of(t);
            assert(raw =~= seq![':'] + ft);
            assert(raw[0] == ':');
            assert(args_of(t) == seq![raw.skip(1)]);
            assert(raw.skip(1) =~= ft);
            assert(command_f(t) == Some(m));
        },
        CommandModel::Ping { from: Some(fm), to: Some(tm) } => {
            let ft = Sender::text_of(fm);
            let tt = Sender::text_of(tm);
            Sender::lemma_canonical(fm);
            Sender::lemma_canonical(tm);
            lemma_with_args("PING"@, seq![ft, tt]);
        },
        CommandModel::Pong { from, to } => {
            let ft = Sender::text_of(from);
            Sender::lemma_canonical(from);
            match to {
                None => {
                    lemma_with_args("PONG"@, seq![ft]);
                },
                Some(tm) => {
                    let tt = Sender::text_of(tm);
                    Sender::lemma_canonical(tm);
                    lemma_with_args("PONG"@, seq![ft, tt]);
                },
            }
        },
        _ => {},
    }
}

#[verifier::rlimit(100)]
proof fn lemma_canonical_g(m: CommandModel)
    requires
        command_wf(m),
        m is Error || m is Away || m is Rehash || m is Die || m is Restart || m is Summon
            || m is Users || m is WallOps || m is UserHost || m is IsOn,
    ensures
        command_of(command_text(m)) == Some(m),
{
    reveal_verbs();
    match m {
        CommandModel::Error { message } => {
            lemma_with_args("ERROR"@, seq![message]);
        },
        CommandModel::Away { message: None } => {
            lemma_bare_verb("AWAY"@);
        },
        CommandModel::Away { message: Some(msg) } => {
            lemma_with_args("AWAY"@, seq![msg]);
        },
        CommandModel::Rehash => {
            lemma_bare_verb("REHASH"@);
        },
        CommandModel::Die => {
            lemma_bare_verb("DIE"@);
        },
        CommandModel::Restart => {
            lemma_bare_verb("RESTART"@);
        },
        CommandModel::Summon { user, target, channel } => {
            match (target, channel) {
                (None, None) => {
                    lemma_with_args("SUMMON"@, seq![user]);
                },
                (None, Some(ch)) => {},
                (Some(t), None) => {
                    lemma_with_args("SUMMON"@, seq![user, t]);
                },
                (Some(t), Some(ch)) => {
                    let cht = Channel::text_of(ch);
                    Channel::lemma_canonical(ch);
                    lemma_with_args("SUMMON"@, seq![user, t, cht]);
                },
            }
        },
        CommandModel::Users { target: None } => {
            lemma_bare_verb("USERS"@);
        },
        CommandModel::Users { target: Some(t) } => {
            lemma_with_args("USERS"@, seq![t]);
        },
        CommandModel::WallOps { message } => {
            lemma_with_args("WALLOPS"@, seq![message]);
        },
        CommandModel::UserHost { nicknames } => {
            lemma_userhost_form("USERHOST"@, nicknames);
            assert(command_g(command_text(m)) == Some(m));
        },
        CommandModel::IsOn { nicknames } => {
            lemma_userhost_form("ISON"@, nicknames);
            assert(command_g(command_text(m)) == Some(m));
        },
        _ => {},
    }
}

/// The space-joined nickname-list form shared by USERHOST and ISON.
proof fn lemma_userhost_form(verb: Seq<char>, nicknames: Seq<Seq<char>>)
    requires
        verb.len() >= 1,
        !seq_contains(verb, ' '),
        KeywordList::<Nickname>::model_wf(nicknames),
        1 <= nicknames.len() <= 15,
        forall|i: int|
            0 <= i < nicknames.len() ==> middle_ok(#[trigger] klist_texts::<Nickname>(nicknames)[i]),
    ensures
        verb_of(verb + seq![' '] + spec_join(klist_texts::<Nickname>(nicknames), ' ')) == verb,
        args_of(verb + seq![' '] + spec_join(klist_texts::<Nickname>(nicknames), ' '))
            == klist_texts::<Nickname>(nicknames),
        KeywordList::<Nickname>::accepts(
            spec_join(klist_texts::<Nickname>(nicknames), ','),
        ),
        KeywordList::<Nickname>::value_of(spec_join(klist_texts::<Nickname>(nicknames), ','))
            == nicknames,
{
    let ts = klist_texts::<Nickname>(nicknames);
    crate::params::lemma_all_middle_render(ts);
    lemma_with_args(verb, ts);
    assert(wa(verb, ts) =~= verb + seq![' '] + spec_join(ts, ' '));
    KeywordList::<Nickname>::lemma_canonical(nicknames);
}

/// Every well-formed command parses back from its canonical text: render
/// then parse is the identity on the command vocabulary.
pub proof fn lemma_command_roundtrip(m: CommandModel)
    requires
        command_wf(m),
    ensures
        command_of(command_text(m)) == Some(m),
{
    match m {
        CommandModel::Pass { .. } => lemma_canonical_a(m),
        CommandModel::Nick { .. } => lemma_canonical_a(m),
        CommandModel::User { .. } => lemma_canonical_a(m),
        CommandModel::Oper { .. } => lemma_canonical_a(m),
        CommandModel::UserMode { .. } => lemma_canonical_a(m),
        CommandModel::ChannelMode { .. } => lemma_canonical_a(m),
        CommandModel::Service { .. } => lemma_canonical_a(m),
        CommandModel::Quit { .. } => lemma_canonical_b(m),
        CommandModel::SQuit { .. } => lemma_canonical_b(m),
        CommandModel::Join { .. } => lemma_canonical_b(m),
        CommandModel::Part { .. } => lemma_canonical_b(m),
        CommandModel::Topic { .. } => lemma_canonical_b(m),
        CommandModel::Names { .. } => lemma_canonical_c(m),
        CommandModel::List { .. } => lemma_canonical_c(m),
        CommandModel::Invite { .. } => lemma_canonical_c(m),
        CommandModel::Kick { .. } => lemma_canonical_c(m),
        CommandModel::Privmsg { .. } => lemma_canonical_c(m),
        CommandModel::Notice { .. } => lemma_canonical_c(m),
        CommandModel::Motd { .. } => lemma_canonical_d(m),
        CommandModel::LUsers { .. } => lemma_canonical_d(m),
        CommandModel::Version { .. } => lemma_canonical_d(m),
        CommandModel::Stats { .. } => lemma_canonical_d(m),
        CommandModel::Links { .. } => lemma_canonical_d(m),
        CommandModel::Time { .. } => lemma_canonical_d(m),
        CommandModel::Connect { .. } => lemma_canonical_e(m),
        CommandModel::Trace { .. } => lemma_canonical_e(m),
        CommandModel::Admin { .. } => lemma_canonical_e(m),
        CommandModel::Info { .. } => lemma_canonical_e(m),
        CommandModel::ServList { .. } => lemma_canonical_e(m),
        CommandModel::SQuery { .. } => lemma_canonical_e(m),
        CommandModel::Who { .. } => lemma_canonical_f(m),
        CommandModel::WhoIs { .. } => lemma_canonical_f(m),
        CommandModel::WhoWas { .. } => lemma_canonical_f(m),
        CommandModel::Kill { .. } => lemma_canonical_f(m),
        CommandModel::Ping { .. } => lemma_canonical_f(m),
        CommandModel::Pong { .. } => lemma_canonical_f(m),
        CommandModel::Error { .. } => lemma_canonical_g(m),
        CommandModel::Away { .. } => lemma_canonical_g(m),
        CommandModel::Rehash => lemma_canonical_g(m),
        CommandModel::Die => lemma_canonical_g(m),
        CommandModel::Restart => lemma_canonical_g(m),
        CommandModel::Summon { .. } => lemma_canonical_g(m),
        CommandModel::Users { .. } => lemma_canonical_g(m),
        CommandModel::WallOps { .. } => lemma_canonical_g(m),
        CommandModel::UserHost { .. } => lemma_canonical_g(m),
        CommandModel::IsOn { .. } => lemma_canonical_g(m),
    }
}

} // verus!
