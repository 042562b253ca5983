//! The registration record: what a client sends to introduce itself, and
//! the commands synthesized from it.
use crate::command::{Command, CommandModel};
use crate::sender::Sender;
use crate::user::{Nickname, Username};
use vstd::prelude::*;

verus! {

/// The values a client registers with.
#[derive(PartialEq, Eq, Debug)]
pub struct AuthToken {
    pub nickname: Nickname,
    pub username: Username,
    pub mode: u8,
    pub realname: String,
    pub password: Option<String>,
}

impl AuthToken {
    /// The PASS command, when a password is set.
    pub fn pass(&self) -> (r: Option<Command>)
        ensures
            match &self.password {
                Some(p) => r matches Some(c) && c@ == (CommandModel::Pass { password: p@ }),
                None => r is None,
            },
    {
        match &self.password {
            Some(password) => Some(Command::Pass { password: password.clone() }),
            None => None,
        }
    }

    /// The NICK command.
    pub fn nick(&self) -> (r: Command)
        ensures
            r@ == (CommandModel::Nick { nickname: self.nickname@ }),
    {
        Command::Nick { nickname: self.nickname.duplicate() }
    }

    /// The USER command.
    pub fn user(&self) -> (r: Command)
        ensures
            r@ == (CommandModel::User {
                username: self.username@,
                mode: self.mode,
                realname: self.realname@,
            }),
    {
        Command::User {
            username: self.username.duplicate(),
            mode: self.mode,
            realname: self.realname.clone(),
        }
    }
}

/// The one decision of the reference client's inbound loop: a PING is
/// answered with a PONG carrying our nickname and the ping's origin.
pub fn ping_reply(command: &Command, own: &Nickname) -> (r: Option<Command>)
    ensures
        match command@ {
            CommandModel::Ping { from, to } => r matches Some(c) && c@ == (CommandModel::Pong {
                from: crate::sender::SenderModel::User {
                    nickname: own@,
                    user: None,
                    host: None,
                },
                to: from,
            }),
            _ => r is None,
        },
{
    match command {
        Command::Ping { from, to } => {
            let me = Sender::User { nickname: own.duplicate(), user: None, host: None };
            let back: Option<Sender> = match from {
                Some(f) => Some(f.duplicate()),
                None => None,
            };
            Some(Command::Pong { from: me, to: back })
        },
        _ => None,
    }
}

} // verus!
