//! A registry of listeners for the minimal dialect: command listeners
//! keyed by command type, and reply listeners that may unsubscribe
//! themselves by returning false.
use crate::simple::{Command, CommandType, ReplyType};
use vstd::prelude::*;

verus! {

/// A handler for commands of one type.
pub trait CommandListener {
    fn on_command(&mut self, command: &Command);
}

/// A handler for replies; returning false unsubscribes it.
pub trait ReplyListener {
    fn on_reply(&mut self, reply_type: &ReplyType, message: &String) -> bool;
}

/// What a dispatcher does: registration appends, handling a command keeps
/// the registry's keys, and handling a reply never grows the registry.
pub trait Dispatch<C: CommandListener, R: ReplyListener>: Sized {
    spec fn command_keys(&self) -> Seq<CommandType>;

    spec fn reply_count(&self) -> int;

    fn register_command_listener(&mut self, command_type: CommandType, command_listener: C)
        ensures
            final(self).command_keys() == old(self).command_keys().push(command_type),
    ;

    fn register_reply_listener(&mut self, reply_listener: R)
        ensures
            final(self).reply_count() == old(self).reply_count() + 1,
    ;

    fn handle_command(&mut self, command: Command)
        ensures
            final(self).command_keys() == old(self).command_keys(),
            final(self).reply_count() == old(self).reply_count(),
    ;

    fn handle_reply(&mut self, reply_type: ReplyType, message: String)
        ensures
            final(self).command_keys() == old(self).command_keys(),
            final(self).reply_count() <= old(self).reply_count(),
    ;
}

/// The observer registry: listeners run in registration order; a reply
/// listener that returns false is dropped.
pub struct Dispatcher<C: CommandListener, R: ReplyListener> {
    command_listeners: Vec<(CommandType, C)>,
    reply_listeners: Vec<R>,
}

impl<C: CommandListener, R: ReplyListener> Dispatcher<C, R> {
    /// An empty registry.
    pub fn new() -> (r: Dispatcher<C, R>)
        ensures
            r.command_keys() == Seq::<CommandType>::empty(),
            r.reply_count() == 0,
    {
        let r = Dispatcher { command_listeners: Vec::new(), reply_listeners: Vec::new() };
        proof {
            assert(r.command_keys() =~= Seq::<CommandType>::empty());
        }
        r
    }
}

impl<C: CommandListener, R: ReplyListener> Dispatch<C, R> for Dispatcher<C, R> {
    closed spec fn command_keys(&self) -> Seq<CommandType> {
        self.command_listeners@.map_values(|p: (CommandType, C)| p.0)
    }

    closed spec fn reply_count(&self) -> int {
        self.reply_listeners@.len() as int
    }

    fn register_command_listener(&mut self, command_type: CommandType, command_listener: C) {
        let ghost before = self.command_keys();
        self.command_listeners.push((command_type, command_listener));
        proof {
            assert(self.command_keys() =~= before.push(command_type));
        }
    }

    fn register_reply_listener(&mut self, reply_listener: R) {
        self.reply_listeners.push(reply_listener);
    }

    fn handle_command(&mut self, command: Command) {
        let kind = command.to_command_type();
        let ghost keys = self.command_keys();
        let mut i: usize = 0;
        while i < self.command_listeners.len()
            invariant
                i <= self.command_listeners@.len(),
                self.command_keys() == keys,
                self.reply_listeners@.len() == old(self).reply_listeners@.len(),
            decreases self.command_listeners@.len() - i,
        {
            let ghost before = self.command_keys();
            if self.command_listeners[i].0 == kind {
                let l = &mut self.command_listeners[i].1;
                l.on_command(&command);
            }
            proof {
                assert(self.command_keys() =~= before);
            }
            i = i + 1;
        }
    }

    fn handle_reply(&mut self, reply_type: ReplyType, message: String) {
        let ghost keys = self.command_keys();
        let mut i: usize = 0;
        while i < self.reply_listeners.len()
            invariant
                i <= self.reply_listeners@.len(),
                self.command_keys() == keys,
                self.reply_listeners@.len() <= old(self).reply_listeners@.len(),
            decreases self.reply_listeners@.len() - i,
        {
            let keep = self.reply_listeners[i].on_reply(&reply_type, &message);
            if keep {
                i = i + 1;
            } else {
                let ghost before = self.command_keys();
                let dropped = self.reply_listeners.remove(i);
                proof {
                    assert(self.command_keys() =~= before);
                }
            }
        }
    }
}

} // verus!
