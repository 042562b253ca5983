//! The configuration record: the four options the client recognizes, each
//! a plain string, applied in the order the file lists them.
use crate::text::{range_eq_str, to_chars};
use vstd::prelude::*;

verus! {

/// The recognized options, empty until set.
#[derive(PartialEq, Eq, Debug)]
pub struct Data {
    pub realname: String,
    pub nick: String,
    pub password: String,
    pub server_addr: String,
}

/// Whether two texts are the same string.
fn str_eq(a: &str, b: &str) -> (r: bool)
    ensures
        r == (a@ == b@),
{
    let v = to_chars(a);
    let r = range_eq_str(&v, 0, v.len(), b);
    proof {
        assert(v@.subrange(0, v@.len() as int) =~= v@);
    }
    r
}

impl Data {
    /// All options empty.
    pub fn new() -> (r: Data)
        ensures
            r.realname@ == Seq::<char>::empty(),
            r.nick@ == Seq::<char>::empty(),
            r.password@ == Seq::<char>::empty(),
            r.server_addr@ == Seq::<char>::empty(),
    {
        Data {
            realname: String::new(),
            nick: String::new(),
            password: String::new(),
            server_addr: String::new(),
        }
    }

    /// Set one option by name; an unrecognized name changes nothing and is
    /// reported back.
    pub fn apply(&mut self, option: &str, value: String) -> (recognized: bool)
        ensures
            recognized == (option@ == "realname"@ || option@ == "nick"@ || option@
                == "password"@ || option@ == "server_addr"@),
            final(self).realname == if option@ == "realname"@ {
                value
            } else {
                old(self).realname
            },
            final(self).nick == if option@ == "nick"@ {
                value
            } else {
                old(self).nick
            },
            final(self).password == if option@ == "password"@ {
                value
            } else {
                old(self).password
            },
            final(self).server_addr == if option@ == "server_addr"@ {
                value
            } else {
                old(self).server_addr
            },
    {
        proof {
            reveal_strlit("realname");
            reveal_strlit("nick");
            reveal_strlit("password");
            reveal_strlit("server_addr");
            assert("realname"@.len() == 8);
            assert("nick"@.len() == 4);
            assert("password"@.len() == 8);
            assert("server_addr"@.len() == 11);
            assert("realname"@[0] == 'r');
            assert("password"@[0] == 'p');
        }
        if str_eq(option, "realname") {
            self.realname = value;
            true
        } else if str_eq(option, "nick") {
            self.nick = value;
            true
        } else if str_eq(option, "password") {
            self.password = value;
            true
        } else if str_eq(option, "server_addr") {
            self.server_addr = value;
            true
        } else {
            false
        }
    }
}

} // verus!
