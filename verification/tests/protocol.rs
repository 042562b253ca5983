use crikey_irc::auth::AuthToken;
use crikey_irc::command::Command;
use crikey_irc::config::Data;
use crikey_irc::dispatcher::{CommandListener, Dispatch, Dispatcher, ReplyListener};
use crikey_irc::message::{Message, MessageBody};
use crikey_irc::params::MessageParams;
use crikey_irc::reply::ReplyType;
use crikey_irc::sender::Sender;
use crikey_irc::simple;
use crikey_irc::user::{Nickname, Username};

fn roundtrip(raw: &str) -> Message {
    let message = Message::parse(raw).unwrap();
    assert_eq!(raw.to_string(), message.render());
    message
}

#[test]
fn mod_valid() {
    let p = MessageParams::parse("").unwrap();
    assert_eq!(0, p.len());
    let p = MessageParams::parse(":").unwrap();
    assert_eq!(1, p.len());
    assert_eq!("", p.get(0).unwrap());
    let p = MessageParams::parse("abc def").unwrap();
    assert_eq!(2, p.len());
    assert_eq!("abc", p.get(0).unwrap());
    assert_eq!("def", p.get(1).unwrap());
    let p = MessageParams::parse(" a  b  :c  d").unwrap();
    assert_eq!(3, p.len());
    assert_eq!("a", p.get(0).unwrap());
    assert_eq!("b", p.get(1).unwrap());
    assert_eq!("c  d", p.get(2).unwrap());
    let p = MessageParams::parse("a:b :cd").unwrap();
    assert_eq!(2, p.len());
    assert_eq!("a:b", p.get(0).unwrap());
    assert_eq!("cd", p.get(1).unwrap());
    let p = MessageParams::parse("abc :").unwrap();
    assert_eq!(2, p.len());
    assert_eq!("abc", p.get(0).unwrap());
    assert_eq!("", p.get(1).unwrap());
    let p = MessageParams::parse(": a b c").unwrap();
    assert_eq!(1, p.len());
    assert_eq!(" a b c", p.get(0).unwrap());
    let p = MessageParams::parse("1 2 3 4 5 6 7 8 9 10 11 12 13 14 15 16").unwrap();
    assert_eq!(15, p.len());
    assert_eq!("14", p.get(13).unwrap());
    assert_eq!("15 16", p.get(14).unwrap());
    let p = MessageParams::parse("🥔️ :🥔️ 🥔️").unwrap();
    assert_eq!(2, p.len());
    assert_eq!("🥔️", p.get(0).unwrap());
    assert_eq!("🥔️ 🥔️", p.get(1).unwrap());
}

#[test]
fn mod_to_string() {
    let mut p = MessageParams::new();
    p.push("abc".to_string()).unwrap();
    p.push("def".to_string()).unwrap();
    assert_eq!("abc def".to_string(), p.render());

    let mut p = MessageParams::new();
    p.push("abc".to_string()).unwrap();
    p.push("def ghi".to_string()).unwrap();
    assert_eq!("abc :def ghi".to_string(), p.render());
}

#[test]
fn push_validates() {
    let mut p = MessageParams::new();
    for i in 1..=15 {
        p.push(i.to_string()).expect("no error expected below the limit");
    }
    assert!(p.push("16".to_string()).is_err());
    assert_eq!(15, p.len());

    let mut p = MessageParams::new();
    p.push("nospaces".to_string()).unwrap();
    p.push("some spaces".to_string()).unwrap();
    assert!(p.push("more spaces".to_string()).is_err());
    assert!(p.push("nomorespaces".to_string()).is_err());
    assert_eq!(2, p.len());
}

#[test]
fn all_values_in_range() {
    for number in (1..=99).chain(200..=599) {
        let formatted = format!("{:0>3}", number);
        assert_eq!(formatted, ReplyType::parse(&formatted).expect(&formatted).render());
    }
}

#[test]
fn reply_out_of_range() {
    assert!(ReplyType::parse("100").is_err());
    assert!(ReplyType::parse("199").is_err());
    assert!(ReplyType::parse("600").is_err());
    assert!(ReplyType::parse("999").is_err());
    assert!(ReplyType::parse("01").is_err());
    assert!(ReplyType::parse("0011").is_err());
    assert!(ReplyType::parse("+12").is_err());
    assert_eq!(Ok(ReplyType::PrvWelcome), ReplyType::parse("001"));
    assert_eq!(Ok(ReplyType::PrvUnknown(42)), ReplyType::parse("042"));
    assert_eq!(Ok(ReplyType::RplUnknown(240)), ReplyType::parse("240"));
    assert_eq!(Ok(ReplyType::ErrUnknown(599)), ReplyType::parse("599"));
}

#[test]
fn from_raw_welcome() {
    let (reply_type, reply_body) =
        simple::from_raw("001 :Welcome to the Internet Relay Network nick!~username@host")
            .expect("a named reply");
    assert_eq!(simple::ReplyType::RplWelcome, reply_type);
    assert_eq!(":Welcome to the Internet Relay Network nick!~username@host", reply_body);
}

#[test]
fn split_server_name_with_name() {
    let mut command = ":irc.example.net 001 foo :Welcome to the Internet Relay Network".to_string();
    let result = simple::split_server_name(&mut command);
    assert_eq!("001 foo :Welcome to the Internet Relay Network", command);
    assert_eq!(Some("irc.example.net".to_string()), result);
}

#[test]
fn split_server_name_no_name() {
    let mut command = "001 foo :Welcome to the Internet Relay Network".to_string();
    let result = simple::split_server_name(&mut command);
    assert_eq!("001 foo :Welcome to the Internet Relay Network", command);
    assert_eq!(None, result);
}

#[test]
fn split_server_name_missing_colon() {
    let mut command = "irc.example.net 001 foo :Welcome to the Internet Relay Network".to_string();
    let result = simple::split_server_name(&mut command);
    assert_eq!("irc.example.net 001 foo :Welcome to the Internet Relay Network", command);
    assert_eq!(None, result);
}

#[test]
fn split_server_name_server_only() {
    let mut command = ":irc.example.net".to_string();
    let result = simple::split_server_name(&mut command);
    assert_eq!(":irc.example.net", command);
    assert_eq!(None, result);
}

#[test]
fn split_server_name_trailing_space() {
    let mut command = ":irc.example.net ".to_string();
    let result = simple::split_server_name(&mut command);
    assert_eq!("", command);
    assert_eq!(Some("irc.example.net".to_string()), result);
}

struct NoopCommandListener;

impl CommandListener for NoopCommandListener {
    fn on_command(&mut self, _command: &simple::Command) {}
}

struct UnsubscribingListener;

impl ReplyListener for UnsubscribingListener {
    fn on_reply(&mut self, reply_type: &simple::ReplyType, message: &String) -> bool {
        if message == "Message 2" {
            panic!("Test failed: {:?} {:?}", reply_type, message)
        }
        false
    }
}

#[test]
fn reply_listener_unregisters_itself() {
    let mut dispatcher: Dispatcher<NoopCommandListener, UnsubscribingListener> = Dispatcher::new();
    dispatcher.register_reply_listener(UnsubscribingListener);
    dispatcher.handle_reply(simple::ReplyType::RplWelcome, "Message 1".to_string());
    dispatcher.handle_reply(simple::ReplyType::RplYourHost, "Message 2".to_string());
}

#[test]
fn pass_none() {
    let token = AuthToken {
        nickname: Nickname::parse("spudly").unwrap(),
        username: Username::parse("pjohnson").unwrap(),
        mode: 0,
        realname: "Potato Johnson".to_string(),
        password: None,
    };
    assert_eq!(None, token.pass());
}

#[test]
fn pass_some() {
    let token = AuthToken {
        nickname: Nickname::parse("spudly").unwrap(),
        username: Username::parse("pjohnson").unwrap(),
        mode: 0,
        realname: "Potato Johnson".to_string(),
        password: Some("secretpass".to_string()),
    };
    assert_eq!(
        Some(Command::Pass { password: "secretpass".to_string() }),
        token.pass()
    );
}

#[test]
fn nick() {
    let token = AuthToken {
        nickname: Nickname::parse("spudly").unwrap(),
        username: Username::parse("pjohnson").unwrap(),
        mode: 0,
        realname: "Potato Johnson".to_string(),
        password: None,
    };
    assert_eq!("NICK spudly", token.nick().render());
}

#[test]
fn user() {
    let token = AuthToken {
        nickname: Nickname::parse("spudly").unwrap(),
        username: Username::parse("pjohnson").unwrap(),
        mode: 0,
        realname: "Potato Johnson".to_string(),
        password: None,
    };
    assert_eq!("USER pjohnson 0 * :Potato Johnson", token.user().render());
}

#[test]
fn config_options() {
    let mut data = Data::new();
    assert!(data.apply("realname", "Potato Johnson".to_string()));
    assert!(data.apply("nick", "spudly".to_string()));
    assert!(data.apply("server_addr", "127.0.0.1:6667".to_string()));
    assert!(!data.apply("colour", "green".to_string()));
    assert_eq!("Potato Johnson", data.realname);
    assert_eq!("spudly", data.nick);
    assert_eq!("", data.password);
    assert_eq!("127.0.0.1:6667", data.server_addr);
}

#[test]
fn message_invalid() {
    assert!(Message::parse("").is_err());
    assert!(Message::parse("🥔️").is_err());
    assert!(Message::parse(":abc").is_err());
    assert!(Message::parse(":abc ").is_err());
    assert!(Message::parse("00A ").is_err());
    assert!(Message::parse("00A def").is_err());
}

#[test]
fn message_valid() {
    let m = Message::parse(":me 001 :Hi there\r\n").unwrap();
    assert_eq!(Some(Sender::parse("me").unwrap()), m.sender);
    assert_eq!(
        MessageBody::Reply(ReplyType::PrvWelcome, MessageParams::parse(":Hi there").unwrap()),
        m.body
    );
    let m = Message::parse("NICK me\n").unwrap();
    assert_eq!(None, m.sender);
    assert_eq!(
        MessageBody::Command(Command::Nick { nickname: Nickname::parse("me").unwrap() }),
        m.body
    );
}

#[test]
fn message_string() {
    assert_eq!(
        ":me 001 :Hi there".to_string(),
        Message::parse(":me 001 :Hi there").unwrap().render()
    );
    assert_eq!("NICK me".to_string(), Message::parse("NICK me").unwrap().render());
}

#[test]
fn connection_registration_password() {
    roundtrip("PASS secretpasswordhere");
}

#[test]
fn connection_registration_nick() {
    let m = roundtrip("NICK Wiz");
    assert_eq!(
        MessageBody::Command(Command::Nick { nickname: Nickname::parse("Wiz").unwrap() }),
        m.body
    );
    let m = roundtrip(":WiZ!jto@tolsun.oulu.fi NICK Kilroy");
    assert_eq!(Some(Sender::parse("WiZ!jto@tolsun.oulu.fi").unwrap()), m.sender);
}

#[test]
fn connection_registration_user() {
    let m = roundtrip("USER guest 0 * :Ronnie Reagan");
    assert_eq!(
        MessageBody::Command(Command::User {
            username: Username::parse("guest").unwrap(),
            mode: 0,
            realname: "Ronnie Reagan".to_string(),
        }),
        m.body
    );
    roundtrip("USER guest 8 * :Ronnie Reagan");
}

#[test]
fn connection_registration_oper() {
    roundtrip("OPER foo bar");
}

#[test]
fn connection_registration_user_mode() {
    roundtrip("MODE WiZ -w");
    roundtrip("MODE Angel +i");
    roundtrip("MODE WiZ -o");
}

#[test]
fn connection_registration_service() {
    roundtrip("SERVICE dict * *.fr 0 0 :French Dictionary");
}

#[test]
fn connection_registration_quit() {
    roundtrip("QUIT :Gone to have lunch");
    roundtrip(":syrk!kalt@millennium.stealth.net QUIT :Gone to have lunch");
}

#[test]
fn connection_registration_squit() {
    roundtrip("SQUIT tolsun.oulu.fi :Bad Link ?");
    roundtrip(":Trillian SQUIT cm22.eng.umd.edu :Server out of control");
}

#[test]
fn channel_operations_join() {
    roundtrip("JOIN #foobar");
    roundtrip("JOIN &foo fubar");
    roundtrip("JOIN #foo,&bar fubar");
    roundtrip("JOIN #foo,#bar fubar,foobar");
    roundtrip("JOIN #foo,#bar");
    roundtrip("JOIN 0");
    roundtrip(":WiZ!jto@tolsun.oulu.fi JOIN #Twilight_zone");
}

#[test]
fn channel_operations_part() {
    roundtrip("PART #twilight_zone");
    roundtrip("PART #oz-ops,&group5");
    roundtrip(":WiZ!jto@tolsun.oulu.fi PART #playzone :I lost");
}

#[test]
fn channel_operations_channel_mode() {
    roundtrip("MODE #Finnish +imI *!*@*.fi");
    roundtrip("MODE #Finnish +o Kilroy");
    roundtrip("MODE #Finnish +v Wiz");
    roundtrip("MODE #Fins -s");
    roundtrip("MODE #42 +k oulu");
    roundtrip("MODE #42 -k oulu");
    roundtrip("MODE #eu-opers +l 10");
    roundtrip("MODE #eu-opers -l");
    roundtrip("MODE &oulu +b");
    roundtrip("MODE &oulu +b *!*@*");
    roundtrip("MODE &oulu +b *!*@*.edu +e *!*@*.bu.edu");
    roundtrip("MODE #bu +be *!*@*.edu *!*@*.bu.edu");
    roundtrip("MODE #meditation e");
    roundtrip("MODE #meditation I");
    roundtrip("MODE !12345ircd O");
}

#[test]
fn channel_operations_topic() {
    roundtrip(":WiZ!jto@tolsun.oulu.fi TOPIC #test :New topic");
    roundtrip("TOPIC #test :another topic");
    roundtrip("TOPIC #test :");
    roundtrip("TOPIC #test");
}

#[test]
fn channel_operations_names() {
    roundtrip("NAMES #twilight_zone,#42");
    roundtrip("NAMES");
}

#[test]
fn channel_operations_list() {
    roundtrip("LIST");
    roundtrip("LIST #twilight_zone,#42");
}

#[test]
fn channel_operations_invite() {
    roundtrip(":Angel!wings@irc.org INVITE Wiz #Dust");
    roundtrip("INVITE Wiz #Twilight_Zone");
}

#[test]
fn channel_operations_kick() {
    roundtrip("KICK &Melbourne Matthew");
    roundtrip("KICK #Finnish John :Speaking English");
    roundtrip(":WiZ!jto@tolsun.oulu.fi KICK #Finnish John");
}

#[test]
fn sending_messages_privmsg() {
    roundtrip(":Angel!wings@irc.org PRIVMSG Wiz :Are you receiving this message ?");
    roundtrip("PRIVMSG Angel :yes I'm receiving it !");
    roundtrip("PRIVMSG jto@tolsun.oulu.fi :Hello !");
    roundtrip("PRIVMSG kalt%millennium.stealth.net@irc.stealth.net :Are you a frog?");
    roundtrip("PRIVMSG kalt%millennium.stealth.net :Do you like cheese?");
    roundtrip("PRIVMSG Wiz!jto@tolsun.oulu.fi :Hello !");
    roundtrip("PRIVMSG $*.fi :Server tolsun.oulu.fi rebooting.");
    roundtrip("PRIVMSG #*.edu :NSFNet is undergoing work, expect interruptions");
}

#[test]
fn sending_messages_notice() {
    roundtrip(":Angel!wings@irc.org NOTICE Wiz :Are you receiving this message ?");
    roundtrip("NOTICE #*.edu :NSFNet is undergoing work, expect interruptions");
}

#[test]
fn server_queries_and_commands_motd() {
    roundtrip("MOTD");
    roundtrip("MOTD irc.example.com");
}

#[test]
fn server_queries_and_commands_lusers() {
    roundtrip("LUSERS");
    roundtrip(":irc.example.com LUSERS *.com");
    roundtrip("LUSERS *.com irc.example.com");
}

#[test]
fn server_queries_and_commands_version() {
    roundtrip("VERSION");
    roundtrip("VERSION tolsun.oulu.fi");
}

#[test]
fn server_queries_and_commands_stats() {
    roundtrip("STATS");
    roundtrip("STATS m");
    roundtrip("STATS o irc.example.com");
}

#[test]
fn server_queries_and_commands_links() {
    roundtrip("LINKS");
    roundtrip("LINKS *.au");
    roundtrip("LINKS *.edu *.bu.edu");
}

#[test]
fn server_queries_and_commands_time() {
    roundtrip("TIME");
    roundtrip("TIME tolsun.oulu.fi");
}

#[test]
fn server_queries_and_commands_trace() {
    roundtrip("TRACE");
    roundtrip("TRACE *.oulu.fi");
}

#[test]
fn server_queries_and_commands_admin() {
    roundtrip("ADMIN");
    roundtrip("ADMIN tolsun.oulu.fi");
    roundtrip("ADMIN syrk");
}

#[test]
fn server_queries_and_commands_info() {
    roundtrip("INFO");
    roundtrip("INFO csd.bu.edu");
    roundtrip("INFO Angel");
    roundtrip("INFO *.example.com");
}

#[test]
fn server_queries_and_commands_servlist() {
    roundtrip("SERVLIST");
    roundtrip("SERVLIST *dict");
    roundtrip("SERVLIST * bot");
}

#[test]
fn server_queries_and_commands_squery() {
    roundtrip("SQUERY irchelp :HELP privmsg");
    roundtrip("SQUERY dict@irc.fr :fr2en blaireau");
}

#[test]
fn user_based_queries_who() {
    roundtrip("WHO");
    roundtrip("WHO *.fi");
    roundtrip("WHO jto* o");
}

#[test]
fn user_based_queries_whois() {
    roundtrip("WHOIS wiz");
    roundtrip("WHOIS eff.org trillian");
}

#[test]
fn user_based_queries_whowas() {
    roundtrip("WHOWAS Wiz");
    roundtrip("WHOWAS Mermaid 9");
    roundtrip("WHOWAS Trillian 1 *.edu");
}

#[test]
fn miscellaneous_messages_kill() {
    roundtrip("KILL Kenny :It's a trope, okay?");
}

#[test]
fn miscellaneous_messages_ping() {
    let m = roundtrip("PING tolsun.oulu.fi");
    assert_eq!(
        MessageBody::Command(Command::Ping {
            to: Some(Sender::parse("tolsun.oulu.fi").unwrap()),
            from: None,
        }),
        m.body
    );
    roundtrip("PING WiZ tolsun.oulu.fi");
    let m = roundtrip("PING :irc.funet.fi");
    assert_eq!(
        MessageBody::Command(Command::Ping {
            to: None,
            from: Some(Sender::parse("irc.funet.fi").unwrap()),
        }),
        m.body
    );
}

#[test]
fn miscellaneous_messages_pong() {
    roundtrip("PONG irc.example.com");
    roundtrip("PONG csd.bu.edu tolsun.oulu.fi");
}

#[test]
fn miscellaneous_messages_error() {
    roundtrip("ERROR :Server *.fi already exists");
    roundtrip("NOTICE WiZ :ERROR from csd.bu.edu -- Server *.fi already exists");
}

#[test]
fn optional_features_away() {
    roundtrip("AWAY");
    roundtrip("AWAY :Gone to lunch.  Back in 5");
}

#[test]
fn optional_features_rehash() {
    roundtrip("REHASH");
}

#[test]
fn optional_features_die() {
    roundtrip("DIE");
}

#[test]
fn optional_features_restart() {
    roundtrip("RESTART");
}

#[test]
fn optional_features_summon() {
    roundtrip("SUMMON jto");
    roundtrip("SUMMON jto tolsun.oulu.fi");
    roundtrip("SUMMON spudly irc.example.com #potato");
}

#[test]
fn optional_features_users() {
    roundtrip("USERS");
    roundtrip("USERS eff.org");
}

#[test]
fn optional_features_wallops() {
    roundtrip(":csd.bu.edu WALLOPS :Connect '*.uiuc.edu 6667' from Joshua");
}

#[test]
fn optional_features_userhost() {
    roundtrip("USERHOST Wiz Michael syrk");
}

#[test]
fn optional_features_ison() {
    roundtrip("ISON phone trillian WiZ jarlek Avalon Angel Monstah syrk");
}

#[test]
fn invalid() {
    assert!(Sender::parse("").is_err());
    assert!(Sender::parse("nickname!user").is_err());
}

#[test]
fn valid() {
    assert_eq!("nickname", Sender::parse("nickname").unwrap().render());
    assert_eq!("nickname@host.name", Sender::parse("nickname@host.name").unwrap().render());
    assert_eq!(
        "nickname!user@host.name",
        Sender::parse("nickname!user@host.name").unwrap().render()
    );
    assert_eq!("irc.example.com", Sender::parse("irc.example.com").unwrap().render());
}

#[test]
fn ping_message_reply() {
    let m = Message::parse("PING irc.example.com spudly").unwrap();
    if let MessageBody::Command(c) = &m.body {
        let pong = crikey_irc::auth::ping_reply(c, &Nickname::parse("spudly").unwrap()).unwrap();
        assert_eq!("PONG spudly irc.example.com", pong.render());
    } else {
        panic!("expected a command");
    }
}

#[test]
fn to_command_type_pass() {
    assert_eq!(
        simple::CommandType::Pass,
        simple::Command::Pass { password: "mypass".to_string() }.to_command_type(),
    );
}

#[test]
fn to_command_type_nick() {
    assert_eq!(
        simple::CommandType::Nick,
        simple::Command::Nick { nickname: "me".to_string(), hopcount: None }.to_command_type(),
    );
}

#[test]
fn to_command_type_user() {
    assert_eq!(
        simple::CommandType::User,
        simple::Command::User {
            username: "pjohnson".to_string(),
            hostname: "local".to_string(),
            servername: "remote".to_string(),
            realname: "Potato Johnson".to_string(),
        }
        .to_command_type(),
    );
}

#[test]
fn to_command_type_ping() {
    assert_eq!(
        simple::CommandType::Ping,
        simple::Command::Ping { server1: "myserver".to_string(), server2: None }.to_command_type(),
    );
}

#[test]
fn to_command_type_pong() {
    assert_eq!(
        simple::CommandType::Pong,
        simple::Command::Pong { server1: "myclient".to_string(), server2: None }.to_command_type(),
    );
}
