use crikey_irc::channel::{Channel, ChannelID, ChannelKey, ChannelName, ChannelType};
use crikey_irc::keyword_list::KeywordList;
use crikey_irc::server::{Hostname, Servername};
use crikey_irc::stats_query::StatsQuery;
use crikey_irc::target_mask::{HostMask, ServerMask, TargetMask};
use crikey_irc::user::{Nickname, Username};

#[test]
fn user_invalid() {
    assert!(Username::parse("").is_err());
    assert!(Username::parse("null\0").is_err());
    assert!(Username::parse("carriage\rreturn").is_err());
    assert!(Username::parse("line\nfeed").is_err());
    assert!(Username::parse(" space").is_err());
    assert!(Username::parse("the@sign").is_err());
    assert!(Nickname::parse("").is_err());
    assert!(Nickname::parse("potat🥔️").is_err());
    assert!(Nickname::parse("2hot4u").is_err());
    assert!(Nickname::parse("-minus").is_err());
    assert!(Nickname::parse("spaced out").is_err());
    assert!(Nickname::parse("new\nline").is_err());
}

#[test]
fn user_valid() {
    assert_eq!("a", Username::parse("a").unwrap().render());
    assert_eq!("potat🥔️", Username::parse("potat🥔️").unwrap().render());
    assert_eq!("a", Nickname::parse("a").unwrap().render());
    assert_eq!("n-name", Nickname::parse("n-name").unwrap().render());
    assert_eq!("I2hot4u", Nickname::parse("I2hot4u").unwrap().render());
    assert_eq!("ABCDEFGHI", Nickname::parse("ABCDEFGHI").unwrap().render());
    assert_eq!("JKLMNOPQR", Nickname::parse("JKLMNOPQR").unwrap().render());
    assert_eq!("STUVWXYZ0", Nickname::parse("STUVWXYZ0").unwrap().render());
    assert_eq!("abcdefghi", Nickname::parse("abcdefghi").unwrap().render());
    assert_eq!("jklmnopqr", Nickname::parse("jklmnopqr").unwrap().render());
    assert_eq!("stuvwxyz1", Nickname::parse("stuvwxyz1").unwrap().render());
    assert_eq!("x23456789", Nickname::parse("x23456789").unwrap().render());
    assert_eq!("[]\\`_^{|}", Nickname::parse("[]\\`_^{|}").unwrap().render());
    assert_eq!(
        "abcdefghijklmnopqrstuvwxyz",
        Nickname::parse("abcdefghijklmnopqrstuvwxyz").unwrap().render()
    );
}

#[test]
fn user_into_string() {
    assert_eq!("a".to_string(), Username::parse("a").unwrap().render());
    assert_eq!("a".to_string(), Nickname::parse("a").unwrap().render());
}

#[test]
fn too_short() {
    assert!(Nickname::parse("").is_err());
}

#[test]
fn not_ascii() {
    assert!(Nickname::parse("potat🥔️").is_err());
}

#[test]
fn nickname_invalid_chars() {
    assert!(Nickname::parse("2hot4u").is_err());
    assert!(Nickname::parse("-minus").is_err());
    assert!(Nickname::parse("spaced out").is_err());
    assert!(Nickname::parse("new\nline").is_err());
}

#[test]
fn nickname_valid() {
    assert_eq!("a", Nickname::parse("a").unwrap().render());
    assert_eq!("n-name", Nickname::parse("n-name").unwrap().render());
    assert_eq!("I2hot4u", Nickname::parse("I2hot4u").unwrap().render());
    assert_eq!("ABCDEFGHI", Nickname::parse("ABCDEFGHI").unwrap().render());
    assert_eq!("[]\\`_^{|}", Nickname::parse("[]\\`_^{|}").unwrap().render());
    assert_eq!(
        "abcdefghijklmnopqrstuvwxyz",
        Nickname::parse("abcdefghijklmnopqrstuvwxyz").unwrap().render()
    );
}

#[test]
fn nickname_into_string() {
    assert_eq!("a".to_string(), Nickname::parse("a").unwrap().render());
}

#[test]
fn server_invalid() {
    assert!(Hostname::parse("abc.d\nf.ghi").is_err());
    assert!(Servername::parse("abc.d🥔️f.ghi").is_err());
    assert!(Hostname::parse("abc.d f.ghi").is_err());
    assert!(Servername::parse("abc.-ef.ghi").is_err());
    assert!(Hostname::parse("abc.de-.ghi").is_err());
    assert!(Servername::parse("").is_err());
    assert!(Hostname::parse("abc..ghi").is_err());
    assert!(Servername::parse(".a").is_err());
    assert!(Hostname::parse("abc.def.ghi.").is_err());
}

#[test]
fn server_valid() {
    assert_eq!("abc.def.ghi", Servername::parse("abc.def.ghi").unwrap().render());
    assert_eq!("abc.def.ghi", Hostname::parse("abc.def.ghi").unwrap().render());
    assert_eq!("abc.d-f.ghi", Hostname::parse("abc.d-f.ghi").unwrap().render());
}

#[test]
fn server_into_string() {
    assert_eq!("abc.def.ghi".to_string(), Hostname::parse("abc.def.ghi").unwrap().render());
    assert_eq!("abc.def.ghi".to_string(), Servername::parse("abc.def.ghi").unwrap().render());
}

#[test]
fn channel_invalid() {
    assert!(Channel::parse("").is_err());
    assert!(Channel::parse("#").is_err());
    assert!(Channel::parse("+").is_err());
    assert!(Channel::parse("&").is_err());
    assert!(Channel::parse("🥔️").is_err());
    assert!(Channel::parse("!ABCDE").is_err());
    assert!(Channel::parse("!ABCD🥔️").is_err());
    assert!(Channel::parse("noprefix").is_err());
    assert!(Channel::parse("#too:many:colons").is_err());
    assert!(Channel::parse("&new\nline").is_err());
    assert!(Channel::parse("+carriage\rreturn").is_err());
    assert!(Channel::parse("!ABCDEnull\0char").is_err());
    assert!(Channel::parse("#ding\x07dong").is_err());
    assert!(Channel::parse("& space").is_err());
    assert!(Channel::parse("+comma,").is_err());
    assert!(Channel::parse("!12345:colon").is_err());
    assert!(Channel::parse("#01234567890123456789012345678901234567890123456789").is_err());
    assert!(ChannelType::parse("").is_err());
    assert!(ChannelType::parse("#a").is_err());
    assert!(ChannelType::parse("*").is_err());
    assert!(ChannelType::parse("🥔️").is_err());
    assert!(ChannelType::parse("#ABCDE").is_err());
    assert!(ChannelType::parse("!ABCD🥔️").is_err());
    assert!(ChannelID::parse("").is_err());
    assert!(ChannelID::parse("1234").is_err());
    assert!(ChannelID::parse("123456").is_err());
    assert!(ChannelID::parse("abcde").is_err());
    assert!(ChannelName::parse("").is_err());
    assert!(ChannelName::parse("new\nline").is_err());
    assert!(ChannelName::parse("carriage\rreturn").is_err());
    assert!(ChannelName::parse("null\0char").is_err());
    assert!(ChannelName::parse("ding\x07dong").is_err());
    assert!(ChannelName::parse(" space").is_err());
    assert!(ChannelName::parse("comma,").is_err());
    assert!(ChannelName::parse("co:on").is_err());
}

#[test]
fn channel_valid() {
    assert_eq!("#mypublic", Channel::parse("#mypublic").unwrap().render());
    assert_eq!("&my_local", Channel::parse("&my_local").unwrap().render());
    assert_eq!(
        "+my-no-mode:*.example.com",
        Channel::parse("+my-no-mode:*.example.com").unwrap().render()
    );
    assert_eq!("!ABC123", Channel::parse("!ABC123").unwrap().render());
    assert_eq!(
        "#0123456789012345678901234567890123456789012345678",
        Channel::parse("#0123456789012345678901234567890123456789012345678").unwrap().render()
    );
    assert_eq!("&🥔️", Channel::parse("&🥔️").unwrap().render());
    assert_eq!("#", ChannelType::parse("#").unwrap().render());
    assert_eq!("&", ChannelType::parse("&").unwrap().render());
    assert_eq!("+", ChannelType::parse("+").unwrap().render());
    assert_eq!("!123YZ", ChannelType::parse("!123YZ").unwrap().render());
    assert_eq!("12345", ChannelID::parse("12345").unwrap().render());
    assert_eq!("ABXYZ", ChannelID::parse("ABXYZ").unwrap().render());
    assert_eq!("mychannel", ChannelName::parse("mychannel").unwrap().render());
    assert_eq!("#", ChannelName::parse("#").unwrap().render());
    assert_eq!("🥔️", ChannelName::parse("🥔️").unwrap().render());
    assert_eq!("\"", ChannelName::parse("\"").unwrap().render());
}

#[test]
fn channel_into_string() {
    assert_eq!("#mychan".to_string(), Channel::parse("#mychan").unwrap().render());
    assert_eq!("&localchan".to_string(), Channel::parse("&localchan").unwrap().render());
    assert_eq!(
        "+nomode:example.com".to_string(),
        Channel::parse("+nomode:example.com").unwrap().render()
    );
    assert_eq!("!12345safemode".to_string(), Channel::parse("!12345safemode").unwrap().render());
    assert_eq!("#".to_string(), ChannelType::parse("#").unwrap().render());
    assert_eq!("!12345".to_string(), ChannelType::parse("!12345").unwrap().render());
    assert_eq!("VWXYZ".to_string(), ChannelID::parse("VWXYZ").unwrap().render());
    assert_eq!("mychan".to_string(), ChannelName::parse("mychan").unwrap().render());
}

#[test]
fn wrong_length() {
    assert!(ChannelKey::parse("").is_err());
    assert!(ChannelKey::parse("abcdefghijklmnopqrstuvwx").is_err());
}

#[test]
fn invalid_characters() {
    assert!(ChannelKey::parse("null\0").is_err());
    assert!(ChannelKey::parse("carriage\rreturn").is_err());
    assert!(ChannelKey::parse("line\nfeed").is_err());
    assert!(ChannelKey::parse(" space").is_err());
    assert!(ChannelKey::parse("tab\t").is_err());
    assert!(ChannelKey::parse("vertical\x0btab").is_err());
    assert!(ChannelKey::parse("acknowledge\x06").is_err());
    assert!(ChannelKey::parse("potat🥔️").is_err());
}

#[test]
fn success() {
    assert_eq!("a", ChannelKey::parse("a").unwrap().render());
    assert_eq!(
        "0123456789abcdeABCDE~!#",
        ChannelKey::parse("0123456789abcdeABCDE~!#").unwrap().render()
    );
}

#[test]
fn key_into_string() {
    assert_eq!("a".to_string(), ChannelKey::parse("a").unwrap().render());
}

#[test]
fn stats_query_invalid() {
    assert!(StatsQuery::parse("").is_err());
    assert!(StatsQuery::parse("ab").is_err());
    assert!(StatsQuery::parse("🥔️").is_err());
    assert!(StatsQuery::parse("\0").is_err());
    assert!(StatsQuery::parse("-").is_err());
}

#[test]
fn stats_query_valid() {
    assert_eq!(Ok(StatsQuery::List), StatsQuery::parse("l"));
    assert_eq!(Ok(StatsQuery::UsageCount), StatsQuery::parse("m"));
    assert_eq!(Ok(StatsQuery::Ops), StatsQuery::parse("o"));
    assert_eq!(Ok(StatsQuery::Uptime), StatsQuery::parse("u"));
    assert_eq!(Ok(StatsQuery::Unknown('a')), StatsQuery::parse("a"));
    assert_eq!(Ok(StatsQuery::Unknown('0')), StatsQuery::parse("0"));
}

#[test]
fn stats_query_to_string() {
    assert_eq!("l".to_string(), StatsQuery::List.render());
    assert_eq!("m".to_string(), StatsQuery::UsageCount.render());
    assert_eq!("o".to_string(), StatsQuery::Ops.render());
    assert_eq!("u".to_string(), StatsQuery::Uptime.render());
    assert_eq!("a".to_string(), StatsQuery::Unknown('a').render());
    assert_eq!("0".to_string(), StatsQuery::Unknown('0').render());
}

#[test]
fn target_mask_invalid_chars() {
    assert!(TargetMask::parse("#abc.d\nf.ghi").is_err());
    assert!(TargetMask::parse("$abc.d🥔️f.ghi").is_err());
    assert!(TargetMask::parse("#abc.d f.ghi").is_err());
    assert!(TargetMask::parse("$abc.-ef.ghi").is_err());
    assert!(TargetMask::parse("#abc.de-.ghi").is_err());
    assert!(TargetMask::parse("$").is_err());
}

#[test]
fn invalid_prefix() {
    assert!(TargetMask::parse("!abc.def.ghi").is_err());
    assert!(TargetMask::parse("abc.def.ghi").is_err());
}

#[test]
fn wildcard_in_last_group() {
    assert!(TargetMask::parse("#abc.def.g*i").is_err());
}

#[test]
fn invalid_dot_placement() {
    assert!(TargetMask::parse("#abcdefghi").is_err());
    assert!(TargetMask::parse("#abc..ghi").is_err());
    assert!(TargetMask::parse("#.a").is_err());
    assert!(TargetMask::parse("#abc.def.ghi.").is_err());
}

#[test]
fn target_mask_valid() {
    assert_eq!("#abc.def.ghi", TargetMask::parse("#abc.def.ghi").unwrap().render());
    assert_eq!("$a-c.d-f.g-i", TargetMask::parse("$a-c.d-f.g-i").unwrap().render());
    assert_eq!("#abc.*.ghi", TargetMask::parse("#abc.*.ghi").unwrap().render());
    assert_eq!("$???.*.ghi", TargetMask::parse("$???.*.ghi").unwrap().render());
}

#[test]
fn ipv4() {
    assert_eq!("#1.2.3.4", TargetMask::parse("#1.2.3.4").unwrap().render());
}

#[test]
fn ipv6() {
    assert!(TargetMask::parse("$::1").is_err());
    assert!(TargetMask::parse("#2001:db8::ff00:42:8329").is_err());
    assert!(TargetMask::parse("$2001:0db8:0000:0000:0000:ff00:0042:8329").is_err());
}

#[test]
fn invalid_server_and_host_mask() {
    assert!(HostMask::parse("#abc.def.ghi").is_err());
    assert!(ServerMask::parse("$a-c.d-f.g-i").is_err());
}

#[test]
fn valid_server_and_host_mask() {
    assert_eq!("abc.def.ghi", ServerMask::parse("abc.def.ghi").unwrap().render());
    assert_eq!("abc.*.ghi", HostMask::parse("abc.*.ghi").unwrap().render());
}

#[test]
fn target_mask_into_string() {
    assert_eq!("$abc.def.ghi".to_string(), TargetMask::parse("$abc.def.ghi").unwrap().render());
    assert_eq!("#abc.def.ghi".to_string(), TargetMask::parse("#abc.def.ghi").unwrap().render());
    assert_eq!("abc.def.ghi".to_string(), HostMask::parse("abc.def.ghi").unwrap().render());
    assert_eq!("abc.def.ghi".to_string(), ServerMask::parse("abc.def.ghi").unwrap().render());
}

#[test]
fn from_string() {
    let list = KeywordList::<Nickname>::parse("abc,d,e").unwrap();
    assert_eq!(3, list.len());
    assert_eq!("abc,d,e", list.render());
    let empty = KeywordList::<Nickname>::parse("").unwrap();
    assert_eq!(0, empty.len());
}

#[test]
fn keyword_list_into_string() {
    let mut list = KeywordList::<Nickname>::new();
    list.push(Nickname::parse("a").unwrap());
    list.push(Nickname::parse("b").unwrap());
    list.push(Nickname::parse("c").unwrap());
    assert_eq!("a,b,c".to_string(), list.render());
    assert_eq!("".to_string(), KeywordList::<Nickname>::new().render());
}

#[test]
fn keyword_list_invalid() {
    assert!(KeywordList::<Nickname>::parse("a,,c").is_err());
}

#[test]
fn single_character_and_length_bounds() {
    assert!(Nickname::parse("a").is_ok());
    assert!(Nickname::parse("abcdefghijklmnopqrstuvwxyz").is_ok());
    assert!(Nickname::parse("[]\\`_^{|}").is_ok());
    assert!(Channel::parse("#a").is_ok());
    assert!(Channel::parse("#").is_err());
    assert!(Channel::parse(&("#".to_string() + &"a".repeat(49))).is_ok());
    assert!(Channel::parse(&("#".to_string() + &"a".repeat(50))).is_err());
    assert!(ChannelID::parse("A1B2C").is_ok());
    assert!(ChannelID::parse("a1b2c").is_err());
    assert!(ChannelID::parse("A1B2").is_err());
}
