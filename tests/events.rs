use hexchat::chan::ChannelRef;
use hexchat::server_event::{PrivmsgTarget, INVITE, JOIN, KICK, NOTICE, PART, PRIVMSG, QUIT, TOPIC, WALLOPS};

fn words(line: &str) -> (Vec<String>, Vec<String>) {
    let parts: Vec<&str> = line.split(' ').collect();
    let mut word = vec![String::new()];
    let mut word_eol = vec![String::new()];
    for i in 0..parts.len() {
        word.push(parts[i].to_string());
        word_eol.push(parts[i..].join(" "));
    }
    while word.len() < 32 {
        word.push(String::new());
        word_eol.push(String::new());
    }
    (word, word_eol)
}

fn lookup(name: &str) -> Option<ChannelRef> {
    if name == "#gone" {
        None
    } else {
        Some(ChannelRef { handle: name.len() as u64 })
    }
}

#[test]
fn privmsg_to_a_channel() {
    let (w, e) = words(":nick!user@host.example.com PRIVMSG #rust :hello there");
    let p = PRIVMSG::create(&w, &e, &lookup).unwrap();
    assert_eq!(p.get_user().as_str(), "nick!user@host.example.com");
    assert_eq!(p.get_message(), "hello there");
    match p.get_target() {
        PrivmsgTarget::Channel { channel_name, channel } => {
            assert_eq!(channel_name.0, "#rust");
            assert_eq!(*channel, ChannelRef { handle: 5 });
        }
        _ => panic!("expected a channel target"),
    }
    assert_eq!(PRIVMSG::name(), "PRIVMSG");
}

#[test]
fn privmsg_targets() {
    let (w, e) = words(":nick!user@host.example.com PRIVMSG other :hi");
    assert!(matches!(PRIVMSG::create(&w, &e, &lookup).unwrap().target, PrivmsgTarget::User(ref n) if n.0 == "other"));
    let (w, e) = words(":nick!user@host.example.com PRIVMSG $*.org :hi");
    assert!(matches!(PRIVMSG::create(&w, &e, &lookup).unwrap().target, PrivmsgTarget::ServerMask(ref n) if n.0 == "*.org"));
    let (w, e) = words(":nick!user@host.example.com PRIVMSG #*.org :hi");
    assert!(matches!(PRIVMSG::create(&w, &e, &lookup).unwrap().target, PrivmsgTarget::HostMask(ref n) if n.0 == "*.org"));
    let (w, e) = words(":nick!user@host.example.com PRIVMSG #gone :hi");
    assert!(PRIVMSG::create(&w, &e, &lookup).is_none());
    let (w, e) = words(":nick!user@host PRIVMSG other :hi");
    assert_eq!(PRIVMSG::create(&w, &e, &lookup).unwrap().get_user().get_address(), "host");
    let (w, e) = words(":bad PRIVMSG #rust :hi");
    assert!(PRIVMSG::create(&w, &e, &lookup).is_none());
}

#[test]
fn notice_reads_like_privmsg() {
    let (w, e) = words(":nick!user@host.example.com NOTICE other :note");
    let n = NOTICE::create(&w, &e, &lookup).unwrap();
    assert_eq!(n.get_message(), "note");
    assert_eq!(n.get_user().get_nick().0, "nick");
    assert!(matches!(n.get_target(), PrivmsgTarget::User(_)));
}

#[test]
fn join_reads_the_channel() {
    let (w, e) = words(":nick!user@host.example.com JOIN :#rust");
    let j = JOIN::create(&w, &e, &lookup).unwrap();
    assert_eq!(j.get_channel_name().0, "#rust");
    assert_eq!(*j.get_channel(), ChannelRef { handle: 5 });
    assert_eq!(j.get_user().get_username().0, "user");
    let (w, e) = words(":nick!user@host.example.com JOIN :#gone");
    assert!(JOIN::create(&w, &e, &lookup).is_none());
}

#[test]
fn quit_with_and_without_message() {
    let (w, e) = words(":nick!user@host.example.com QUIT :gone fishing");
    let q = QUIT::create(&w, &e).unwrap();
    assert_eq!(q.get_message(), Some("gone fishing"));
    assert_eq!(q.get_user().get_nick().0, "nick");
    let (w, e) = words(":nick!user@host.example.com QUIT");
    assert_eq!(QUIT::create(&w, &e).unwrap().get_message(), None);
    let (w, e) = words(":nick!user@host.example.com QUIT :");
    assert_eq!(QUIT::create(&w, &e).unwrap().get_message(), None);
}

#[test]
fn part_splits_channels() {
    let (w, e) = words(":nick!user@host.example.com PART #a,#bb :see you");
    let p = PART::create(&w, &e, &lookup).unwrap();
    let names: Vec<&str> = p.get_channel_names().iter().map(|n| n.0.as_str()).collect();
    assert_eq!(names, vec!["#a", "#bb"]);
    assert_eq!(p.get_channels(), &[ChannelRef { handle: 2 }, ChannelRef { handle: 3 }]);
    assert_eq!(p.get_message(), Some("see you"));
    assert_eq!(p.get_user().get_nick().0, "nick");
    let (w, e) = words(":nick!user@host.example.com PART #a,#gone");
    assert!(PART::create(&w, &e, &lookup).is_none());
}

#[test]
fn topic_change() {
    let (w, e) = words(":nick!user@host.example.com TOPIC #rust :new topic");
    let t = TOPIC::create(&w, &e, &lookup).unwrap();
    assert_eq!(t.get_channel_name().0, "#rust");
    assert_eq!(t.get_message(), Some("new topic"));
    assert_eq!(*t.get_channel(), ChannelRef { handle: 5 });
    assert_eq!(t.get_user().get_nick().0, "nick");
    let (w, e) = words(":nick!user@host.example.com TOPIC #rust :");
    assert_eq!(TOPIC::create(&w, &e, &lookup).unwrap().get_message(), None);
}

#[test]
fn invite_names_recipient_and_channel() {
    let (w, e) = words(":nick!user@host.example.com INVITE friend #rust");
    let i = INVITE::create(&w, &e, &lookup).unwrap();
    assert_eq!(i.get_recipient().0, "friend");
    assert_eq!(i.get_channel_name().0, "#rust");
    assert_eq!(*i.get_channel(), ChannelRef { handle: 5 });
    assert_eq!(i.get_sender().get_nick().0, "nick");
}

#[test]
fn kick_with_comment() {
    let (w, e) = words(":op!o@host.example.com KICK #rust victim :behave");
    let k = KICK::create(&w, &e, &lookup).unwrap();
    assert_eq!(k.get_kicked().0, "victim");
    assert_eq!(k.get_channel_name().0, "#rust");
    assert_eq!(k.get_comment(), Some("behave"));
    assert_eq!(*k.get_channel(), ChannelRef { handle: 5 });
    assert_eq!(k.get_sender().get_nick().0, "op");
}

#[test]
fn wallops_message() {
    let (w, e) = words(":irc.example.com WALLOPS :maintenance soon");
    let wo = WALLOPS::create(&w, &e).unwrap();
    assert_eq!(wo.get_server_name().0, "irc.example.com");
    assert_eq!(wo.get_message(), "maintenance soon");
    assert!(WALLOPS::create(&vec![String::new()], &vec![]).is_none());
}
