use hexchat::reply::{
    ChannelEntry, ChannelVisibility, NamreplyUser, UserReply, UserResponse, RPL_AWAY, RPL_ISON,
    RPL_NAMREPLY, RPL_USERHOST, RPL_WELCOME, RPL_WHOISCHANNELS, RPL_WHOISSERVER, RPL_WHOISUSER,
};

fn words(line: &str) -> (Vec<String>, Vec<String>) {
    let parts: Vec<&str> = line.split(' ').collect();
    let mut word = vec![String::new()];
    let mut word_eol = vec![String::new()];
    for i in 0..parts.len() {
        word.push(parts[i].to_string());
        word_eol.push(parts[i..].join(" "));
    }
    while word.len() < 32 {
        word.push(String::new());
        word_eol.push(String::new());
    }
    (word, word_eol)
}

#[test]
fn welcome_names_the_user() {
    let (w, e) = words(":server 001 nick :Welcome nick!user@host");
    let rpl = RPL_WELCOME::create(&w, &e).unwrap();
    assert_eq!(rpl.user().as_str(), "nick!user@host");
    match rpl.user() {
        UserResponse::Full(us) => assert_eq!(us.get_address(), "host"),
        UserResponse::Basic(_) => panic!("expected a full user string"),
    }
    assert_eq!(rpl.server().0, "server");
    assert_eq!(rpl.target().0, "nick");
    assert_eq!(RPL_WELCOME::id(), "001");
}

#[test]
fn welcome_in_full() {
    let (w, e) = words(
        ":irc.example.net 001 nick :Welcome to the Internet Relay Network nick!user@host.example.com",
    );
    let rpl = RPL_WELCOME::create(&w, &e).unwrap();
    match rpl.user() {
        UserResponse::Full(us) => {
            assert_eq!(us.get_nick().0, "nick");
            assert_eq!(us.get_host(), "host");
        }
        UserResponse::Basic(_) => panic!("expected a full user string"),
    }
    assert_eq!(rpl.user().as_str(), &w[10]);
}

#[test]
fn welcome_without_text_fails() {
    let (w, e) = words(":server 001 nick");
    assert!(RPL_WELCOME::create(&w, &e).is_none());
}

#[test]
fn userhost_entries() {
    let (w, e) = words(":srv 302 me :alice*=+a@h.example.org bob=-b@h2.example.org");
    let rpl = RPL_USERHOST::create(&w, &e).unwrap();
    let r = rpl.replies();
    assert_eq!(r.len(), 2);
    assert_eq!(r[0].nickname().0, "alice");
    assert!(r[0].is_op());
    assert!(!r[0].is_away());
    assert_eq!(r[0].hostname(), "a@h.example.org");
    assert_eq!(r[1].nickname().0, "bob");
    assert!(!r[1].is_op());
    assert!(r[1].is_away());
    assert_eq!(r[1].hostname(), "b@h2.example.org");
    let (w, e) = words(":srv 302 me :alice");
    assert!(RPL_USERHOST::create(&w, &e).is_none());
    assert!(UserReply::parse("x=").is_none());
}

#[test]
fn whois_channels_entries() {
    let (w, e) = words(":srv 319 me nick :@#ops +#talk #plain");
    let rpl = RPL_WHOISCHANNELS::create(&w, &e).unwrap();
    assert_eq!(rpl.nick().0, "nick");
    let c = rpl.channels();
    assert_eq!(c.len(), 3);
    assert_eq!(c[0].channel().0, "#ops");
    assert!(c[0].operator() && !c[0].voice());
    assert_eq!(c[1].channel().0, "#talk");
    assert!(!c[1].operator() && c[1].voice());
    assert_eq!(c[2].channel().0, "#plain");
    let both = ChannelEntry::parse("@+#x");
    assert!(both.operator() && both.voice());
    assert_eq!(both.channel().0, "#x");
}

#[test]
fn namreply_users_and_roles() {
    let (w, e) = words(":srv 353 me @ #rust :@alice +bob carol &@dave");
    let rpl = RPL_NAMREPLY::create(&w, &e).unwrap();
    assert_eq!(rpl.visibility(), ChannelVisibility::Secret);
    assert_eq!(rpl.channel().unwrap().0, "#rust");
    let u = rpl.users();
    assert_eq!(u.len(), 4);
    assert_eq!(u[0].role(), Some("@"));
    assert_eq!(u[0].user().as_str(), "alice");
    assert_eq!(u[1].role(), Some("+"));
    assert_eq!(u[2].role(), None);
    assert_eq!(u[2].user().as_str(), "carol");
    assert_eq!(u[3].role(), Some("&@"));
    assert_eq!(u[3].user().as_str(), "dave");
    let (w, e) = words(":srv 353 me * * :x");
    let rpl = RPL_NAMREPLY::create(&w, &e).unwrap();
    assert_eq!(rpl.visibility(), ChannelVisibility::Private);
    assert!(rpl.channel().is_none());
    let full = NamreplyUser::parse("@n!u@h.example.com");
    assert!(matches!(full.user(), UserResponse::Full(_)));
}

#[test]
fn away_reply() {
    let (w, e) = words(":srv 301 me bob :out for lunch");
    let rpl = RPL_AWAY::create(&w, &e).unwrap();
    assert_eq!(rpl.nick().0, "bob");
    assert_eq!(rpl.message(), "out for lunch");
    assert_eq!(RPL_AWAY::id(), "301");
    let (w, e) = words(":srv 301 me bob");
    assert!(RPL_AWAY::create(&w, &e).is_none());
}

#[test]
fn ison_reply() {
    let (w, e) = words(":srv 303 me :alice bob");
    let rpl = RPL_ISON::create(&w, &e).unwrap();
    let nicks: Vec<&str> = rpl.nicks().iter().map(|n| n.0.as_str()).collect();
    assert_eq!(nicks, vec!["alice", "bob"]);
    assert_eq!(rpl.server().0, "srv");
}

#[test]
fn whois_user_reply() {
    let (w, e) = words(":srv 311 me bob bobby host.example.org * :Bob Smith");
    let rpl = RPL_WHOISUSER::create(&w, &e).unwrap();
    assert_eq!(rpl.user().as_str(), "bob!bobby@host.example.org");
    assert_eq!(rpl.user().get_host(), "host");
    assert_eq!(rpl.real_name(), "Bob Smith");
    let (w, e) = words(":srv 311 me bob bobby localhost * :Bob");
    assert_eq!(RPL_WHOISUSER::create(&w, &e).unwrap().user().get_host(), "localhost");
    let (w, e) = words(":srv 311 me bob bobby localhost");
    assert!(RPL_WHOISUSER::create(&w, &e).is_none());
}

#[test]
fn whois_server_reply() {
    let (w, e) = words(":srv 312 me bob irc.example.net :Example server");
    let rpl = RPL_WHOISSERVER::create(&w, &e).unwrap();
    assert_eq!(rpl.nick().0, "bob");
    assert_eq!(rpl.rpl_server().0, "irc.example.net");
    assert_eq!(rpl.info(), "Example server");
    assert_eq!(rpl.target().0, "me");
}
