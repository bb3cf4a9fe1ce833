use hexchat::mask::{user_string_order, IrcIdent, UserMask, UserString};
use std::cmp::Ordering;

#[test]
fn user_string_splits_its_parts() {
    let us = UserString::new("nick!user@host.example.com".to_string()).unwrap();
    assert_eq!(us.get_nick().0, "nick");
    assert_eq!(us.get_username().0, "user");
    assert_eq!(us.get_address(), "host.example.com");
    assert_eq!(us.get_host(), "host");
    assert_eq!(us.get_domain(), ".example.com");
    assert_eq!(us.as_str(), "nick!user@host.example.com");
    assert_eq!(us.clone().into_string(), "nick!user@host.example.com");
}

#[test]
fn user_string_rejects_malformed_text() {
    assert!(UserString::new("nickuser@host.example.com".to_string()).is_none());
    assert!(UserString::new("nick!userhost.example.com".to_string()).is_none());
    assert!(UserString::new("!user@host.example.com".to_string()).is_none());
    assert!(UserString::new("nick!@host.example.com".to_string()).is_none());
    assert!(UserString::new("nick!user@".to_string()).is_none());
    assert!(UserString::new("nick@user!host.example.com".to_string()).is_none());
    assert!(UserString::new(String::new()).is_none());
}

#[test]
fn user_string_with_numeric_address() {
    let us = UserString::new("n!u@10.0.0.1".to_string()).unwrap();
    assert_eq!(us.get_host(), "10.0");
    assert_eq!(us.get_domain(), ".0.1");
}

#[test]
fn user_string_from_parts() {
    let us = UserString::from_parts("nick", "user", "a.b.c").unwrap();
    assert_eq!(us.as_str(), "nick!user@a.b.c");
    assert_eq!(us.get_nick().0, "nick");
    assert_eq!(us.get_username().0, "user");
    assert_eq!(us.get_address(), "a.b.c");
    assert_eq!(us.get_host(), "a");
    assert_eq!(us.get_domain(), ".b.c");
    let short = UserString::from_parts("nick", "user", "a.b").unwrap();
    assert_eq!(short.get_host(), "a.b");
    assert_eq!(short.get_domain(), "");
    assert!(UserString::from_parts("a", "b", "").is_none());
    assert!(UserString::from_parts("", "b", "host").is_none());
    let parsed = UserString::new("nick!user@a.b.c".to_string()).unwrap();
    assert_eq!(UserString::from_parts("nick", "user", "a.b.c").unwrap(), parsed);
}

#[test]
fn user_mask_reports_wildcards() {
    let m = UserMask::new("*!*@host.example.com".to_string()).unwrap();
    assert!(m.get_nick().is_none());
    assert!(m.get_username().is_none());
    assert_eq!(m.get_host(), Some("host"));
    assert_eq!(m.get_domain(), Some(".example.com"));
    assert_eq!(m.as_str(), "*!*@host.example.com");
    assert!(UserString::from_mask(m).is_none());
}

#[test]
fn user_mask_without_wildcards_is_a_user_string() {
    let m = UserMask::new("nick!user@host.example.com".to_string()).unwrap();
    assert_eq!(m.get_nick().unwrap().0, "nick");
    assert_eq!(m.get_username().unwrap().0, "user");
    let us = UserString::from_mask(m.clone()).unwrap();
    assert_eq!(us.get_host(), "host");
    let back = UserMask::from_user_string(us);
    assert_eq!(back.into_string(), "nick!user@host.example.com");
    assert!(UserMask::new("nick!user".to_string()).is_none());
}

#[test]
fn irc_ident_borrows_its_text() {
    let id = IrcIdent("#rust".to_string());
    assert_eq!(id.as_ref().0, "#rust");
}

#[test]
fn user_string_with_dotless_hosts() {
    let us = UserString::new("nick!user@host".to_string()).unwrap();
    assert_eq!(us.as_str(), "nick!user@host");
    assert_eq!(us.get_nick().0, "nick");
    assert_eq!(us.get_username().0, "user");
    assert_eq!(us.get_address(), "host");
    assert_eq!(us.get_host(), "host");
    assert_eq!(us.get_domain(), "");
    let cloaked = UserString::new("nick!~u@user/nick".to_string()).unwrap();
    assert_eq!(cloaked.get_host(), "user/nick");
    let one_dot = UserString::new("nick!user@host.com".to_string()).unwrap();
    assert_eq!(one_dot.get_host(), "host.com");
    assert_eq!(one_dot.get_domain(), "");
    let v6 = UserString::new("n!u@2001:db8::1".to_string()).unwrap();
    assert_eq!(v6.get_address(), "2001:db8::1");
    let m = UserMask::new("*!*@localhost".to_string()).unwrap();
    assert_eq!(m.get_host(), Some("localhost"));
    assert_eq!(m.get_domain(), Some(""));
}

#[test]
fn unicode_nick() {
    let us = UserString::new("\u{f1}ick!user@host.example.com".to_string()).unwrap();
    assert_eq!(us.get_nick().0, "\u{f1}ick");
    assert_eq!(us.get_host(), "host");
}

#[test]
fn user_strings_order_by_parts() {
    assert_eq!(user_string_order(Ordering::Less, Ordering::Greater, Ordering::Greater), Ordering::Less);
    assert_eq!(user_string_order(Ordering::Equal, Ordering::Greater, Ordering::Less), Ordering::Greater);
    assert_eq!(user_string_order(Ordering::Equal, Ordering::Equal, Ordering::Less), Ordering::Less);
    assert_eq!(user_string_order(Ordering::Equal, Ordering::Equal, Ordering::Equal), Ordering::Equal);
}
