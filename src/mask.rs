use vstd::prelude::*;
use vstd::string::*;

use std::cmp::Ordering;

use crate::text::{find_first, find_last, first_char_index, last_char_index};

verus! {

/// The last `.` before the address's last `.`, counted from the start of the address; `None`
/// when the address holds fewer than two dots.
pub open spec fn address_split(addr: Seq<char>) -> Option<int> {
    match find_last(addr, '.') {
        Some(last) => find_last(addr.subrange(0, last), '.'),
        None => None,
    }
}

/// Where the domain starts in an address, counted from the start of the address: at the last
/// `.` before the address's last `.`. An address with fewer than two dots (such as `localhost`,
/// a cloak like `user/nick`, or an IPv6 address) is all host, and its domain is empty.
pub open spec fn domain_start(addr: Seq<char>) -> int {
    match address_split(addr) {
        Some(d) => d,
        None => addr.len() as int,
    }
}

/// The layout of a `nick!user@address` string: the index of the first `!`, the index of the
/// first `@`, and the index where the domain starts (see `domain_start`). `None` when `!` or
/// `@` is missing, the `!` comes after the `@`, the nick or the user is empty, or the address
/// is empty.
pub open spec fn mask_layout(s: Seq<char>) -> Option<(int, int, int)> {
    match (find_first(s, '!'), find_first(s, '@')) {
        (Some(u), Some(a)) => if u > a || u == 0 || a == u + 1 || a == s.len() - 1 {
            None
        } else {
            Some((u, a, a + 1 + domain_start(s.subrange(a + 1, s.len() as int))))
        },
        _ => None,
    }
}

/// The bounds that a layout always meets.
pub proof fn lemma_layout_bounds(s: Seq<char>)
    ensures
        mask_layout(s) matches Some((u, a, d)) ==> 0 < u && u + 1 < a && a + 1 <= d && d
            <= s.len() && a + 1 < s.len(),
{
    crate::text::lemma_find_first_props(s, '!');
    crate::text::lemma_find_first_props(s, '@');
    if let (Some(u), Some(a)) = (find_first(s, '!'), find_first(s, '@')) {
        if !(u > a || u == 0 || a == u + 1 || a == s.len() - 1) {
            let addr = s.subrange(a + 1, s.len() as int);
            crate::text::lemma_find_last_props(addr, '.');
            if let Some(last) = find_last(addr, '.') {
                crate::text::lemma_find_last_props(addr.subrange(0, last), '.');
            }
        }
    }
}

/// Parsing is deterministic in what it exposes: two user strings that both parse from the same
/// text (one built by `from_parts`, one by `new`, say) have the same text and the same parts.
pub proof fn lemma_parse_round_trip(a: UserString, b: UserString, s: Seq<char>)
    requires
        parses_as(a, s),
        parses_as(b, s),
    ensures
        a.text() == b.text(),
        a.nick() == b.nick(),
        a.username() == b.username(),
        a.address() == b.address(),
        a.host() == b.host(),
        a.domain() == b.domain(),
{
}

/// Whether parts join into a user string that splits back into them: a nick that is not empty
/// and holds neither `!` nor `@`, a user name that is not empty and holds no `@`, and an
/// address that is not empty.
pub open spec fn clean_parts(nick: Seq<char>, username: Seq<char>, address: Seq<char>) -> bool {
    &&& nick.len() > 0
    &&& forall|i: int| 0 <= i < nick.len() ==> nick[i] != '!' && nick[i] != '@'
    &&& username.len() > 0
    &&& forall|i: int| 0 <= i < username.len() ==> username[i] != '@'
    &&& address.len() > 0
}

/// The first `c` of `s` is at `i` when `s[i]` is `c` and no earlier character is.
pub proof fn lemma_find_first_at(s: Seq<char>, c: char, i: int)
    requires
        0 <= i < s.len(),
        s[i] == c,
        forall|j: int| 0 <= j < i ==> s[j] != c,
    ensures
        find_first(s, c) == Some(i),
{
    crate::text::lemma_find_first_props(s, c);
}

/// Clean parts join into text whose layout finds them again.
pub proof fn lemma_clean_parts_layout(nick: Seq<char>, username: Seq<char>, address: Seq<char>)
    requires
        clean_parts(nick, username, address),
    ensures
        mask_layout(nick + seq!['!'] + username + seq!['@'] + address) == Some(
            (
                nick.len() as int,
                (nick.len() + 1 + username.len()) as int,
                nick.len() + 1 + username.len() + 1 + domain_start(address),
            ),
        ),
{
    let t = nick + seq!['!'] + username + seq!['@'] + address;
    let u = nick.len() as int;
    let a = (nick.len() + 1 + username.len()) as int;
    assert(t[u] == '!');
    assert forall|j: int| 0 <= j < u implies t[j] != '!' by {
        assert(t[j] == nick[j]);
    }
    lemma_find_first_at(t, '!', u);
    assert(t[a] == '@');
    assert forall|j: int| 0 <= j < a implies t[j] != '@' by {
        if j < u {
            assert(t[j] == nick[j]);
        } else if j > u {
            assert(t[j] == username[j - u - 1]);
        }
    }
    lemma_find_first_at(t, '@', a);
    assert(t.subrange(a + 1, t.len() as int) =~= address);
}

/// Finds where the domain starts in an address.
fn split_address(addr: &str) -> (r: usize)
    ensures
        r == domain_start(addr@),
        r <= addr@.len(),
{
    let n = addr.unicode_len();
    match last_char_index(addr, '.') {
        Some(last) => {
            proof {
                crate::text::lemma_find_last_props(addr@, '.');
            }
            let head = addr.substring_char(0, last);
            match last_char_index(head, '.') {
                Some(d) => {
                    proof {
                        crate::text::lemma_find_last_props(head@, '.');
                    }
                    d
                },
                None => n,
            }
        },
        None => n,
    }
}

/// Finds the layout of a `nick!user@address` string.
fn layout_of(s: &str) -> (r: Option<(usize, usize, usize)>)
    ensures
        match r {
            Some((u, a, d)) => mask_layout(s@) == Some((u as int, a as int, d as int)),
            None => mask_layout(s@) is None,
        },
{
    let u = match first_char_index(s, '!') {
        Some(u) => u,
        None => return None,
    };
    let a = match first_char_index(s, '@') {
        Some(a) => a,
        None => return None,
    };
    proof {
        crate::text::lemma_find_first_props(s@, '@');
    }
    let n = s.unicode_len();
    if u > a || u == 0 || a == u + 1 || a == n - 1 {
        return None;
    }
    let addr = s.substring_char(a + 1, n);
    let d = split_address(addr);
    Some((u, a, a + 1 + d))
}

/// An IRC identifier such as a nick or a channel name, borrowed.
#[derive(Copy, Clone, Debug, PartialEq, Eq, Hash)]
pub struct IrcIdentRef<'a>(pub &'a str);

/// An IRC identifier such as a nick or a channel name.
#[derive(Clone, Debug, PartialEq, Eq, Hash)]
pub struct IrcIdent(pub String);

impl IrcIdent {
    /// Borrows this identifier.
    pub fn as_ref(&self) -> (r: IrcIdentRef<'_>)
        ensures
            r.0@ == self.0@,
    {
        IrcIdentRef(self.0.as_str())
    }
}

/// Whether `us` is what `UserString::new` makes of `s`.
pub open spec fn parses_as(us: UserString, s: Seq<char>) -> bool {
    mask_layout(s) matches Some((u, a, d)) && {
        &&& us.text() == s
        &&& us.nick() == s.subrange(0, u)
        &&& us.username() == s.subrange(u + 1, a)
        &&& us.address() == s.subrange(a + 1, s.len() as int)
        &&& us.host() == s.subrange(a + 1, d)
        &&& us.domain() == s.subrange(d, s.len() as int)
    }
}

/// A user string, `nick!user@address`.
#[derive(Debug, PartialEq, Eq, Hash)]
pub struct UserString {
    mask: String,
    nick_end: usize,
    at: usize,
    split: usize,
}

impl Clone for UserString {
    fn clone(&self) -> (r: UserString)
        ensures
            r.text() == self.text(),
            r.nick() == self.nick(),
            r.username() == self.username(),
            r.host() == self.host(),
            r.domain() == self.domain(),
    {
        proof {
            use_type_invariant(self);
        }
        UserString {
            mask: self.mask.clone(),
            nick_end: self.nick_end,
            at: self.at,
            split: self.split,
        }
    }
}

impl UserString {
    #[verifier::type_invariant]
    closed spec fn inv(&self) -> bool {
        &&& self.nick_end < self.at
        &&& self.at < self.split
        &&& self.split <= self.mask@.len()
        &&& self.at + 1 < self.mask@.len()
    }

    /// The whole user string.
    pub closed spec fn text(&self) -> Seq<char> {
        self.mask@
    }

    /// The nick: what precedes the `!`.
    pub closed spec fn nick(&self) -> Seq<char> {
        self.mask@.subrange(0, self.nick_end as int)
    }

    /// The user name: what lies between the `!` and the `@`.
    pub closed spec fn username(&self) -> Seq<char> {
        self.mask@.subrange(self.nick_end + 1, self.at as int)
    }

    /// The address: what follows the `@`.
    pub closed spec fn address(&self) -> Seq<char> {
        self.mask@.subrange(self.at + 1, self.mask@.len() as int)
    }

    /// The host: the address up to its domain.
    pub closed spec fn host(&self) -> Seq<char> {
        self.mask@.subrange(self.at + 1, self.split as int)
    }

    /// The domain: the end of the address from the dot before its last dot.
    pub closed spec fn domain(&self) -> Seq<char> {
        self.mask@.subrange(self.split as int, self.mask@.len() as int)
    }

    /// Parses a user string of the form `nick!user@address`. Returns `None` when it is not
    /// of that form (see `mask_layout`).
    pub fn new(mask: String) -> (r: Option<UserString>)
        ensures
            r is Some <==> mask_layout(mask@) is Some,
            r matches Some(us) ==> parses_as(us, mask@),
    {
        proof {
            lemma_layout_bounds(mask@);
        }
        match layout_of(mask.as_str()) {
            Some((u, a, d)) => Some(UserString { mask, nick_end: u, at: a, split: d }),
            None => None,
        }
    }

    /// Builds `nick!username@address` from its parts and parses it as `new` does: `None`
    /// exactly where `new` refuses that text. When the nick is not empty and holds neither `!`
    /// nor `@`, the user name is not empty and holds no `@`, and the address is not empty, it
    /// succeeds and the parts come back as given.
    pub fn from_parts(nick: &str, username: &str, address: &str) -> (r: Option<UserString>)
        ensures
            r is Some <==> mask_layout(nick@ + seq!['!'] + username@ + seq!['@'] + address@) is Some,
            r matches Some(us) ==> parses_as(us, nick@ + seq!['!'] + username@ + seq!['@'] + address@),
            clean_parts(nick@, username@, address@) ==> (r matches Some(us) && {
                let d = domain_start(address@);
                &&& us.nick() == nick@
                &&& us.username() == username@
                &&& us.address() == address@
                &&& us.host() == address@.subrange(0, d)
                &&& us.domain() == address@.subrange(d, address@.len() as int)
            }),
    {
        let mut mask = String::from_str(nick);
        mask.append("!");
        mask.append(username);
        mask.append("@");
        mask.append(address);
        proof {
            reveal_strlit("!");
            reveal_strlit("@");
            assert(mask@ =~= nick@ + seq!['!'] + username@ + seq!['@'] + address@);
        }
        let r = UserString::new(mask);
        proof {
            if clean_parts(nick@, username@, address@) {
                lemma_clean_parts_layout(nick@, username@, address@);
                crate::text::lemma_find_last_props(address@, '.');
                if let Some(last) = find_last(address@, '.') {
                    crate::text::lemma_find_last_props(address@.subrange(0, last), '.');
                }
                let t = nick@ + seq!['!'] + username@ + seq!['@'] + address@;
                let u = nick@.len() as int;
                let a = u + 1 + username@.len();
                let d = domain_start(address@);
                assert(t.subrange(0, u) =~= nick@);
                assert(t.subrange(u + 1, a) =~= username@);
                assert(t.subrange(a + 1, t.len() as int) =~= address@);
                assert(t.subrange(a + 1, a + 1 + d) =~= address@.subrange(0, d));
                assert(t.subrange(a + 1 + d, t.len() as int) =~= address@.subrange(
                    d,
                    address@.len() as int,
                ));
            }
        }
        r
    }

    /// The whole user string.
    pub fn as_str(&self) -> (r: &str)
        ensures
            r@ == self.text(),
    {
        self.mask.as_str()
    }

    /// Gives up this value for its text.
    pub fn into_string(self) -> (r: String)
        ensures
            r@ == self.text(),
    {
        self.mask
    }

    /// The nick.
    pub fn get_nick(&self) -> (r: IrcIdentRef<'_>)
        ensures
            r.0@ == self.nick(),
    {
        proof {
            use_type_invariant(self);
        }
        IrcIdentRef(self.mask.as_str().substring_char(0, self.nick_end))
    }

    /// The user name.
    pub fn get_username(&self) -> (r: IrcIdentRef<'_>)
        ensures
            r.0@ == self.username(),
    {
        proof {
            use_type_invariant(self);
        }
        IrcIdentRef(self.mask.as_str().substring_char(self.nick_end + 1, self.at))
    }

    /// The address.
    pub fn get_address(&self) -> (r: &str)
        ensures
            r@ == self.address(),
            r@.len() > 0,
    {
        proof {
            use_type_invariant(self);
        }
        let s = self.mask.as_str();
        s.substring_char(self.at + 1, s.unicode_len())
    }

    /// The host part of the address.
    pub fn get_host(&self) -> (r: &str)
        ensures
            r@ == self.host(),
    {
        proof {
            use_type_invariant(self);
        }
        self.mask.as_str().substring_char(self.at + 1, self.split)
    }

    /// The domain part of the address.
    pub fn get_domain(&self) -> (r: &str)
        ensures
            r@ == self.domain(),
    {
        proof {
            use_type_invariant(self);
        }
        let s = self.mask.as_str();
        s.substring_char(self.split, s.unicode_len())
    }
}

/// A component of a mask as its getter gives it: `None` for the wildcard `*`.
pub open spec fn unless_wildcard(c: Seq<char>) -> Option<Seq<char>> {
    if c == seq!['*'] {
        None
    } else {
        Some(c)
    }
}

/// A user mask, `nick!user@address`, where any component may be the wildcard `*`.
#[derive(Debug, PartialEq, Eq, Hash)]
pub struct UserMask {
    mask: String,
    nick_end: usize,
    at: usize,
    split: usize,
}

impl Clone for UserMask {
    fn clone(&self) -> (r: UserMask)
        ensures
            r.text() == self.text(),
            r.nick() == self.nick(),
            r.username() == self.username(),
            r.host() == self.host(),
            r.domain() == self.domain(),
    {
        proof {
            use_type_invariant(self);
        }
        UserMask {
            mask: self.mask.clone(),
            nick_end: self.nick_end,
            at: self.at,
            split: self.split,
        }
    }
}

impl UserMask {
    #[verifier::type_invariant]
    closed spec fn inv(&self) -> bool {
        &&& self.nick_end < self.at
        &&& self.at < self.split
        &&& self.split <= self.mask@.len()
        &&& self.at + 1 < self.mask@.len()
    }

    /// The whole mask.
    pub closed spec fn text(&self) -> Seq<char> {
        self.mask@
    }

    /// The nick component.
    pub closed spec fn nick(&self) -> Seq<char> {
        self.mask@.subrange(0, self.nick_end as int)
    }

    /// The user name component.
    pub closed spec fn username(&self) -> Seq<char> {
        self.mask@.subrange(self.nick_end + 1, self.at as int)
    }

    /// The host component.
    pub closed spec fn host(&self) -> Seq<char> {
        self.mask@.subrange(self.at + 1, self.split as int)
    }

    /// The domain component.
    pub closed spec fn domain(&self) -> Seq<char> {
        self.mask@.subrange(self.split as int, self.mask@.len() as int)
    }

    /// Parses a user mask of the form `nick!user@address`. Returns `None` when it is not of
    /// that form (see `mask_layout`).
    pub fn new(mask: String) -> (r: Option<UserMask>)
        ensures
            r is Some <==> mask_layout(mask@) is Some,
            r matches Some(um) ==> {
                let (u, a, d) = mask_layout(mask@).unwrap();
                &&& um.text() == mask@
                &&& um.nick() == mask@.subrange(0, u)
                &&& um.username() == mask@.subrange(u + 1, a)
                &&& um.host() == mask@.subrange(a + 1, d)
                &&& um.domain() == mask@.subrange(d, mask@.len() as int)
            },
    {
        proof {
            lemma_layout_bounds(mask@);
        }
        match layout_of(mask.as_str()) {
            Some((u, a, d)) => Some(UserMask { mask, nick_end: u, at: a, split: d }),
            None => None,
        }
    }

    /// The whole mask.
    pub fn as_str(&self) -> (r: &str)
        ensures
            r@ == self.text(),
    {
        self.mask.as_str()
    }

    /// Gives up this value for its text.
    pub fn into_string(self) -> (r: String)
        ensures
            r@ == self.text(),
    {
        self.mask
    }

    fn get_or_wildcard(&self, from: usize, to: usize) -> (r: Option<&str>)
        requires
            from <= to <= self.text().len(),
        ensures
            match r {
                Some(c) => unless_wildcard(self.text().subrange(from as int, to as int)) == Some(
                    c@,
                ),
                None => unless_wildcard(self.text().subrange(from as int, to as int)) is None,
            },
    {
        let c = self.mask.as_str().substring_char(from, to);
        if to - from == 1 && c.get_char(0) == '*' {
            assert(c@ =~= seq!['*']);
            None
        } else {
            assert(c@ != seq!['*']) by {
                if c@ == seq!['*'] {
                    assert(c@.len() == 1 && c@[0] == '*');
                }
            }
            Some(c)
        }
    }

    /// The nick, or `None` for the wildcard.
    pub fn get_nick(&self) -> (r: Option<IrcIdentRef<'_>>)
        ensures
            match r {
                Some(i) => unless_wildcard(self.nick()) == Some(i.0@),
                None => unless_wildcard(self.nick()) is None,
            },
    {
        proof {
            use_type_invariant(self);
        }
        match self.get_or_wildcard(0, self.nick_end) {
            Some(c) => Some(IrcIdentRef(c)),
            None => None,
        }
    }

    /// The user name, or `None` for the wildcard.
    pub fn get_username(&self) -> (r: Option<IrcIdentRef<'_>>)
        ensures
            match r {
                Some(i) => unless_wildcard(self.username()) == Some(i.0@),
                None => unless_wildcard(self.username()) is None,
            },
    {
        proof {
            use_type_invariant(self);
        }
        match self.get_or_wildcard(self.nick_end + 1, self.at) {
            Some(c) => Some(IrcIdentRef(c)),
            None => None,
        }
    }

    /// The host, or `None` for the wildcard.
    pub fn get_host(&self) -> (r: Option<&str>)
        ensures
            match r {
                Some(c) => unless_wildcard(self.host()) == Some(c@),
                None => unless_wildcard(self.host()) is None,
            },
    {
        proof {
            use_type_invariant(self);
        }
        self.get_or_wildcard(self.at + 1, self.split)
    }

    /// The domain, or `None` for the wildcard.
    pub fn get_domain(&self) -> (r: Option<&str>)
        ensures
            match r {
                Some(c) => unless_wildcard(self.domain()) == Some(c@),
                None => unless_wildcard(self.domain()) is None,
            },
    {
        proof {
            use_type_invariant(self);
        }
        let n = self.mask.as_str().unicode_len();
        self.get_or_wildcard(self.split, n)
    }

    /// The mask that matches exactly the given user string.
    pub fn from_user_string(user: UserString) -> (r: UserMask)
        ensures
            r.text() == user.text(),
            r.nick() == user.nick(),
            r.username() == user.username(),
            r.host() == user.host(),
            r.domain() == user.domain(),
    {
        proof {
            use_type_invariant(&user);
        }
        let UserString { mask, nick_end, at, split } = user;
        UserMask { mask, nick_end, at, split }
    }
}

impl UserString {
    /// The user string that a mask without wildcards stands for; `None` when any component of
    /// the mask is the wildcard.
    pub fn from_mask(mask: UserMask) -> (r: Option<UserString>)
        ensures
            r is Some <==> (unless_wildcard(mask.nick()) is Some && unless_wildcard(
                mask.username(),
            ) is Some && unless_wildcard(mask.host()) is Some && unless_wildcard(
                mask.domain(),
            ) is Some),
            r matches Some(us) ==> us.text() == mask.text() && us.nick() == mask.nick()
                && us.username() == mask.username() && us.host() == mask.host() && us.domain()
                == mask.domain(),
    {
        proof {
            use_type_invariant(&mask);
        }
        if mask.get_nick().is_none() || mask.get_username().is_none() || mask.get_host().is_none()
            || mask.get_domain().is_none() {
            return None;
        }
        let UserMask { mask, nick_end, at, split } = mask;
        Some(UserString { mask, nick_end, at, split })
    }
}

/// The order of two user strings from the orders of their parts: by nick, then by user name,
/// then by address, each compared by the rules the caller gives.
pub open spec fn user_order(nick: Ordering, username: Ordering, address: Ordering) -> Ordering {
    if nick != Ordering::Equal {
        nick
    } else if username != Ordering::Equal {
        username
    } else {
        address
    }
}

/// Orders two user strings given how their nicks, user names and addresses compare.
pub fn user_string_order(nick: Ordering, username: Ordering, address: Ordering) -> (r: Ordering)
    ensures
        r == user_order(nick, username, address),
{
    match nick {
        Ordering::Equal => match username {
            Ordering::Equal => address,
            _ => username,
        },
        _ => nick,
    }
}

} // verus!
