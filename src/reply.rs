use vstd::prelude::*;
use vstd::string::*;

use crate::mask::{parses_as, IrcIdent, IrcIdentRef, UserString, mask_layout};
use crate::server_event::{after_prefix, field, field_at, text_after_prefix};
use crate::lists::Timestamp;
use crate::time::{datetime_tries, first_found, parse_datetime};
use crate::text::{find_first, find_last, first_char_index, last_char_index, split_char, split_on};

verus! {

/// Whether the header of a numeric reply is present: the `:`-prefixed server name.
pub open spec fn header_ok(word: Seq<String>) -> bool {
    field(word, 1).len() >= 1
}

/// The server and target that head every numeric reply.
fn header(word: &Vec<String>) -> (r: Option<(IrcIdent, IrcIdent)>)
    ensures
        r is Some <==> header_ok(word@),
        r matches Some((s, t)) ==> s.0@ == after_prefix(field(word@, 1)) && t.0@ == field(
            word@,
            3,
        ),
{
    match text_after_prefix(field_at(word, 1)) {
        Some(server) => Some((IrcIdent(server), IrcIdent(field_at(word, 3).to_owned()))),
        None => None,
    }
}

/// A user named in a reply: a full user string where the text is one, else the bare text.
pub enum UserResponse {
    /// A full user string.
    Full(UserString),
    /// A bare nick, or other text that is not a full user string.
    Basic(IrcIdent),
}

/// Whether `u` is what the text `s` names: a full user string where `s` parses as one, else
/// `s` itself.
pub open spec fn is_user_response(u: UserResponse, s: Seq<char>) -> bool {
    match u {
        UserResponse::Full(us) => parses_as(us, s),
        UserResponse::Basic(n) => mask_layout(s) is None && n.0@ == s,
    }
}

/// The text of a user named in a reply.
pub open spec fn response_text(u: UserResponse) -> Seq<char> {
    match u {
        UserResponse::Full(us) => us.text(),
        UserResponse::Basic(n) => n.0@,
    }
}

/// Reads a user named in a reply.
pub fn user_response(s: &str) -> (r: UserResponse)
    ensures
        is_user_response(r, s@),
        response_text(r) == s@,
{
    match UserString::new(s.to_owned()) {
        Some(us) => UserResponse::Full(us),
        None => UserResponse::Basic(IrcIdent(s.to_owned())),
    }
}

impl UserResponse {
    /// The text of the user: the whole user string, or the bare text.
    pub fn as_str(&self) -> (r: &str)
        ensures
            r@ == response_text(*self),
    {
        match self {
            UserResponse::Full(us) => us.as_str(),
            UserResponse::Basic(n) => n.0.as_str(),
        }
    }
}

/// The last word of a line: what follows its last space, or the line without its `:` prefix
/// when it holds no space. `None` for an empty line.
pub open spec fn last_word(line: Seq<char>) -> Option<Seq<char>> {
    if line.len() == 0 {
        None
    } else {
        match find_last(line, ' ') {
            Some(i) => Some(line.subrange(i + 1, line.len() as int)),
            None => Some(after_prefix(line)),
        }
    }
}

/// `RPL_WELCOME` (`001`): the server welcomes a user, naming them by their user string.
#[allow(non_camel_case_types)]
pub struct RPL_WELCOME {
    /// The server that sent the reply.
    pub server: IrcIdent,
    /// The target of the reply.
    pub target: IrcIdent,
    /// The user welcomed, as the last word of the welcome text names them.
    pub user: UserResponse,
}

impl RPL_WELCOME {
    /// The numeric code of this reply.
    pub fn id() -> (r: &'static str)
        ensures
            r@ == "001"@,
    {
        "001"
    }

    /// Parses the reply from the host's word arrays. The user is named by the last word of
    /// the welcome text, `word_eol[4]`. Returns `None` when the header or the welcome text is
    /// missing.
    pub fn create(word: &Vec<String>, word_eol: &Vec<String>) -> (r: Option<RPL_WELCOME>)
        ensures
            r is Some <==> (header_ok(word@) && last_word(field(word_eol@, 4)) is Some),
            r matches Some(rpl) ==> rpl.server.0@ == after_prefix(field(word@, 1))
                && rpl.target.0@ == field(word@, 3) && is_user_response(
                rpl.user,
                last_word(field(word_eol@, 4)).unwrap(),
            ) && response_text(rpl.user) == last_word(field(word_eol@, 4)).unwrap(),
    {
        let (server, target) = match header(word) {
            Some(h) => h,
            None => return None,
        };
        let line = field_at(word_eol, 4);
        let n = line.unicode_len();
        if n == 0 {
            return None;
        }
        let token = match last_char_index(line, ' ') {
            Some(i) => {
                proof {
                    crate::text::lemma_find_last_props(line@, ' ');
                }
                line.substring_char(i + 1, n)
            },
            None => line.substring_char(1, n),
        };
        Some(RPL_WELCOME { server, target, user: user_response(token) })
    }

    /// The server that sent the reply.
    pub fn server(&self) -> (r: IrcIdentRef<'_>)
        ensures
            r.0@ == self.server.0@,
    {
        self.server.as_ref()
    }

    /// The target of the reply.
    pub fn target(&self) -> (r: IrcIdentRef<'_>)
        ensures
            r.0@ == self.target.0@,
    {
        self.target.as_ref()
    }

    /// The user welcomed.
    pub fn user(&self) -> (r: &UserResponse)
        ensures
            r == self.user,
    {
        &self.user
    }
}

/// One entry of `RPL_USERHOST`, `nick[*]=±hostname`: the nick, whether the user is an operator
/// (`*`), whether they are away (`-`), and the host name. `None` without `=` or without the
/// character after it.
pub open spec fn userhost_entry(e: Seq<char>) -> Option<(Seq<char>, bool, bool, Seq<char>)> {
    match find_first(e, '=') {
        Some(eq) => if 0 <= eq && eq + 1 < e.len() {
            let head = e.subrange(0, eq);
            let away = e[eq + 1] == '-';
            let host = e.subrange(eq + 2, e.len() as int);
            match find_first(head, '*') {
                Some(star) => Some((head.subrange(0, star), true, away, host)),
                None => Some((head, false, away, host)),
            }
        } else {
            None
        },
        None => None,
    }
}

/// A reply entry of `RPL_USERHOST`.
#[derive(Clone, Debug, PartialEq, Eq)]
pub struct UserReply {
    /// The nick of the user.
    pub nickname: IrcIdent,
    /// Whether the user is an operator.
    pub is_op: bool,
    /// Whether the user is away.
    pub is_away: bool,
    /// The host name of the user.
    pub hostname: String,
}

/// Whether `u` is the reply entry `e` describes.
pub open spec fn is_userhost_entry(u: UserReply, e: Seq<char>) -> bool {
    userhost_entry(e) == Some((u.nickname.0@, u.is_op, u.is_away, u.hostname@))
}

impl UserReply {
    /// Parses one entry of `RPL_USERHOST`.
    pub fn parse(e: &str) -> (r: Option<UserReply>)
        ensures
            r is Some <==> userhost_entry(e@) is Some,
            r matches Some(u) ==> is_userhost_entry(u, e@),
    {
        let eq = match first_char_index(e, '=') {
            Some(eq) => eq,
            None => return None,
        };
        proof {
            crate::text::lemma_find_first_props(e@, '=');
        }
        let n = e.unicode_len();
        if eq + 1 >= n {
            return None;
        }
        let head = e.substring_char(0, eq);
        let is_away = e.get_char(eq + 1) == '-';
        let hostname = e.substring_char(eq + 2, n).to_owned();
        match first_char_index(head, '*') {
            Some(star) => {
                proof {
                    crate::text::lemma_find_first_props(head@, '*');
                }
                let nickname = IrcIdent(head.substring_char(0, star).to_owned());
                Some(UserReply { nickname, is_op: true, is_away, hostname })
            },
            None => Some(UserReply { nickname: IrcIdent(head.to_owned()), is_op: false, is_away, hostname }),
        }
    }

    /// The nick of the user.
    pub fn nickname(&self) -> (r: IrcIdentRef<'_>)
        ensures
            r.0@ == self.nickname.0@,
    {
        self.nickname.as_ref()
    }

    /// Whether the user is an operator.
    pub fn is_op(&self) -> (r: bool)
        ensures
            r == self.is_op,
    {
        self.is_op
    }

    /// Whether the user is away.
    pub fn is_away(&self) -> (r: bool)
        ensures
            r == self.is_away,
    {
        self.is_away
    }

    /// The host name of the user.
    pub fn hostname(&self) -> (r: &str)
        ensures
            r@ == self.hostname@,
    {
        self.hostname.as_str()
    }
}

/// `RPL_USERHOST` (`302`): host information on the users asked for.
#[allow(non_camel_case_types)]
pub struct RPL_USERHOST {
    /// The server that sent the reply.
    pub server: IrcIdent,
    /// The target of the reply.
    pub target: IrcIdent,
    /// One entry per user, in order.
    pub replies: Vec<UserReply>,
}

impl RPL_USERHOST {
    /// The numeric code of this reply.
    pub fn id() -> (r: &'static str)
        ensures
            r@ == "302"@,
    {
        "302"
    }

    /// Parses the reply: the text `word_eol[4]`, without its `:` prefix, is a space-separated
    /// list of entries. Returns `None` when the header or the text is missing or any entry is
    /// malformed.
    pub fn create(word: &Vec<String>, word_eol: &Vec<String>) -> (r: Option<RPL_USERHOST>)
        ensures
            r is Some <==> (header_ok(word@) && field(word_eol@, 4).len() >= 1 && forall|k: int|
                0 <= k < split_on(after_prefix(field(word_eol@, 4)), ' ').len()
                    ==> (userhost_entry(
                    #[trigger] split_on(after_prefix(field(word_eol@, 4)), ' ')[k],
                ) is Some)),
            r matches Some(rpl) ==> {
                let entries = split_on(after_prefix(field(word_eol@, 4)), ' ');
                &&& rpl.server.0@ == after_prefix(field(word@, 1))
                &&& rpl.target.0@ == field(word@, 3)
                &&& rpl.replies@.len() == entries.len()
                &&& forall|k: int|
                    0 <= k < entries.len() ==> is_userhost_entry(
                        #[trigger] rpl.replies@[k],
                        entries[k],
                    )
            },
    {
        let (server, target) = match header(word) {
            Some(h) => h,
            None => return None,
        };
        let text = match text_after_prefix(field_at(word_eol, 4)) {
            Some(t) => t,
            None => return None,
        };
        let pieces = split_char(text.as_str(), ' ');
        let ghost entries = split_on(after_prefix(field(word_eol@, 4)), ' ');
        assert(pieces@.len() == entries.len() && forall|k: int|
            0 <= k < entries.len() ==> #[trigger] pieces@[k]@ == entries[k]) by {
            assert forall|k: int| 0 <= k < entries.len() implies #[trigger] pieces@[k]@
                == entries[k] by {
                assert(pieces@.map_values(|p: String| p@)[k] == pieces@[k]@);
            }
        }
        let mut replies: Vec<UserReply> = Vec::new();
        let mut i: usize = 0;
        while i < pieces.len()
            invariant
                i <= pieces@.len(),
                entries == split_on(after_prefix(field(word_eol@, 4)), ' '),
                pieces@.len() == entries.len(),
                forall|k: int| 0 <= k < entries.len() ==> #[trigger] pieces@[k]@ == entries[k],
                replies@.len() == i,
                forall|k: int| 0 <= k < i ==> is_userhost_entry(#[trigger] replies@[k], entries[k]),
            decreases pieces.len() - i,
        {
            match UserReply::parse(pieces[i].as_str()) {
                Some(u) => {
                    replies.push(u);
                },
                None => {
                    assert(userhost_entry(entries[i as int]) is None);
                    return None;
                },
            }
            i = i + 1;
        }
        assert forall|k: int| 0 <= k < entries.len() implies (userhost_entry(
            #[trigger] entries[k],
        ) is Some) by {
            assert(is_userhost_entry(replies@[k], entries[k]));
        }
        Some(RPL_USERHOST { server, target, replies })
    }

    /// The server that sent the reply.
    pub fn server(&self) -> (r: IrcIdentRef<'_>)
        ensures
            r.0@ == self.server.0@,
    {
        self.server.as_ref()
    }

    /// The target of the reply.
    pub fn target(&self) -> (r: IrcIdentRef<'_>)
        ensures
            r.0@ == self.target.0@,
    {
        self.target.as_ref()
    }

    /// The entries, one per user.
    pub fn replies(&self) -> (r: &[UserReply])
        ensures
            r@ == self.replies@,
    {
        self.replies.as_slice()
    }
}

/// An entry of `RPL_WHOISCHANNELS`, `[@][+]channel`: the channel, and whether the user is an
/// operator (`@`) and has voice (`+`) there.
pub open spec fn channel_entry(e: Seq<char>) -> (Seq<char>, bool, bool) {
    let operator = e.len() > 0 && e[0] == '@';
    let rest = if operator {
        after_prefix(e)
    } else {
        e
    };
    let voice = rest.len() > 0 && rest[0] == '+';
    let channel = if voice {
        after_prefix(rest)
    } else {
        rest
    };
    (channel, operator, voice)
}

/// An entry of `RPL_WHOISCHANNELS`.
pub struct ChannelEntry {
    /// The channel the user is in.
    pub channel: IrcIdent,
    /// Whether the user is an operator there.
    pub operator: bool,
    /// Whether the user has voice there.
    pub voice: bool,
}

impl ChannelEntry {
    /// Parses one entry of `RPL_WHOISCHANNELS`.
    pub fn parse(e: &str) -> (r: ChannelEntry)
        ensures
            channel_entry(e@) == (r.channel.0@, r.operator, r.voice),
    {
        let n = e.unicode_len();
        let operator = n > 0 && e.get_char(0) == '@';
        let rest = if operator {
            e.substring_char(1, n)
        } else {
            e
        };
        let m = rest.unicode_len();
        let voice = m > 0 && rest.get_char(0) == '+';
        let channel = if voice {
            rest.substring_char(1, m)
        } else {
            rest
        };
        ChannelEntry { channel: IrcIdent(channel.to_owned()), operator, voice }
    }

    /// The channel the user is in.
    pub fn channel(&self) -> (r: IrcIdentRef<'_>)
        ensures
            r.0@ == self.channel.0@,
    {
        self.channel.as_ref()
    }

    /// Whether the user is an operator there.
    pub fn operator(&self) -> (r: bool)
        ensures
            r == self.operator,
    {
        self.operator
    }

    /// Whether the user has voice there.
    pub fn voice(&self) -> (r: bool)
        ensures
            r == self.voice,
    {
        self.voice
    }
}

/// `RPL_WHOISCHANNELS` (`319`): the channels a user is in.
#[allow(non_camel_case_types)]
pub struct RPL_WHOISCHANNELS {
    /// The server that sent the reply.
    pub server: IrcIdent,
    /// The target of the reply.
    pub target: IrcIdent,
    /// The nick of the user.
    pub nick: IrcIdent,
    /// The channels, in order.
    pub channels: Vec<ChannelEntry>,
}

impl RPL_WHOISCHANNELS {
    /// The numeric code of this reply.
    pub fn id() -> (r: &'static str)
        ensures
            r@ == "319"@,
    {
        "319"
    }

    /// Parses the reply: the nick is `word[4]`, and `word_eol[5]`, without its `:` prefix, is a
    /// space-separated list of channel entries. Returns `None` when the header or that text is
    /// missing.
    pub fn create(word: &Vec<String>, word_eol: &Vec<String>) -> (r: Option<RPL_WHOISCHANNELS>)
        ensures
            r is Some <==> (header_ok(word@) && field(word_eol@, 5).len() >= 1),
            r matches Some(rpl) ==> {
                let entries = split_on(after_prefix(field(word_eol@, 5)), ' ');
                &&& rpl.server.0@ == after_prefix(field(word@, 1))
                &&& rpl.target.0@ == field(word@, 3)
                &&& rpl.nick.0@ == field(word@, 4)
                &&& rpl.channels@.len() == entries.len()
                &&& forall|k: int|
                    0 <= k < entries.len() ==> channel_entry(entries[k]) == (
                        (#[trigger] rpl.channels@[k]).channel.0@,
                        rpl.channels@[k].operator,
                        rpl.channels@[k].voice,
                    )
            },
    {
        let (server, target) = match header(word) {
            Some(h) => h,
            None => return None,
        };
        let text = match text_after_prefix(field_at(word_eol, 5)) {
            Some(t) => t,
            None => return None,
        };
        let pieces = split_char(text.as_str(), ' ');
        let ghost entries = split_on(after_prefix(field(word_eol@, 5)), ' ');
        assert(pieces@.len() == entries.len() && forall|k: int|
            0 <= k < entries.len() ==> #[trigger] pieces@[k]@ == entries[k]) by {
            assert forall|k: int| 0 <= k < entries.len() implies #[trigger] pieces@[k]@
                == entries[k] by {
                assert(pieces@.map_values(|p: String| p@)[k] == pieces@[k]@);
            }
        }
        let mut channels: Vec<ChannelEntry> = Vec::new();
        let mut i: usize = 0;
        while i < pieces.len()
            invariant
                i <= pieces@.len(),
                pieces@.len() == entries.len(),
                forall|k: int| 0 <= k < entries.len() ==> #[trigger] pieces@[k]@ == entries[k],
                channels@.len() == i,
                forall|k: int|
                    0 <= k < i ==> channel_entry(entries[k]) == (
                        (#[trigger] channels@[k]).channel.0@,
                        channels@[k].operator,
                        channels@[k].voice,
                    ),
            decreases pieces.len() - i,
        {
            channels.push(ChannelEntry::parse(pieces[i].as_str()));
            i = i + 1;
        }
        let nick = IrcIdent(field_at(word, 4).to_owned());
        Some(RPL_WHOISCHANNELS { server, target, nick, channels })
    }

    /// The server that sent the reply.
    pub fn server(&self) -> (r: IrcIdentRef<'_>)
        ensures
            r.0@ == self.server.0@,
    {
        self.server.as_ref()
    }

    /// The target of the reply.
    pub fn target(&self) -> (r: IrcIdentRef<'_>)
        ensures
            r.0@ == self.target.0@,
    {
        self.target.as_ref()
    }

    /// The nick of the user.
    pub fn nick(&self) -> (r: IrcIdentRef<'_>)
        ensures
            r.0@ == self.nick.0@,
    {
        self.nick.as_ref()
    }

    /// The channels, in order.
    pub fn channels(&self) -> (r: &[ChannelEntry])
        ensures
            r@ == self.channels@,
    {
        self.channels.as_slice()
    }
}

/// The visibility of a channel.
#[derive(Copy, Clone, Debug, PartialEq, Eq, Hash, Structural)]
pub enum ChannelVisibility {
    /// A public channel.
    Public,
    /// A secret channel.
    Secret,
    /// A private channel.
    Private,
}


/// Whether `c` marks a channel role in front of a nick.
pub open spec fn is_role_char(c: char) -> bool {
    c == '&' || c == '@' || c == '+'
}

/// How many role characters lead an entry of `RPL_NAMREPLY`: at most two.
pub open spec fn role_len(e: Seq<char>) -> int {
    if e.len() > 0 && is_role_char(e[0]) {
        if e.len() > 1 && is_role_char(e[1]) {
            2
        } else {
            1
        }
    } else {
        0
    }
}

/// A user entry of `RPL_NAMREPLY`.
pub struct NamreplyUser {
    /// The user.
    pub user: UserResponse,
    /// The user's role characters in the channel, if any.
    pub role: Option<String>,
}

/// Whether `u` is what the entry `e` of `RPL_NAMREPLY` describes: up to two leading role
/// characters, then a user string or a bare nick.
pub open spec fn is_namreply_entry(u: NamreplyUser, e: Seq<char>) -> bool {
    let k = role_len(e);
    let rest = e.subrange(k, e.len() as int);
    &&& (k == 0 ==> u.role is None)
    &&& (k > 0 ==> (u.role matches Some(r) && r@ == e.subrange(0, k)))
    &&& is_user_response(u.user, rest)
}

fn role_char(c: char) -> (r: bool)
    ensures
        r == is_role_char(c),
{
    c == '&' || c == '@' || c == '+'
}

impl NamreplyUser {
    /// Parses one user entry of `RPL_NAMREPLY`.
    pub fn parse(e: &str) -> (r: NamreplyUser)
        ensures
            is_namreply_entry(r, e@),
    {
        let n = e.unicode_len();
        let k: usize = if n > 0 && role_char(e.get_char(0)) {
            if n > 1 && role_char(e.get_char(1)) {
                2
            } else {
                1
            }
        } else {
            0
        };
        let role = if k == 0 {
            None
        } else {
            Some(e.substring_char(0, k).to_owned())
        };
        let rest = e.substring_char(k, n);
        let user = user_response(rest);
        NamreplyUser { user, role }
    }

    /// The user.
    pub fn user(&self) -> (r: &UserResponse)
        ensures
            r == self.user,
    {
        &self.user
    }

    /// The user's role characters in the channel (such as `@`, `+` or `&@`), if any.
    pub fn role(&self) -> (r: Option<&str>)
        ensures
            match r {
                Some(m) => self.role matches Some(s) && s@ == m@,
                None => self.role is None,
            },
    {
        match &self.role {
            Some(m) => Some(m.as_str()),
            None => None,
        }
    }
}

/// The visibility that the marker word of `RPL_NAMREPLY` gives.
pub open spec fn visibility_of(marker: Seq<char>) -> ChannelVisibility {
    if marker.len() > 0 && marker[0] == '*' {
        ChannelVisibility::Private
    } else if marker.len() > 0 && marker[0] == '@' {
        ChannelVisibility::Secret
    } else {
        ChannelVisibility::Public
    }
}

/// `RPL_NAMREPLY` (`353`): the users in a channel.
#[allow(non_camel_case_types)]
pub struct RPL_NAMREPLY {
    /// The server that sent the reply.
    pub server: IrcIdent,
    /// The target of the reply.
    pub target: IrcIdent,
    /// The visibility of the channel.
    pub visibility: ChannelVisibility,
    /// The channel, or `None` when the reply is not about one channel.
    pub channel: Option<IrcIdent>,
    /// The users, in order.
    pub users: Vec<NamreplyUser>,
}

impl RPL_NAMREPLY {
    /// The numeric code of this reply.
    pub fn id() -> (r: &'static str)
        ensures
            r@ == "353"@,
    {
        "353"
    }

    /// Parses the reply: `word[4]` marks the visibility, `word[5]` names the channel (`*` for
    /// none), and `word_eol[6]`, without its `:` prefix, is a space-separated list of users.
    /// Returns `None` when the header or that text is missing.
    pub fn create(word: &Vec<String>, word_eol: &Vec<String>) -> (r: Option<RPL_NAMREPLY>)
        ensures
            r is Some <==> (header_ok(word@) && field(word_eol@, 6).len() >= 1),
            r matches Some(rpl) ==> {
                let entries = split_on(after_prefix(field(word_eol@, 6)), ' ');
                &&& rpl.server.0@ == after_prefix(field(word@, 1))
                &&& rpl.target.0@ == field(word@, 3)
                &&& rpl.visibility == visibility_of(field(word@, 4))
                &&& (field(word@, 5) == seq!['*'] ==> rpl.channel is None)
                &&& (field(word@, 5) != seq!['*'] ==> (rpl.channel matches Some(c) && c.0@
                    == field(word@, 5)))
                &&& rpl.users@.len() == entries.len()
                &&& forall|k: int|
                    0 <= k < entries.len() ==> is_namreply_entry(
                        #[trigger] rpl.users@[k],
                        entries[k],
                    )
            },
    {
        let (server, target) = match header(word) {
            Some(h) => h,
            None => return None,
        };
        let text = match text_after_prefix(field_at(word_eol, 6)) {
            Some(t) => t,
            None => return None,
        };
        let marker = field_at(word, 4);
        let m = marker.unicode_len();
        let visibility = if m > 0 && marker.get_char(0) == '*' {
            ChannelVisibility::Private
        } else if m > 0 && marker.get_char(0) == '@' {
            ChannelVisibility::Secret
        } else {
            ChannelVisibility::Public
        };
        let name = field_at(word, 5);
        let channel = if name.unicode_len() == 1 && name.get_char(0) == '*' {
            assert(name@ =~= seq!['*']);
            None
        } else {
            Some(IrcIdent(name.to_owned()))
        };
        let pieces = split_char(text.as_str(), ' ');
        let ghost entries = split_on(after_prefix(field(word_eol@, 6)), ' ');
        assert(pieces@.len() == entries.len() && forall|k: int|
            0 <= k < entries.len() ==> #[trigger] pieces@[k]@ == entries[k]) by {
            assert forall|k: int| 0 <= k < entries.len() implies #[trigger] pieces@[k]@
                == entries[k] by {
                assert(pieces@.map_values(|p: String| p@)[k] == pieces@[k]@);
            }
        }
        let mut users: Vec<NamreplyUser> = Vec::new();
        let mut i: usize = 0;
        while i < pieces.len()
            invariant
                i <= pieces@.len(),
                pieces@.len() == entries.len(),
                forall|k: int| 0 <= k < entries.len() ==> #[trigger] pieces@[k]@ == entries[k],
                users@.len() == i,
                forall|k: int| 0 <= k < i ==> is_namreply_entry(#[trigger] users@[k], entries[k]),
            decreases pieces.len() - i,
        {
            users.push(NamreplyUser::parse(pieces[i].as_str()));
            i = i + 1;
        }
        Some(RPL_NAMREPLY { server, target, visibility, channel, users })
    }

    /// The server that sent the reply.
    pub fn server(&self) -> (r: IrcIdentRef<'_>)
        ensures
            r.0@ == self.server.0@,
    {
        self.server.as_ref()
    }

    /// The target of the reply.
    pub fn target(&self) -> (r: IrcIdentRef<'_>)
        ensures
            r.0@ == self.target.0@,
    {
        self.target.as_ref()
    }

    /// The visibility of the channel.
    pub fn visibility(&self) -> (r: ChannelVisibility)
        ensures
            r == self.visibility,
    {
        self.visibility
    }

    /// The channel, or `None` when the reply is not about one channel.
    pub fn channel(&self) -> (r: Option<IrcIdentRef<'_>>)
        ensures
            match r {
                Some(c) => self.channel matches Some(s) && s.0@ == c.0@,
                None => self.channel is None,
            },
    {
        match &self.channel {
            Some(c) => Some(c.as_ref()),
            None => None,
        }
    }

    /// The users, in order.
    pub fn users(&self) -> (r: &[NamreplyUser])
        ensures
            r@ == self.users@,
    {
        self.users.as_slice()
    }
}

/// `RPL_CREATED` (`003`): when the server was created.
#[allow(non_camel_case_types)]
pub struct RPL_CREATED {
    /// The server that sent the reply.
    pub server: IrcIdent,
    /// The target of the reply.
    pub target: IrcIdent,
    /// The creation date, or the text of it when it could not be read.
    pub date: Result<Timestamp, String>,
}

impl RPL_CREATED {
    /// The numeric code of this reply.
    pub fn id() -> (r: &'static str)
        ensures
            r@ == "003"@,
    {
        "003"
    }

    /// Parses the reply: the date is the text from `word_eol[8]` on, after `This server was
    /// created`. Returns `None` when the header is missing.
    pub fn create(word: &Vec<String>, word_eol: &Vec<String>) -> (r: Option<RPL_CREATED>)
        ensures
            r is Some <==> header_ok(word@),
            r matches Some(rpl) ==> {
                &&& rpl.server.0@ == after_prefix(field(word@, 1))
                &&& rpl.target.0@ == field(word@, 3)
                &&& match first_found(datetime_tries(field(word_eol@, 8))) {
                    Some(t) => rpl.date == Ok::<Timestamp, String>(Timestamp { seconds: t }),
                    None => rpl.date matches Err(e) && e@ == field(word_eol@, 8),
                }
            },
    {
        let (server, target) = match header(word) {
            Some(h) => h,
            None => return None,
        };
        let date = parse_datetime(field_at(word_eol, 8).to_owned());
        Some(RPL_CREATED { server, target, date })
    }

    /// The server that sent the reply.
    pub fn server(&self) -> (r: IrcIdentRef<'_>)
        ensures
            r.0@ == self.server.0@,
    {
        self.server.as_ref()
    }

    /// The target of the reply.
    pub fn target(&self) -> (r: IrcIdentRef<'_>)
        ensures
            r.0@ == self.target.0@,
    {
        self.target.as_ref()
    }

    /// The creation date, or the text of it when it could not be read.
    pub fn date(&self) -> (r: &Result<Timestamp, String>)
        ensures
            r == self.date,
    {
        &self.date
    }
}

/// `RPL_TIME` (`391`): the local time of a server.
#[allow(non_camel_case_types)]
pub struct RPL_TIME {
    /// The server that sent the reply.
    pub server: IrcIdent,
    /// The target of the reply.
    pub target: IrcIdent,
    /// The server whose time it is.
    pub rpl_server: String,
    /// The time, or the text of it when it could not be read.
    pub time: Result<Timestamp, String>,
}

impl RPL_TIME {
    /// The numeric code of this reply.
    pub fn id() -> (r: &'static str)
        ensures
            r@ == "391"@,
    {
        "391"
    }

    /// Parses the reply: the server is `word[4]`, and the time is `word_eol[5]` without its
    /// `:` prefix. Returns `None` when the header or the time is missing.
    pub fn create(word: &Vec<String>, word_eol: &Vec<String>) -> (r: Option<RPL_TIME>)
        ensures
            r is Some <==> (header_ok(word@) && field(word_eol@, 5).len() >= 1),
            r matches Some(rpl) ==> {
                let text = after_prefix(field(word_eol@, 5));
                &&& rpl.server.0@ == after_prefix(field(word@, 1))
                &&& rpl.target.0@ == field(word@, 3)
                &&& rpl.rpl_server@ == field(word@, 4)
                &&& match first_found(datetime_tries(text)) {
                    Some(t) => rpl.time == Ok::<Timestamp, String>(Timestamp { seconds: t }),
                    None => rpl.time matches Err(e) && e@ == text,
                }
            },
    {
        let (server, target) = match header(word) {
            Some(h) => h,
            None => return None,
        };
        let text = match text_after_prefix(field_at(word_eol, 5)) {
            Some(t) => t,
            None => return None,
        };
        let time = parse_datetime(text);
        Some(RPL_TIME { server, target, rpl_server: field_at(word, 4).to_owned(), time })
    }

    /// The server that sent the reply.
    pub fn server(&self) -> (r: IrcIdentRef<'_>)
        ensures
            r.0@ == self.server.0@,
    {
        self.server.as_ref()
    }

    /// The target of the reply.
    pub fn target(&self) -> (r: IrcIdentRef<'_>)
        ensures
            r.0@ == self.target.0@,
    {
        self.target.as_ref()
    }

    /// The server whose time it is.
    pub fn rpl_server(&self) -> (r: &str)
        ensures
            r@ == self.rpl_server@,
    {
        self.rpl_server.as_str()
    }

    /// The time, or the text of it when it could not be read.
    pub fn time(&self) -> (r: &Result<Timestamp, String>)
        ensures
            r == self.time,
    {
        &self.time
    }
}

/// `RPL_AWAY` (`301`): a user is away.
#[allow(non_camel_case_types)]
pub struct RPL_AWAY {
    /// The server that sent the reply.
    pub server: IrcIdent,
    /// The target of the reply.
    pub target: IrcIdent,
    /// The nick of the user.
    pub nick: IrcIdent,
    /// The away message.
    pub message: String,
}

impl RPL_AWAY {
    /// The numeric code of this reply.
    pub fn id() -> (r: &'static str)
        ensures
            r@ == "301"@,
    {
        "301"
    }

    /// Parses the reply: the nick is `word[4]`, and the message is `word_eol[5]` without its
    /// `:` prefix. Returns `None` when the header or the message is missing.
    pub fn create(word: &Vec<String>, word_eol: &Vec<String>) -> (r: Option<RPL_AWAY>)
        ensures
            r is Some <==> (header_ok(word@) && field(word_eol@, 5).len() >= 1),
            r matches Some(rpl) ==> rpl.server.0@ == after_prefix(field(word@, 1))
                && rpl.target.0@ == field(word@, 3) && rpl.nick.0@ == field(word@, 4)
                && rpl.message@ == after_prefix(field(word_eol@, 5)),
    {
        let (server, target) = match header(word) {
            Some(h) => h,
            None => return None,
        };
        let message = match text_after_prefix(field_at(word_eol, 5)) {
            Some(m) => m,
            None => return None,
        };
        Some(RPL_AWAY { server, target, nick: IrcIdent(field_at(word, 4).to_owned()), message })
    }

    /// The server that sent the reply.
    pub fn server(&self) -> (r: IrcIdentRef<'_>)
        ensures
            r.0@ == self.server.0@,
    {
        self.server.as_ref()
    }

    /// The target of the reply.
    pub fn target(&self) -> (r: IrcIdentRef<'_>)
        ensures
            r.0@ == self.target.0@,
    {
        self.target.as_ref()
    }

    /// The nick of the user.
    pub fn nick(&self) -> (r: IrcIdentRef<'_>)
        ensures
            r.0@ == self.nick.0@,
    {
        self.nick.as_ref()
    }

    /// The away message.
    pub fn message(&self) -> (r: &str)
        ensures
            r@ == self.message@,
    {
        self.message.as_str()
    }
}

/// `RPL_ISON` (`303`): which of the nicks asked for are online.
#[allow(non_camel_case_types)]
pub struct RPL_ISON {
    /// The server that sent the reply.
    pub server: IrcIdent,
    /// The target of the reply.
    pub target: IrcIdent,
    /// The nicks online, in order.
    pub nicks: Vec<IrcIdent>,
}

impl RPL_ISON {
    /// The numeric code of this reply.
    pub fn id() -> (r: &'static str)
        ensures
            r@ == "303"@,
    {
        "303"
    }

    /// Parses the reply: `word_eol[4]`, without its `:` prefix, is a space-separated list of
    /// nicks. Returns `None` when the header or that text is missing.
    pub fn create(word: &Vec<String>, word_eol: &Vec<String>) -> (r: Option<RPL_ISON>)
        ensures
            r is Some <==> (header_ok(word@) && field(word_eol@, 4).len() >= 1),
            r matches Some(rpl) ==> rpl.server.0@ == after_prefix(field(word@, 1))
                && rpl.target.0@ == field(word@, 3) && rpl.nicks@.map_values(|n: IrcIdent| n.0@)
                == split_on(after_prefix(field(word_eol@, 4)), ' '),
    {
        let (server, target) = match header(word) {
            Some(h) => h,
            None => return None,
        };
        let text = match text_after_prefix(field_at(word_eol, 4)) {
            Some(t) => t,
            None => return None,
        };
        let pieces = split_char(text.as_str(), ' ');
        let mut nicks: Vec<IrcIdent> = Vec::new();
        let mut i: usize = 0;
        while i < pieces.len()
            invariant
                i <= pieces@.len(),
                nicks@.len() == i,
                forall|k: int| 0 <= k < i ==> (#[trigger] nicks@[k]).0@ == pieces@[k]@,
            decreases pieces.len() - i,
        {
            nicks.push(IrcIdent(pieces[i].clone()));
            i = i + 1;
        }
        assert(nicks@.map_values(|n: IrcIdent| n.0@) =~= pieces@.map_values(|p: String| p@));
        Some(RPL_ISON { server, target, nicks })
    }

    /// The server that sent the reply.
    pub fn server(&self) -> (r: IrcIdentRef<'_>)
        ensures
            r.0@ == self.server.0@,
    {
        self.server.as_ref()
    }

    /// The target of the reply.
    pub fn target(&self) -> (r: IrcIdentRef<'_>)
        ensures
            r.0@ == self.target.0@,
    {
        self.target.as_ref()
    }

    /// The nicks online, in order.
    pub fn nicks(&self) -> (r: &[IrcIdent])
        ensures
            r@ == self.nicks@,
    {
        self.nicks.as_slice()
    }
}

/// The user string that `RPL_WHOISUSER` names: `word[4]!word[5]@word[6]`.
pub open spec fn whois_text(word: Seq<String>) -> Seq<char> {
    field(word, 4) + seq!['!'] + field(word, 5) + seq!['@'] + field(word, 6)
}

/// `RPL_WHOISUSER` (`311`): who a user is.
#[allow(non_camel_case_types)]
pub struct RPL_WHOISUSER {
    /// The server that sent the reply.
    pub server: IrcIdent,
    /// The target of the reply.
    pub target: IrcIdent,
    /// The user, built from their nick, user name and host.
    pub user: UserString,
    /// The real name of the user.
    pub real_name: String,
}

impl RPL_WHOISUSER {
    /// The numeric code of this reply.
    pub fn id() -> (r: &'static str)
        ensures
            r@ == "311"@,
    {
        "311"
    }

    /// Parses the reply: nick, user name and host are `word[4]` to `word[6]`, and the real
    /// name is `word_eol[8]` without its `:` prefix. Returns `None` when the header or the real
    /// name is missing, or the three words do not make a user string.
    pub fn create(word: &Vec<String>, word_eol: &Vec<String>) -> (r: Option<RPL_WHOISUSER>)
        ensures
            r is Some <==> (header_ok(word@) && field(word_eol@, 8).len() >= 1 && mask_layout(
                whois_text(word@),
            ) is Some),
            r matches Some(rpl) ==> {
                &&& rpl.server.0@ == after_prefix(field(word@, 1))
                &&& rpl.target.0@ == field(word@, 3)
                &&& parses_as(rpl.user, whois_text(word@))
                &&& rpl.real_name@ == after_prefix(field(word_eol@, 8))
            },
    {
        let (server, target) = match header(word) {
            Some(h) => h,
            None => return None,
        };
        let real_name = match text_after_prefix(field_at(word_eol, 8)) {
            Some(t) => t,
            None => return None,
        };
        match UserString::from_parts(field_at(word, 4), field_at(word, 5), field_at(word, 6)) {
            Some(user) => Some(RPL_WHOISUSER { server, target, user, real_name }),
            None => None,
        }
    }

    /// The server that sent the reply.
    pub fn server(&self) -> (r: IrcIdentRef<'_>)
        ensures
            r.0@ == self.server.0@,
    {
        self.server.as_ref()
    }

    /// The target of the reply.
    pub fn target(&self) -> (r: IrcIdentRef<'_>)
        ensures
            r.0@ == self.target.0@,
    {
        self.target.as_ref()
    }

    /// The user.
    pub fn user(&self) -> (r: &UserString)
        ensures
            r == self.user,
    {
        &self.user
    }

    /// The real name of the user.
    pub fn real_name(&self) -> (r: &str)
        ensures
            r@ == self.real_name@,
    {
        self.real_name.as_str()
    }
}

/// `RPL_WHOISSERVER` (`312`): the server a user is on.
#[allow(non_camel_case_types)]
pub struct RPL_WHOISSERVER {
    /// The server that sent the reply.
    pub server: IrcIdent,
    /// The target of the reply.
    pub target: IrcIdent,
    /// The nick of the user.
    pub nick: IrcIdent,
    /// The server the user is on.
    pub rpl_server: IrcIdent,
    /// The server's info line.
    pub info: String,
}

impl RPL_WHOISSERVER {
    /// The numeric code of this reply.
    pub fn id() -> (r: &'static str)
        ensures
            r@ == "312"@,
    {
        "312"
    }

    /// Parses the reply: the nick is `word[4]`, the server `word[5]`, and the info line is
    /// `word_eol[6]` without its `:` prefix. Returns `None` when the header or the info line is
    /// missing.
    pub fn create(word: &Vec<String>, word_eol: &Vec<String>) -> (r: Option<RPL_WHOISSERVER>)
        ensures
            r is Some <==> (header_ok(word@) && field(word_eol@, 6).len() >= 1),
            r matches Some(rpl) ==> rpl.server.0@ == after_prefix(field(word@, 1))
                && rpl.target.0@ == field(word@, 3) && rpl.nick.0@ == field(word@, 4)
                && rpl.rpl_server.0@ == field(word@, 5) && rpl.info@ == after_prefix(
                field(word_eol@, 6),
            ),
    {
        let (server, target) = match header(word) {
            Some(h) => h,
            None => return None,
        };
        let info = match text_after_prefix(field_at(word_eol, 6)) {
            Some(t) => t,
            None => return None,
        };
        Some(RPL_WHOISSERVER {
            server,
            target,
            nick: IrcIdent(field_at(word, 4).to_owned()),
            rpl_server: IrcIdent(field_at(word, 5).to_owned()),
            info,
        })
    }

    /// The server that sent the reply.
    pub fn server(&self) -> (r: IrcIdentRef<'_>)
        ensures
            r.0@ == self.server.0@,
    {
        self.server.as_ref()
    }

    /// The target of the reply.
    pub fn target(&self) -> (r: IrcIdentRef<'_>)
        ensures
            r.0@ == self.target.0@,
    {
        self.target.as_ref()
    }

    /// The nick of the user.
    pub fn nick(&self) -> (r: IrcIdentRef<'_>)
        ensures
            r.0@ == self.nick.0@,
    {
        self.nick.as_ref()
    }

    /// The server the user is on.
    pub fn rpl_server(&self) -> (r: IrcIdentRef<'_>)
        ensures
            r.0@ == self.rpl_server.0@,
    {
        self.rpl_server.as_ref()
    }

    /// The server's info line.
    pub fn info(&self) -> (r: &str)
        ensures
            r@ == self.info@,
    {
        self.info.as_str()
    }
}

} // verus!
