use vstd::prelude::*;
use vstd::string::*;

use crate::chan::ChannelRef;
use crate::mask::{parses_as, IrcIdent, IrcIdentRef, UserString, mask_layout};
use crate::text::{find_first, first_char_index, split_char, split_on};

verus! {

/// `s` without its first character, the `:` that prefixes a field.
pub open spec fn after_prefix(s: Seq<char>) -> Seq<char> {
    s.subrange(1, s.len() as int)
}

/// An optional trailing text field: absent when the field holds at most its `:` prefix.
pub open spec fn optional_text(s: Seq<char>) -> Option<Seq<char>> {
    if s.len() <= 1 {
        None
    } else {
        Some(after_prefix(s))
    }
}

/// Whether `resolve` may return `r` for a channel named `name`.
pub open spec fn resolves_to<F: Fn(&str) -> Option<ChannelRef>>(
    resolve: F,
    name: Seq<char>,
    r: Option<ChannelRef>,
) -> bool {
    exists|n: &str| n@ == name && call_ensures(resolve, (n,), r)
}

/// Whether the sender field `word[1]`, `:nick!user@address`, is present and well formed.
pub open spec fn sender_ok(word: Seq<String>) -> bool {
    &&& word.len() > 1
    &&& word[1]@.len() >= 1
    &&& mask_layout(after_prefix(word[1]@)) is Some
}

/// The field without its `:` prefix; `None` for an empty field.
pub(crate) fn text_after_prefix(s: &str) -> (r: Option<String>)
    ensures
        match r {
            Some(t) => s@.len() >= 1 && t@ == after_prefix(s@),
            None => s@.len() == 0,
        },
{
    let n = s.unicode_len();
    if n == 0 {
        None
    } else {
        Some(s.substring_char(1, n).to_owned())
    }
}

fn optional_field(s: &str) -> (r: Option<String>)
    ensures
        match r {
            Some(t) => optional_text(s@) == Some(t@),
            None => optional_text(s@) is None,
        },
{
    let n = s.unicode_len();
    if n <= 1 {
        None
    } else {
        Some(s.substring_char(1, n).to_owned())
    }
}

fn sender_of(word: &Vec<String>) -> (r: Option<UserString>)
    ensures
        r is Some <==> sender_ok(word@),
        r matches Some(u) ==> parses_as(u, after_prefix(word@[1]@)),
{
    if word.len() <= 1 {
        return None;
    }
    match text_after_prefix(word[1].as_str()) {
        Some(t) => UserString::new(t),
        None => None,
    }
}

fn resolve_channel<F: Fn(&str) -> Option<ChannelRef>>(resolve: &F, name: &str) -> (r: Option<
    ChannelRef,
>)
    requires
        forall|n: &str| call_requires(*resolve, (n,)),
    ensures
        resolves_to(*resolve, name@, r),
{
    let r = resolve(name);
    assert(call_ensures(*resolve, (name,), r));
    r
}

/// Word `k` of a raw word array; a word past the end reads as empty.
pub open spec fn field(words: Seq<String>, k: int) -> Seq<char> {
    if 0 <= k < words.len() {
        words[k]@
    } else {
        Seq::<char>::empty()
    }
}

/// Word `k` of a raw word array, as `field` reads it.
pub(crate) fn field_at(words: &Vec<String>, k: usize) -> (r: &str)
    ensures
        r@ == field(words@, k as int),
{
    if k < words.len() {
        words[k].as_str()
    } else {
        proof {
            reveal_strlit("");
        }
        ""
    }
}

/// Whether a message target names a channel, as opposed to a host mask (a channel-like name
/// holding `*`), a server mask (`$...`) or a user.
pub open spec fn is_channel_target(s: Seq<char>) -> bool {
    s.len() > 0 && s[0] == '#' && find_first(s, '*') is None
}

/// The target of a `PRIVMSG` or `NOTICE`.
pub enum PrivmsgTarget {
    /// A user, by nick.
    User(IrcIdent),
    /// A channel.
    Channel {
        /// The name of the channel.
        channel_name: IrcIdent,
        /// The channel.
        channel: ChannelRef,
    },
    /// A host mask: a `#` name holding `*`, without the `#`.
    HostMask(IrcIdent),
    /// A server mask: a `$` name, without the `$`.
    ServerMask(IrcIdent),
}

/// Whether `t` is the target that the target field `s` names.
pub open spec fn target_fits<F: Fn(&str) -> Option<ChannelRef>>(
    t: PrivmsgTarget,
    s: Seq<char>,
    resolve: F,
) -> bool {
    if s.len() > 0 && s[0] == '#' {
        if find_first(s, '*') is Some {
            t matches PrivmsgTarget::HostMask(m) && m.0@ == after_prefix(s)
        } else {
            t matches PrivmsgTarget::Channel { channel_name, channel } && channel_name.0@ == s
                && resolves_to(resolve, s, Some(channel))
        }
    } else if s.len() > 0 && s[0] == '$' {
        t matches PrivmsgTarget::ServerMask(m) && m.0@ == after_prefix(s)
    } else {
        t matches PrivmsgTarget::User(m) && m.0@ == s
    }
}

fn target_of<F: Fn(&str) -> Option<ChannelRef>>(s: &str, resolve: &F) -> (r: Option<
    PrivmsgTarget,
>)
    requires
        forall|n: &str| call_requires(*resolve, (n,)),
    ensures
        match r {
            Some(t) => target_fits(t, s@, *resolve),
            None => is_channel_target(s@) && resolves_to(*resolve, s@, None),
        },
{
    let n = s.unicode_len();
    if n > 0 && s.get_char(0) == '#' {
        match first_char_index(s, '*') {
            Some(_) => Some(PrivmsgTarget::HostMask(IrcIdent(s.substring_char(1, n).to_owned()))),
            None => match resolve_channel(resolve, s) {
                Some(c) => Some(PrivmsgTarget::Channel { channel_name: IrcIdent(s.to_owned()), channel: c }),
                None => None,
            },
        }
    } else if n > 0 && s.get_char(0) == '$' {
        Some(PrivmsgTarget::ServerMask(IrcIdent(s.substring_char(1, n).to_owned())))
    } else {
        Some(PrivmsgTarget::User(IrcIdent(s.to_owned())))
    }
}

/// Whether the words of a `PRIVMSG` or `NOTICE` are well formed: a sender, a target, and a
/// message field that holds at least its `:` prefix.
pub open spec fn privmsg_ok(word: Seq<String>, word_eol: Seq<String>) -> bool {
    sender_ok(word) && field(word_eol, 4).len() >= 1
}

/// A `PRIVMSG` event.
pub struct PRIVMSG {
    /// Who sent the message.
    pub user: UserString,
    /// Who the message was sent to.
    pub target: PrivmsgTarget,
    /// The message.
    pub message: String,
}

impl PRIVMSG {
    /// The server command this event stands for.
    pub fn name() -> (r: &'static str)
        ensures
            r@ == "PRIVMSG"@,
    {
        "PRIVMSG"
    }

    /// Builds the event from the host's word arrays (`word[i]` the `i`-th word of the line,
    /// `word_eol[i]` the line from that word on). `resolve` finds a channel by name. Returns
    /// `None` for malformed words, or when the target channel cannot be found.
    pub fn create<F: Fn(&str) -> Option<ChannelRef>>(
        word: &Vec<String>,
        word_eol: &Vec<String>,
        resolve: &F,
    ) -> (r: Option<PRIVMSG>)
        requires
            forall|n: &str| call_requires(*resolve, (n,)),
        ensures
            match r {
                Some(p) => {
                    &&& privmsg_ok(word@, word_eol@)
                    &&& parses_as(p.user, after_prefix(word@[1]@))
                    &&& target_fits(p.target, field(word@, 3), *resolve)
                    &&& p.message@ == after_prefix(field(word_eol@, 4))
                },
                None => !privmsg_ok(word@, word_eol@) || (is_channel_target(field(word@, 3))
                    && resolves_to(*resolve, field(word@, 3), None)),
            },
    {
        let user = match sender_of(word) {
            Some(u) => u,
            None => return None,
        };
        let message = match text_after_prefix(field_at(word_eol, 4)) {
            Some(m) => m,
            None => return None,
        };
        let target = match target_of(field_at(word, 3), resolve) {
            Some(t) => t,
            None => return None,
        };
        Some(PRIVMSG { user, target, message })
    }

    /// Who sent the message.
    pub fn get_user(&self) -> (r: &UserString)
        ensures
            r == self.user,
    {
        &self.user
    }

    /// Who the message was sent to.
    pub fn get_target(&self) -> (r: &PrivmsgTarget)
        ensures
            r == self.target,
    {
        &self.target
    }

    /// The message.
    pub fn get_message(&self) -> (r: &str)
        ensures
            r@ == self.message@,
    {
        self.message.as_str()
    }
}

/// A `NOTICE` event: laid out as a `PRIVMSG`.
pub struct NOTICE {
    /// The notice, read as a message.
    pub privmsg: PRIVMSG,
}

impl NOTICE {
    /// The server command this event stands for.
    pub fn name() -> (r: &'static str)
        ensures
            r@ == "NOTICE"@,
    {
        "NOTICE"
    }

    /// Builds the event from the host's word arrays, as `PRIVMSG::create` does.
    pub fn create<F: Fn(&str) -> Option<ChannelRef>>(
        word: &Vec<String>,
        word_eol: &Vec<String>,
        resolve: &F,
    ) -> (r: Option<NOTICE>)
        requires
            forall|n: &str| call_requires(*resolve, (n,)),
        ensures
            match r {
                Some(p) => {
                    &&& privmsg_ok(word@, word_eol@)
                    &&& parses_as(p.privmsg.user, after_prefix(word@[1]@))
                    &&& target_fits(p.privmsg.target, field(word@, 3), *resolve)
                    &&& p.privmsg.message@ == after_prefix(field(word_eol@, 4))
                },
                None => !privmsg_ok(word@, word_eol@) || (is_channel_target(field(word@, 3))
                    && resolves_to(*resolve, field(word@, 3), None)),
            },
    {
        match PRIVMSG::create(word, word_eol, resolve) {
            Some(privmsg) => Some(NOTICE { privmsg }),
            None => None,
        }
    }

    /// Who sent the notice.
    pub fn get_user(&self) -> (r: &UserString)
        ensures
            r == self.privmsg.user,
    {
        self.privmsg.get_user()
    }

    /// Who the notice was sent to.
    pub fn get_target(&self) -> (r: &PrivmsgTarget)
        ensures
            r == self.privmsg.target,
    {
        self.privmsg.get_target()
    }

    /// The notice.
    pub fn get_message(&self) -> (r: &str)
        ensures
            r@ == self.privmsg.message@,
    {
        self.privmsg.get_message()
    }
}

/// Whether the words of a `JOIN` are well formed: a sender and a `:`-prefixed channel.
pub open spec fn join_ok(word: Seq<String>) -> bool {
    sender_ok(word) && field(word, 3).len() >= 1
}

/// A `JOIN` event.
pub struct JOIN {
    /// Who joined.
    pub user: UserString,
    /// The name of the channel joined.
    pub channel_string: IrcIdent,
    /// The channel joined.
    pub channel: ChannelRef,
}

impl JOIN {
    /// The server command this event stands for.
    pub fn name() -> (r: &'static str)
        ensures
            r@ == "JOIN"@,
    {
        "JOIN"
    }

    /// Builds the event from the host's word arrays; `resolve` finds a channel by name.
    /// Returns `None` for malformed words, or when the channel cannot be found.
    pub fn create<F: Fn(&str) -> Option<ChannelRef>>(
        word: &Vec<String>,
        word_eol: &Vec<String>,
        resolve: &F,
    ) -> (r: Option<JOIN>)
        requires
            forall|n: &str| call_requires(*resolve, (n,)),
        ensures
            match r {
                Some(j) => {
                    &&& join_ok(word@)
                    &&& parses_as(j.user, after_prefix(word@[1]@))
                    &&& j.channel_string.0@ == after_prefix(field(word@, 3))
                    &&& resolves_to(*resolve, after_prefix(field(word@, 3)), Some(j.channel))
                },
                None => !join_ok(word@) || resolves_to(
                    *resolve,
                    after_prefix(field(word@, 3)),
                    None,
                ),
            },
    {
        let user = match sender_of(word) {
            Some(u) => u,
            None => return None,
        };
        let name = match text_after_prefix(field_at(word, 3)) {
            Some(n) => n,
            None => return None,
        };
        let channel = match resolve_channel(resolve, name.as_str()) {
            Some(c) => c,
            None => return None,
        };
        Some(JOIN { user, channel_string: IrcIdent(name), channel })
    }

    /// Who joined.
    pub fn get_user(&self) -> (r: &UserString)
        ensures
            r == self.user,
    {
        &self.user
    }

    /// The name of the channel joined.
    pub fn get_channel_name(&self) -> (r: IrcIdentRef<'_>)
        ensures
            r.0@ == self.channel_string.0@,
    {
        self.channel_string.as_ref()
    }

    /// The channel joined.
    pub fn get_channel(&self) -> (r: &ChannelRef)
        ensures
            r == self.channel,
    {
        &self.channel
    }
}

/// A `QUIT` event.
pub struct QUIT {
    /// Who quit.
    pub user: UserString,
    /// The quit message, if any.
    pub message: Option<String>,
}

impl QUIT {
    /// The server command this event stands for.
    pub fn name() -> (r: &'static str)
        ensures
            r@ == "QUIT"@,
    {
        "QUIT"
    }

    /// Builds the event from the host's word arrays. Returns `None` for a malformed sender.
    pub fn create(word: &Vec<String>, word_eol: &Vec<String>) -> (r: Option<QUIT>)
        ensures
            r is Some <==> sender_ok(word@),
            r matches Some(q) ==> parses_as(q.user, after_prefix(word@[1]@)) && match q.message {
                Some(m) => optional_text(field(word_eol@, 3)) == Some(m@),
                None => optional_text(field(word_eol@, 3)) is None,
            },
    {
        let user = match sender_of(word) {
            Some(u) => u,
            None => return None,
        };
        let message = optional_field(field_at(word_eol, 3));
        Some(QUIT { user, message })
    }

    /// Who quit.
    pub fn get_user(&self) -> (r: &UserString)
        ensures
            r == self.user,
    {
        &self.user
    }

    /// The quit message, or `None` if there was none.
    pub fn get_message(&self) -> (r: Option<&str>)
        ensures
            match r {
                Some(m) => self.message matches Some(s) && s@ == m@,
                None => self.message is None,
            },
    {
        match &self.message {
            Some(m) => Some(m.as_str()),
            None => None,
        }
    }
}

/// A `TOPIC` event.
pub struct TOPIC {
    /// Who changed the topic.
    pub user: UserString,
    /// The name of the channel.
    pub channel_string: IrcIdent,
    /// The channel.
    pub channel: ChannelRef,
    /// The new topic, or `None` if it was cleared.
    pub message: Option<String>,
}

impl TOPIC {
    /// The server command this event stands for.
    pub fn name() -> (r: &'static str)
        ensures
            r@ == "TOPIC"@,
    {
        "TOPIC"
    }

    /// Builds the event from the host's word arrays; `resolve` finds a channel by name.
    /// Returns `None` for a malformed sender, or when the channel cannot be found.
    pub fn create<F: Fn(&str) -> Option<ChannelRef>>(
        word: &Vec<String>,
        word_eol: &Vec<String>,
        resolve: &F,
    ) -> (r: Option<TOPIC>)
        requires
            forall|n: &str| call_requires(*resolve, (n,)),
        ensures
            match r {
                Some(t) => {
                    &&& sender_ok(word@)
                    &&& parses_as(t.user, after_prefix(word@[1]@))
                    &&& t.channel_string.0@ == field(word@, 3)
                    &&& resolves_to(*resolve, field(word@, 3), Some(t.channel))
                    &&& match t.message {
                        Some(m) => optional_text(field(word_eol@, 4)) == Some(m@),
                        None => optional_text(field(word_eol@, 4)) is None,
                    }
                },
                None => !sender_ok(word@) || resolves_to(*resolve, field(word@, 3), None),
            },
    {
        let user = match sender_of(word) {
            Some(u) => u,
            None => return None,
        };
        let name = field_at(word, 3);
        let channel = match resolve_channel(resolve, name) {
            Some(c) => c,
            None => return None,
        };
        let message = optional_field(field_at(word_eol, 4));
        Some(TOPIC { user, channel_string: IrcIdent(name.to_owned()), channel, message })
    }

    /// Who changed the topic.
    pub fn get_user(&self) -> (r: &UserString)
        ensures
            r == self.user,
    {
        &self.user
    }

    /// The name of the channel.
    pub fn get_channel_name(&self) -> (r: IrcIdentRef<'_>)
        ensures
            r.0@ == self.channel_string.0@,
    {
        self.channel_string.as_ref()
    }

    /// The channel.
    pub fn get_channel(&self) -> (r: &ChannelRef)
        ensures
            r == self.channel,
    {
        &self.channel
    }

    /// The new topic, or `None` if it was cleared.
    pub fn get_message(&self) -> (r: Option<&str>)
        ensures
            match r {
                Some(m) => self.message matches Some(s) && s@ == m@,
                None => self.message is None,
            },
    {
        match &self.message {
            Some(m) => Some(m.as_str()),
            None => None,
        }
    }
}

/// An `INVITE` event.
pub struct INVITE {
    /// Who sent the invite.
    pub sender: UserString,
    /// The nick of the user invited.
    pub recipient: IrcIdent,
    /// The name of the channel.
    pub channel_string: IrcIdent,
    /// The channel.
    pub channel: ChannelRef,
}

impl INVITE {
    /// The server command this event stands for.
    pub fn name() -> (r: &'static str)
        ensures
            r@ == "INVITE"@,
    {
        "INVITE"
    }

    /// Builds the event from the host's word arrays; `resolve` finds a channel by name.
    /// Returns `None` for a malformed sender, or when the channel cannot be found.
    pub fn create<F: Fn(&str) -> Option<ChannelRef>>(
        word: &Vec<String>,
        word_eol: &Vec<String>,
        resolve: &F,
    ) -> (r: Option<INVITE>)
        requires
            forall|n: &str| call_requires(*resolve, (n,)),
        ensures
            match r {
                Some(i) => {
                    &&& sender_ok(word@)
                    &&& parses_as(i.sender, after_prefix(word@[1]@))
                    &&& i.recipient.0@ == field(word@, 3)
                    &&& i.channel_string.0@ == field(word@, 4)
                    &&& resolves_to(*resolve, field(word@, 4), Some(i.channel))
                },
                None => !sender_ok(word@) || resolves_to(*resolve, field(word@, 4), None),
            },
    {
        let sender = match sender_of(word) {
            Some(u) => u,
            None => return None,
        };
        let name = field_at(word, 4);
        let channel = match resolve_channel(resolve, name) {
            Some(c) => c,
            None => return None,
        };
        Some(INVITE {
            sender,
            recipient: IrcIdent(field_at(word, 3).to_owned()),
            channel_string: IrcIdent(name.to_owned()),
            channel,
        })
    }

    /// Who sent the invite.
    pub fn get_sender(&self) -> (r: &UserString)
        ensures
            r == self.sender,
    {
        &self.sender
    }

    /// The nick of the user invited.
    pub fn get_recipient(&self) -> (r: IrcIdentRef<'_>)
        ensures
            r.0@ == self.recipient.0@,
    {
        self.recipient.as_ref()
    }

    /// The name of the channel.
    pub fn get_channel_name(&self) -> (r: IrcIdentRef<'_>)
        ensures
            r.0@ == self.channel_string.0@,
    {
        self.channel_string.as_ref()
    }

    /// The channel.
    pub fn get_channel(&self) -> (r: &ChannelRef)
        ensures
            r == self.channel,
    {
        &self.channel
    }
}

/// A `KICK` event.
pub struct KICK {
    /// Who kicked.
    pub sender: UserString,
    /// The channel.
    pub channel: ChannelRef,
    /// The name of the channel.
    pub channel_string: IrcIdent,
    /// The nick of the user kicked.
    pub kicked: IrcIdent,
    /// The kick comment, if any.
    pub comment: Option<String>,
}

impl KICK {
    /// The server command this event stands for.
    pub fn name() -> (r: &'static str)
        ensures
            r@ == "KICK"@,
    {
        "KICK"
    }

    /// Builds the event from the host's word arrays; `resolve` finds a channel by name.
    /// Returns `None` for a malformed sender, or when the channel cannot be found.
    pub fn create<F: Fn(&str) -> Option<ChannelRef>>(
        word: &Vec<String>,
        word_eol: &Vec<String>,
        resolve: &F,
    ) -> (r: Option<KICK>)
        requires
            forall|n: &str| call_requires(*resolve, (n,)),
        ensures
            match r {
                Some(k) => {
                    &&& sender_ok(word@)
                    &&& parses_as(k.sender, after_prefix(word@[1]@))
                    &&& k.channel_string.0@ == field(word@, 3)
                    &&& resolves_to(*resolve, field(word@, 3), Some(k.channel))
                    &&& k.kicked.0@ == field(word@, 4)
                    &&& match k.comment {
                        Some(m) => optional_text(field(word_eol@, 5)) == Some(m@),
                        None => optional_text(field(word_eol@, 5)) is None,
                    }
                },
                None => !sender_ok(word@) || resolves_to(*resolve, field(word@, 3), None),
            },
    {
        let sender = match sender_of(word) {
            Some(u) => u,
            None => return None,
        };
        let name = field_at(word, 3);
        let channel = match resolve_channel(resolve, name) {
            Some(c) => c,
            None => return None,
        };
        Some(KICK {
            sender,
            channel,
            channel_string: IrcIdent(name.to_owned()),
            kicked: IrcIdent(field_at(word, 4).to_owned()),
            comment: optional_field(field_at(word_eol, 5)),
        })
    }

    /// Who kicked.
    pub fn get_sender(&self) -> (r: &UserString)
        ensures
            r == self.sender,
    {
        &self.sender
    }

    /// The channel.
    pub fn get_channel(&self) -> (r: &ChannelRef)
        ensures
            r == self.channel,
    {
        &self.channel
    }

    /// The name of the channel.
    pub fn get_channel_name(&self) -> (r: IrcIdentRef<'_>)
        ensures
            r.0@ == self.channel_string.0@,
    {
        self.channel_string.as_ref()
    }

    /// The nick of the user kicked.
    pub fn get_kicked(&self) -> (r: IrcIdentRef<'_>)
        ensures
            r.0@ == self.kicked.0@,
    {
        self.kicked.as_ref()
    }

    /// The kick comment, or `None` if there was none.
    pub fn get_comment(&self) -> (r: Option<&str>)
        ensures
            match r {
                Some(m) => self.comment matches Some(s) && s@ == m@,
                None => self.comment is None,
            },
    {
        match &self.comment {
            Some(m) => Some(m.as_str()),
            None => None,
        }
    }
}

/// A `WALLOPS` event.
pub struct WALLOPS {
    /// The server that sent it.
    pub server_name: IrcIdent,
    /// The message.
    pub message: String,
}

impl WALLOPS {
    /// The server command this event stands for.
    pub fn name() -> (r: &'static str)
        ensures
            r@ == "WALLOPS"@,
    {
        "WALLOPS"
    }

    /// Builds the event from the host's word arrays. Returns `None` when the sender or the
    /// message field is empty.
    pub fn create(word: &Vec<String>, word_eol: &Vec<String>) -> (r: Option<WALLOPS>)
        ensures
            r is Some <==> field(word@, 1).len() >= 1 && field(word_eol@, 3).len() >= 1,
            r matches Some(w) ==> w.server_name.0@ == after_prefix(field(word@, 1))
                && w.message@ == after_prefix(field(word_eol@, 3)),
    {
        let server = match text_after_prefix(field_at(word, 1)) {
            Some(s) => s,
            None => return None,
        };
        let message = match text_after_prefix(field_at(word_eol, 3)) {
            Some(m) => m,
            None => return None,
        };
        Some(WALLOPS { server_name: IrcIdent(server), message })
    }

    /// The server that sent it.
    pub fn get_server_name(&self) -> (r: IrcIdentRef<'_>)
        ensures
            r.0@ == self.server_name.0@,
    {
        self.server_name.as_ref()
    }

    /// The message.
    pub fn get_message(&self) -> (r: &str)
        ensures
            r@ == self.message@,
    {
        self.message.as_str()
    }
}

/// A `PART` event.
pub struct PART {
    /// Who left.
    pub user: UserString,
    /// The names of the channels left.
    pub channel_names: Vec<IrcIdent>,
    /// The channels left, in the order of their names.
    pub channels: Vec<ChannelRef>,
    /// The part message, if any.
    pub message: Option<String>,
}

impl PART {
    /// The server command this event stands for.
    pub fn name() -> (r: &'static str)
        ensures
            r@ == "PART"@,
    {
        "PART"
    }

    /// Builds the event from the host's word arrays: the channel field is a comma-separated
    /// list of names, and `resolve` finds each channel by name. Returns `None` for a malformed
    /// sender, or when a channel cannot be found.
    pub fn create<F: Fn(&str) -> Option<ChannelRef>>(
        word: &Vec<String>,
        word_eol: &Vec<String>,
        resolve: &F,
    ) -> (r: Option<PART>)
        requires
            forall|n: &str| call_requires(*resolve, (n,)),
        ensures
            match r {
                Some(p) => {
                    &&& sender_ok(word@)
                    &&& parses_as(p.user, after_prefix(word@[1]@))
                    &&& p.channel_names@.map_values(|i: IrcIdent| i.0@) == split_on(
                        field(word@, 3),
                        ',',
                    )
                    &&& p.channels@.len() == p.channel_names@.len()
                    &&& forall|k: int|
                        0 <= k < p.channels@.len() ==> resolves_to(
                            *resolve,
                            #[trigger] p.channel_names@[k].0@,
                            Some(p.channels@[k]),
                        )
                    &&& match p.message {
                        Some(m) => optional_text(field(word_eol@, 4)) == Some(m@),
                        None => optional_text(field(word_eol@, 4)) is None,
                    }
                },
                None => !sender_ok(word@) || exists|k: int|
                    0 <= k < split_on(field(word@, 3), ',').len() && resolves_to(
                        *resolve,
                        #[trigger] split_on(field(word@, 3), ',')[k],
                        None,
                    ),
            },
    {
        let user = match sender_of(word) {
            Some(u) => u,
            None => return None,
        };
        let pieces = split_char(field_at(word, 3), ',');
        let ghost names = split_on(field(word@, 3), ',');
        assert(pieces@.len() == names.len() && forall|k: int|
            0 <= k < names.len() ==> #[trigger] pieces@[k]@ == names[k]) by {
            assert forall|k: int| 0 <= k < names.len() implies #[trigger] pieces@[k]@
                == names[k] by {
                assert(pieces@.map_values(|p: String| p@)[k] == pieces@[k]@);
            }
        }
        let mut channel_names: Vec<IrcIdent> = Vec::new();
        let mut channels: Vec<ChannelRef> = Vec::new();
        let mut i: usize = 0;
        while i < pieces.len()
            invariant
                i <= pieces@.len(),
                names == split_on(field(word@, 3), ','),
                pieces@.len() == names.len(),
                forall|k: int| 0 <= k < names.len() ==> #[trigger] pieces@[k]@ == names[k],
                forall|n: &str| call_requires(*resolve, (n,)),
                channel_names@.len() == i,
                channels@.len() == i,
                forall|k: int| 0 <= k < i ==> (#[trigger] channel_names@[k]).0@ == names[k],
                forall|k: int|
                    0 <= k < i ==> resolves_to(
                        *resolve,
                        #[trigger] channel_names@[k].0@,
                        Some(channels@[k]),
                    ),
            decreases pieces.len() - i,
        {
            let c = match resolve_channel(resolve, pieces[i].as_str()) {
                Some(c) => c,
                None => {
                    assert(pieces@[i as int]@ == names[i as int]);
                    assert(resolves_to(*resolve, split_on(field(word@, 3), ',')[i as int], None));
                    return None;
                },
            };
            channel_names.push(IrcIdent(pieces[i].clone()));
            channels.push(c);
            i = i + 1;
        }
        assert(channel_names@.map_values(|i: IrcIdent| i.0@) =~= names);
        let message = optional_field(field_at(word_eol, 4));
        Some(PART { user, channel_names, channels, message })
    }

    /// Who left.
    pub fn get_user(&self) -> (r: &UserString)
        ensures
            r == self.user,
    {
        &self.user
    }

    /// The names of the channels left.
    pub fn get_channel_names(&self) -> (r: &[IrcIdent])
        ensures
            r@ == self.channel_names@,
    {
        self.channel_names.as_slice()
    }

    /// The channels left, in the order of their names.
    pub fn get_channels(&self) -> (r: &[ChannelRef])
        ensures
            r@ == self.channels@,
    {
        self.channels.as_slice()
    }

    /// The part message, or `None` if there was none.
    pub fn get_message(&self) -> (r: Option<&str>)
        ensures
            match r {
                Some(m) => self.message matches Some(s) && s@ == m@,
                None => self.message is None,
            },
    {
        match &self.message {
            Some(m) => Some(m.as_str()),
            None => None,
        }
    }
}

} // verus!
