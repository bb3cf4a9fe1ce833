use vstd::prelude::*;

use crate::chan::ChannelRef;
use crate::text::{split_char, split_on};

verus! {

/// Flags describing a channel's server connection and settings, as a bit set.
#[derive(Copy, Clone, Debug, PartialEq, Eq, Hash, Structural)]
pub struct ChannelFlags {
    /// The bits set; only known flags are kept.
    pub bits: u32,
}

/// Every flag a channel can carry, as a mask.
pub const CHANNEL_FLAGS_ALL: u32 = 0x1ffff;

impl ChannelFlags {
    /// The flags of `bits` that are known; the others are dropped.
    pub fn from_bits_truncate(bits: u32) -> (r: ChannelFlags)
        ensures
            r.bits == bits & CHANNEL_FLAGS_ALL,
    {
        ChannelFlags { bits: bits & CHANNEL_FLAGS_ALL }
    }

    /// Whether every flag of `other` is set.
    pub fn contains(&self, other: ChannelFlags) -> (r: bool)
        ensures
            r == (self.bits & other.bits == other.bits),
    {
        self.bits & other.bits == other.bits
    }
}

/// The kinds of message an ignore entry applies to, as a bit set.
#[derive(Copy, Clone, Debug, PartialEq, Eq, Hash, Structural)]
pub struct IgnoreType {
    /// The bits set; only known kinds are kept.
    pub bits: i32,
}

/// Every kind an ignore entry can name, as a mask.
pub const IGNORE_TYPE_ALL: i32 = 0xff;

impl IgnoreType {
    /// The kinds of `bits` that are known; the others are dropped.
    pub fn from_bits_truncate(bits: i32) -> (r: IgnoreType)
        ensures
            r.bits == bits & IGNORE_TYPE_ALL,
    {
        IgnoreType { bits: bits & IGNORE_TYPE_ALL }
    }

    /// Whether every kind of `other` is set.
    pub fn contains(&self, other: IgnoreType) -> (r: bool)
        ensures
            r == (self.bits & other.bits == other.bits),
    {
        self.bits & other.bits == other.bits
    }
}

/// The kinds of channel.
#[derive(Copy, Clone, Debug, PartialEq, Eq, Structural)]
pub enum ChannelType {
    /// A server's main tab.
    Server,
    /// A channel.
    Channel,
    /// A private dialog.
    Dialog,
    /// A channel notice tab.
    Notice,
    /// A server notice tab.
    SNotice,
}

/// The channel type that the host's type code stands for.
pub open spec fn channel_type_of(code: i32) -> Option<ChannelType> {
    if code == 1 {
        Some(ChannelType::Server)
    } else if code == 2 {
        Some(ChannelType::Channel)
    } else if code == 3 {
        Some(ChannelType::Dialog)
    } else if code == 4 {
        Some(ChannelType::Notice)
    } else if code == 5 {
        Some(ChannelType::SNotice)
    } else {
        None
    }
}

impl ChannelType {
    /// The channel type of the host's type code, from 1 (server) to 5 (server notice).
    pub fn from_code(code: i32) -> (r: Option<ChannelType>)
        ensures
            r == channel_type_of(code),
    {
        match code {
            1 => Some(ChannelType::Server),
            2 => Some(ChannelType::Channel),
            3 => Some(ChannelType::Dialog),
            4 => Some(ChannelType::Notice),
            5 => Some(ChannelType::SNotice),
            _ => None,
        }
    }
}

/// The states of a DCC transfer.
#[derive(Copy, Clone, Debug, PartialEq, Eq, Structural)]
pub enum DccTransferStatus {
    /// Queued.
    Queued,
    /// Running.
    Active,
    /// Failed.
    Failed,
    /// Finished.
    Done,
    /// Connecting.
    Connecting,
    /// Aborted.
    Aborted,
}

impl DccTransferStatus {
    /// The status of the host's status code, from 0 (queued) to 5 (aborted).
    pub fn from_code(code: i32) -> (r: Option<DccTransferStatus>)
        ensures
            code == 0 ==> r == Some(DccTransferStatus::Queued),
            code == 1 ==> r == Some(DccTransferStatus::Active),
            code == 2 ==> r == Some(DccTransferStatus::Failed),
            code == 3 ==> r == Some(DccTransferStatus::Done),
            code == 4 ==> r == Some(DccTransferStatus::Connecting),
            code == 5 ==> r == Some(DccTransferStatus::Aborted),
            (code < 0 || code > 5) ==> r is None,
    {
        match code {
            0 => Some(DccTransferStatus::Queued),
            1 => Some(DccTransferStatus::Active),
            2 => Some(DccTransferStatus::Failed),
            3 => Some(DccTransferStatus::Done),
            4 => Some(DccTransferStatus::Connecting),
            5 => Some(DccTransferStatus::Aborted),
            _ => None,
        }
    }
}

/// The directions of a DCC transfer.
#[derive(Copy, Clone, Debug, PartialEq, Eq, Structural)]
pub enum DccTransferType {
    /// Sending.
    Send,
    /// Receiving.
    Receive,
    /// Receiving over chat.
    ChatReceive,
    /// Sending over chat.
    ChatSend,
}

impl DccTransferType {
    /// The direction of the host's type code, from 0 (send) to 3 (chat send).
    pub fn from_code(code: i32) -> (r: Option<DccTransferType>)
        ensures
            code == 0 ==> r == Some(DccTransferType::Send),
            code == 1 ==> r == Some(DccTransferType::Receive),
            code == 2 ==> r == Some(DccTransferType::ChatReceive),
            code == 3 ==> r == Some(DccTransferType::ChatSend),
            (code < 0 || code > 3) ==> r is None,
    {
        match code {
            0 => Some(DccTransferType::Send),
            1 => Some(DccTransferType::Receive),
            2 => Some(DccTransferType::ChatReceive),
            3 => Some(DccTransferType::ChatSend),
            _ => None,
        }
    }
}

/// The 64-bit value whose high half is `high` and low half is `low`, both read as unsigned.
pub open spec fn merged(low: i32, high: i32) -> int {
    (high as u32) as int * 0x1_0000_0000 + (low as u32) as int
}

/// Joins two 32-bit halves, each read as unsigned, into one 64-bit value.
pub fn merge_unsigned(low: i32, high: i32) -> (r: u64)
    ensures
        r == merged(low, high),
{
    let h = high as u32 as u64;
    let l = low as u32 as u64;
    assert(h * 0x1_0000_0000 + l <= 0xffff_ffff_ffff_ffff) by (nonlinear_arith)
        requires
            h <= 0xffff_ffff,
            l <= 0xffff_ffff,
    ;
    h * 0x1_0000_0000 + l
}

/// Information on an open channel.
pub struct ChannelInfo {
    /// The channel itself.
    pub cref: ChannelRef,
    /// The channel name.
    pub channel_name: String,
    /// The channel key, or `None` if unknown.
    pub channel_key: Option<String>,
    /// The channel mode string of the server.
    pub channel_modes: String,
    /// The channel type prefixes of the server.
    pub channel_types: String,
    /// The flags of the channel.
    pub flags: ChannelFlags,
    /// The server id.
    pub id: i32,
    /// The latency to the server, in milliseconds.
    pub lag: u32,
    /// The most channel modes one line may set.
    pub max_modes: u32,
    /// The network name.
    pub network_name: String,
    /// The nick prefixes of the server, such as `@+`.
    pub nick_prefixes: String,
    /// The nick modes of the server, such as `ov`.
    pub nick_modes: String,
    /// The number of bytes waiting to be sent.
    pub send_queue_size: u32,
    /// The server name.
    pub server_name: String,
    /// The kind of channel.
    pub channel_type: ChannelType,
    /// The number of users in the channel.
    pub user_count: u32,
}

impl ChannelInfo {
    /// The channel name.
    pub fn get_name(&self) -> (r: &str)
        ensures
            r@ == self.channel_name@,
    {
        self.channel_name.as_str()
    }

    /// The channel key, or `None` if unknown.
    pub fn get_key(&self) -> (r: Option<&str>)
        ensures
            match r {
                Some(k) => self.channel_key matches Some(s) && s@ == k@,
                None => self.channel_key is None,
            },
    {
        match &self.channel_key {
            Some(k) => Some(k.as_str()),
            None => None,
        }
    }

    /// The channel mode string of the server.
    pub fn get_mode_string(&self) -> (r: &str)
        ensures
            r@ == self.channel_modes@,
    {
        self.channel_modes.as_str()
    }

    /// The channel type prefixes of the server.
    pub fn get_type_string(&self) -> (r: &str)
        ensures
            r@ == self.channel_types@,
    {
        self.channel_types.as_str()
    }

    /// The flags of the channel.
    pub fn get_flags(&self) -> (r: ChannelFlags)
        ensures
            r == self.flags,
    {
        self.flags
    }

    /// The server id.
    pub fn get_id(&self) -> (r: i32)
        ensures
            r == self.id,
    {
        self.id
    }

    /// The latency to the server, in milliseconds.
    pub fn get_lag_ms(&self) -> (r: u32)
        ensures
            r == self.lag,
    {
        self.lag
    }

    /// The most channel modes one line may set.
    pub fn get_max_modes_per_line(&self) -> (r: u32)
        ensures
            r == self.max_modes,
    {
        self.max_modes
    }

    /// The network name.
    pub fn get_network_name(&self) -> (r: &str)
        ensures
            r@ == self.network_name@,
    {
        self.network_name.as_str()
    }

    /// The nick prefixes of the server, such as `@+`.
    pub fn get_nick_prefix_string(&self) -> (r: &str)
        ensures
            r@ == self.nick_prefixes@,
    {
        self.nick_prefixes.as_str()
    }

    /// The nick modes of the server, such as `ov`.
    pub fn get_nick_mode_string(&self) -> (r: &str)
        ensures
            r@ == self.nick_modes@,
    {
        self.nick_modes.as_str()
    }

    /// The number of bytes waiting to be sent.
    pub fn get_send_queue_size(&self) -> (r: u32)
        ensures
            r == self.send_queue_size,
    {
        self.send_queue_size
    }

    /// The server name.
    pub fn get_server_name(&self) -> (r: &str)
        ensures
            r@ == self.server_name@,
    {
        self.server_name.as_str()
    }

    /// The kind of channel.
    pub fn get_type(&self) -> (r: ChannelType)
        ensures
            r == self.channel_type,
    {
        self.channel_type
    }

    /// The number of users in the channel.
    pub fn get_user_count(&self) -> (r: u32)
        ensures
            r == self.user_count,
    {
        self.user_count
    }

    /// The channel itself.
    pub fn get_ref(&self) -> (r: &ChannelRef)
        ensures
            r == self.cref,
    {
        &self.cref
    }
}

/// The fields of one entry of the host's channel list, as the host gives them.
pub struct ChannelListItem {
    /// `channel`.
    pub channel: Option<String>,
    /// `channelkey`.
    pub channel_key: Option<String>,
    /// `chanmodes`.
    pub channel_modes: Option<String>,
    /// `chantypes`.
    pub channel_types: Option<String>,
    /// `context`.
    pub context: u64,
    /// `flags`.
    pub flags: i32,
    /// `id`.
    pub id: i32,
    /// `lag`.
    pub lag: i32,
    /// `maxmodes`.
    pub max_modes: i32,
    /// `network`.
    pub network: Option<String>,
    /// `nickprefixes`.
    pub nick_prefixes: Option<String>,
    /// `nickmodes`.
    pub nick_modes: Option<String>,
    /// `queue`.
    pub queue: i32,
    /// `server`.
    pub server: Option<String>,
    /// `type`.
    pub channel_type: i32,
    /// `users`.
    pub users: i32,
}

/// A text field of a list entry: an absent one reads as empty.
pub open spec fn text_or_empty(s: Option<String>) -> Seq<char> {
    match s {
        Some(t) => t@,
        None => Seq::<char>::empty(),
    }
}

fn or_empty(s: Option<String>) -> (r: String)
    ensures
        r@ == text_or_empty(s),
{
    match s {
        Some(t) => t,
        None => String::new(),
    }
}

impl ChannelInfo {
    /// Reads one entry of the host's channel list. Returns `None` when its type code is not
    /// a known channel type.
    pub fn from_item(item: ChannelListItem) -> (r: Option<ChannelInfo>)
        ensures
            r is Some <==> channel_type_of(item.channel_type) is Some,
            r matches Some(c) ==> {
                &&& c.cref.handle == item.context
                &&& c.channel_name@ == text_or_empty(item.channel)
                &&& c.channel_key == item.channel_key
                &&& c.channel_modes@ == text_or_empty(item.channel_modes)
                &&& c.channel_types@ == text_or_empty(item.channel_types)
                &&& c.flags.bits == (item.flags as u32) & CHANNEL_FLAGS_ALL
                &&& c.id == item.id
                &&& c.lag == item.lag as u32
                &&& c.max_modes == item.max_modes as u32
                &&& c.network_name@ == text_or_empty(item.network)
                &&& c.nick_prefixes@ == text_or_empty(item.nick_prefixes)
                &&& c.nick_modes@ == text_or_empty(item.nick_modes)
                &&& c.send_queue_size == item.queue as u32
                &&& c.server_name@ == text_or_empty(item.server)
                &&& Some(c.channel_type) == channel_type_of(item.channel_type)
                &&& c.user_count == item.users as u32
            },
    {
        let channel_type = match ChannelType::from_code(item.channel_type) {
            Some(t) => t,
            None => return None,
        };
        Some(ChannelInfo {
            cref: ChannelRef { handle: item.context },
            channel_name: or_empty(item.channel),
            channel_key: item.channel_key,
            channel_modes: or_empty(item.channel_modes),
            channel_types: or_empty(item.channel_types),
            flags: ChannelFlags::from_bits_truncate(item.flags as u32),
            id: item.id,
            lag: item.lag as u32,
            max_modes: item.max_modes as u32,
            network_name: or_empty(item.network),
            nick_prefixes: or_empty(item.nick_prefixes),
            nick_modes: or_empty(item.nick_modes),
            send_queue_size: item.queue as u32,
            server_name: or_empty(item.server),
            channel_type,
            user_count: item.users as u32,
        })
    }
}

impl ChannelRef {
    /// The information on this channel in a snapshot of the host's channel list, or `None`
    /// when the channel is no longer there. The first matching entry is taken.
    pub fn get_info<'a>(&self, channels: &'a Vec<ChannelInfo>) -> (r: Option<&'a ChannelInfo>)
        ensures
            match r {
                Some(c) => exists|i: int|
                    0 <= i < channels@.len() && channels@[i] == c && c.cref == *self && forall|
                        j: int,
                    | 0 <= j < i ==> (#[trigger] channels@[j]).cref != *self,
                None => forall|j: int|
                    0 <= j < channels@.len() ==> (#[trigger] channels@[j]).cref != *self,
            },
    {
        let mut i: usize = 0;
        while i < channels.len()
            invariant
                i <= channels@.len(),
                forall|j: int| 0 <= j < i ==> (#[trigger] channels@[j]).cref != *self,
            decreases channels@.len() - i,
        {
            if channels[i].cref == *self {
                return Some(&channels[i]);
            }
            i = i + 1;
        }
        None
    }
}

/// An entry of the host's ignore list.
pub struct IgnoreEntry {
    /// The mask ignored.
    pub mask: String,
    /// What kinds of message are ignored.
    pub ignore_type: IgnoreType,
}

impl IgnoreEntry {
    /// Reads one entry of the host's ignore list: an absent mask reads as empty, and unknown
    /// flags are dropped.
    pub fn from_item(mask: Option<String>, flags: i32) -> (r: IgnoreEntry)
        ensures
            r.mask@ == text_or_empty(mask),
            r.ignore_type.bits == flags & IGNORE_TYPE_ALL,
    {
        IgnoreEntry { mask: or_empty(mask), ignore_type: IgnoreType::from_bits_truncate(flags) }
    }

    /// The mask ignored.
    pub fn get_mask(&self) -> (r: &str)
        ensures
            r@ == self.mask@,
    {
        self.mask.as_str()
    }

    /// What kinds of message are ignored.
    pub fn get_ignore_type(&self) -> (r: IgnoreType)
        ensures
            r == self.ignore_type,
    {
        self.ignore_type
    }
}

/// A point in time, in whole seconds since the Unix epoch, UTC.
#[derive(Copy, Clone, Debug, PartialEq, Eq, Hash, Structural)]
pub struct Timestamp {
    /// Seconds since the Unix epoch.
    pub seconds: i64,
}

/// The fields of one entry of the host's DCC transfer list, as the host gives them.
pub struct DccListItem {
    /// `address32`.
    pub address32: i32,
    /// `cps`.
    pub cps: i32,
    /// `destfile`.
    pub destination: Option<String>,
    /// `file`.
    pub file: Option<String>,
    /// `nick`.
    pub nick: Option<String>,
    /// `port`.
    pub port: i32,
    /// `pos` and `poshigh`.
    pub pos: (i32, i32),
    /// `resume` and `resumehigh`.
    pub resume: (i32, i32),
    /// `size` and `sizehigh`.
    pub size: (i32, i32),
    /// `status`.
    pub status: i32,
    /// `type`.
    pub transfer_type: i32,
}

/// Information on a DCC transfer.
pub struct DccTransferInfo {
    /// The IPv4 address of the other party, as a 32-bit number.
    pub address: u32,
    /// The speed in bytes per second.
    pub bytes_per_second: u32,
    /// The destination path.
    pub destination: String,
    /// The name of the file.
    pub filename: String,
    /// The nick of the other party.
    pub sender_nick: String,
    /// The port.
    pub port: u16,
    /// The bytes transferred so far.
    pub bytes_processed: u64,
    /// Where the transfer was last resumed, or `None` if it never was.
    pub resume_point: Option<u64>,
    /// The size of the file in bytes.
    pub file_size: u64,
    /// The state of the transfer.
    pub status: DccTransferStatus,
    /// The direction of the transfer.
    pub transfer_type: DccTransferType,
}

impl DccTransferInfo {
    /// Reads one entry of the host's DCC transfer list. 64-bit counts come in two halves; a
    /// resume point whose low half is 0 means none. Returns `None` when the status or type code
    /// is unknown.
    pub fn from_item(item: DccListItem) -> (r: Option<DccTransferInfo>)
        ensures
            r is Some <==> (0 <= item.status <= 5 && 0 <= item.transfer_type <= 3),
            r matches Some(d) ==> {
                &&& d.address == item.address32 as u32
                &&& d.bytes_per_second == item.cps as u32
                &&& d.destination@ == text_or_empty(item.destination)
                &&& d.filename@ == text_or_empty(item.file)
                &&& d.sender_nick@ == text_or_empty(item.nick)
                &&& d.port == item.port as u16
                &&& d.bytes_processed == merged(item.pos.0, item.pos.1)
                &&& (item.resume.0 == 0 ==> d.resume_point is None)
                &&& (item.resume.0 != 0 ==> d.resume_point == Some(
                    merged(item.resume.0, item.resume.1) as u64,
                ))
                &&& d.file_size == merged(item.size.0, item.size.1)
            },
    {
        let status = match DccTransferStatus::from_code(item.status) {
            Some(s) => s,
            None => return None,
        };
        let transfer_type = match DccTransferType::from_code(item.transfer_type) {
            Some(t) => t,
            None => return None,
        };
        let resume_point = if item.resume.0 == 0 {
            None
        } else {
            Some(merge_unsigned(item.resume.0, item.resume.1))
        };
        Some(DccTransferInfo {
            address: item.address32 as u32,
            bytes_per_second: item.cps as u32,
            destination: or_empty(item.destination),
            filename: or_empty(item.file),
            sender_nick: or_empty(item.nick),
            port: item.port as u16,
            bytes_processed: merge_unsigned(item.pos.0, item.pos.1),
            resume_point,
            file_size: merge_unsigned(item.size.0, item.size.1),
            status,
            transfer_type,
        })
    }

    /// The IPv4 address of the other party, as a 32-bit number.
    pub fn get_address(&self) -> (r: u32)
        ensures
            r == self.address,
    {
        self.address
    }

    /// The speed in bytes per second.
    pub fn get_bytes_per_second(&self) -> (r: u32)
        ensures
            r == self.bytes_per_second,
    {
        self.bytes_per_second
    }

    /// The destination path.
    pub fn get_destination(&self) -> (r: &str)
        ensures
            r@ == self.destination@,
    {
        self.destination.as_str()
    }

    /// The name of the file.
    pub fn get_filename(&self) -> (r: &str)
        ensures
            r@ == self.filename@,
    {
        self.filename.as_str()
    }

    /// The nick of the other party.
    pub fn get_sender_nick(&self) -> (r: &str)
        ensures
            r@ == self.sender_nick@,
    {
        self.sender_nick.as_str()
    }

    /// The port.
    pub fn get_port(&self) -> (r: u16)
        ensures
            r == self.port,
    {
        self.port
    }

    /// The bytes transferred so far.
    pub fn get_bytes_processed(&self) -> (r: u64)
        ensures
            r == self.bytes_processed,
    {
        self.bytes_processed
    }

    /// Where the transfer was last resumed, or `None` if it never was.
    pub fn get_resume_point(&self) -> (r: Option<u64>)
        ensures
            r == self.resume_point,
    {
        self.resume_point
    }

    /// The size of the file in bytes.
    pub fn get_file_size(&self) -> (r: u64)
        ensures
            r == self.file_size,
    {
        self.file_size
    }

    /// The state of the transfer.
    pub fn get_status(&self) -> (r: DccTransferStatus)
        ensures
            r == self.status,
    {
        self.status
    }

    /// The direction of the transfer.
    pub fn get_transfer_type(&self) -> (r: DccTransferType)
        ensures
            r == self.transfer_type,
    {
        self.transfer_type
    }
}

/// An entry of the host's notify list.
pub struct NotifyEntry {
    /// The networks the entry applies to.
    pub networks: Vec<String>,
    /// The nick watched.
    pub nick: String,
    /// Whether the user is online.
    pub is_online: bool,
    /// When the user came online.
    pub time_online: Timestamp,
    /// When the user went offline.
    pub time_offline: Timestamp,
    /// When the user was last seen.
    pub last_seen: Timestamp,
}

impl NotifyEntry {
    /// Reads one entry of the host's notify list: `networks` is a comma-separated list (none
    /// when absent), and the user is online when `flags` is 0.
    pub fn from_item(
        networks: Option<String>,
        nick: Option<String>,
        flags: i32,
        on: i64,
        off: i64,
        seen: i64,
    ) -> (r: NotifyEntry)
        ensures
            match networks {
                Some(n) => r.networks@.map_values(|s: String| s@) == split_on(n@, ','),
                None => r.networks@.len() == 0,
            },
            r.nick@ == text_or_empty(nick),
            r.is_online == (flags == 0),
            r.time_online.seconds == on,
            r.time_offline.seconds == off,
            r.last_seen.seconds == seen,
    {
        let networks = match networks {
            Some(n) => split_char(n.as_str(), ','),
            None => Vec::new(),
        };
        NotifyEntry {
            networks,
            nick: or_empty(nick),
            is_online: flags == 0,
            time_online: Timestamp { seconds: on },
            time_offline: Timestamp { seconds: off },
            last_seen: Timestamp { seconds: seen },
        }
    }

    /// The networks the entry applies to.
    pub fn get_networks(&self) -> (r: &[String])
        ensures
            r@ == self.networks@,
    {
        self.networks.as_slice()
    }

    /// The nick watched.
    pub fn get_nick(&self) -> (r: &str)
        ensures
            r@ == self.nick@,
    {
        self.nick.as_str()
    }

    /// Whether the user is online.
    pub fn is_online(&self) -> (r: bool)
        ensures
            r == self.is_online,
    {
        self.is_online
    }

    /// When the user came online.
    pub fn get_time_online(&self) -> (r: Timestamp)
        ensures
            r == self.time_online,
    {
        self.time_online
    }

    /// When the user went offline.
    pub fn get_time_offline(&self) -> (r: Timestamp)
        ensures
            r == self.time_offline,
    {
        self.time_offline
    }

    /// When the user was last seen.
    pub fn get_time_last_seen(&self) -> (r: Timestamp)
        ensures
            r == self.last_seen,
    {
        self.last_seen
    }
}

/// An entry of the host's list of users in a channel.
pub struct UserInfo {
    /// The account name, if known.
    pub account_name: Option<String>,
    /// Whether the user is away.
    pub away: bool,
    /// When the user last spoke.
    pub last_posted: Timestamp,
    /// The nick.
    pub nick: String,
    /// The user and host, `user@host`.
    pub host: String,
    /// The user's prefix character in the channel, or `'\0'` if none.
    pub prefix: char,
    /// The real name, if known.
    pub real_name: Option<String>,
    /// Whether the user is selected in the user list.
    pub is_selected: bool,
}

impl UserInfo {
    /// Reads one entry of the host's user list; `prefix` is the first byte of the prefix
    /// field, if there is one.
    pub fn from_item(
        account: Option<String>,
        away: i32,
        last_talk: i64,
        nick: Option<String>,
        host: Option<String>,
        prefix: Option<u8>,
        real_name: Option<String>,
        selected: i32,
    ) -> (r: UserInfo)
        ensures
            r.account_name == account,
            r.away == (away != 0),
            r.last_posted.seconds == last_talk,
            r.nick@ == text_or_empty(nick),
            r.host@ == text_or_empty(host),
            r.prefix == match prefix {
                Some(b) => b as char,
                None => '\0',
            },
            r.real_name == real_name,
            r.is_selected == (selected != 0),
    {
        let prefix = match prefix {
            Some(b) => b as char,
            None => '\0',
        };
        UserInfo {
            account_name: account,
            away: away != 0,
            last_posted: Timestamp { seconds: last_talk },
            nick: or_empty(nick),
            host: or_empty(host),
            prefix,
            real_name,
            is_selected: selected != 0,
        }
    }

    /// The account name, or `None` if unknown.
    pub fn get_account_name(&self) -> (r: Option<&str>)
        ensures
            match r {
                Some(k) => self.account_name matches Some(s) && s@ == k@,
                None => self.account_name is None,
            },
    {
        match &self.account_name {
            Some(k) => Some(k.as_str()),
            None => None,
        }
    }

    /// Whether the user is away.
    pub fn is_away(&self) -> (r: bool)
        ensures
            r == self.away,
    {
        self.away
    }

    /// When the user last spoke.
    pub fn get_time_last_posted(&self) -> (r: Timestamp)
        ensures
            r == self.last_posted,
    {
        self.last_posted
    }

    /// The nick.
    pub fn get_nick(&self) -> (r: &str)
        ensures
            r@ == self.nick@,
    {
        self.nick.as_str()
    }

    /// The user and host.
    pub fn get_host_string(&self) -> (r: &str)
        ensures
            r@ == self.host@,
    {
        self.host.as_str()
    }

    /// The user's prefix character in the channel.
    pub fn get_prefix(&self) -> (r: char)
        ensures
            r == self.prefix,
    {
        self.prefix
    }

    /// The real name, or `None` if unknown.
    pub fn get_real_name(&self) -> (r: Option<&str>)
        ensures
            match r {
                Some(k) => self.real_name matches Some(s) && s@ == k@,
                None => self.real_name is None,
            },
    {
        match &self.real_name {
            Some(k) => Some(k.as_str()),
            None => None,
        }
    }

    /// Whether the user is selected in the user list.
    pub fn is_selected(&self) -> (r: bool)
        ensures
            r == self.is_selected,
    {
        self.is_selected
    }
}

} // verus!
