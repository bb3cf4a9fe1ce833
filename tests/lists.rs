use hexchat::chan::ChannelRef;
use hexchat::lists::{
    merge_unsigned, ChannelFlags, ChannelInfo, ChannelListItem, ChannelType, DccListItem,
    DccTransferInfo, DccTransferStatus, DccTransferType, IgnoreEntry, IgnoreType, NotifyEntry,
    Timestamp, UserInfo,
};
use hexchat::msg::{
    mode_byte, mode_sign, print_event_args, strip_result, strip_result_in_place, StripMode,
};
use hexchat::other::{WindowEvent, WindowStatus};
use hexchat::prefs::GlobalPreferenceValue;

fn item(context: u64, channel_type: i32) -> ChannelListItem {
    ChannelListItem {
        channel: Some("#rust".to_string()),
        channel_key: None,
        channel_modes: Some("beI,k,l,imnpst".to_string()),
        channel_types: None,
        context,
        flags: (1 << 20) | 3,
        id: 4,
        lag: 250,
        max_modes: 6,
        network: Some("Libera".to_string()),
        nick_prefixes: Some("@+".to_string()),
        nick_modes: Some("ov".to_string()),
        queue: 0,
        server: Some("irc.libera.chat".to_string()),
        channel_type,
        users: 1200,
    }
}

#[test]
fn channel_info_from_list_entry() {
    let info = ChannelInfo::from_item(item(8, 2)).unwrap();
    assert_eq!(info.get_name(), "#rust");
    assert_eq!(info.get_key(), None);
    assert_eq!(info.get_mode_string(), "beI,k,l,imnpst");
    assert_eq!(info.get_type_string(), "");
    assert_eq!(info.get_flags(), ChannelFlags { bits: 3 });
    assert_eq!(info.get_id(), 4);
    assert_eq!(info.get_lag_ms(), 250);
    assert_eq!(info.get_max_modes_per_line(), 6);
    assert_eq!(info.get_network_name(), "Libera");
    assert_eq!(info.get_nick_prefix_string(), "@+");
    assert_eq!(info.get_nick_mode_string(), "ov");
    assert_eq!(info.get_send_queue_size(), 0);
    assert_eq!(info.get_server_name(), "irc.libera.chat");
    assert_eq!(info.get_type(), ChannelType::Channel);
    assert_eq!(info.get_user_count(), 1200);
    assert_eq!(*info.get_ref(), ChannelRef { handle: 8 });
    assert!(ChannelInfo::from_item(item(8, 9)).is_none());
}

#[test]
fn channel_ref_finds_its_info() {
    let list = vec![
        ChannelInfo::from_item(item(1, 1)).unwrap(),
        ChannelInfo::from_item(item(2, 3)).unwrap(),
    ];
    let found = ChannelRef { handle: 2 }.get_info(&list).unwrap();
    assert_eq!(found.get_type(), ChannelType::Dialog);
    assert!(ChannelRef { handle: 5 }.get_info(&list).is_none());
}

#[test]
fn codes_map_to_kinds() {
    assert_eq!(ChannelType::from_code(1), Some(ChannelType::Server));
    assert_eq!(ChannelType::from_code(5), Some(ChannelType::SNotice));
    assert_eq!(ChannelType::from_code(0), None);
    assert_eq!(DccTransferStatus::from_code(3), Some(DccTransferStatus::Done));
    assert_eq!(DccTransferStatus::from_code(6), None);
    assert_eq!(DccTransferType::from_code(2), Some(DccTransferType::ChatReceive));
    assert_eq!(DccTransferType::from_code(-1), None);
}

#[test]
fn flags_drop_unknown_bits() {
    let f = ChannelFlags::from_bits_truncate(0xfffe_0001);
    assert_eq!(f.bits, 1);
    assert!(f.contains(ChannelFlags { bits: 1 }));
    assert!(!f.contains(ChannelFlags { bits: 2 }));
    let entry = IgnoreEntry::from_item(None, 0x1ff);
    assert_eq!(entry.get_mask(), "");
    assert_eq!(entry.get_ignore_type(), IgnoreType { bits: 0xff });
    assert!(entry.get_ignore_type().contains(IgnoreType { bits: 0x80 }));
    let entry = IgnoreEntry::from_item(Some("*!*@spam.example".to_string()), 1);
    assert_eq!(entry.get_mask(), "*!*@spam.example");
}

#[test]
fn merged_halves() {
    assert_eq!(merge_unsigned(1, 2), 0x0000_0002_0000_0001);
    assert_eq!(merge_unsigned(-1, -1), u64::MAX);
    assert_eq!(merge_unsigned(-1, 0), 0xffff_ffff);
}

#[test]
fn strip_outcomes() {
    assert_eq!(StripMode::Colors.code(), 1);
    assert_eq!(StripMode::Attributes.code(), 2);
    assert_eq!(StripMode::All.code(), 3);
    assert_eq!(strip_result(Some("plain".to_string())), Ok("plain".to_string()));
    assert_eq!(strip_result(None), Err(()));
    let mut s = "\u{3}4red".to_string();
    assert_eq!(strip_result_in_place(&mut s, Some("red".to_string())), Ok(()));
    assert_eq!(s, "red");
    assert_eq!(strip_result_in_place(&mut s, None), Err(()));
    assert_eq!(s, "red");
}

#[test]
fn window_names_and_status() {
    assert_eq!(WindowEvent::open_channel().name(), "Open Context");
    assert_eq!(WindowEvent::close_channel().0, "Close Context");
    assert_eq!(WindowEvent::focus_tab().0, "Focus Tab");
    assert_eq!(WindowEvent::focus_window().0, "Focus Window");
    assert_eq!(WindowStatus::from_status_text("active"), Some(WindowStatus::Active));
    assert_eq!(WindowStatus::from_status_text("hidden"), Some(WindowStatus::Hidden));
    assert_eq!(WindowStatus::from_status_text("normal"), Some(WindowStatus::Normal));
    assert_eq!(WindowStatus::from_status_text("other"), None);
}

#[test]
fn global_preference_values() {
    assert!(matches!(GlobalPreferenceValue::from_host(1, Some("x".to_string()), 0), Some(GlobalPreferenceValue::String(ref s)) if s == "x"));
    assert!(matches!(GlobalPreferenceValue::from_host(2, None, 7), Some(GlobalPreferenceValue::Int(7))));
    assert!(matches!(GlobalPreferenceValue::from_host(3, None, 0), Some(GlobalPreferenceValue::Bool(false))));
    assert!(GlobalPreferenceValue::from_host(0, None, 1).is_none());
    assert!(GlobalPreferenceValue::from_host(1, None, 1).is_none());
}

#[test]
fn dcc_transfer_from_list_entry() {
    let item = DccListItem {
        address32: -1062731519,
        cps: 1024,
        destination: Some("/tmp/file.txt".to_string()),
        file: Some("file.txt".to_string()),
        nick: None,
        port: 5000,
        pos: (10, 1),
        resume: (0, 7),
        size: (-1, 0),
        status: 1,
        transfer_type: 0,
    };
    let d = DccTransferInfo::from_item(item).unwrap();
    assert_eq!(d.get_address(), 0xc0a8_0101);
    assert_eq!(d.get_bytes_per_second(), 1024);
    assert_eq!(d.get_destination(), "/tmp/file.txt");
    assert_eq!(d.get_filename(), "file.txt");
    assert_eq!(d.get_sender_nick(), "");
    assert_eq!(d.get_port(), 5000);
    assert_eq!(d.get_bytes_processed(), (1u64 << 32) + 10);
    assert_eq!(d.get_resume_point(), None);
    assert_eq!(d.get_file_size(), 0xffff_ffff);
    assert_eq!(d.get_status(), DccTransferStatus::Active);
    assert_eq!(d.get_transfer_type(), DccTransferType::Send);
}

#[test]
fn dcc_transfer_with_resume_point_and_bad_status() {
    let make = |status: i32| DccListItem {
        address32: 0,
        cps: 0,
        destination: None,
        file: None,
        nick: Some("bob".to_string()),
        port: 0,
        pos: (0, 0),
        resume: (5, 2),
        size: (0, 0),
        status,
        transfer_type: 3,
    };
    let d = DccTransferInfo::from_item(make(4)).unwrap();
    assert_eq!(d.get_resume_point(), Some((2u64 << 32) + 5));
    assert_eq!(d.get_sender_nick(), "bob");
    assert!(DccTransferInfo::from_item(make(9)).is_none());
}

#[test]
fn notify_entry_from_list_entry() {
    let n = NotifyEntry::from_item(Some("Libera,OFTC".to_string()), Some("pal".to_string()), 0, 10, 20, 30);
    assert_eq!(n.get_networks(), &["Libera".to_string(), "OFTC".to_string()]);
    assert_eq!(n.get_nick(), "pal");
    assert!(n.is_online());
    assert_eq!(n.get_time_online(), Timestamp { seconds: 10 });
    assert_eq!(n.get_time_offline(), Timestamp { seconds: 20 });
    assert_eq!(n.get_time_last_seen(), Timestamp { seconds: 30 });
    let n = NotifyEntry::from_item(None, None, 1, 0, 0, 0);
    assert!(n.get_networks().is_empty());
    assert!(!n.is_online());
}

#[test]
fn user_info_from_list_entry() {
    let u = UserInfo::from_item(
        Some("acct".to_string()),
        1,
        99,
        Some("nick".to_string()),
        Some("u@h".to_string()),
        Some(b'@'),
        None,
        0,
    );
    assert_eq!(u.get_account_name(), Some("acct"));
    assert!(u.is_away());
    assert_eq!(u.get_time_last_posted(), Timestamp { seconds: 99 });
    assert_eq!(u.get_nick(), "nick");
    assert_eq!(u.get_host_string(), "u@h");
    assert_eq!(u.get_prefix(), '@');
    assert_eq!(u.get_real_name(), None);
    assert!(!u.is_selected());
    let u = UserInfo::from_item(None, 0, 0, None, None, None, Some("Real".to_string()), 1);
    assert_eq!(u.get_prefix(), '\0');
    assert_eq!(u.get_real_name(), Some("Real"));
    assert!(u.is_selected());
}

#[test]
fn print_events_carry_at_most_four_arguments() {
    let args: Vec<String> = (0..6).map(|i| i.to_string()).collect();
    assert_eq!(print_event_args(&args), vec!["0", "1", "2", "3"]);
    assert_eq!(print_event_args(&args[..2].to_vec()), vec!["0", "1"]);
    assert!(print_event_args(&Vec::new()).is_empty());
}

#[test]
fn mode_bytes() {
    assert_eq!(mode_byte('o'), Some(b'o'));
    assert_eq!(mode_byte('\u{e9}'), None);
    assert_eq!(mode_sign(true), b'+');
    assert_eq!(mode_sign(false), b'-');
}
