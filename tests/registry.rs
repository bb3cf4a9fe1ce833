use hexchat::hook::{
    callback_result, collect_args, timer_interval_ms, Command, EatMode, Priority, TimerTask,
    MAX_ARGS,
};
use hexchat::registry::{teardown_order, Context, HookKind, Registration};
use std::cell::Cell;
use std::collections::HashMap;
use std::rc::Rc;

struct DropCounter(Rc<Cell<u32>>);

impl Drop for DropCounter {
    fn drop(&mut self) {
        self.0.set(self.0.get() + 1);
    }
}

#[test]
fn register_then_remove_restores_size_and_frees_once() {
    let drops = Rc::new(Cell::new(0));
    let mut host: HashMap<u64, DropCounter> = HashMap::new();
    let mut ctx = Context::new();
    let first = ctx.register_command(1);
    host.insert(1, DropCounter(drops.clone()));
    assert_eq!(ctx.hook_count(), 1);
    let handle = 2;
    let command = ctx.register_command(handle);
    host.insert(handle, DropCounter(drops.clone()));
    assert_eq!(ctx.hook_count(), 2);
    assert_eq!(command.handle(), handle);
    if ctx.deregister_command(command) {
        host.remove(&handle);
    }
    assert_eq!(ctx.hook_count(), 1);
    assert_eq!(drops.get(), 1);
    if ctx.deregister_command(Command(handle)) {
        host.remove(&handle);
    }
    assert_eq!(ctx.hook_count(), 1);
    assert_eq!(drops.get(), 1);
    assert!(ctx.is_registered(first.handle()));
}

#[test]
fn removal_checks_the_kind() {
    let mut ctx = Context::new();
    ctx.add_timer_task(7);
    assert!(!ctx.deregister_command(Command(7)));
    assert!(ctx.is_registered(7));
    assert!(ctx.remove_timer_task(TimerTask(7)));
    assert!(!ctx.is_registered(7));
    assert_eq!(ctx.hook_count(), 0);
}

#[test]
fn every_kind_registers_and_removes() {
    let mut ctx = Context::new();
    let a = ctx.add_print_event_listener(1);
    let b = ctx.add_window_event_listener(2);
    let c = ctx.add_raw_server_event_listener(3);
    let d = ctx.add_server_event_listener(4);
    assert_eq!(ctx.hook_count(), 4);
    assert!(ctx.remove_print_event_listener(a));
    assert!(ctx.remove_window_event_listener(b));
    assert!(ctx.remove_raw_server_event_listener(c));
    assert!(ctx.remove_server_event_listener(d));
    assert_eq!(ctx.hook_count(), 0);
}

#[test]
fn drain_hands_back_registrations_in_order() {
    let mut ctx = Context::new();
    ctx.add_hook(10, HookKind::Command);
    ctx.add_hook(11, HookKind::PrintEvent);
    ctx.add_hook(12, HookKind::TimerTask);
    assert!(ctx.take_hook(11, HookKind::PrintEvent));
    let hooks = ctx.drain_hooks();
    let handles: Vec<u64> = hooks.iter().map(|r| r.handle).collect();
    assert_eq!(handles, vec![10, 12]);
    assert_eq!(hooks[1].kind, HookKind::TimerTask);
    assert_eq!(ctx.hook_count(), 0);
}

#[test]
fn eat_modes_encode_as_the_host_expects() {
    assert_eq!(EatMode::Nothing.code(), 0);
    assert_eq!(EatMode::Hexchat.code(), 1);
    assert_eq!(EatMode::Plugin.code(), 2);
    assert_eq!(EatMode::All.code(), 3);
    assert!(EatMode::All.hides_from_plugins());
    assert!(EatMode::Plugin.hides_from_plugins());
    assert!(!EatMode::Hexchat.hides_from_plugins());
}

#[test]
fn failed_callback_asks_for_no_special_handling() {
    assert_eq!(callback_result(None), 0);
    assert_eq!(callback_result(Some(EatMode::All)), 3);
    assert_eq!(callback_result(Some(EatMode::Hexchat)), 1);
}

#[test]
fn timer_interval_is_truncated() {
    assert_eq!(timer_interval_ms(1500), 1500);
    assert_eq!(timer_interval_ms(2147483647), 2147483647);
    assert_eq!(timer_interval_ms(2147483648), 2147483647);
    assert_eq!(timer_interval_ms(u128::MAX), 2147483647);
}

#[test]
fn priorities_have_their_values() {
    assert_eq!(Priority::highest(), Priority(127));
    assert_eq!(Priority::high(), Priority(64));
    assert_eq!(Priority::normal(), Priority(0));
    assert_eq!(Priority::low(), Priority(-64));
    assert_eq!(Priority::lowest(), Priority(-128));
}

#[test]
fn args_stop_at_first_absent_entry() {
    let word = vec![
        Some("cmd0".to_string()),
        Some("a".to_string()),
        Some("b".to_string()),
        None,
        Some("c".to_string()),
    ];
    assert_eq!(collect_args(&word), vec!["a".to_string(), "b".to_string()]);
    assert!(collect_args(&Vec::new()).is_empty());
    assert!(collect_args(&vec![Some("x".to_string())]).is_empty());
}

#[test]
fn args_are_capped() {
    let word: Vec<Option<String>> = (0..40).map(|i| Some(format!("w{}", i))).collect();
    let args = collect_args(&word);
    assert_eq!(args.len(), MAX_ARGS);
    assert_eq!(args[0], "w1");
    assert_eq!(args[30], "w31");
}

#[test]
fn teardown_goes_kind_by_kind() {
    let entries = vec![
        Registration { handle: 1, kind: HookKind::Command },
        Registration { handle: 2, kind: HookKind::ServerEvent },
        Registration { handle: 3, kind: HookKind::RawServerEvent },
        Registration { handle: 4, kind: HookKind::Command },
        Registration { handle: 5, kind: HookKind::TimerTask },
        Registration { handle: 6, kind: HookKind::PrintEvent },
        Registration { handle: 7, kind: HookKind::WindowEvent },
    ];
    let order: Vec<u64> = teardown_order(&entries).iter().map(|r| r.handle).collect();
    assert_eq!(order, vec![3, 7, 6, 1, 4, 5, 2]);
    assert!(teardown_order(&Vec::new()).is_empty());
}

#[test]
fn register_then_remove_for_every_kind() {
    let mut ctx = Context::new();
    ctx.register_command(100);
    let before = ctx.hook_count();
    let p = ctx.add_print_event_listener(1);
    assert!(ctx.remove_print_event_listener(p));
    let w = ctx.add_window_event_listener(2);
    assert!(ctx.remove_window_event_listener(w));
    let r = ctx.add_raw_server_event_listener(3);
    assert!(ctx.remove_raw_server_event_listener(r));
    let t = ctx.add_timer_task(4);
    assert!(ctx.remove_timer_task(t));
    assert_eq!(ctx.hook_count(), before);
    assert!(!ctx.remove_timer_task(TimerTask(4)));
    assert!(!ctx.is_registered(1) && !ctx.is_registered(4));
}
