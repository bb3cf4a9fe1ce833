use hexchat::chan::{ChannelRef, ChannelSwitch, RestoreStep};
use hexchat::plugin::{
    failure_message_box, ConstructOutcome, LoadState, PluginInstance, STATUS_CONSTRUCTOR_FAILED,
    STATUS_OK,
};
use hexchat::registry::HookKind;
use std::cell::Cell;
use std::rc::Rc;

type Action = Box<dyn FnOnce()>;

#[test]
fn load_and_unload_run_each_deferred_action_once() {
    let runs = Rc::new(Cell::new(0));
    let mut inst: PluginInstance<Action> = PluginInstance::new();
    assert!(inst.begin_load());
    let (report, teardown) = inst.finish_load("p", "1", ConstructOutcome::Constructed);
    assert_eq!(report.status, STATUS_OK);
    assert!(report.message_box.is_none());
    assert!(teardown.hooks.is_empty());
    assert_eq!(inst.load_state(), LoadState::Loaded);
    for _ in 0..5 {
        let r = runs.clone();
        inst.defer(Box::new(move || r.set(r.get() + 1)));
    }
    assert!(inst.begin_unload());
    assert_eq!(inst.load_state(), LoadState::Unloading);
    let teardown = inst.finish_unload();
    assert_eq!(teardown.deferred.len(), 5);
    for action in teardown.deferred {
        action();
    }
    assert_eq!(runs.get(), 5);
    assert_eq!(inst.load_state(), LoadState::Unloaded);
}

#[test]
fn deferring_outside_a_load_is_refused() {
    let mut inst: PluginInstance<u32> = PluginInstance::new();
    assert_eq!(inst.try_defer(1), Err(1));
    assert!(inst.begin_load());
    assert_eq!(inst.try_defer(5), Err(5));
    inst.finish_load("p", "1", ConstructOutcome::Constructed);
    assert_eq!(inst.try_defer(2), Ok(()));
    assert!(inst.begin_unload());
    assert_eq!(inst.try_defer(3), Err(3));
    let teardown = inst.finish_unload();
    assert_eq!(teardown.deferred, vec![2]);
}

#[test]
fn unload_tears_down_each_remaining_hook_once() {
    let mut inst: PluginInstance<u32> = PluginInstance::new();
    inst.begin_load();
    inst.finish_load("p", "1", ConstructOutcome::Constructed);
    inst.register(1, HookKind::Command);
    inst.register(2, HookKind::PrintEvent);
    inst.register(3, HookKind::TimerTask);
    inst.register(4, HookKind::RawServerEvent);
    assert!(inst.remove(2, HookKind::PrintEvent));
    assert!(!inst.remove(2, HookKind::PrintEvent));
    assert!(inst.begin_unload());
    assert!(inst.remove(3, HookKind::TimerTask));
    let teardown = inst.finish_unload();
    let handles: Vec<u64> = teardown.hooks.iter().map(|r| r.handle).collect();
    assert_eq!(handles, vec![4, 1]);
    assert_eq!(inst.context().hook_count(), 0);
}

#[test]
fn second_unload_is_a_no_op() {
    let mut inst: PluginInstance<u32> = PluginInstance::new();
    assert!(!inst.begin_unload());
    assert_eq!(inst.load_state(), LoadState::Unloaded);
    assert!(!inst.is_loaded());
}

#[test]
fn second_load_is_refused() {
    let mut inst: PluginInstance<u32> = PluginInstance::new();
    assert!(inst.begin_load());
    assert!(!inst.begin_load());
    assert_eq!(inst.load_state(), LoadState::Loading);
    assert!(inst.is_loaded());
}

#[test]
fn failing_factory_reports_and_installs_nothing() {
    let mut inst: PluginInstance<u32> = PluginInstance::new();
    assert!(inst.begin_load());
    inst.register(9, HookKind::Command);
    let (report, teardown) =
        inst.finish_load("demo", "0.1", ConstructOutcome::Failed(Some("boom".to_string())));
    assert!(report.status < 0);
    assert_eq!(report.status, STATUS_CONSTRUCTOR_FAILED);
    let boxes: Vec<&String> = report.message_box.iter().collect();
    assert_eq!(boxes.len(), 1);
    assert_eq!(
        boxes[0],
        "GUI MSGBOX \"Plugin 'demo 0.1' failed to load. Panic message: boom\""
    );
    assert_eq!(inst.load_state(), LoadState::Unloaded);
    assert_eq!(teardown.hooks.len(), 1);
    assert!(teardown.deferred.is_empty());
    assert_eq!(inst.context().hook_count(), 0);
}

#[test]
fn failure_message_without_text() {
    assert_eq!(
        failure_message_box("demo", "0.1", &None),
        "GUI MSGBOX \"Plugin 'demo 0.1' failed to load.\""
    );
}

#[test]
fn scoped_switch_restores_the_saved_context() {
    let saved = ChannelRef { handle: 1 };
    let target = ChannelRef { handle: 2 };
    let switch = ChannelSwitch::begin(saved, target);
    assert_eq!(switch.switch_to(), target);
    // the operation switches elsewhere and does not switch back
    let _left_by_op = ChannelRef { handle: 3 };
    assert_eq!(switch.restore_to(), saved);
    assert_eq!(switch.after_restore(true), RestoreStep::Done);
    assert_eq!(switch.after_restore(false), RestoreStep::FallBackToFirst);
}
