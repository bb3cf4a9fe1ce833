use vstd::prelude::*;

use crate::registry::{registered, removal_finds, removed, Context, HookKind};

verus! {

/// The priority of an event listener or command.
///
/// Listeners with a higher priority run first; among equal priorities the one registered
/// earlier runs first. An earlier listener can hide the event from later ones through its
/// `EatMode`.
#[derive(Copy, Clone, Debug, PartialEq, Eq, Structural)]
pub struct Priority(pub i8);

impl Priority {
    /// The highest possible priority.
    pub fn highest() -> (r: Priority)
        ensures
            r.0 == 127,
    {
        Priority(127)
    }

    /// A fairly high priority.
    pub fn high() -> (r: Priority)
        ensures
            r.0 == 64,
    {
        Priority(64)
    }

    /// The usual priority.
    pub fn normal() -> (r: Priority)
        ensures
            r.0 == 0,
    {
        Priority(0)
    }

    /// A fairly low priority.
    pub fn low() -> (r: Priority)
        ensures
            r.0 == -64,
    {
        Priority(-64)
    }

    /// The lowest possible priority.
    pub fn lowest() -> (r: Priority)
        ensures
            r.0 == -128,
    {
        Priority(-128)
    }
}

/// Who an event or command is hidden from once a listener has processed it.
#[derive(Copy, Clone, Debug, PartialEq, Eq, Structural)]
pub enum EatMode {
    /// Hidden from nobody: the host and other plugins still see it.
    Nothing,
    /// Hidden from the host's default handling; other plugins still see it.
    Hexchat,
    /// Hidden from other plugins; the host still handles it.
    Plugin,
    /// Hidden from both the host and other plugins.
    All,
}

/// The host's integer encoding of an eat policy.
pub open spec fn eat_code(mode: EatMode) -> i32 {
    match mode {
        EatMode::Nothing => 0,
        EatMode::Hexchat => 1,
        EatMode::Plugin => 2,
        EatMode::All => 3,
    }
}

/// Whether a policy keeps the event from the listeners of other plugins and later listeners.
pub open spec fn hides_from_plugins(mode: EatMode) -> bool {
    mode == EatMode::Plugin || mode == EatMode::All
}

impl EatMode {
    /// The integer that the host expects for this policy.
    pub fn code(self) -> (r: i32)
        ensures
            r == eat_code(self),
    {
        match self {
            EatMode::Nothing => 0,
            EatMode::Hexchat => 1,
            EatMode::Plugin => 2,
            EatMode::All => 3,
        }
    }

    /// Whether this policy stops the event from reaching later listeners.
    pub fn hides_from_plugins(self) -> (r: bool)
        ensures
            r == hides_from_plugins(self),
    {
        match self {
            EatMode::Plugin | EatMode::All => true,
            _ => false,
        }
    }
}

/// The value handed back to the host for a callback that returned `outcome`, or `None` when
/// the callback terminated abnormally: that is treated as asking for no special handling.
pub fn callback_result(outcome: Option<EatMode>) -> (r: i32)
    ensures
        r == match outcome {
            Some(m) => eat_code(m),
            None => eat_code(EatMode::Nothing),
        },
{
    match outcome {
        Some(m) => m.code(),
        None => EatMode::Nothing.code(),
    }
}

/// The largest timer interval the host accepts, in milliseconds.
pub const MAX_TIMER_INTERVAL_MS: i32 = 2147483647;

/// The interval handed to the host for a timer of `ms` milliseconds: longer intervals are
/// truncated to the largest one it accepts.
pub fn timer_interval_ms(ms: u128) -> (r: i32)
    ensures
        ms <= MAX_TIMER_INTERVAL_MS ==> r == ms,
        ms > MAX_TIMER_INTERVAL_MS ==> r == MAX_TIMER_INTERVAL_MS,
{
    if ms > MAX_TIMER_INTERVAL_MS as u128 {
        MAX_TIMER_INTERVAL_MS
    } else {
        ms as i32
    }
}

/// The most arguments that are read from one raw argument array.
pub const MAX_ARGS: usize = 31;

/// Whether `args` is what is read from the raw argument array `word`: the entries from index 1
/// on, up to the first absent one and at most `MAX_ARGS` of them.
pub open spec fn decoded_args(word: Seq<Option<String>>, args: Seq<String>) -> bool {
    &&& args.len() <= MAX_ARGS
    &&& args.len() + 1 <= word.len() || word.len() == 0 && args.len() == 0
    &&& forall|k: int|
        0 <= k < args.len() ==> (#[trigger] word[k + 1]) == Some(args[k])
    &&& args.len() == MAX_ARGS || args.len() + 1 == word.len() || word.len() == 0
        || word[args.len() + 1int] is None
}

/// Reads the arguments of a callback from the host's raw argument array, whose index 0 is not
/// an argument: the entries from index 1 on, stopping at the first absent entry and after
/// `MAX_ARGS` entries.
pub fn collect_args(word: &Vec<Option<String>>) -> (r: Vec<String>)
    ensures
        decoded_args(word@, r@),
{
    let mut args: Vec<String> = Vec::new();
    if word.len() == 0 {
        return args;
    }
    let mut i: usize = 1;
    while i < word.len() && args.len() < MAX_ARGS && word[i].is_some()
        invariant
            1 <= i <= word.len(),
            args.len() == i - 1,
            args.len() <= MAX_ARGS,
            forall|k: int| 0 <= k < args.len() ==> (#[trigger] word@[k + 1]) == Some(args@[k]),
        decreases word.len() - i,
    {
        if let Some(s) = &word[i] {
            args.push(s.clone());
        }
        i = i + 1;
    }
    args
}

/// A handle to a registered command.
#[derive(Debug, PartialEq, Eq, Hash, Structural)]
pub struct Command(pub u64);

impl Command {
    /// The host's handle for this hook.
    pub fn handle(&self) -> (r: u64)
        ensures
            r == self.0,
    {
        self.0
    }
}

/// A handle to a registered print event listener.
#[derive(Debug, PartialEq, Eq, Hash, Structural)]
pub struct PrintEventListener(pub u64);

impl PrintEventListener {
    /// The host's handle for this hook.
    pub fn handle(&self) -> (r: u64)
        ensures
            r == self.0,
    {
        self.0
    }
}

/// A handle to a registered window event listener.
#[derive(Debug, PartialEq, Eq, Hash, Structural)]
pub struct WindowEventListener(pub u64);

impl WindowEventListener {
    /// The host's handle for this hook.
    pub fn handle(&self) -> (r: u64)
        ensures
            r == self.0,
    {
        self.0
    }
}

/// A handle to a registered raw server event listener.
#[derive(Debug, PartialEq, Eq, Hash, Structural)]
pub struct RawServerEventListener(pub u64);

impl RawServerEventListener {
    /// The host's handle for this hook.
    pub fn handle(&self) -> (r: u64)
        ensures
            r == self.0,
    {
        self.0
    }
}

/// A handle to a registered timer task.
#[derive(Debug, PartialEq, Eq, Hash, Structural)]
pub struct TimerTask(pub u64);

impl TimerTask {
    /// The host's handle for this hook.
    pub fn handle(&self) -> (r: u64)
        ensures
            r == self.0,
    {
        self.0
    }
}

/// A handle to a registered typed server event listener.
#[derive(Debug, PartialEq, Eq, Hash, Structural)]
pub struct ServerEventListener(pub u64);

impl ServerEventListener {
    /// The host's handle for this hook.
    pub fn handle(&self) -> (r: u64)
        ensures
            r == self.0,
    {
        self.0
    }
}

impl Context {
    /// Records the command that the host registered under `handle`.
    pub fn register_command(&mut self, handle: u64) -> (r: Command)
        requires
            old(self).wf(),
            !old(self)@.contains_key(handle),
        ensures
            final(self).wf(),
            r.0 == handle,
            final(self)@ == registered(old(self)@, handle, HookKind::Command),
    {
        self.add_hook(handle, HookKind::Command);
        Command(handle)
    }

    /// Removes a command from the registry. Returns whether it was still live, in which case
    /// the caller unhooks it from the host and frees its callback.
    pub fn deregister_command(&mut self, command: Command) -> (r: bool)
        requires
            old(self).wf(),
        ensures
            final(self).wf(),
            r == removal_finds(old(self)@, command.0, HookKind::Command),
            final(self)@ == removed(old(self)@, command.0, HookKind::Command),
    {
        self.take_hook(command.0, HookKind::Command)
    }

    /// Records the print event listener that the host registered under `handle`.
    pub fn add_print_event_listener(&mut self, handle: u64) -> (r: PrintEventListener)
        requires
            old(self).wf(),
            !old(self)@.contains_key(handle),
        ensures
            final(self).wf(),
            r.0 == handle,
            final(self)@ == registered(old(self)@, handle, HookKind::PrintEvent),
    {
        self.add_hook(handle, HookKind::PrintEvent);
        PrintEventListener(handle)
    }

    /// Removes a print event listener from the registry. Returns whether it was still live, in which case
    /// the caller unhooks it from the host and frees its callback.
    pub fn remove_print_event_listener(&mut self, listener: PrintEventListener) -> (r: bool)
        requires
            old(self).wf(),
        ensures
            final(self).wf(),
            r == removal_finds(old(self)@, listener.0, HookKind::PrintEvent),
            final(self)@ == removed(old(self)@, listener.0, HookKind::PrintEvent),
    {
        self.take_hook(listener.0, HookKind::PrintEvent)
    }

    /// Records the window event listener that the host registered under `handle`.
    pub fn add_window_event_listener(&mut self, handle: u64) -> (r: WindowEventListener)
        requires
            old(self).wf(),
            !old(self)@.contains_key(handle),
        ensures
            final(self).wf(),
            r.0 == handle,
            final(self)@ == registered(old(self)@, handle, HookKind::WindowEvent),
    {
        self.add_hook(handle, HookKind::WindowEvent);
        WindowEventListener(handle)
    }

    /// Removes a window event listener from the registry. Returns whether it was still live, in which case
    /// the caller unhooks it from the host and frees its callback.
    pub fn remove_window_event_listener(&mut self, listener: WindowEventListener) -> (r: bool)
        requires
            old(self).wf(),
        ensures
            final(self).wf(),
            r == removal_finds(old(self)@, listener.0, HookKind::WindowEvent),
            final(self)@ == removed(old(self)@, listener.0, HookKind::WindowEvent),
    {
        self.take_hook(listener.0, HookKind::WindowEvent)
    }

    /// Records the raw server event listener that the host registered under `handle`.
    pub fn add_raw_server_event_listener(&mut self, handle: u64) -> (r: RawServerEventListener)
        requires
            old(self).wf(),
            !old(self)@.contains_key(handle),
        ensures
            final(self).wf(),
            r.0 == handle,
            final(self)@ == registered(old(self)@, handle, HookKind::RawServerEvent),
    {
        self.add_hook(handle, HookKind::RawServerEvent);
        RawServerEventListener(handle)
    }

    /// Removes a raw server event listener from the registry. Returns whether it was still live, in which case
    /// the caller unhooks it from the host and frees its callback.
    pub fn remove_raw_server_event_listener(&mut self, listener: RawServerEventListener) -> (r: bool)
        requires
            old(self).wf(),
        ensures
            final(self).wf(),
            r == removal_finds(old(self)@, listener.0, HookKind::RawServerEvent),
            final(self)@ == removed(old(self)@, listener.0, HookKind::RawServerEvent),
    {
        self.take_hook(listener.0, HookKind::RawServerEvent)
    }

    /// Records the timer task that the host registered under `handle`.
    pub fn add_timer_task(&mut self, handle: u64) -> (r: TimerTask)
        requires
            old(self).wf(),
            !old(self)@.contains_key(handle),
        ensures
            final(self).wf(),
            r.0 == handle,
            final(self)@ == registered(old(self)@, handle, HookKind::TimerTask),
    {
        self.add_hook(handle, HookKind::TimerTask);
        TimerTask(handle)
    }

    /// Removes a timer task from the registry. Returns whether it was still live, in which case
    /// the caller unhooks it from the host and frees its callback.
    pub fn remove_timer_task(&mut self, task: TimerTask) -> (r: bool)
        requires
            old(self).wf(),
        ensures
            final(self).wf(),
            r == removal_finds(old(self)@, task.0, HookKind::TimerTask),
            final(self)@ == removed(old(self)@, task.0, HookKind::TimerTask),
    {
        self.take_hook(task.0, HookKind::TimerTask)
    }

    /// Records the typed server event listener that the host registered under `handle`.
    pub fn add_server_event_listener(&mut self, handle: u64) -> (r: ServerEventListener)
        requires
            old(self).wf(),
            !old(self)@.contains_key(handle),
        ensures
            final(self).wf(),
            r.0 == handle,
            final(self)@ == registered(old(self)@, handle, HookKind::ServerEvent),
    {
        self.add_hook(handle, HookKind::ServerEvent);
        ServerEventListener(handle)
    }

    /// Removes a typed server event listener from the registry. Returns whether it was still live, in which case
    /// the caller unhooks it from the host and frees its callback.
    pub fn remove_server_event_listener(&mut self, listener: ServerEventListener) -> (r: bool)
        requires
            old(self).wf(),
        ensures
            final(self).wf(),
            r == removal_finds(old(self)@, listener.0, HookKind::ServerEvent),
            final(self)@ == removed(old(self)@, listener.0, HookKind::ServerEvent),
    {
        self.take_hook(listener.0, HookKind::ServerEvent)
    }

}

} // verus!
