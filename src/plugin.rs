use vstd::prelude::*;
use vstd::string::*;

use crate::registry::{
    handle_map, in_teardown_order, lemma_teardown_same_map, registered, removal_finds, removed, teardown_order, Context, HookKind,
    Registration,
};

verus! {

/// A plugin: the user's type that the host loads.
pub trait Plugin: Sized {
    /// The name of the plugin.
    fn name() -> &'static str;

    /// A short description of the plugin.
    fn description() -> &'static str;

    /// The version of the plugin.
    fn version() -> &'static str;

    /// Builds the plugin object when the host loads the plugin.
    fn new() -> Self;
}

/// Where the one plugin instance of the process stands in its life.
#[derive(Copy, Clone, Debug, PartialEq, Eq, Structural)]
pub enum LoadState {
    /// No instance exists.
    Unloaded,
    /// The host's init entry point is constructing the instance.
    Loading,
    /// The instance is installed.
    Loaded,
    /// The host's deinit entry point is tearing the instance down.
    Unloading,
}

/// How the construction of the user's plugin object ended.
pub enum ConstructOutcome {
    /// The factory returned the plugin object.
    Constructed,
    /// The factory terminated abnormally, with the message it gave, if it was text.
    Failed(Option<String>),
}

/// The status that the init entry point reports for a loaded plugin.
pub const STATUS_OK: i32 = 1;
/// The status reported when init is entered while an instance already exists.
pub const STATUS_ALREADY_LOADED: i32 = -3;
/// The status reported when the plugin's factory failed.
pub const STATUS_CONSTRUCTOR_FAILED: i32 = -4;

/// What the init entry point reports back, and the message box command to show, if any.
pub struct LoadReport {
    /// The status handed to the host.
    pub status: i32,
    /// The host command that shows the failure to the user.
    pub message_box: Option<String>,
}

/// What remains to be released when an instance goes away: the hooks still registered, each
/// to be unhooked once, and the deferred actions, each to be run once.
pub struct Teardown<T> {
    /// The registrations still live, kind by kind in the order of teardown.
    pub hooks: Vec<Registration>,
    /// The deferred actions, in the order they were added.
    pub deferred: Vec<T>,
}

/// The host command that reports a failed load of plugin `name` at `version`.
pub open spec fn failure_message(name: Seq<char>, version: Seq<char>, panic: Option<Seq<char>>) -> Seq<
    char,
> {
    match panic {
        Some(p) => "GUI MSGBOX \"Plugin '"@ + name + " "@ + version + "' failed to load. Panic message: "@
            + p + "\""@,
        None => "GUI MSGBOX \"Plugin '"@ + name + " "@ + version + "' failed to load.\""@,
    }
}

/// Builds the host command that reports a failed load to the user.
pub fn failure_message_box(name: &str, version: &str, panic: &Option<String>) -> (r: String)
    ensures
        r@ == failure_message(
            name@,
            version@,
            match panic {
                Some(p) => Some(p@),
                None => None,
            },
        ),
{
    let mut msg = String::from_str("GUI MSGBOX \"Plugin '");
    msg.append(name);
    msg.append(" ");
    msg.append(version);
    match panic {
        Some(p) => {
            msg.append("' failed to load. Panic message: ");
            msg.append(p.as_str());
            msg.append("\"");
        },
        None => {
            msg.append("' failed to load.\"");
        },
    }
    msg
}

/// The process-wide plugin instance: its state, its hook registry and its deferred actions.
/// The values of `T` are the deferred actions.
pub struct PluginInstance<T> {
    state: LoadState,
    context: Context,
    deferred: Vec<T>,
}

/// Whether deferred actions may be added in `state`: only once the instance is installed, and
/// before it starts unloading.
pub open spec fn accepts_deferred(state: LoadState) -> bool {
    state == LoadState::Loaded
}

/// Whether hooks may be registered in `state`.
pub open spec fn accepts_hooks(state: LoadState) -> bool {
    state == LoadState::Loading || state == LoadState::Loaded
}

impl<T> PluginInstance<T> {
    /// The current state.
    pub closed spec fn state(&self) -> LoadState {
        self.state
    }

    /// The live hooks, as a map from handle to kind.
    pub closed spec fn hooks(&self) -> Map<u64, HookKind> {
        self.context@
    }

    /// The live hooks, in the order they were registered.
    pub closed spec fn hook_entries(&self) -> Seq<Registration> {
        self.context.entries()
    }

    /// The deferred actions, in the order they were added.
    pub closed spec fn deferred(&self) -> Seq<T> {
        self.deferred@
    }

    /// The invariant: the registry holds each handle once, and nothing is held while no
    /// instance exists.
    pub closed spec fn wf(&self) -> bool {
        &&& self.context.wf()
        &&& self.state == LoadState::Unloaded ==> self.context@ == Map::<u64, HookKind>::empty()
            && self.deferred@.len() == 0
    }

    /// No instance: the state before the first load.
    pub fn new() -> (r: PluginInstance<T>)
        ensures
            r.wf(),
            r.state() == LoadState::Unloaded,
            r.hooks() == Map::<u64, HookKind>::empty(),
            r.deferred() == Seq::<T>::empty(),
    {
        PluginInstance { state: LoadState::Unloaded, context: Context::new(), deferred: Vec::new() }
    }

    /// The current state.
    pub fn load_state(&self) -> (r: LoadState)
        ensures
            r == self.state(),
    {
        self.state
    }

    /// Whether an instance exists: from the start of loading to the start of unloading.
    pub fn is_loaded(&self) -> (r: bool)
        ensures
            r == accepts_hooks(self.state()),
    {
        self.state == LoadState::Loading || self.state == LoadState::Loaded
    }

    /// The hook registry.
    pub fn context(&self) -> (r: &Context)
        ensures
            r@ == self.hooks(),
            r.entries() == self.hook_entries(),
            self.wf() ==> r.wf(),
    {
        &self.context
    }

    /// Starts loading: an empty registry and an empty list of deferred actions. Returns
    /// `false`, and changes nothing, when an instance already exists.
    pub fn begin_load(&mut self) -> (r: bool)
        requires
            old(self).wf(),
        ensures
            final(self).wf(),
            r == (old(self).state() == LoadState::Unloaded),
            r ==> final(self).state() == LoadState::Loading
                && final(self).hooks() == Map::<u64, HookKind>::empty()
                && final(self).deferred() == Seq::<T>::empty(),
            !r ==> final(self).state() == old(self).state()
                && final(self).hooks() == old(self).hooks()
                && final(self).deferred() == old(self).deferred(),
    {
        if self.state != LoadState::Unloaded {
            return false;
        }
        self.state = LoadState::Loading;
        self.context = Context::new();
        self.deferred = Vec::new();
        true
    }

    /// Ends loading. When the factory built the plugin object the instance is installed;
    /// when it failed the instance is not, everything registered so far is handed back to be
    /// released, and one message box command reports the failure.
    pub fn finish_load(&mut self, name: &str, version: &str, outcome: ConstructOutcome) -> (r: (
        LoadReport,
        Teardown<T>,
    ))
        requires
            old(self).wf(),
            old(self).state() == LoadState::Loading,
        ensures
            final(self).wf(),
            match outcome {
                ConstructOutcome::Constructed => {
                    &&& final(self).state() == LoadState::Loaded
                    &&& final(self).hooks() == old(self).hooks()
                    &&& final(self).deferred() == old(self).deferred()
                    &&& r.0.status == STATUS_OK
                    &&& r.0.message_box is None
                    &&& r.1.hooks@.len() == 0
                    &&& r.1.deferred@.len() == 0
                },
                ConstructOutcome::Failed(p) => {
                    &&& final(self).state() == LoadState::Unloaded
                    &&& final(self).hooks() == Map::<u64, HookKind>::empty()
                    &&& final(self).deferred() == Seq::<T>::empty()
                    &&& r.0.status == STATUS_CONSTRUCTOR_FAILED
                    &&& r.0.message_box matches Some(m) && m@ == failure_message(
                        name@,
                        version@,
                        match p {
                            Some(p) => Some(p@),
                            None => None,
                        },
                    )
                    &&& in_teardown_order(old(self).hook_entries(), r.1.hooks@)
                    &&& handle_map(r.1.hooks@) == old(self).hooks()
                    &&& r.1.deferred@ == old(self).deferred()
                },
            },
    {
        match outcome {
            ConstructOutcome::Constructed => {
                self.state = LoadState::Loaded;
                (
                    LoadReport { status: STATUS_OK, message_box: None },
                    Teardown { hooks: Vec::new(), deferred: Vec::new() },
                )
            },
            ConstructOutcome::Failed(p) => {
                let msg = failure_message_box(name, version, &p);
                let teardown = self.take_all();
                self.state = LoadState::Unloaded;
                (
                    LoadReport { status: STATUS_CONSTRUCTOR_FAILED, message_box: Some(msg) },
                    teardown,
                )
            },
        }
    }

    fn take_all(&mut self) -> (r: Teardown<T>)
        requires
            old(self).wf(),
        ensures
            final(self).context.wf(),
            final(self).state == old(self).state,
            final(self).context@ == Map::<u64, HookKind>::empty(),
            final(self).deferred@ == Seq::<T>::empty(),
            in_teardown_order(old(self).context.entries(), r.hooks@),
            handle_map(r.hooks@) == old(self).context@,
            r.deferred@ == old(self).deferred@,
    {
        let entries = self.context.drain_hooks();
        let hooks = teardown_order(&entries);
        proof {
            lemma_teardown_same_map(entries@, hooks@);
        }
        let mut deferred: Vec<T> = Vec::new();
        std::mem::swap(&mut deferred, &mut self.deferred);
        Teardown { hooks, deferred }
    }

    /// Starts unloading: takes the instance out of service. Returns `false`, and changes
    /// nothing, when no instance is installed, so that a second unload is a no-op.
    pub fn begin_unload(&mut self) -> (r: bool)
        requires
            old(self).wf(),
        ensures
            final(self).wf(),
            r == (old(self).state() == LoadState::Loaded),
            r ==> final(self).state() == LoadState::Unloading,
            !r ==> final(self).state() == old(self).state(),
            final(self).hooks() == old(self).hooks(),
            final(self).hook_entries() == old(self).hook_entries(),
            final(self).deferred() == old(self).deferred(),
    {
        if self.state == LoadState::Loaded {
            self.state = LoadState::Unloading;
            true
        } else {
            false
        }
    }

    /// Ends unloading, once the plugin object has been dropped: every hook still registered is
    /// handed back to be unhooked once, kind by kind, and every deferred action to be run once.
    pub fn finish_unload(&mut self) -> (r: Teardown<T>)
        requires
            old(self).wf(),
            old(self).state() == LoadState::Unloading,
        ensures
            final(self).wf(),
            final(self).state() == LoadState::Unloaded,
            final(self).hooks() == Map::<u64, HookKind>::empty(),
            final(self).deferred() == Seq::<T>::empty(),
            in_teardown_order(old(self).hook_entries(), r.hooks@),
            handle_map(r.hooks@) == old(self).hooks(),
            r.deferred@ == old(self).deferred(),
    {
        let teardown = self.take_all();
        self.state = LoadState::Unloaded;
        teardown
    }

    /// Adds a deferred action, to be run once when the instance is unloaded. Adding one before
    /// the instance is installed or after it starts unloading is a contract violation.
    pub fn defer(&mut self, action: T)
        requires
            old(self).wf(),
            accepts_deferred(old(self).state()),
        ensures
            final(self).wf(),
            defer_step(*old(self), action, *final(self)),
    {
        self.deferred.push(action);
    }

    /// Adds a deferred action when the state allows it; otherwise hands the action back and
    /// changes nothing.
    pub fn try_defer(&mut self, action: T) -> (r: Result<(), T>)
        requires
            old(self).wf(),
        ensures
            final(self).wf(),
            final(self).state() == old(self).state(),
            final(self).hooks() == old(self).hooks(),
            accepts_deferred(old(self).state()) ==> r is Ok
                && final(self).deferred() == old(self).deferred().push(action),
            !accepts_deferred(old(self).state()) ==> r == Err::<(), T>(action)
                && final(self).deferred() == old(self).deferred(),
    {
        if self.state == LoadState::Loaded {
            self.deferred.push(action);
            Ok(())
        } else {
            Err(action)
        }
    }

    /// Records a hook that the host registered under `handle`.
    pub fn register(&mut self, handle: u64, kind: HookKind)
        requires
            old(self).wf(),
            accepts_hooks(old(self).state()),
            !old(self).hooks().contains_key(handle),
        ensures
            final(self).wf(),
            final(self).state() == old(self).state(),
            final(self).hooks() == registered(old(self).hooks(), handle, kind),
            final(self).deferred() == old(self).deferred(),
    {
        self.context.add_hook(handle, kind);
    }

    /// Removes a hook from the registry. Returns whether it was live; only then is it to be
    /// unhooked.
    pub fn remove(&mut self, handle: u64, kind: HookKind) -> (r: bool)
        requires
            old(self).wf(),
        ensures
            final(self).wf(),
            final(self).state() == old(self).state(),
            r == removal_finds(old(self).hooks(), handle, kind),
            final(self).hooks() == removed(old(self).hooks(), handle, kind),
            final(self).deferred() == old(self).deferred(),
    {
        self.context.take_hook(handle, kind)
    }
}

/// What one `defer` of `action` does: `before` accepts deferred actions, and `after` differs
/// from it only by that action, added at the end of its deferred actions.
pub open spec fn defer_step<T>(before: PluginInstance<T>, action: T, after: PluginInstance<T>) -> bool {
    &&& accepts_deferred(before.state())
    &&& after.state() == before.state()
    &&& after.hooks() == before.hooks()
    &&& after.hook_entries() == before.hook_entries()
    &&& after.deferred() == before.deferred().push(action)
}

/// A deferred action is only ever added to a loaded instance: before the load completes or
/// once unloading has started, no `defer` step exists (`defer` may not be called there), and
/// `try_defer` hands the action back with the deferred actions unchanged.
pub proof fn lemma_no_defer_outside_loaded<T>(
    before: PluginInstance<T>,
    action: T,
    after: PluginInstance<T>,
)
    requires
        before.state() != LoadState::Loaded,
    ensures
        !defer_step(before, action, after),
        !accepts_deferred(before.state()),
{
}

/// Deferred actions added one by one with `defer`, starting from an instance that holds none
/// (as every load starts), are exactly the deferred actions of the last instance, which
/// `finish_unload` hands back: each added action is run once, in order, and nothing else is.
/// Every step happens while the instance is loaded, since `defer_step` requires it; outside that
/// state `defer` may not be called and `try_defer` refuses.
pub proof fn lemma_deferred_each_once<T>(instances: Seq<PluginInstance<T>>, added: Seq<T>)
    requires
        instances.len() == added.len() + 1,
        instances[0].deferred() == Seq::<T>::empty(),
        forall|k: int|
            0 <= k < added.len() ==> defer_step(#[trigger] instances[k], added[k], instances[k + 1]),
    ensures
        instances.last().deferred() == added,
        forall|k: int| 0 <= k < added.len() ==> accepts_deferred(#[trigger] instances[k].state()),
    decreases added.len(),
{
    if added.len() > 0 {
        let n = added.len() - 1;
        let front = instances.subrange(0, n + 1);
        assert forall|k: int| 0 <= k < n implies defer_step(
            #[trigger] front[k],
            added.drop_last()[k],
            front[k + 1],
        ) by {
            assert(defer_step(instances[k], added[k], instances[k + 1]));
        }
        lemma_deferred_each_once(front, added.drop_last());
        assert(defer_step(instances[n], added[n], instances[n + 1]));
        assert(added.drop_last().push(added[n]) =~= added);
        assert forall|k: int| 0 <= k < added.len() implies accepts_deferred(
            #[trigger] instances[k].state(),
        ) by {
            assert(defer_step(instances[k], added[k], instances[k + 1]));
        }
    }
}

} // verus!
