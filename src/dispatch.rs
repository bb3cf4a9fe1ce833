use vstd::prelude::*;

use crate::hook::{hides_from_plugins, EatMode, Priority};

verus! {

/// What one dispatch over the listeners `q`, in run order, may have called: a prefix of them,
/// where `modes[k]` is what the `k`-th call returned; each result but the last lets the event
/// through, and the last hid it unless every listener was called.
pub open spec fn dispatch_outcome<F: Fn(u64) -> EatMode>(
    q: Seq<Listener>,
    run: F,
    called: Seq<u64>,
    modes: Seq<EatMode>,
) -> bool {
    &&& called.len() <= q.len()
    &&& modes.len() == called.len()
    &&& forall|k: int|
        0 <= k < called.len() ==> called[k] == (#[trigger] q[k]).id && call_ensures(
            run,
            (q[k].id,),
            modes[k],
        )
    &&& forall|k: int| 0 <= k < called.len() - 1 ==> !hides_from_plugins(#[trigger] modes[k])
    &&& called.len() < q.len() ==> called.len() > 0 && hides_from_plugins(
        modes[called.len() - 1],
    )
}

/// A listener of one event: its identifier and its priority.
#[derive(Copy, Clone, Debug, PartialEq, Eq, Structural)]
pub struct Listener {
    /// The identifier of the listener.
    pub id: u64,
    /// The priority it was registered with.
    pub priority: Priority,
}

/// Whether listeners run in order of descending priority.
pub open spec fn in_run_order(s: Seq<Listener>) -> bool {
    forall|i: int, j: int| 0 <= i < j < s.len() ==> s[i].priority.0 >= s[j].priority.0
}

/// The listeners of one event in the order they run: by descending priority, and among equal
/// priorities in the order they were added.
///
/// This is a model of how the host orders and stops listeners, for reasoning and testing; the
/// host does the real dispatch, and no path through the bindings uses this type.
pub struct ListenerQueue {
    listeners: Vec<Listener>,
}

impl ListenerQueue {
    /// The listeners in the order they run.
    pub closed spec fn view(&self) -> Seq<Listener> {
        self.listeners@
    }

    /// The queue's invariant: the listeners are in run order.
    pub open spec fn wf(&self) -> bool {
        in_run_order(self@)
    }

    /// An empty queue.
    pub fn new() -> (r: ListenerQueue)
        ensures
            r.wf(),
            r@ == Seq::<Listener>::empty(),
    {
        ListenerQueue { listeners: Vec::new() }
    }

    /// The number of listeners.
    pub fn len(&self) -> (r: usize)
        ensures
            r == self@.len(),
    {
        self.listeners.len()
    }

    /// The listeners in the order they run.
    pub fn order(&self) -> (r: Vec<u64>)
        ensures
            r@.len() == self@.len(),
            forall|k: int| 0 <= k < r@.len() ==> r@[k] == (#[trigger] self@[k]).id,
    {
        let mut out: Vec<u64> = Vec::new();
        let mut i: usize = 0;
        while i < self.listeners.len()
            invariant
                i <= self@.len(),
                out@.len() == i,
                forall|k: int| 0 <= k < i ==> out@[k] == (#[trigger] self@[k]).id,
            decreases self@.len() - i,
        {
            out.push(self.listeners[i].id);
            i = i + 1;
        }
        out
    }

    /// Adds a listener: it runs after every listener of higher or equal priority and before
    /// every listener of lower priority.
    pub fn add(&mut self, listener: Listener)
        requires
            old(self).wf(),
        ensures
            final(self).wf(),
            exists|pos: int|
                0 <= pos <= old(self)@.len() && final(self)@ == old(self)@.insert(pos, listener)
                    && (forall|k: int|
                    0 <= k < pos ==> (#[trigger] old(self)@[k]).priority.0
                        >= listener.priority.0) && (forall|k: int|
                    pos <= k < old(self)@.len() ==> (#[trigger] old(self)@[k]).priority.0
                        < listener.priority.0),
    {
        let mut pos: usize = 0;
        while pos < self.listeners.len() && self.listeners[pos].priority.0 >= listener.priority.0
            invariant
                pos <= self@.len(),
                self@ == old(self)@,
                in_run_order(self@),
                forall|k: int| 0 <= k < pos ==> (#[trigger] self@[k]).priority.0
                    >= listener.priority.0,
            decreases self@.len() - pos,
        {
            pos = pos + 1;
        }
        let ghost before = self@;
        self.listeners.insert(pos, listener);
        assert forall|k: int| pos <= k < before.len() implies (#[trigger] before[k]).priority.0
            < listener.priority.0 by {
            assert(before[pos as int].priority.0 < listener.priority.0);
        }
        assert(in_run_order(self@)) by {
            assert forall|i: int, j: int| 0 <= i < j < self@.len() implies self@[i].priority.0
                >= self@[j].priority.0 by {
                if i < pos && j > pos {
                    assert(self@[i] == before[i]);
                    assert(self@[j] == before[j - 1]);
                } else if i < pos && j == pos {
                    assert(self@[i] == before[i]);
                } else if i == pos {
                    assert(self@[j] == before[j - 1]);
                } else if j < pos {
                    assert(self@[i] == before[i]);
                    assert(self@[j] == before[j]);
                } else {
                    assert(self@[i] == before[i - 1]);
                    assert(self@[j] == before[j - 1]);
                }
            }
        }
    }

    /// Runs one dispatch of the event: calls `run` on each listener in run order, and stops
    /// after the first one whose result hides the event from later listeners. Returns the
    /// listeners called, in order.
    pub fn dispatch<F: Fn(u64) -> EatMode>(&self, run: &F) -> (r: Vec<u64>)
        requires
            forall|id: u64| call_requires(*run, (id,)),
        ensures
            exists|modes: Seq<EatMode>| dispatch_outcome(self@, *run, r@, modes),
    {
        let mut called: Vec<u64> = Vec::new();
        let ghost mut modes: Seq<EatMode> = Seq::empty();
        let mut i: usize = 0;
        while i < self.listeners.len()
            invariant
                i <= self@.len(),
                called@.len() == i,
                modes.len() == i,
                forall|id: u64| call_requires(*run, (id,)),
                forall|k: int|
                    0 <= k < i ==> called@[k] == (#[trigger] self@[k]).id && call_ensures(
                        *run,
                        (self@[k].id,),
                        modes[k],
                    ),
                forall|k: int| 0 <= k < i ==> !hides_from_plugins(#[trigger] modes[k]),
            decreases self@.len() - i,
        {
            let id = self.listeners[i].id;
            let mode = run(id);
            called.push(id);
            proof {
                modes = modes.push(mode);
            }
            if mode.hides_from_plugins() {
                assert(dispatch_outcome(self@, *run, called@, modes));
                return called;
            }
            i = i + 1;
        }
        assert(dispatch_outcome(self@, *run, called@, modes));
        called
    }
}

/// Of two listeners in a queue, the one of higher priority runs first.
pub proof fn lemma_higher_priority_runs_first(q: ListenerQueue, i: int, j: int)
    requires
        q.wf(),
        0 <= i < q@.len(),
        0 <= j < q@.len(),
        q@[i].priority.0 > q@[j].priority.0,
    ensures
        i < j,
{
    if j < i {
        assert(q@[j].priority.0 >= q@[i].priority.0);
    }
}

/// A listener whose result always hides the event stops the dispatch: no listener after it,
/// such as one of lower priority, is called in that dispatch.
pub proof fn lemma_eaten_event_stops<F: Fn(u64) -> EatMode>(
    q: ListenerQueue,
    run: F,
    called: Seq<u64>,
    modes: Seq<EatMode>,
    i: int,
    j: int,
)
    requires
        dispatch_outcome(q@, run, called, modes),
        0 <= i < j < q@.len(),
        forall|m: EatMode| call_ensures(run, (q@[i].id,), m) ==> hides_from_plugins(m),
    ensures
        called.len() <= j,
{
    if called.len() > j {
        assert(call_ensures(run, (q@[i].id,), modes[i]));
        assert(!hides_from_plugins(modes[i]));
    }
}

} // verus!
