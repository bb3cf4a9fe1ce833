use vstd::prelude::*;

verus! {

/// The kind of a hook registration.
#[derive(Copy, Clone, Debug, PartialEq, Eq, Structural)]
pub enum HookKind {
    /// A command typed by the user.
    Command,
    /// A listener for a print event.
    PrintEvent,
    /// A listener for a window event.
    WindowEvent,
    /// A listener for raw server events.
    RawServerEvent,
    /// A periodic timer task.
    TimerTask,
    /// A listener for parsed server events.
    ServerEvent,
}

/// One live registration: the host's handle for a hook, and what kind of hook it is.
#[derive(Copy, Clone, Debug, PartialEq, Eq, Structural)]
pub struct Registration {
    /// The opaque handle the host returned on registration.
    pub handle: u64,
    /// The kind of the hook.
    pub kind: HookKind,
}

/// Whether no handle occurs twice in `s`.
pub open spec fn unique_handles(s: Seq<Registration>) -> bool {
    forall|i: int, j: int|
        0 <= i < s.len() && 0 <= j < s.len() && i != j ==> s[i].handle != s[j].handle
}

/// The registrations of `s` as a map from handle to kind.
pub open spec fn handle_map(s: Seq<Registration>) -> Map<u64, HookKind>
    decreases s.len(),
{
    if s.len() == 0 {
        Map::empty()
    } else {
        handle_map(s.drop_last()).insert(s.last().handle, s.last().kind)
    }
}

/// How many times `h` occurs as a handle in `s`.
pub open spec fn occurrences(s: Seq<Registration>, h: u64) -> nat
    decreases s.len(),
{
    if s.len() == 0 {
        0
    } else {
        occurrences(s.drop_last(), h) + if s.last().handle == h {
            1nat
        } else {
            0nat
        }
    }
}

/// A handle is in the map exactly where it occurs in the sequence, with the kind found there.
pub proof fn lemma_handle_map_domain(s: Seq<Registration>)
    requires
        unique_handles(s),
    ensures
        handle_map(s).dom().finite(),
        handle_map(s).len() == s.len(),
        forall|h: u64|
            handle_map(s).contains_key(h) <==> exists|i: int|
                0 <= i < s.len() && (#[trigger] s[i]).handle == h,
        forall|i: int|
            0 <= i < s.len() ==> handle_map(s)[(#[trigger] s[i]).handle] == s[i].kind,
    decreases s.len(),
{
    if s.len() > 0 {
        let t = s.drop_last();
        lemma_handle_map_domain(t);
        assert forall|h: u64|
            handle_map(s).contains_key(h) <==> exists|i: int|
                0 <= i < s.len() && (#[trigger] s[i]).handle == h by {
            if handle_map(t).contains_key(h) {
                let i = choose|i: int| 0 <= i < t.len() && (#[trigger] t[i]).handle == h;
                assert(s[i] == t[i]);
            }
            if exists|i: int| 0 <= i < s.len() && (#[trigger] s[i]).handle == h {
                let i = choose|i: int| 0 <= i < s.len() && (#[trigger] s[i]).handle == h;
                if i < t.len() {
                    assert(t[i] == s[i]);
                }
            }
        }
        assert(!handle_map(t).contains_key(s.last().handle)) by {
            if handle_map(t).contains_key(s.last().handle) {
                let i = choose|i: int| 0 <= i < t.len() && (#[trigger] t[i]).handle
                    == s.last().handle;
                assert(s[i] == t[i]);
            }
        }
        assert forall|i: int| 0 <= i < s.len() implies handle_map(s)[(#[trigger] s[i]).handle]
            == s[i].kind by {
            if i < t.len() {
                assert(t[i] == s[i]);
            }
        }
    }
}

/// Removing the registration at `i` removes its handle from the map.
pub proof fn lemma_handle_map_remove(s: Seq<Registration>, i: int)
    requires
        unique_handles(s),
        0 <= i < s.len(),
    ensures
        unique_handles(s.remove(i)),
        handle_map(s.remove(i)) == handle_map(s).remove(s[i].handle),
    decreases s.len(),
{
    let t = s.drop_last();
    lemma_handle_map_domain(t);
    if i == s.len() - 1 {
        assert(s.remove(i) =~= t);
        assert(!handle_map(t).contains_key(s[i].handle)) by {
            if handle_map(t).contains_key(s[i].handle) {
                let j = choose|j: int| 0 <= j < t.len() && (#[trigger] t[j]).handle == s[i].handle;
                assert(s[j] == t[j]);
            }
        }
        assert(handle_map(s.remove(i)) =~= handle_map(s).remove(s[i].handle));
    } else {
        lemma_handle_map_remove(t, i);
        assert(s.remove(i).drop_last() =~= t.remove(i));
        assert(s.remove(i).last() == s.last());
        assert(handle_map(s.remove(i)) =~= handle_map(s).remove(s[i].handle));
    }
}

/// A handle occurs once in a sequence without repeated handles exactly when it is in its map.
pub proof fn lemma_occurrences(s: Seq<Registration>, h: u64)
    requires
        unique_handles(s),
    ensures
        occurrences(s, h) == if handle_map(s).contains_key(h) {
            1nat
        } else {
            0nat
        },
    decreases s.len(),
{
    if s.len() > 0 {
        let t = s.drop_last();
        lemma_occurrences(t, h);
        lemma_handle_map_domain(t);
        if s.last().handle == h && handle_map(t).contains_key(h) {
            let j = choose|j: int| 0 <= j < t.len() && (#[trigger] t[j]).handle == h;
            assert(s[j] == t[j]);
        }
    }
}

/// The live hook registrations of one plugin instance, each handle at most once.
pub struct Context {
    hooks: Vec<Registration>,
}

/// The registry after registering `handle` as a hook of `kind`.
pub open spec fn registered(m: Map<u64, HookKind>, handle: u64, kind: HookKind) -> Map<
    u64,
    HookKind,
> {
    m.insert(handle, kind)
}

/// Whether removing `handle` as a hook of `kind` finds it in the registry.
pub open spec fn removal_finds(m: Map<u64, HookKind>, handle: u64, kind: HookKind) -> bool {
    m.contains_key(handle) && m[handle] == kind
}

/// The registry after removing `handle` as a hook of `kind`: unchanged when it is not there
/// under that kind.
pub open spec fn removed(m: Map<u64, HookKind>, handle: u64, kind: HookKind) -> Map<
    u64,
    HookKind,
> {
    if removal_finds(m, handle, kind) {
        m.remove(handle)
    } else {
        m
    }
}

impl Context {
    /// The registrations, in the order they were made.
    pub closed spec fn entries(&self) -> Seq<Registration> {
        self.hooks@
    }

    /// The registry as a map from handle to kind.
    pub open spec fn view(&self) -> Map<u64, HookKind> {
        handle_map(self.entries())
    }

    /// The registry's invariant: no handle is registered twice.
    pub open spec fn wf(&self) -> bool {
        unique_handles(self.entries())
    }

    /// An empty registry.
    pub fn new() -> (r: Context)
        ensures
            r.wf(),
            r.entries() == Seq::<Registration>::empty(),
            r@ == Map::<u64, HookKind>::empty(),
    {
        Context { hooks: Vec::new() }
    }

    /// The number of live registrations.
    pub fn hook_count(&self) -> (r: usize)
        requires
            self.wf(),
        ensures
            r == self@.len(),
    {
        proof {
            lemma_handle_map_domain(self.entries());
        }
        self.hooks.len()
    }

    fn position(&self, handle: u64) -> (r: Option<usize>)
        ensures
            match r {
                Some(i) => i < self.entries().len() && self.entries()[i as int].handle == handle,
                None => forall|i: int|
                    0 <= i < self.entries().len() ==> (#[trigger] self.entries()[i]).handle
                        != handle,
            },
    {
        let mut i: usize = 0;
        while i < self.hooks.len()
            invariant
                i <= self.hooks.len(),
                forall|j: int| 0 <= j < i ==> (#[trigger] self.hooks@[j]).handle != handle,
            decreases self.hooks.len() - i,
        {
            if self.hooks[i].handle == handle {
                return Some(i);
            }
            i = i + 1;
        }
        None
    }

    /// Whether `handle` is a live registration.
    pub fn is_registered(&self, handle: u64) -> (r: bool)
        requires
            self.wf(),
        ensures
            r == self@.contains_key(handle),
    {
        proof {
            lemma_handle_map_domain(self.entries());
        }
        self.position(handle).is_some()
    }

    /// Records `handle` as a live hook of `kind`. The host hands out a fresh handle for each
    /// registration.
    pub fn add_hook(&mut self, handle: u64, kind: HookKind)
        requires
            old(self).wf(),
            !old(self)@.contains_key(handle),
        ensures
            final(self).wf(),
            final(self)@ == registered(old(self)@, handle, kind),
            final(self).entries() == old(self).entries().push(Registration { handle, kind }),
    {
        proof {
            lemma_handle_map_domain(self.entries());
        }
        self.hooks.push(Registration { handle, kind });
        proof {
            let s = self.entries();
            assert(s.drop_last() =~= old(self).entries());
            assert forall|i: int, j: int|
                0 <= i < s.len() && 0 <= j < s.len() && i != j implies s[i].handle
                != s[j].handle by {
                if i == s.len() - 1 {
                    assert(old(self).entries()[j] == s[j]);
                } else if j == s.len() - 1 {
                    assert(old(self).entries()[i] == s[i]);
                } else {
                    assert(old(self).entries()[i] == s[i]);
                    assert(old(self).entries()[j] == s[j]);
                }
            }
        }
    }

    /// Removes the registration of `handle` as a hook of `kind`. Returns whether it was live:
    /// only then does the caller tear the hook down, so that no hook is torn down twice.
    pub fn take_hook(&mut self, handle: u64, kind: HookKind) -> (r: bool)
        requires
            old(self).wf(),
        ensures
            final(self).wf(),
            r == removal_finds(old(self)@, handle, kind),
            final(self)@ == removed(old(self)@, handle, kind),
    {
        proof {
            lemma_handle_map_domain(self.entries());
        }
        match self.position(handle) {
            Some(i) => {
                if self.hooks[i].kind == kind {
                    proof {
                        lemma_handle_map_remove(self.entries(), i as int);
                    }
                    self.hooks.remove(i);
                    true
                } else {
                    false
                }
            },
            None => false,
        }
    }

    /// Empties the registry and hands back every registration that was live, in the order they
    /// were made.
    pub fn drain_hooks(&mut self) -> (r: Vec<Registration>)
        requires
            old(self).wf(),
        ensures
            final(self).wf(),
            final(self)@ == Map::<u64, HookKind>::empty(),
            r@ == old(self).entries(),
            unique_handles(r@),
            handle_map(r@) == old(self)@,
    {
        let mut out: Vec<Registration> = Vec::new();
        std::mem::swap(&mut out, &mut self.hooks);
        out
    }
}

/// Registering a hook under a fresh handle and then removing it leaves the registry as it was,
/// with the same size: the removal finds the hook, and a second removal finds nothing, so its
/// callback is freed exactly once.
pub proof fn lemma_register_then_remove(m: Map<u64, HookKind>, handle: u64, kind: HookKind)
    requires
        m.dom().finite(),
        !m.contains_key(handle),
    ensures
        removal_finds(registered(m, handle, kind), handle, kind),
        removed(registered(m, handle, kind), handle, kind) == m,
        removed(registered(m, handle, kind), handle, kind).len() == m.len(),
        !removal_finds(removed(registered(m, handle, kind), handle, kind), handle, kind),
{
    assert(registered(m, handle, kind).remove(handle) =~= m);
}


/// The place of a hook kind in the order of teardown: raw server event listeners first, then
/// window event listeners, print event listeners, commands, timer tasks, and parsed server
/// event listeners last.
pub open spec fn teardown_rank(k: HookKind) -> int {
    match k {
        HookKind::RawServerEvent => 0,
        HookKind::WindowEvent => 1,
        HookKind::PrintEvent => 2,
        HookKind::Command => 3,
        HookKind::TimerTask => 4,
        HookKind::ServerEvent => 5,
    }
}

fn kind_of_rank(p: usize) -> (r: HookKind)
    requires
        p < 6,
    ensures
        teardown_rank(r) == p,
{
    match p {
        0 => HookKind::RawServerEvent,
        1 => HookKind::WindowEvent,
        2 => HookKind::PrintEvent,
        3 => HookKind::Command,
        4 => HookKind::TimerTask,
        _ => HookKind::ServerEvent,
    }
}

/// Whether `r` holds the registrations of `s` in the order of teardown: each of them once, no
/// other, kind by kind.
pub open spec fn in_teardown_order(s: Seq<Registration>, r: Seq<Registration>) -> bool {
    &&& unique_handles(r)
    &&& forall|i: int| 0 <= i < r.len() ==> s.contains(#[trigger] r[i])
    &&& forall|j: int| 0 <= j < s.len() ==> r.contains(#[trigger] s[j])
    &&& forall|a: int, b: int|
        0 <= a < b < r.len() ==> teardown_rank(r[a].kind) <= teardown_rank(r[b].kind)
}

/// Orders registrations for teardown, kind by kind (see `teardown_rank`); within a kind, in the
/// order they were made.
pub fn teardown_order(entries: &Vec<Registration>) -> (r: Vec<Registration>)
    requires
        unique_handles(entries@),
    ensures
        in_teardown_order(entries@, r@),
{
    let n = entries.len();
    let mut out: Vec<Registration> = Vec::new();
    let ghost mut src: Seq<int> = Seq::empty();
    let mut p: usize = 0;
    while p < 6
        invariant
            n == entries@.len(),
            unique_handles(entries@),
            p <= 6,
            out@.len() == src.len(),
            forall|a: int|
                0 <= a < out@.len() ==> 0 <= #[trigger] src[a] < n && out@[a] == entries@[src[a]],
            forall|a: int, b: int| 0 <= a < b < out@.len() ==> src[a] != src[b],
            forall|a: int| 0 <= a < out@.len() ==> teardown_rank(#[trigger] out@[a].kind) < p,
            forall|a: int, b: int|
                0 <= a < b < out@.len() ==> teardown_rank(out@[a].kind) <= teardown_rank(
                    out@[b].kind,
                ),
            forall|j: int|
                0 <= j < n && teardown_rank(#[trigger] entries@[j].kind) < p ==> exists|a: int|
                    0 <= a < out@.len() && src[a] == j,
        decreases 6 - p,
    {
        let k = kind_of_rank(p);
        let mut j: usize = 0;
        while j < n
            invariant
                n == entries@.len(),
                unique_handles(entries@),
                p < 6,
                teardown_rank(k) == p,
                j <= n,
                out@.len() == src.len(),
                forall|a: int|
                    0 <= a < out@.len() ==> 0 <= #[trigger] src[a] < n && out@[a]
                        == entries@[src[a]],
                forall|a: int, b: int| 0 <= a < b < out@.len() ==> src[a] != src[b],
                forall|a: int| 0 <= a < out@.len() ==> teardown_rank(#[trigger] out@[a].kind) <= p,
                forall|a: int|
                    0 <= a < out@.len() && teardown_rank(#[trigger] out@[a].kind) == p ==> src[a]
                        < j,
                forall|a: int, b: int|
                    0 <= a < b < out@.len() ==> teardown_rank(out@[a].kind) <= teardown_rank(
                        out@[b].kind,
                    ),
                forall|i: int|
                    0 <= i < n && (teardown_rank(#[trigger] entries@[i].kind) < p || (
                    teardown_rank(entries@[i].kind) == p && i < j)) ==> exists|a: int|
                        0 <= a < out@.len() && src[a] == i,
            decreases n - j,
        {
            if entries[j].kind == k {
                let ghost old_out = out@;
                let ghost old_src = src;
                out.push(entries[j]);
                proof {
                    src = src.push(j as int);
                    assert forall|a: int, b: int| 0 <= a < b < out@.len() implies src[a]
                        != src[b] by {
                        if b == out@.len() - 1 {
                            assert(out@[a] == old_out[a]);
                            if teardown_rank(old_out[a].kind) == p {
                                assert(old_src[a] < j);
                            } else {
                                assert(old_out[a] == entries@[old_src[a]]);
                            }
                        } else {
                            assert(src[a] == old_src[a] && src[b] == old_src[b]);
                        }
                    }
                    assert forall|i: int|
                        0 <= i < n && (teardown_rank(#[trigger] entries@[i].kind) < p || (
                        teardown_rank(entries@[i].kind) == p && i < j + 1)) implies exists|a: int|
                        0 <= a < out@.len() && src[a] == i by {
                        if i == j {
                            assert(src[out@.len() - 1] == i);
                        } else {
                            let a = choose|a: int| 0 <= a < old_out.len() && old_src[a] == i;
                            assert(src[a] == i);
                        }
                    }
                }
            } else {
                proof {
                    assert forall|i: int|
                        0 <= i < n && (teardown_rank(#[trigger] entries@[i].kind) < p || (
                        teardown_rank(entries@[i].kind) == p && i < j + 1)) implies exists|a: int|
                        0 <= a < out@.len() && src[a] == i by {
                        if i == j {
                            assert(teardown_rank(entries@[i].kind) != p);
                        }
                    }
                }
            }
            j = j + 1;
        }
        p = p + 1;
    }
    proof {
        assert forall|a: int, b: int|
            0 <= a < out@.len() && 0 <= b < out@.len() && a != b implies out@[a].handle
            != out@[b].handle by {
            if a < b {
                assert(src[a] != src[b]);
            } else {
                assert(src[b] != src[a]);
            }
            assert(out@[a] == entries@[src[a]]);
            assert(out@[b] == entries@[src[b]]);
            assert(entries@[src[a]].handle != entries@[src[b]].handle);
        }
        assert(unique_handles(out@));
        assert(forall|a: int, b: int|
            0 <= a < b < out@.len() ==> teardown_rank(out@[a].kind) <= teardown_rank(
                out@[b].kind,
            ));
        assert forall|i: int| 0 <= i < out@.len() implies entries@.contains(#[trigger] out@[i]) by {
            assert(out@[i] == entries@[src[i]]);
        }
        assert forall|j: int| 0 <= j < entries@.len() implies out@.contains(#[trigger] entries@[j]) by {
            assert(teardown_rank(entries@[j].kind) < 6);
            let a = choose|a: int| 0 <= a < out@.len() && src[a] == j;
            assert(out@[a] == entries@[j]);
        }
    }
    out
}

/// The same law over a registry: registering a hook under a handle that is not live (the host
/// hands out a fresh handle for each registration) and then removing it brings the hook count
/// back to what it was; the removal reports the hook found once, so its callback is freed
/// once, and any later removal of it finds nothing.
pub proof fn lemma_context_register_then_remove(
    before: Context,
    registered_ctx: Context,
    removed_ctx: Context,
    handle: u64,
    kind: HookKind,
)
    requires
        before.wf(),
        !before@.contains_key(handle),
        registered_ctx@ == registered(before@, handle, kind),
        removed_ctx@ == removed(registered_ctx@, handle, kind),
    ensures
        removal_finds(registered_ctx@, handle, kind),
        removed_ctx@ == before@,
        removed_ctx@.len() == before@.len(),
        registered_ctx@.len() == before@.len() + 1,
        !removal_finds(removed_ctx@, handle, kind),
{
    lemma_handle_map_domain(before.entries());
    lemma_register_then_remove(before@, handle, kind);
}

/// Registrations in the order of teardown map each handle to the same kind as the registrations
/// they were ordered from.
pub proof fn lemma_teardown_same_map(s: Seq<Registration>, r: Seq<Registration>)
    requires
        unique_handles(s),
        in_teardown_order(s, r),
    ensures
        handle_map(r) == handle_map(s),
{
    lemma_handle_map_domain(s);
    lemma_handle_map_domain(r);
    assert forall|h: u64| #[trigger] handle_map(r).contains_key(h) <==> handle_map(s).contains_key(
        h,
    ) by {
        if handle_map(r).contains_key(h) {
            let i = choose|i: int| 0 <= i < r.len() && (#[trigger] r[i]).handle == h;
            assert(s.contains(r[i]));
            let j = choose|j: int| 0 <= j < s.len() && s[j] == r[i];
            assert(s[j].handle == h);
        }
        if handle_map(s).contains_key(h) {
            let j = choose|j: int| 0 <= j < s.len() && (#[trigger] s[j]).handle == h;
            assert(r.contains(s[j]));
            let i = choose|i: int| 0 <= i < r.len() && r[i] == s[j];
            assert(r[i].handle == h);
        }
    }
    assert forall|h: u64| #[trigger] handle_map(r).contains_key(h) implies handle_map(r)[h]
        == handle_map(s)[h] by {
        let i = choose|i: int| 0 <= i < r.len() && (#[trigger] r[i]).handle == h;
        assert(s.contains(r[i]));
        let j = choose|j: int| 0 <= j < s.len() && s[j] == r[i];
        assert(handle_map(r)[r[i].handle] == r[i].kind);
        assert(handle_map(s)[s[j].handle] == s[j].kind);
    }
    assert(handle_map(r) =~= handle_map(s));
}

/// Tearing down the registry hands back every hook that is still live exactly once, and none
/// that was removed before.
pub proof fn lemma_teardown_each_once(c: Context, teardown: Seq<Registration>, handle: u64)
    requires
        c.wf(),
        in_teardown_order(c.entries(), teardown),
    ensures
        occurrences(teardown, handle) == if c@.contains_key(handle) {
            1nat
        } else {
            0nat
        },
{
    let s = c.entries();
    lemma_occurrences(teardown, handle);
    lemma_handle_map_domain(teardown);
    lemma_handle_map_domain(s);
    if c@.contains_key(handle) {
        let j = choose|j: int| 0 <= j < s.len() && (#[trigger] s[j]).handle == handle;
        assert(teardown.contains(s[j]));
        let i = choose|i: int| 0 <= i < teardown.len() && teardown[i] == s[j];
        assert(teardown[i].handle == handle);
    }
    if handle_map(teardown).contains_key(handle) {
        let i = choose|i: int| 0 <= i < teardown.len() && (#[trigger] teardown[i]).handle == handle;
        assert(s.contains(teardown[i]));
        let j = choose|j: int| 0 <= j < s.len() && s[j] == teardown[i];
        assert(s[j].handle == handle);
    }
}

} // verus!
