//! The registries through which native viewport callbacks find their runtime and recognise the
//! viewport data blocks it created.
//!
//! Whether a runtime is still alive, or whether a Context's native state still exists, is
//! decided outside: callers pass the runtimes that were dropped (`dead`) and the Contexts whose
//! native state was destroyed (`destroyed`), and entries for them are forgotten first.

use crate::viewport_runtime::AshViewportError;
use vstd::prelude::*;

verus! {

/// A runtime attached to a Context.
#[derive(Clone, Copy, Debug, PartialEq, Eq, Structural)]
pub struct RegisteredRuntime {
    /// Address of the Context's native state.
    pub context_raw: u64,
    /// The Context's identity.
    pub context_id: u64,
    /// Handle of the runtime's shared control block.
    pub control: u64,
}

/// A viewport data block created by a runtime and published as a viewport's renderer data.
#[derive(Clone, Copy, Debug, PartialEq, Eq, Structural)]
pub struct ViewportDataEntry {
    /// Address of the owning Context's native state.
    pub context_raw: u64,
    /// The owning Context's identity.
    pub context_id: u64,
    /// Address of the data block.
    pub pointer: u64,
}

/// Whether `x` occurs in `items`.
fn contains_u64(items: &[u64], x: u64) -> (r: bool)
    ensures
        r == items@.contains(x),
{
    let mut i: usize = 0;
    while i < items.len()
        invariant
            i <= items@.len(),
            forall|j: int| 0 <= j < i ==> items@[j] != x,
        decreases items@.len() - i,
    {
        if items[i] == x {
            return true;
        }
        i = i + 1;
    }
    false
}

/// The items of `items` for which `keep` holds, in order.
fn retain_where<T: Copy, F: Fn(T) -> bool>(
    items: &Vec<T>,
    keep: F,
    Ghost(pred): Ghost<spec_fn(T) -> bool>,
) -> (r: Vec<T>)
    requires
        forall|x: T| #[trigger] keep.requires((x,)),
        forall|x: T, b: bool| keep.ensures((x,), b) ==> b == pred(x),
    ensures
        r@ == items@.filter(pred),
{
    let mut kept: Vec<T> = Vec::new();
    let mut i: usize = 0;
    while i < items.len()
        invariant
            i <= items@.len(),
            kept@ == items@.take(i as int).filter(pred),
            forall|x: T| #[trigger] keep.requires((x,)),
            forall|x: T, b: bool| keep.ensures((x,), b) ==> b == pred(x),
        decreases items@.len() - i,
    {
        let x = items[i];
        proof {
            assert(items@.take(i + 1).drop_last() =~= items@.take(i as int));
            assert(items@.take(i + 1).last() == x);
            reveal(Seq::filter);
        }
        if keep(x) {
            kept.push(x);
        }
        i = i + 1;
    }
    proof {
        assert(items@.take(items@.len() as int) =~= items@);
    }
    kept
}

/// Whether the runtime of `e` is still alive, given the dropped runtimes.
pub open spec fn runtime_alive(dead: Seq<u64>) -> spec_fn(RegisteredRuntime) -> bool {
    |e: RegisteredRuntime| !dead.contains(e.control)
}

/// Whether some entry belongs to Context `context_id`.
pub open spec fn has_runtime_for(entries: Seq<RegisteredRuntime>, context_id: u64) -> bool {
    exists|i: int| 0 <= i < entries.len() && #[trigger] entries[i].context_id == context_id
}

/// The control block of the first entry for the Context at `context_raw`.
pub open spec fn first_runtime_at(entries: Seq<RegisteredRuntime>, context_raw: u64) -> Option<u64>
    decreases entries.len(),
{
    if entries.len() == 0 {
        None
    } else if entries[0].context_raw == context_raw {
        Some(entries[0].control)
    } else {
        first_runtime_at(entries.drop_first(), context_raw)
    }
}

/// The runtimes attached to Contexts, in registration order.
#[derive(Debug)]
pub struct RuntimeRegistry {
    entries: Vec<RegisteredRuntime>,
}

impl View for RuntimeRegistry {
    type V = Seq<RegisteredRuntime>;

    closed spec fn view(&self) -> Seq<RegisteredRuntime> {
        self.entries@
    }
}

impl RuntimeRegistry {
    /// No runtime registered.
    pub fn new() -> (r: Self)
        ensures
            r@ == Seq::<RegisteredRuntime>::empty(),
    {
        RuntimeRegistry { entries: Vec::new() }
    }

    /// Forgets the runtimes that were dropped.
    fn prune(&mut self, dead: &[u64])
        ensures
            final(self)@ == old(self)@.filter(runtime_alive(dead@)),
    {
        let ghost pred = runtime_alive(dead@);
        let alive = |e: RegisteredRuntime| -> (b: bool)
            ensures
                b == !dead@.contains(e.control),
            {
                let gone = contains_u64(dead, e.control);
                !gone
            };
        let kept = retain_where(&self.entries, alive, Ghost(pred));
        self.entries = kept;
    }

    /// Refuses a second live runtime for Context `context_id`.
    pub fn preflight(&mut self, context_id: u64, dead: &[u64]) -> (r: Result<(), AshViewportError>)
        ensures
            final(self)@ == old(self)@.filter(runtime_alive(dead@)),
            r == if has_runtime_for(final(self)@, context_id) {
                Err::<(), AshViewportError>(AshViewportError::RuntimeAlreadyAttached)
            } else {
                Ok::<(), AshViewportError>(())
            },
    {
        self.prune(dead);
        let mut i: usize = 0;
        while i < self.entries.len()
            invariant
                i <= self@.len(),
                self@ == old(self)@.filter(runtime_alive(dead@)),
                forall|j: int| 0 <= j < i ==> self@[j].context_id != context_id,
            decreases self@.len() - i,
        {
            if self.entries[i].context_id == context_id {
                return Err(AshViewportError::RuntimeAlreadyAttached);
            }
            i = i + 1;
        }
        Ok(())
    }

    /// Registers an attached runtime after forgetting the dropped ones.
    pub fn register(&mut self, entry: RegisteredRuntime, dead: &[u64])
        ensures
            final(self)@ == old(self)@.filter(runtime_alive(dead@)).push(entry),
    {
        self.prune(dead);
        self.entries.push(entry);
    }

    /// Forgets the runtime of Context `context_id`.
    pub fn unregister(&mut self, context_id: u64)
        ensures
            final(self)@ == old(self)@.filter(
                |e: RegisteredRuntime| e.context_id != context_id,
            ),
    {
        let ghost pred = |e: RegisteredRuntime| e.context_id != context_id;
        let other = |e: RegisteredRuntime| -> (b: bool)
            ensures
                b == (e.context_id != context_id),
            {
                let same = e.context_id == context_id;
                !same
            };
        let kept = retain_where(&self.entries, other, Ghost(pred));
        self.entries = kept;
    }

    /// The control block of the live runtime attached to the Context at `context_raw`; none for
    /// a null Context.
    pub fn runtime_for_context(&mut self, context_raw: u64, dead: &[u64]) -> (r: Option<u64>)
        ensures
            context_raw == 0 ==> r is None && final(self)@ == old(self)@,
            context_raw != 0 ==> {
                &&& final(self)@ == old(self)@.filter(runtime_alive(dead@))
                &&& r == first_runtime_at(final(self)@, context_raw)
            },
    {
        if context_raw == 0 {
            return None;
        }
        self.prune(dead);
        let mut i: usize = 0;
        proof {
            assert(self@.subrange(0, self@.len() as int) =~= self@);
        }
        while i < self.entries.len()
            invariant
                i <= self@.len(),
                context_raw != 0,
                self@ == old(self)@.filter(runtime_alive(dead@)),
                first_runtime_at(self@, context_raw) == first_runtime_at(
                    self@.subrange(i as int, self@.len() as int),
                    context_raw,
                ),
            decreases self@.len() - i,
        {
            proof {
                assert(self@.subrange(i as int, self@.len() as int).drop_first() =~= self@.subrange(
                    i + 1,
                    self@.len() as int,
                ));
            }
            if self.entries[i].context_raw == context_raw {
                return Some(self.entries[i].control);
            }
            i = i + 1;
        }
        proof {
            assert(self@.subrange(i as int, self@.len() as int).len() == 0);
        }
        None
    }
}

/// Whether the Context of `e` still has its native state, given the destroyed Contexts.
pub open spec fn context_alive(destroyed: Seq<u64>) -> spec_fn(ViewportDataEntry) -> bool {
    |e: ViewportDataEntry| !destroyed.contains(e.context_id)
}

/// Whether block `pointer` of Context `context_id` is registered.
pub open spec fn has_block(entries: Seq<ViewportDataEntry>, context_id: u64, pointer: u64) -> bool {
    exists|i: int|
        0 <= i < entries.len() && #[trigger] entries[i].context_id == context_id && entries[i].pointer
            == pointer
}

/// Whether `pointer` is a block registered for the Context at `context_raw`, whose native state
/// still exists.
pub open spec fn owns_block(
    entries: Seq<ViewportDataEntry>,
    destroyed: Seq<u64>,
    context_raw: u64,
    pointer: u64,
) -> bool {
    &&& context_raw != 0
    &&& pointer != 0
    &&& exists|i: int|
        0 <= i < entries.len() && #[trigger] entries[i].context_raw == context_raw && entries[i].pointer
            == pointer && !destroyed.contains(entries[i].context_id)
}

/// The registry after registering block `pointer` of Context `context_id`, bound at
/// `context_raw`: entries of destroyed Contexts are forgotten and the block is added once.
pub open spec fn registered_blocks(
    entries: Seq<ViewportDataEntry>,
    destroyed: Seq<u64>,
    context_id: u64,
    context_raw: u64,
    pointer: u64,
) -> Seq<ViewportDataEntry> {
    let kept = entries.filter(context_alive(destroyed));
    if has_block(kept, context_id, pointer) {
        kept
    } else {
        kept.push(ViewportDataEntry { context_raw, context_id, pointer })
    }
}

/// The viewport data blocks created by runtimes, in registration order.
#[derive(Debug)]
pub struct ViewportDataBlocks {
    entries: Vec<ViewportDataEntry>,
}

impl View for ViewportDataBlocks {
    type V = Seq<ViewportDataEntry>;

    closed spec fn view(&self) -> Seq<ViewportDataEntry> {
        self.entries@
    }
}

impl ViewportDataBlocks {
    /// No block registered.
    pub fn new() -> (r: Self)
        ensures
            r@ == Seq::<ViewportDataEntry>::empty(),
    {
        ViewportDataBlocks { entries: Vec::new() }
    }

    /// Registers block `pointer` of Context `context_id`; `bound_context_raw` is the Context
    /// that is current while the runtime's Context is bound.
    pub fn register(
        &mut self,
        context_id: u64,
        bound_context_raw: u64,
        pointer: u64,
        destroyed: &[u64],
    ) -> (r: Result<(), AshViewportError>)
        ensures
            pointer == 0 ==> r == Err::<(), AshViewportError>(
                AshViewportError::InvalidCallbackArgument { callback: "register RendererUserData" },
            ) && final(self)@ == old(self)@,
            pointer != 0 && bound_context_raw == 0 ==> r == Err::<(), AshViewportError>(
                AshViewportError::BoundContextMismatch { expected: context_id },
            ) && final(self)@ == old(self)@,
            pointer != 0 && bound_context_raw != 0 ==> r is Ok && final(self)@ == registered_blocks(
                old(self)@,
                destroyed@,
                context_id,
                bound_context_raw,
                pointer,
            ),
    {
        if pointer == 0 {
            return Err(AshViewportError::InvalidCallbackArgument { callback: "register RendererUserData" });
        }
        if bound_context_raw == 0 {
            return Err(AshViewportError::BoundContextMismatch { expected: context_id });
        }
        let ghost pred = context_alive(destroyed@);
        let alive = |e: ViewportDataEntry| -> (b: bool)
            ensures
                b == !destroyed@.contains(e.context_id),
            {
                let gone = contains_u64(destroyed, e.context_id);
                !gone
            };
        let kept = retain_where(&self.entries, alive, Ghost(pred));
        self.entries = kept;
        let mut i: usize = 0;
        while i < self.entries.len()
            invariant
                i <= self@.len(),
                pointer != 0,
                bound_context_raw != 0,
                self@ == old(self)@.filter(context_alive(destroyed@)),
                forall|j: int|
                    0 <= j < i ==> !(#[trigger] self@[j].context_id == context_id && self@[j].pointer
                        == pointer),
            decreases self@.len() - i,
        {
            if self.entries[i].context_id == context_id && self.entries[i].pointer == pointer {
                return Ok(());
            }
            i = i + 1;
        }
        self.entries.push(ViewportDataEntry { context_raw: bound_context_raw, context_id, pointer });
        Ok(())
    }

    /// Forgets block `pointer`.
    pub fn unregister(&mut self, pointer: u64)
        ensures
            final(self)@ == old(self)@.filter(|e: ViewportDataEntry| e.pointer != pointer),
    {
        let ghost pred = |e: ViewportDataEntry| e.pointer != pointer;
        let other = |e: ViewportDataEntry| -> (b: bool)
            ensures
                b == (e.pointer != pointer),
            {
                let same = e.pointer == pointer;
                !same
            };
        let kept = retain_where(&self.entries, other, Ghost(pred));
        self.entries = kept;
    }

    /// Whether `pointer` is a block of the Context at `context_raw` whose native state exists.
    pub fn owns(&self, context_raw: u64, pointer: u64, destroyed: &[u64]) -> (r: bool)
        ensures
            r == owns_block(self@, destroyed@, context_raw, pointer),
    {
        if context_raw == 0 || pointer == 0 {
            return false;
        }
        let mut i: usize = 0;
        while i < self.entries.len()
            invariant
                i <= self@.len(),
                context_raw != 0,
                pointer != 0,
                forall|j: int|
                    0 <= j < i ==> !(#[trigger] self@[j].context_raw == context_raw && self@[j].pointer
                        == pointer && !destroyed@.contains(self@[j].context_id)),
            decreases self@.len() - i,
        {
            let e = self.entries[i];
            if e.context_raw == context_raw && e.pointer == pointer && !contains_u64(destroyed, e.context_id) {
                return true;
            }
            i = i + 1;
        }
        false
    }

    /// Takes the block that a viewport's renderer data (`user_data`) points to, when it is one of
    /// this Context's: the block is forgotten, the renderer data cleared, and the block returned.
    /// Anything else stays where it is.
    pub fn take_from_viewport(&mut self, context_raw: u64, user_data: &mut u64, destroyed: &[u64]) -> (r:
        Option<u64>)
        ensures
            owns_block(old(self)@, destroyed@, context_raw, *old(user_data)) ==> {
                &&& r == Some(*old(user_data))
                &&& *final(user_data) == 0
                &&& final(self)@ == old(self)@.filter(
                    |e: ViewportDataEntry| e.pointer != *old(user_data),
                )
            },
            !owns_block(old(self)@, destroyed@, context_raw, *old(user_data)) ==> {
                &&& r is None
                &&& *final(user_data) == *old(user_data)
                &&& final(self)@ == old(self)@
            },
    {
        let pointer = *user_data;
        if !self.owns(context_raw, pointer, destroyed) {
            return None;
        }
        self.unregister(pointer);
        *user_data = 0;
        Some(pointer)
    }

    /// Takes every block of Context `context_id`, in registration order.
    pub fn take_for_context(&mut self, context_id: u64) -> (r: Vec<u64>)
        ensures
            r@ == old(self)@.filter(|e: ViewportDataEntry| e.context_id == context_id).map_values(
                |e: ViewportDataEntry| e.pointer,
            ),
            final(self)@ == old(self)@.filter(|e: ViewportDataEntry| e.context_id != context_id),
    {
        let ghost mine = |e: ViewportDataEntry| e.context_id == context_id;
        let ghost others = |e: ViewportDataEntry| e.context_id != context_id;
        let ghost orig = self@;
        let mut pointers: Vec<u64> = Vec::new();
        let mut kept: Vec<ViewportDataEntry> = Vec::new();
        let mut i: usize = 0;
        while i < self.entries.len()
            invariant
                i <= self@.len(),
                self@ == orig,
                mine == (|e: ViewportDataEntry| e.context_id == context_id),
                others == (|e: ViewportDataEntry| e.context_id != context_id),
                kept@ == orig.take(i as int).filter(others),
                pointers@ == orig.take(i as int).filter(mine).map_values(
                    |e: ViewportDataEntry| e.pointer,
                ),
            decreases self@.len() - i,
        {
            let e = self.entries[i];
            proof {
                assert(orig.take(i + 1).drop_last() =~= orig.take(i as int));
                assert(orig.take(i + 1).last() == e);
                reveal(Seq::filter);
            }
            if e.context_id == context_id {
                pointers.push(e.pointer);
                proof {
                    assert(pointers@ =~= orig.take(i + 1).filter(mine).map_values(
                        |e: ViewportDataEntry| e.pointer,
                    ));
                }
            } else {
                kept.push(e);
            }
            i = i + 1;
        }
        proof {
            assert(orig.take(orig.len() as int) =~= orig);
        }
        self.entries = kept;
        pointers
    }

    /// How many blocks Context `context_id` has.
    pub fn count(&self, context_id: u64) -> (r: usize)
        ensures
            r == self@.filter(|e: ViewportDataEntry| e.context_id == context_id).len(),
    {
        let ghost mine = |e: ViewportDataEntry| e.context_id == context_id;
        let mut n: usize = 0;
        let mut i: usize = 0;
        while i < self.entries.len()
            invariant
                i <= self@.len(),
                mine == (|e: ViewportDataEntry| e.context_id == context_id),
                n == self@.take(i as int).filter(mine).len(),
                n <= i,
            decreases self@.len() - i,
        {
            proof {
                assert(self@.take(i + 1).drop_last() =~= self@.take(i as int));
                reveal(Seq::filter);
            }
            if self.entries[i].context_id == context_id {
                n = n + 1;
            }
            i = i + 1;
        }
        proof {
            assert(self@.take(self@.len() as int) =~= self@);
        }
        n
    }
}

/// Secondary viewports whose renderer window could not be created, in the order they failed.
/// Each is asked to close until its destroy callback arrives.
#[derive(Debug)]
pub struct FailedViewports {
    ids: Vec<u64>,
}

impl View for FailedViewports {
    type V = Seq<u64>;

    closed spec fn view(&self) -> Seq<u64> {
        self.ids@
    }
}

impl FailedViewports {
    /// No failed viewport.
    pub fn new() -> (r: Self)
        ensures
            r@ == Seq::<u64>::empty(),
    {
        FailedViewports { ids: Vec::new() }
    }

    /// Records that viewport `id` failed; the caller also requests its close.
    pub fn mark(&mut self, id: u64)
        ensures
            final(self)@ == if old(self)@.contains(id) {
                old(self)@
            } else {
                old(self)@.push(id)
            },
    {
        if !contains_u64(self.ids.as_slice(), id) {
            self.ids.push(id);
        }
    }

    /// Forgets viewport `id`, whose window was created or destroyed.
    pub fn clear(&mut self, id: u64)
        ensures
            final(self)@ == old(self)@.filter(|x: u64| x != id),
    {
        let ghost pred = |x: u64| x != id;
        let other = |x: u64| -> (b: bool)
            ensures
                b == (x != id),
            {
                let same = x == id;
                !same
            };
        let kept = retain_where(&self.ids, other, Ghost(pred));
        self.ids = kept;
    }

    /// Forgets every failed viewport.
    pub fn clear_all(&mut self)
        ensures
            final(self)@ == Seq::<u64>::empty(),
    {
        self.ids = Vec::new();
    }

    /// The viewports to ask to close again, before each runtime entry: those Dear ImGui no longer
    /// knows (`unresolved`) are forgotten, the rest are returned.
    pub fn reassert(&mut self, unresolved: &[u64]) -> (r: Vec<u64>)
        ensures
            final(self)@ == old(self)@.filter(|x: u64| !unresolved@.contains(x)),
            r@ == final(self)@,
    {
        let ghost pred = |x: u64| !unresolved@.contains(x);
        let known = |x: u64| -> (b: bool)
            ensures
                b == !unresolved@.contains(x),
            {
                let gone = contains_u64(unresolved, x);
                !gone
            };
        let kept = retain_where(&self.ids, known, Ghost(pred));
        let again = kept.clone();
        proof {
            assert(again@ =~= kept@);
        }
        self.ids = kept;
        again
    }
}

/// The viewport data a callback works on: the viewport's renderer data when it is a block of
/// this runtime (`owned`); a null one is an invalid argument, and a foreign one means the
/// runtime lost ownership of the viewport.
pub fn renderer_data_pointer(owned: bool, user_data: u64, callback: &'static str) -> (r: Result<
    u64,
    AshViewportError,
>)
    ensures
        r == if owned {
            Ok::<u64, AshViewportError>(user_data)
        } else if user_data == 0 {
            Err::<u64, AshViewportError>(AshViewportError::InvalidCallbackArgument { callback })
        } else {
            Err::<u64, AshViewportError>(AshViewportError::RendererUserDataOwnershipLost { callback })
        },
{
    if owned {
        Ok(user_data)
    } else if user_data == 0 {
        Err(AshViewportError::InvalidCallbackArgument { callback })
    } else {
        Err(AshViewportError::RendererUserDataOwnershipLost { callback })
    }
}

/// At most one runtime per Context: once a runtime passed the preflight and registered, the
/// preflight refuses another one for the same Context until it is unregistered.
pub proof fn law_one_runtime_per_context(
    entries: Seq<RegisteredRuntime>,
    entry: RegisteredRuntime,
    dead: Seq<u64>,
)
    requires
        !dead.contains(entry.control),
    ensures
        has_runtime_for(entries.filter(runtime_alive(dead)).push(entry), entry.context_id),
        has_runtime_for(
            entries.filter(runtime_alive(dead)).push(entry).filter(runtime_alive(dead)),
            entry.context_id,
        ),
        !has_runtime_for(
            entries.filter(runtime_alive(dead)).push(entry).filter(
                |e: RegisteredRuntime| e.context_id != entry.context_id,
            ),
            entry.context_id,
        ),
{
    let pushed = entries.filter(runtime_alive(dead)).push(entry);
    assert(pushed[pushed.len() - 1] == entry);
    reveal(Seq::filter);
    assert(pushed.drop_last() =~= entries.filter(runtime_alive(dead)));
    let again = pushed.filter(runtime_alive(dead));
    assert(again == pushed.drop_last().filter(runtime_alive(dead)).push(entry));
    assert(again[again.len() - 1] == entry);
    let without = pushed.filter(|e: RegisteredRuntime| e.context_id != entry.context_id);
    pushed.filter_lemma(|e: RegisteredRuntime| e.context_id != entry.context_id);
    assert forall|i: int| 0 <= i < without.len() implies #[trigger] without[i].context_id
        != entry.context_id by {}
}

} // verus!
