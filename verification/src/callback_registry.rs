//! Process-wide bookkeeping of multi-viewport renderers: which renderer serves which Dear ImGui
//! Context, which viewport data blocks the renderer created, and who owns the renderer window
//! callbacks of a Context.
//!
//! Contexts, renderers and viewport data blocks appear as their raw addresses; zero is null.

use crate::context_state::{
    all_ash, all_slots_empty, first_drifted_slot, without_ash, CallbackSlot, RendererWindowSlots,
};
use std::collections::HashSet;
use vstd::prelude::*;

verus! {

broadcast use vstd::std_specs::hash::group_hash_axioms;

/// Failure to acquire the renderer callback table for multi-viewport rendering.
#[derive(Clone, Copy, Debug, PartialEq, Eq, Structural)]
pub enum CallbackOwnershipError {
    /// Another renderer backend still owns at least one `Renderer_*` callback slot.
    RendererCallbacksOccupied,
    /// The platform backend did not provide its Vulkan surface callback.
    PlatformCreateVkSurfaceUnavailable,
    /// The Dear ImGui build cannot safely bridge `Renderer_SetWindowSize`.
    AggregateCallbackHooksUnavailable,
}

/// The renderer serving one Context.
#[derive(Debug)]
pub struct ContextRendererState<G> {
    /// The Context.
    pub ctx: u64,
    /// The renderer.
    pub renderer: u64,
    /// Whether a callback currently holds the renderer mutably.
    pub borrowed: bool,
    /// Handles the callbacks need.
    pub global: Option<G>,
}

/// Whether some entry of `s` serves Context `ctx`.
pub open spec fn has_ctx<G>(s: Seq<ContextRendererState<G>>, ctx: u64) -> bool {
    exists|i: int| 0 <= i < s.len() && #[trigger] s[i].ctx == ctx
}

/// The position of the entry serving `ctx` (meaningful when there is one).
pub open spec fn ctx_index<G>(s: Seq<ContextRendererState<G>>, ctx: u64) -> int {
    choose|i: int| 0 <= i < s.len() && #[trigger] s[i].ctx == ctx
}

/// Every entry serves a distinct, non-null Context.
pub open spec fn registry_wf<G>(s: Seq<ContextRendererState<G>>) -> bool {
    &&& forall|i: int| 0 <= i < s.len() ==> (#[trigger] s[i]).ctx != 0
    &&& forall|i: int, j: int| 0 <= i < j < s.len() ==> #[trigger] s[i].ctx != #[trigger] s[j].ctx
}

/// What lending the renderer of Context `ctx` gives: refused for a null Context, a Context
/// without renderer, a null renderer, or a renderer already lent.
pub open spec fn borrow_result<G>(s: Seq<ContextRendererState<G>>, ctx: u64) -> Option<u64> {
    let i = ctx_index(s, ctx);
    if ctx == 0 || !has_ctx(s, ctx) || s[i].renderer == 0 || s[i].borrowed {
        None
    } else {
        Some(s[i].renderer)
    }
}

/// The registry after lending the renderer of `ctx`.
pub open spec fn after_borrow<G>(s: Seq<ContextRendererState<G>>, ctx: u64) -> Seq<ContextRendererState<G>> {
    let i = ctx_index(s, ctx);
    if borrow_result(s, ctx) is None {
        s
    } else {
        s.update(i, ContextRendererState { borrowed: true, ..s[i] })
    }
}

/// The registry after the renderer `renderer` of `ctx` came back.
pub open spec fn after_release<G>(s: Seq<ContextRendererState<G>>, ctx: u64, renderer: u64) -> Seq<
    ContextRendererState<G>,
> {
    let i = ctx_index(s, ctx);
    if has_ctx(s, ctx) && s[i].renderer == renderer {
        s.update(i, ContextRendererState { borrowed: false, ..s[i] })
    } else {
        s
    }
}

/// The renderers of all Contexts with a multi-viewport renderer.
#[derive(Debug)]
pub struct RendererRegistry<G> {
    entries: Vec<ContextRendererState<G>>,
}

impl<G> View for RendererRegistry<G> {
    type V = Seq<ContextRendererState<G>>;

    closed spec fn view(&self) -> Seq<ContextRendererState<G>> {
        self.entries@
    }
}

proof fn lemma_index_unique<G>(s: Seq<ContextRendererState<G>>, ctx: u64, i: int)
    requires
        registry_wf(s),
        0 <= i < s.len(),
        s[i].ctx == ctx,
    ensures
        has_ctx(s, ctx),
        ctx_index(s, ctx) == i,
{
    let c = ctx_index(s, ctx);
    assert(0 <= c < s.len() && s[c].ctx == ctx);
    if c < i {
        assert(s[c].ctx != s[i].ctx);
    } else if i < c {
        assert(s[i].ctx != s[c].ctx);
    }
}

impl<G> RendererRegistry<G> {
    /// An empty registry.
    pub fn new() -> (r: Self)
        ensures
            registry_wf(r@),
            r@.len() == 0,
    {
        RendererRegistry { entries: Vec::new() }
    }

    fn find(&self, ctx: u64) -> (r: Option<usize>)
        requires
            registry_wf(self@),
        ensures
            r is None <==> !has_ctx(self@, ctx),
            r matches Some(i) ==> i == ctx_index(self@, ctx) && i < self@.len(),
    {
        let mut i: usize = 0;
        while i < self.entries.len()
            invariant
                registry_wf(self@),
                i <= self@.len(),
                forall|j: int| 0 <= j < i ==> self@[j].ctx != ctx,
            decreases self@.len() - i,
        {
            if self.entries[i].ctx == ctx {
                proof {
                    lemma_index_unique(self@, ctx, i as int);
                }
                return Some(i);
            }
            i = i + 1;
        }
        None
    }

    /// Records `renderer` and `global` for Context `ctx`, keeping the borrow flag of an
    /// existing entry. A null Context is ignored.
    pub fn upsert(&mut self, ctx: u64, renderer: u64, global: Option<G>)
        requires
            registry_wf(old(self)@),
        ensures
            registry_wf(final(self)@),
            ctx == 0 ==> final(self)@ == old(self)@,
            ctx != 0 && has_ctx(old(self)@, ctx) ==> {
                let i = ctx_index(old(self)@, ctx);
                final(self)@ == old(self)@.update(
                    i,
                    ContextRendererState { renderer, global, ..old(self)@[i] },
                )
            },
            ctx != 0 && !has_ctx(old(self)@, ctx) ==> final(self)@ == old(self)@.push(
                ContextRendererState { ctx, renderer, borrowed: false, global },
            ),
    {
        if ctx == 0 {
            return;
        }
        match self.find(ctx) {
            Some(i) => {
                let mut entry = self.entries.remove(i);
                entry.renderer = renderer;
                entry.global = global;
                self.entries.insert(i, entry);
                proof {
                    assert(self@ =~= old(self)@.update(
                        i as int,
                        ContextRendererState { renderer, global, ..old(self)@[i as int] },
                    ));
                    assert forall|a: int, b: int| 0 <= a < b < self@.len() implies #[trigger] self@[a].ctx
                        != #[trigger] self@[b].ctx by {
                        assert(old(self)@[a].ctx != old(self)@[b].ctx);
                    }
                }
            },
            None => {
                self.entries.push(ContextRendererState { ctx, renderer, borrowed: false, global });
                proof {
                    assert forall|a: int, b: int| 0 <= a < b < self@.len() implies #[trigger] self@[a].ctx
                        != #[trigger] self@[b].ctx by {
                        if b == self@.len() - 1 {
                            assert(old(self)@[a].ctx != ctx);
                        }
                    }
                }
            },
        }
    }

    /// Drops the entries for which `keep` fails.
    fn retain_where(&mut self, drop_ctx: u64, drop_renderer: u64, by_ctx: bool)
        requires
            registry_wf(old(self)@),
        ensures
            registry_wf(final(self)@),
            by_ctx ==> final(self)@ == old(self)@.filter(
                |e: ContextRendererState<G>| e.ctx != drop_ctx,
            ),
            !by_ctx ==> final(self)@ == old(self)@.filter(
                |e: ContextRendererState<G>| e.renderer != drop_renderer,
            ),
    {
        let ghost pred = if by_ctx {
            |e: ContextRendererState<G>| e.ctx != drop_ctx
        } else {
            |e: ContextRendererState<G>| e.renderer != drop_renderer
        };
        let ghost orig = self@;
        let mut rest: Vec<ContextRendererState<G>> = Vec::new();
        std::mem::swap(&mut rest, &mut self.entries);
        let total = rest.len();
        let mut kept: Vec<ContextRendererState<G>> = Vec::new();
        let mut i: usize = 0;
        while rest.len() > 0
            invariant
                registry_wf(orig),
                i <= orig.len(),
                orig.len() == total,
                rest@ == orig.subrange(i as int, orig.len() as int),
                kept@ == orig.take(i as int).filter(pred),
                forall|k: int|
                    0 <= k < kept@.len() ==> exists|j: int|
                        0 <= j < i && #[trigger] kept@[k] == orig[j],
                forall|a: int, b: int|
                    0 <= a < b < kept@.len() ==> exists|x: int, y: int|
                        0 <= x < y < i && #[trigger] kept@[a] == orig[x] && #[trigger] kept@[b]
                            == orig[y],
                pred == (if by_ctx {
                    |e: ContextRendererState<G>| e.ctx != drop_ctx
                } else {
                    |e: ContextRendererState<G>| e.renderer != drop_renderer
                }),
            decreases rest.len(),
        {
            let e = rest.remove(0);
            proof {
                assert(orig.take(i + 1).drop_last() =~= orig.take(i as int));
                assert(orig.take(i + 1).last() == e);
                reveal(Seq::filter);
            }
            let keep = if by_ctx {
                e.ctx != drop_ctx
            } else {
                e.renderer != drop_renderer
            };
            if keep {
                let ghost k0 = kept@;
                kept.push(e);
                proof {
                    assert(kept@[kept@.len() - 1] == orig[i as int]);
                    assert forall|a: int, b: int| 0 <= a < b < kept@.len() implies exists|
                        x: int,
                        y: int,
                    | 0 <= x < y < i + 1 && #[trigger] kept@[a] == orig[x] && #[trigger] kept@[b]
                        == orig[y] by {
                        if b == kept@.len() - 1 {
                            assert(kept@[a] == k0[a]);
                            let j = choose|j: int| 0 <= j < i && #[trigger] k0[a] == orig[j];
                            assert(kept@[a] == orig[j] && kept@[b] == orig[i as int]);
                        } else {
                            assert(kept@[a] == k0[a] && kept@[b] == k0[b]);
                        }
                    }
                }
            }
            i = i + 1;
        }
        proof {
            assert(orig.take(orig.len() as int) =~= orig);
            assert forall|a: int| 0 <= a < kept@.len() implies (#[trigger] kept@[a]).ctx != 0 by {
                let j = choose|j: int| 0 <= j < i && #[trigger] kept@[a] == orig[j];
            }
            assert forall|a: int, b: int| 0 <= a < b < kept@.len() implies #[trigger] kept@[a].ctx
                != #[trigger] kept@[b].ctx by {
                let (x, y) = choose|x: int, y: int|
                    0 <= x < y < i && #[trigger] kept@[a] == orig[x] && #[trigger] kept@[b] == orig[y];
                assert(orig[x].ctx != orig[y].ctx);
            }
        }
        self.entries = kept;
    }

    /// Forgets the renderer of Context `ctx`; a null Context is ignored.
    pub fn remove_for_context(&mut self, ctx: u64)
        requires
            registry_wf(old(self)@),
        ensures
            registry_wf(final(self)@),
            ctx == 0 ==> final(self)@ == old(self)@,
            ctx != 0 ==> final(self)@ == old(self)@.filter(
                |e: ContextRendererState<G>| e.ctx != ctx,
            ),
    {
        if ctx == 0 {
            return;
        }
        self.retain_where(ctx, 0, true);
    }

    /// Forgets every Context served by `renderer`.
    pub fn remove_for_renderer(&mut self, renderer: u64)
        requires
            registry_wf(old(self)@),
        ensures
            registry_wf(final(self)@),
            final(self)@ == old(self)@.filter(
                |e: ContextRendererState<G>| e.renderer != renderer,
            ),
    {
        self.retain_where(0, renderer, false);
    }

    /// Whether Context `ctx` has a renderer.
    pub fn has_state_for_context(&self, ctx: u64) -> (r: bool)
        requires
            registry_wf(self@),
        ensures
            r == (ctx != 0 && has_ctx(self@, ctx)),
    {
        if ctx == 0 {
            return false;
        }
        self.find(ctx).is_some()
    }

    /// The handles stored for Context `ctx`.
    pub fn global_for(&self, ctx: u64) -> (r: Option<&G>)
        requires
            registry_wf(self@),
        ensures
            r is Some <==> (ctx != 0 && has_ctx(self@, ctx) && self@[ctx_index(self@, ctx)].global
                is Some),
            r matches Some(g) ==> *g == self@[ctx_index(self@, ctx)].global->0,
    {
        if ctx == 0 {
            return None;
        }
        match self.find(ctx) {
            None => None,
            Some(i) => match &self.entries[i].global {
                Some(g) => Some(g),
                None => None,
            },
        }
    }

    /// Lends the renderer of Context `ctx` to one callback. Refused for a null Context, a
    /// Context without renderer, a null renderer, or a renderer already lent.
    pub fn borrow(&mut self, ctx: u64) -> (r: Option<u64>)
        requires
            registry_wf(old(self)@),
        ensures
            registry_wf(final(self)@),
            r == borrow_result(old(self)@, ctx),
            final(self)@ == after_borrow(old(self)@, ctx),
    {
        if ctx == 0 {
            return None;
        }
        let i = match self.find(ctx) {
            None => return None,
            Some(i) => i,
        };
        if self.entries[i].renderer == 0 || self.entries[i].borrowed {
            return None;
        }
        let mut entry = self.entries.remove(i);
        entry.borrowed = true;
        let renderer = entry.renderer;
        self.entries.insert(i, entry);
        proof {
            assert(self@ =~= old(self)@.update(
                i as int,
                ContextRendererState { borrowed: true, ..old(self)@[i as int] },
            ));
            assert forall|a: int, b: int| 0 <= a < b < self@.len() implies #[trigger] self@[a].ctx
                != #[trigger] self@[b].ctx by {
                assert(old(self)@[a].ctx != old(self)@[b].ctx);
            }
        }
        Some(renderer)
    }

    /// Returns the renderer of Context `ctx` lent as `renderer`.
    pub fn release(&mut self, ctx: u64, renderer: u64)
        requires
            registry_wf(old(self)@),
        ensures
            registry_wf(final(self)@),
            final(self)@ == after_release(old(self)@, ctx, renderer),
    {
        let i = match self.find(ctx) {
            None => return,
            Some(i) => i,
        };
        if self.entries[i].renderer != renderer {
            return;
        }
        let mut entry = self.entries.remove(i);
        entry.borrowed = false;
        self.entries.insert(i, entry);
        proof {
            assert(self@ =~= old(self)@.update(
                i as int,
                ContextRendererState { borrowed: false, ..old(self)@[i as int] },
            ));
            assert forall|a: int, b: int| 0 <= a < b < self@.len() implies #[trigger] self@[a].ctx
                != #[trigger] self@[b].ctx by {
                assert(old(self)@[a].ctx != old(self)@[b].ctx);
            }
        }
    }
}

/// The viewport data blocks created by the renderer.
#[derive(Debug)]
pub struct ViewportDataRegistry {
    items: HashSet<u64>,
}

impl View for ViewportDataRegistry {
    type V = Set<u64>;

    closed spec fn view(&self) -> Set<u64> {
        self.items@
    }
}

impl ViewportDataRegistry {
    /// Nothing registered.
    pub fn new() -> (r: Self)
        ensures
            r@ == Set::<u64>::empty(),
    {
        ViewportDataRegistry { items: HashSet::new() }
    }

    /// Whether `ptr` is a registered block; null never is.
    pub fn contains(&self, ptr: u64) -> (r: bool)
        ensures
            r == (ptr != 0 && self@.contains(ptr)),
    {
        if ptr == 0 {
            return false;
        }
        self.items.contains(&ptr)
    }

    /// Registers block `ptr`; null is ignored.
    pub fn register(&mut self, ptr: u64)
        ensures
            ptr == 0 ==> final(self)@ == old(self)@,
            ptr != 0 ==> final(self)@ == old(self)@.insert(ptr),
    {
        if ptr == 0 {
            return;
        }
        self.items.insert(ptr);
    }

    /// Unregisters block `ptr`; null is ignored.
    pub fn unregister(&mut self, ptr: u64)
        ensures
            ptr == 0 ==> final(self)@ == old(self)@,
            ptr != 0 ==> final(self)@ == old(self)@.remove(ptr),
    {
        if ptr == 0 {
            return;
        }
        self.items.remove(&ptr);
    }

    /// Takes the viewport data that `user_data` (a viewport's renderer user data) points to,
    /// if it is a registered block: the block is unregistered, the pointer cleared, and `true`
    /// returned. Anything else, such as another renderer's data, is left in place.
    pub fn take(&mut self, user_data: &mut u64) -> (r: bool)
        ensures
            r == (*old(user_data) != 0 && old(self)@.contains(*old(user_data))),
            r ==> final(self)@ == old(self)@.remove(*old(user_data)) && *final(user_data) == 0,
            !r ==> final(self)@ == old(self)@ && *final(user_data) == *old(user_data),
    {
        let ptr = *user_data;
        if !self.contains(ptr) {
            return false;
        }
        self.unregister(ptr);
        *user_data = 0;
        true
    }
}

/// Installs the renderer window callbacks into `slots`.
///
/// Slots already holding callbacks are accepted only when they are all this renderer's and
/// Context already has a registered renderer; otherwise the install is refused and nothing
/// changes. An empty table is filled only when the aggregate hooks exist.
pub fn try_install_renderer_callbacks(
    slots: &mut RendererWindowSlots,
    has_state: bool,
    hooks_available: bool,
) -> (r: Result<(), CallbackOwnershipError>)
    ensures
        !all_slots_empty(*old(slots)) ==> if has_state && first_drifted_slot(*old(slots)) is None {
            r is Ok && *final(slots) == *old(slots)
        } else {
            r == Err::<(), CallbackOwnershipError>(CallbackOwnershipError::RendererCallbacksOccupied)
                && *final(slots) == *old(slots)
        },
        all_slots_empty(*old(slots)) ==> if !hooks_available {
            r == Err::<(), CallbackOwnershipError>(
                CallbackOwnershipError::AggregateCallbackHooksUnavailable,
            ) && *final(slots) == *old(slots)
        } else {
            r is Ok && *final(slots) == all_ash()
        },
{
    if slots.first_occupied().is_some() {
        if has_state && slots.first_drift().is_none() {
            return Ok(());
        }
        return Err(CallbackOwnershipError::RendererCallbacksOccupied);
    }
    if !hooks_available {
        return Err(CallbackOwnershipError::AggregateCallbackHooksUnavailable);
    }
    slots.create_window = CallbackSlot::Ash;
    slots.destroy_window = CallbackSlot::Ash;
    slots.set_window_size = CallbackSlot::Ash;
    slots.render_window = CallbackSlot::Ash;
    slots.swap_buffers = CallbackSlot::Ash;
    Ok(())
}

/// Enables multi-viewport rendering of `renderer` for Context `ctx`: requires the platform's
/// surface callback, installs the window callbacks, and records the renderer with its
/// handles. On failure nothing changes.
pub fn enable<G>(
    registry: &mut RendererRegistry<G>,
    slots: &mut RendererWindowSlots,
    ctx: u64,
    renderer: u64,
    platform_surface_callback: bool,
    hooks_available: bool,
    global: G,
) -> (r: Result<(), CallbackOwnershipError>)
    requires
        registry_wf(old(registry)@),
    ensures
        registry_wf(final(registry)@),
        !platform_surface_callback ==> {
            &&& r == Err::<(), CallbackOwnershipError>(
                CallbackOwnershipError::PlatformCreateVkSurfaceUnavailable,
            )
            &&& *final(slots) == *old(slots)
            &&& final(registry)@ == old(registry)@
        },
        platform_surface_callback ==> {
            let has_state = ctx != 0 && has_ctx(old(registry)@, ctx);
            let installed = if all_slots_empty(*old(slots)) {
                hooks_available
            } else {
                has_state && first_drifted_slot(*old(slots)) is None
            };
            &&& r is Ok <==> installed
            &&& !installed ==> final(registry)@ == old(registry)@ && *final(slots) == *old(slots)
            &&& !installed ==> r == Err::<(), CallbackOwnershipError>(
                if all_slots_empty(*old(slots)) {
                    CallbackOwnershipError::AggregateCallbackHooksUnavailable
                } else {
                    CallbackOwnershipError::RendererCallbacksOccupied
                },
            )
            &&& installed ==> {
                &&& *final(slots) == all_ash()
                &&& (ctx == 0 ==> final(registry)@ == old(registry)@)
                &&& (ctx != 0 && has_ctx(old(registry)@, ctx)) ==> final(registry)@
                    == old(registry)@.update(
                    ctx_index(old(registry)@, ctx),
                    ContextRendererState {
                        renderer,
                        global: Some(global),
                        ..old(registry)@[ctx_index(old(registry)@, ctx)]
                    },
                )
                &&& (ctx != 0 && !has_ctx(old(registry)@, ctx)) ==> final(registry)@
                    == old(registry)@.push(
                    ContextRendererState { ctx, renderer, borrowed: false, global: Some(global) },
                )
            }
        },
{
    if !platform_surface_callback {
        return Err(CallbackOwnershipError::PlatformCreateVkSurfaceUnavailable);
    }
    let has_state = registry.has_state_for_context(ctx);
    match try_install_renderer_callbacks(slots, has_state, hooks_available) {
        Err(e) => Err(e),
        Ok(()) => {
            proof {
                if !all_slots_empty(*old(slots)) {
                    assert(*old(slots) == all_ash());
                }
            }
            registry.upsert(ctx, renderer, Some(global));
            Ok(())
        },
    }
}

/// Disables multi-viewport rendering for Context `ctx`: the renderer's window callbacks leave
/// their slots (other backends' stay) and the Context's renderer is forgotten.
pub fn disable<G>(registry: &mut RendererRegistry<G>, slots: &mut RendererWindowSlots, ctx: u64)
    requires
        registry_wf(old(registry)@),
    ensures
        registry_wf(final(registry)@),
        *final(slots) == without_ash(*old(slots)),
        ctx == 0 ==> final(registry)@ == old(registry)@,
        ctx != 0 ==> final(registry)@ == old(registry)@.filter(
            |e: ContextRendererState<G>| e.ctx != ctx,
        ),
{
    slots.clear_ash();
    registry.remove_for_context(ctx);
}

/// Withdraws multi-viewport support from Context `ctx` once its platform windows are destroyed;
/// see [`disable`].
pub fn shutdown_multi_viewport_support<G>(
    registry: &mut RendererRegistry<G>,
    slots: &mut RendererWindowSlots,
    ctx: u64,
)
    requires
        registry_wf(old(registry)@),
    ensures
        registry_wf(final(registry)@),
        *final(slots) == without_ash(*old(slots)),
        ctx == 0 ==> final(registry)@ == old(registry)@,
        ctx != 0 ==> final(registry)@ == old(registry)@.filter(
            |e: ContextRendererState<G>| e.ctx != ctx,
        ),
{
    disable(registry, slots, ctx);
}

/// The renderer of a Context is lent to one callback at a time: while lent, lending it again is
/// refused; once it came back, it can be lent again.
pub proof fn law_renderer_lent_exclusively<G>(s: Seq<ContextRendererState<G>>, ctx: u64)
    requires
        registry_wf(s),
        borrow_result(s, ctx) is Some,
    ensures
        borrow_result(after_borrow(s, ctx), ctx) is None,
        borrow_result(
            after_release(after_borrow(s, ctx), ctx, borrow_result(s, ctx)->0),
            ctx,
        ) == borrow_result(s, ctx),
{
    let i = ctx_index(s, ctx);
    let s1 = after_borrow(s, ctx);
    assert(s1[i].ctx == ctx);
    lemma_index_unique(s1, ctx, i);
    let s2 = after_release(s1, ctx, s[i].renderer);
    assert(s2[i].ctx == ctx);
    assert(s2 =~= s);
}

/// Installing into an empty callback table and then disabling empties the table again; other
/// backends' callbacks are never removed.
pub proof fn law_disable_withdraws_only_own_callbacks(slots: RendererWindowSlots)
    ensures
        all_slots_empty(without_ash(all_ash())),
        slots.create_window == CallbackSlot::Foreign ==> without_ash(slots).create_window
            == CallbackSlot::Foreign,
        slots.destroy_window == CallbackSlot::Foreign ==> without_ash(slots).destroy_window
            == CallbackSlot::Foreign,
        slots.set_window_size == CallbackSlot::Foreign ==> without_ash(slots).set_window_size
            == CallbackSlot::Foreign,
        slots.render_window == CallbackSlot::Foreign ==> without_ash(slots).render_window
            == CallbackSlot::Foreign,
        slots.swap_buffers == CallbackSlot::Foreign ==> without_ash(slots).swap_buffers
            == CallbackSlot::Foreign,
        !crate::context_state::owns_any_slot(without_ash(slots)),
{
}

} // verus!
