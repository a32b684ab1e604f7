//! Ownership of the renderer state that a Dear ImGui Context shares between backends.
//!
//! The renderer publishes its identity (user data token, name, capability flags and the
//! standard draw callbacks) into the Context, validates before each use that nobody replaced
//! them, records the first replacement it sees as a sticky fault, and withdraws exactly what is
//! still its own. The Context's shared fields are read into a [`SharedRendererState`], decided
//! on, and written back; pointers appear as their raw addresses, zero for null.

use crate::error::RendererError;
use vstd::prelude::*;

verus! {

/// `ImGuiBackendFlags_RendererHasVtxOffset`.
pub const RENDERER_HAS_VTX_OFFSET: i32 = 8;

/// `ImGuiBackendFlags_RendererHasTextures`.
pub const RENDERER_HAS_TEXTURES: i32 = 16;

/// `ImGuiBackendFlags_RendererHasViewports`.
pub const RENDERER_HAS_VIEWPORTS: i32 = 1024;

/// The capability flags every Ash renderer declares.
pub const CORE_RENDERER_FLAGS: i32 = 24;

/// Who holds one callback slot of the Context.
#[derive(Clone, Copy, Debug, PartialEq, Eq, Structural)]
pub enum CallbackSlot {
    /// Nobody.
    Empty,
    /// This renderer's own callback.
    Ash,
    /// Some other backend's callback.
    Foreign,
}

/// The five `Renderer_*` window callback slots of `ImGuiPlatformIO`.
#[derive(Clone, Copy, Debug, PartialEq, Eq, Structural)]
pub struct RendererWindowSlots {
    /// `Renderer_CreateWindow`.
    pub create_window: CallbackSlot,
    /// `Renderer_DestroyWindow`.
    pub destroy_window: CallbackSlot,
    /// `Renderer_SetWindowSize`.
    pub set_window_size: CallbackSlot,
    /// `Renderer_RenderWindow`.
    pub render_window: CallbackSlot,
    /// `Renderer_SwapBuffers`.
    pub swap_buffers: CallbackSlot,
}

/// The first slot, in declaration order, for which `pick` holds, by field name.
pub open spec fn first_slot_where(s: RendererWindowSlots, pick: spec_fn(CallbackSlot) -> bool) -> Option<
    &'static str,
> {
    if pick(s.create_window) {
        Some("Renderer_CreateWindow")
    } else if pick(s.destroy_window) {
        Some("Renderer_DestroyWindow")
    } else if pick(s.set_window_size) {
        Some("Renderer_SetWindowSize")
    } else if pick(s.render_window) {
        Some("Renderer_RenderWindow")
    } else if pick(s.swap_buffers) {
        Some("Renderer_SwapBuffers")
    } else {
        None
    }
}

/// The first occupied slot.
pub open spec fn first_occupied_slot(s: RendererWindowSlots) -> Option<&'static str> {
    first_slot_where(s, |c: CallbackSlot| c != CallbackSlot::Empty)
}

/// The first slot that does not hold this renderer's callback.
pub open spec fn first_drifted_slot(s: RendererWindowSlots) -> Option<&'static str> {
    first_slot_where(s, |c: CallbackSlot| c != CallbackSlot::Ash)
}

/// Whether some slot holds this renderer's callback.
pub open spec fn owns_any_slot(s: RendererWindowSlots) -> bool {
    first_slot_where(s, |c: CallbackSlot| c == CallbackSlot::Ash) is Some
}

/// All slots empty.
pub open spec fn all_slots_empty(s: RendererWindowSlots) -> bool {
    first_occupied_slot(s) is None
}

/// The slots with this renderer's callbacks removed, others kept.
pub open spec fn without_ash(s: RendererWindowSlots) -> RendererWindowSlots {
    let clear = |c: CallbackSlot| if c == CallbackSlot::Ash {
        CallbackSlot::Empty
    } else {
        c
    };
    RendererWindowSlots {
        create_window: clear(s.create_window),
        destroy_window: clear(s.destroy_window),
        set_window_size: clear(s.set_window_size),
        render_window: clear(s.render_window),
        swap_buffers: clear(s.swap_buffers),
    }
}

/// Every slot holding this renderer's callback.
pub open spec fn all_ash() -> RendererWindowSlots {
    RendererWindowSlots {
        create_window: CallbackSlot::Ash,
        destroy_window: CallbackSlot::Ash,
        set_window_size: CallbackSlot::Ash,
        render_window: CallbackSlot::Ash,
        swap_buffers: CallbackSlot::Ash,
    }
}

fn slot_pick_occupied(c: CallbackSlot) -> (r: bool)
    ensures
        r == (c != CallbackSlot::Empty),
{
    match c {
        CallbackSlot::Empty => false,
        _ => true,
    }
}

fn slot_pick_drifted(c: CallbackSlot) -> (r: bool)
    ensures
        r == (c != CallbackSlot::Ash),
{
    match c {
        CallbackSlot::Ash => false,
        _ => true,
    }
}

fn slot_is_ash(c: CallbackSlot) -> (r: bool)
    ensures
        r == (c == CallbackSlot::Ash),
{
    match c {
        CallbackSlot::Ash => true,
        _ => false,
    }
}

impl RendererWindowSlots {
    /// All five slots empty.
    pub fn empty() -> (r: Self)
        ensures
            all_slots_empty(r),
            r == (RendererWindowSlots {
                create_window: CallbackSlot::Empty,
                destroy_window: CallbackSlot::Empty,
                set_window_size: CallbackSlot::Empty,
                render_window: CallbackSlot::Empty,
                swap_buffers: CallbackSlot::Empty,
            }),
    {
        RendererWindowSlots {
            create_window: CallbackSlot::Empty,
            destroy_window: CallbackSlot::Empty,
            set_window_size: CallbackSlot::Empty,
            render_window: CallbackSlot::Empty,
            swap_buffers: CallbackSlot::Empty,
        }
    }

    /// The first occupied slot, by field name.
    pub fn first_occupied(&self) -> (r: Option<&'static str>)
        ensures
            r == first_occupied_slot(*self),
    {
        if slot_pick_occupied(self.create_window) {
            Some("Renderer_CreateWindow")
        } else if slot_pick_occupied(self.destroy_window) {
            Some("Renderer_DestroyWindow")
        } else if slot_pick_occupied(self.set_window_size) {
            Some("Renderer_SetWindowSize")
        } else if slot_pick_occupied(self.render_window) {
            Some("Renderer_RenderWindow")
        } else if slot_pick_occupied(self.swap_buffers) {
            Some("Renderer_SwapBuffers")
        } else {
            None
        }
    }

    /// The first slot that no longer holds this renderer's callback, by field name.
    pub fn first_drift(&self) -> (r: Option<&'static str>)
        ensures
            r == first_drifted_slot(*self),
    {
        if slot_pick_drifted(self.create_window) {
            Some("Renderer_CreateWindow")
        } else if slot_pick_drifted(self.destroy_window) {
            Some("Renderer_DestroyWindow")
        } else if slot_pick_drifted(self.set_window_size) {
            Some("Renderer_SetWindowSize")
        } else if slot_pick_drifted(self.render_window) {
            Some("Renderer_RenderWindow")
        } else if slot_pick_drifted(self.swap_buffers) {
            Some("Renderer_SwapBuffers")
        } else {
            None
        }
    }

    /// Whether any slot holds this renderer's callback.
    pub fn owns_any(&self) -> (r: bool)
        ensures
            r == owns_any_slot(*self),
    {
        slot_is_ash(self.create_window) || slot_is_ash(self.destroy_window) || slot_is_ash(
            self.set_window_size,
        ) || slot_is_ash(self.render_window) || slot_is_ash(self.swap_buffers)
    }

    /// Empties the slots that hold this renderer's callbacks; other backends' stay.
    pub fn clear_ash(&mut self)
        ensures
            *final(self) == without_ash(*old(self)),
    {
        if slot_is_ash(self.create_window) {
            self.create_window = CallbackSlot::Empty;
        }
        if slot_is_ash(self.destroy_window) {
            self.destroy_window = CallbackSlot::Empty;
        }
        if slot_is_ash(self.set_window_size) {
            self.set_window_size = CallbackSlot::Empty;
        }
        if slot_is_ash(self.render_window) {
            self.render_window = CallbackSlot::Empty;
        }
        if slot_is_ash(self.swap_buffers) {
            self.swap_buffers = CallbackSlot::Empty;
        }
    }
}

/// The renderer-owned fields of a Context, as the renderer reads and writes them.
#[derive(Clone, Copy, Debug, PartialEq, Eq, Structural)]
pub struct SharedRendererState {
    /// `BackendRendererUserData`.
    pub user_data: u64,
    /// `BackendRendererName`.
    pub name: u64,
    /// `BackendFlags`.
    pub backend_flags: i32,
    /// `DrawCallback_ResetRenderState`.
    pub draw_reset_render_state: CallbackSlot,
    /// `DrawCallback_SetSamplerLinear`.
    pub draw_set_sampler_linear: CallbackSlot,
    /// `DrawCallback_SetSamplerNearest`.
    pub draw_set_sampler_nearest: CallbackSlot,
    /// `Renderer_RenderState`.
    pub render_state: u64,
    /// `Renderer_TextureMaxWidth`.
    pub texture_max_width: i32,
    /// `Renderer_TextureMaxHeight`.
    pub texture_max_height: i32,
    /// The window callback slots.
    pub windows: RendererWindowSlots,
}

/// An error naming a shared field that was claimed before the renderer published.
pub open spec fn occupied(field: &'static str) -> RendererError {
    RendererError::RendererStateOccupied { field }
}

/// An error naming a shared field that changed after the renderer published.
pub open spec fn replaced(field: &'static str) -> RendererError {
    RendererError::RendererStateReplaced { field }
}

/// Why the Context cannot receive a new renderer, if it cannot.
pub open spec fn preflight_result(s: SharedRendererState) -> Result<(), RendererError> {
    if s.user_data != 0 {
        Err(occupied("BackendRendererUserData"))
    } else if s.name != 0 {
        Err(occupied("BackendRendererName"))
    } else if s.backend_flags & (CORE_RENDERER_FLAGS | RENDERER_HAS_VIEWPORTS) != 0 {
        Err(occupied("BackendFlags renderer capabilities"))
    } else if s.draw_reset_render_state != CallbackSlot::Empty {
        Err(occupied("DrawCallback_ResetRenderState"))
    } else if s.draw_set_sampler_linear != CallbackSlot::Empty {
        Err(occupied("DrawCallback_SetSamplerLinear"))
    } else if s.draw_set_sampler_nearest != CallbackSlot::Empty {
        Err(occupied("DrawCallback_SetSamplerNearest"))
    } else if s.render_state != 0 {
        Err(occupied("Renderer_RenderState"))
    } else if s.texture_max_width != 0 {
        Err(occupied("Renderer_TextureMaxWidth"))
    } else if s.texture_max_height != 0 {
        Err(occupied("Renderer_TextureMaxHeight"))
    } else {
        match first_occupied_slot(s.windows) {
            Some(field) => Err(occupied(field)),
            None => Ok(()),
        }
    }
}

/// Whether some standard draw callback is still this renderer's.
pub open spec fn owns_draw_callback(s: SharedRendererState) -> bool {
    ||| s.draw_reset_render_state == CallbackSlot::Ash
    ||| s.draw_set_sampler_linear == CallbackSlot::Ash
    ||| s.draw_set_sampler_nearest == CallbackSlot::Ash
}

/// A draw callback slot with this renderer's callback removed.
pub open spec fn clear_if_ash(c: CallbackSlot) -> CallbackSlot {
    if c == CallbackSlot::Ash {
        CallbackSlot::Empty
    } else {
        c
    }
}

/// The renderer's publication record for one Context.
#[derive(Clone, Copy, Debug)]
pub struct RendererContextState {
    /// Address of the renderer's user-data token (nonzero).
    pub token: u64,
    /// Address of the published renderer name, zero when none.
    pub name_ptr: u64,
    /// Whether the renderer's publication is in the Context.
    pub published: bool,
    /// The first replaced field observed; sticky.
    pub fault: Option<&'static str>,
}

/// Whether `c` still holds one of the renderer's core publications.
pub open spec fn owns_core(st: RendererContextState, s: SharedRendererState) -> bool {
    ||| s.user_data == st.token
    ||| (st.name_ptr != 0 && s.name == st.name_ptr)
    ||| owns_draw_callback(s)
}

/// The outcome of validating the publication against the shared state (`None` when the
/// Context's pointers are null).
pub open spec fn validate_bound_result(
    st: RendererContextState,
    shared: Option<SharedRendererState>,
) -> Result<(), RendererError> {
    if !st.published {
        Err(RendererError::RendererNotAttached)
    } else {
        match shared {
            None => Err(replaced("renderer Context pointers")),
            Some(s) => if s.user_data != st.token {
                Err(replaced("BackendRendererUserData"))
            } else if s.name != st.name_ptr {
                Err(replaced("BackendRendererName"))
            } else if s.backend_flags & CORE_RENDERER_FLAGS != CORE_RENDERER_FLAGS {
                Err(replaced("BackendFlags renderer capabilities"))
            } else if s.draw_reset_render_state != CallbackSlot::Ash {
                Err(replaced("DrawCallback_ResetRenderState"))
            } else if s.draw_set_sampler_linear != CallbackSlot::Ash {
                Err(replaced("DrawCallback_SetSamplerLinear"))
            } else if s.draw_set_sampler_nearest != CallbackSlot::Ash {
                Err(replaced("DrawCallback_SetSamplerNearest"))
            } else if s.render_state != 0 {
                Err(replaced("Renderer_RenderState"))
            } else if s.texture_max_width != 0 {
                Err(replaced("Renderer_TextureMaxWidth"))
            } else if s.texture_max_height != 0 {
                Err(replaced("Renderer_TextureMaxHeight"))
            } else if s.backend_flags & RENDERER_HAS_VIEWPORTS != 0 {
                match first_drifted_slot(s.windows) {
                    Some(field) => Err(replaced(field)),
                    None => Ok(()),
                }
            } else {
                match first_occupied_slot(s.windows) {
                    Some(field) => Err(replaced(field)),
                    None => Ok(()),
                }
            },
        }
    }
}

/// The shared state after withdrawing the capability flags the renderer still owns.
pub open spec fn revoked(st: RendererContextState, shared: Option<SharedRendererState>) -> Option<
    SharedRendererState,
> {
    match shared {
        None => None,
        Some(s) => if !st.published {
            Some(s)
        } else {
            let f1 = if owns_core(st, s) {
                s.backend_flags & !CORE_RENDERER_FLAGS
            } else {
                s.backend_flags
            };
            let f2 = if f1 & RENDERER_HAS_VIEWPORTS != 0 && first_drifted_slot(s.windows) is None {
                f1 & !RENDERER_HAS_VIEWPORTS
            } else {
                f1
            };
            Some(SharedRendererState { backend_flags: f2, ..s })
        },
    }
}

/// The result of validating: a recorded fault is reported again, otherwise the publication is
/// checked.
pub open spec fn validate_result(st: RendererContextState, shared: Option<SharedRendererState>) -> Result<
    (),
    RendererError,
> {
    match st.fault {
        Some(field) => Err(replaced(field)),
        None => validate_bound_result(st, shared),
    }
}

/// The publication record after validating: the first replaced field is recorded.
pub open spec fn after_validate(st: RendererContextState, shared: Option<SharedRendererState>) -> RendererContextState {
    match st.fault {
        Some(_) => st,
        None => match validate_bound_result(st, shared) {
            Err(RendererError::RendererStateReplaced { field }) => RendererContextState {
                fault: Some(field),
                ..st
            },
            _ => st,
        },
    }
}

/// The shared state after publishing into `s`, whose name was just set.
pub open spec fn published_shared(st: RendererContextState, s: SharedRendererState) -> SharedRendererState {
    SharedRendererState {
        user_data: st.token,
        backend_flags: s.backend_flags | CORE_RENDERER_FLAGS,
        draw_reset_render_state: CallbackSlot::Ash,
        draw_set_sampler_linear: CallbackSlot::Ash,
        draw_set_sampler_nearest: CallbackSlot::Ash,
        ..s
    }
}

/// The publication record after publishing into `s`.
pub open spec fn published_record(st: RendererContextState, s: SharedRendererState) -> RendererContextState {
    RendererContextState { name_ptr: s.name, published: true, fault: None, ..st }
}

/// The shared state after withdrawing the publication `st` from `s`.
pub open spec fn unpublished_shared(st: RendererContextState, s: SharedRendererState) -> SharedRendererState {
    let user_data_ours = s.user_data == st.token;
    let name_ours = st.name_ptr != 0 && s.name == st.name_ptr;
    let still_owns = user_data_ours || name_ours || owns_draw_callback(s);
    SharedRendererState {
        user_data: if user_data_ours {
            0
        } else {
            s.user_data
        },
        name: if name_ours {
            0
        } else {
            s.name
        },
        backend_flags: if still_owns {
            s.backend_flags & !CORE_RENDERER_FLAGS
        } else {
            s.backend_flags
        },
        draw_reset_render_state: clear_if_ash(s.draw_reset_render_state),
        draw_set_sampler_linear: clear_if_ash(s.draw_set_sampler_linear),
        draw_set_sampler_nearest: clear_if_ash(s.draw_set_sampler_nearest),
        ..s
    }
}

fn draw_slot_is_ash(c: CallbackSlot) -> (r: bool)
    ensures
        r == (c == CallbackSlot::Ash),
{
    slot_is_ash(c)
}

impl RendererContextState {
    /// Checks that the Context holds no renderer state before a renderer is installed.
    pub fn preflight(shared: &SharedRendererState) -> (r: Result<(), RendererError>)
        ensures
            r == preflight_result(*shared),
    {
        if shared.user_data != 0 {
            return Err(RendererError::RendererStateOccupied { field: "BackendRendererUserData" });
        }
        if shared.name != 0 {
            return Err(RendererError::RendererStateOccupied { field: "BackendRendererName" });
        }
        if shared.backend_flags & (CORE_RENDERER_FLAGS | RENDERER_HAS_VIEWPORTS) != 0 {
            return Err(
                RendererError::RendererStateOccupied { field: "BackendFlags renderer capabilities" },
            );
        }
        if slot_pick_occupied(shared.draw_reset_render_state) {
            return Err(
                RendererError::RendererStateOccupied { field: "DrawCallback_ResetRenderState" },
            );
        }
        if slot_pick_occupied(shared.draw_set_sampler_linear) {
            return Err(
                RendererError::RendererStateOccupied { field: "DrawCallback_SetSamplerLinear" },
            );
        }
        if slot_pick_occupied(shared.draw_set_sampler_nearest) {
            return Err(
                RendererError::RendererStateOccupied { field: "DrawCallback_SetSamplerNearest" },
            );
        }
        if shared.render_state != 0 {
            return Err(RendererError::RendererStateOccupied { field: "Renderer_RenderState" });
        }
        if shared.texture_max_width != 0 {
            return Err(RendererError::RendererStateOccupied { field: "Renderer_TextureMaxWidth" });
        }
        if shared.texture_max_height != 0 {
            return Err(RendererError::RendererStateOccupied { field: "Renderer_TextureMaxHeight" });
        }
        match shared.windows.first_occupied() {
            Some(field) => Err(RendererError::RendererStateOccupied { field }),
            None => Ok(()),
        }
    }

    /// A publication record for a Context that passed [`Self::preflight`], with the address
    /// of the renderer's user-data token.
    pub fn prepare(shared: &SharedRendererState, token: u64) -> (r: Result<Self, RendererError>)
        ensures
            match preflight_result(*shared) {
                Err(e) => r == Err::<Self, RendererError>(e),
                Ok(_) => r == Ok::<Self, RendererError>(
                    RendererContextState { token, name_ptr: 0, published: false, fault: None },
                ),
            },
    {
        match Self::preflight(shared) {
            Err(e) => Err(e),
            Ok(()) => Ok(RendererContextState { token, name_ptr: 0, published: false, fault: None }),
        }
    }

    /// Publishes the renderer into `shared`, whose name was just set to the renderer's name:
    /// the token becomes the user data, the core capability flags are declared, and the standard
    /// draw callbacks become the renderer's.
    pub fn publish(&mut self, shared: &mut SharedRendererState)
        ensures
            *final(shared) == published_shared(*old(self), *old(shared)),
            *final(self) == published_record(*old(self), *old(shared)),
    {
        shared.user_data = self.token;
        shared.backend_flags = shared.backend_flags | CORE_RENDERER_FLAGS;
        shared.draw_reset_render_state = CallbackSlot::Ash;
        shared.draw_set_sampler_linear = CallbackSlot::Ash;
        shared.draw_set_sampler_nearest = CallbackSlot::Ash;
        self.name_ptr = shared.name;
        self.fault = None;
        self.published = true;
    }

    /// Checks that every publication is still in place (`shared` is `None` when the Context's
    /// pointers are null).
    pub fn validate_bound(&self, shared: &Option<SharedRendererState>) -> (r: Result<(), RendererError>)
        ensures
            r == validate_bound_result(*self, *shared),
    {
        if !self.published {
            return Err(RendererError::RendererNotAttached);
        }
        let s = match shared {
            None => return Err(RendererError::RendererStateReplaced { field: "renderer Context pointers" }),
            Some(s) => s,
        };
        if s.user_data != self.token {
            return Err(RendererError::RendererStateReplaced { field: "BackendRendererUserData" });
        }
        if s.name != self.name_ptr {
            return Err(RendererError::RendererStateReplaced { field: "BackendRendererName" });
        }
        if s.backend_flags & CORE_RENDERER_FLAGS != CORE_RENDERER_FLAGS {
            return Err(
                RendererError::RendererStateReplaced { field: "BackendFlags renderer capabilities" },
            );
        }
        if !draw_slot_is_ash(s.draw_reset_render_state) {
            return Err(
                RendererError::RendererStateReplaced { field: "DrawCallback_ResetRenderState" },
            );
        }
        if !draw_slot_is_ash(s.draw_set_sampler_linear) {
            return Err(
                RendererError::RendererStateReplaced { field: "DrawCallback_SetSamplerLinear" },
            );
        }
        if !draw_slot_is_ash(s.draw_set_sampler_nearest) {
            return Err(
                RendererError::RendererStateReplaced { field: "DrawCallback_SetSamplerNearest" },
            );
        }
        if s.render_state != 0 {
            return Err(RendererError::RendererStateReplaced { field: "Renderer_RenderState" });
        }
        if s.texture_max_width != 0 {
            return Err(RendererError::RendererStateReplaced { field: "Renderer_TextureMaxWidth" });
        }
        if s.texture_max_height != 0 {
            return Err(RendererError::RendererStateReplaced { field: "Renderer_TextureMaxHeight" });
        }
        let drift = if s.backend_flags & RENDERER_HAS_VIEWPORTS != 0 {
            s.windows.first_drift()
        } else {
            s.windows.first_occupied()
        };
        match drift {
            Some(field) => Err(RendererError::RendererStateReplaced { field }),
            None => Ok(()),
        }
    }

    /// Whether the Context still holds one of the renderer's core publications.
    pub fn owns_core_publication_bound(&self, shared: &Option<SharedRendererState>) -> (r: bool)
        ensures
            r == (self.published && (shared matches Some(s) && owns_core(*self, *s))),
    {
        if !self.published {
            return false;
        }
        match shared {
            None => false,
            Some(s) => s.user_data == self.token || (self.name_ptr != 0 && s.name == self.name_ptr)
                || draw_slot_is_ash(s.draw_reset_render_state) || draw_slot_is_ash(
                s.draw_set_sampler_linear,
            ) || draw_slot_is_ash(s.draw_set_sampler_nearest),
        }
    }

    /// Withdraws the capability flags the renderer still owns: the core flags while one of its
    /// core publications remains, and the viewport flag while all window callbacks are its own.
    pub fn revoke_owned_capabilities_bound(&self, shared: &mut Option<SharedRendererState>)
        ensures
            *final(shared) == revoked(*self, *old(shared)),
    {
        if !self.published {
            return;
        }
        let owns = self.owns_core_publication_bound(shared);
        match shared {
            None => {},
            Some(s) => {
                if owns {
                    s.backend_flags = s.backend_flags & !CORE_RENDERER_FLAGS;
                }
                if s.backend_flags & RENDERER_HAS_VIEWPORTS != 0 && s.windows.first_drift().is_none() {
                    s.backend_flags = s.backend_flags & !RENDERER_HAS_VIEWPORTS;
                }
            },
        }
    }

    /// Validates the publication. The first replaced field is recorded and reported by every
    /// later validation; on a replacement the owned capability flags are withdrawn.
    pub fn validate(&mut self, shared: &mut Option<SharedRendererState>) -> (r: Result<(), RendererError>)
        ensures
            r == validate_result(*old(self), *old(shared)),
            *final(self) == after_validate(*old(self), *old(shared)),
            *final(shared) == if r matches Err(RendererError::RendererStateReplaced { .. }) {
                revoked(*old(self), *old(shared))
            } else {
                *old(shared)
            },
    {
        if let Some(field) = self.fault {
            self.revoke_owned_capabilities_bound(shared);
            return Err(RendererError::RendererStateReplaced { field });
        }
        let result = self.validate_bound(shared);
        if let Err(RendererError::RendererStateReplaced { field }) = result {
            self.revoke_owned_capabilities_bound(shared);
            self.fault = Some(field);
        }
        result
    }

    /// Withdraws the renderer's publication from `shared`. Only what is still the renderer's is
    /// removed. Returns whether the published name was still the renderer's, in which case the
    /// caller releases it.
    pub fn unpublish_bound(&mut self, shared: &mut Option<SharedRendererState>) -> (r: bool)
        ensures
            !old(self).published ==> (!r && *final(self) == *old(self) && *final(shared) == *old(
                shared,
            )),
            old(self).published ==> match *old(shared) {
                None => {
                    &&& !r
                    &&& *final(self) == (RendererContextState { published: false, ..*old(self) })
                    &&& *final(shared) == *old(shared)
                },
                Some(s) => {
                    &&& r == (old(self).name_ptr != 0 && s.name == old(self).name_ptr)
                    &&& *final(self) == (RendererContextState {
                        published: false,
                        name_ptr: 0,
                        ..*old(self)
                    })
                    &&& *final(shared) == Some(unpublished_shared(*old(self), s))
                },
            },
    {
        if !self.published {
            return false;
        }
        self.published = false;
        match shared {
            None => false,
            Some(s) => {
                let user_data_is_ours = s.user_data == self.token;
                if user_data_is_ours {
                    s.user_data = 0;
                }
                let name_ptr = self.name_ptr;
                self.name_ptr = 0;
                let name_is_ours = name_ptr != 0 && s.name == name_ptr;
                if name_is_ours {
                    s.name = 0;
                }
                let still_owns = user_data_is_ours || name_is_ours || draw_slot_is_ash(
                    s.draw_reset_render_state,
                ) || draw_slot_is_ash(s.draw_set_sampler_linear) || draw_slot_is_ash(
                    s.draw_set_sampler_nearest,
                );
                if still_owns {
                    s.backend_flags = s.backend_flags & !CORE_RENDERER_FLAGS;
                }
                if draw_slot_is_ash(s.draw_reset_render_state) {
                    s.draw_reset_render_state = CallbackSlot::Empty;
                }
                if draw_slot_is_ash(s.draw_set_sampler_linear) {
                    s.draw_set_sampler_linear = CallbackSlot::Empty;
                }
                if draw_slot_is_ash(s.draw_set_sampler_nearest) {
                    s.draw_set_sampler_nearest = CallbackSlot::Empty;
                }
                name_is_ours
            },
        }
    }

    /// Discards the publication bookkeeping for a Context whose native state is already gone,
    /// touching no Context.
    pub fn forget_destroyed_context(&mut self)
        ensures
            *final(self) == (RendererContextState { published: false, name_ptr: 0, ..*old(self) }),
    {
        self.published = false;
        self.name_ptr = 0;
    }
}

/// A renderer that published into a Context that passed preflight validates successfully as
/// long as nobody changes the Context.
pub proof fn law_publication_validates(st: RendererContextState, s: SharedRendererState, name: u64)
    requires
        preflight_result(s) is Ok,
    ensures
        ({
            let named = SharedRendererState { name, ..s };
            validate_bound_result(
                published_record(st, named),
                Some(published_shared(st, named)),
            ) is Ok
        }),
{
    let f = s.backend_flags;
    assert(f & (CORE_RENDERER_FLAGS | RENDERER_HAS_VIEWPORTS) == 0 ==> (f | CORE_RENDERER_FLAGS)
        & CORE_RENDERER_FLAGS == CORE_RENDERER_FLAGS && (f | CORE_RENDERER_FLAGS)
        & RENDERER_HAS_VIEWPORTS == 0) by (bit_vector);
}

/// Publishing and then withdrawing leaves the Context exactly as it was before the name was
/// set, so another renderer can take it over; the withdrawal reports the name as its own.
pub proof fn law_unpublish_restores_context(st: RendererContextState, s: SharedRendererState, name: u64)
    requires
        preflight_result(s) is Ok,
        st.token != 0,
        name != 0,
    ensures
        ({
            let named = SharedRendererState { name, ..s };
            let record = published_record(st, named);
            let shared = published_shared(st, named);
            &&& unpublished_shared(record, shared) == s
            &&& record.name_ptr != 0 && shared.name == record.name_ptr
            &&& preflight_result(unpublished_shared(record, shared)) is Ok
        }),
{
    let f = s.backend_flags;
    assert(f & (CORE_RENDERER_FLAGS | RENDERER_HAS_VIEWPORTS) == 0 ==> (f | CORE_RENDERER_FLAGS)
        & !CORE_RENDERER_FLAGS == f) by (bit_vector);
}

/// Once validation reports a replaced field, every later validation reports the same field,
/// whatever the Context then holds.
pub proof fn law_replacement_fault_is_sticky(
    st: RendererContextState,
    first: Option<SharedRendererState>,
    later: Option<SharedRendererState>,
    field: &'static str,
)
    requires
        validate_result(st, first) == Err::<(), RendererError>(replaced(field)),
    ensures
        validate_result(after_validate(st, first), later) == Err::<(), RendererError>(replaced(field)),
{
}

} // verus!
