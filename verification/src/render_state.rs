//! The transient state that raw draw callbacks may borrow while the renderer records a frame.

use vstd::prelude::*;

verus! {

/// Error returned while borrowing the transient Vulkan draw-callback state.
#[derive(Clone, Copy, Debug, PartialEq, Eq, Structural)]
pub enum AshRenderStateAccessError {
    /// No Ash render state is active on the current Dear ImGui Context.
    Inactive,
    /// The active callback state is already borrowed by an outer scoped access.
    AlreadyBorrowed,
}

/// What the renderer publishes to raw draw callbacks for one draw scope.
#[derive(Clone, Copy, Debug, PartialEq, Eq, Structural)]
pub struct AshRenderStateStorage {
    /// The command buffer recording Dear ImGui draws.
    pub command_buffer: u64,
    /// The graphics pipeline of this draw scope.
    pub pipeline: u64,
    /// The two-set pipeline layout of this draw scope.
    pub pipeline_layout: u64,
    /// The sampler descriptor set most recently bound.
    pub sampler_descriptor_set: u64,
    /// Reset-render-state commands executed so far, saturating.
    pub reset_count: u32,
    /// Indexed draws recorded since the latest reset, saturating.
    pub draw_commands_since_reset: u32,
    /// Whether a scoped access is in progress.
    pub borrowed: bool,
}

/// `n + 1`, saturating at the largest value.
pub open spec fn saturating_inc(n: u32) -> u32 {
    if n == u32::MAX {
        u32::MAX
    } else {
        (n + 1) as u32
    }
}

impl AshRenderStateStorage {
    /// The state at the start of a draw scope.
    pub fn new(
        command_buffer: u64,
        pipeline: u64,
        pipeline_layout: u64,
        sampler_descriptor_set: u64,
    ) -> (r: Self)
        ensures
            r == (AshRenderStateStorage {
                command_buffer,
                pipeline,
                pipeline_layout,
                sampler_descriptor_set,
                reset_count: 0,
                draw_commands_since_reset: 0,
                borrowed: false,
            }),
    {
        AshRenderStateStorage {
            command_buffer,
            pipeline,
            pipeline_layout,
            sampler_descriptor_set,
            reset_count: 0,
            draw_commands_since_reset: 0,
            borrowed: false,
        }
    }

    /// Records that a sampler descriptor set was bound.
    pub fn set_sampler_descriptor_set(&mut self, descriptor_set: u64)
        ensures
            *final(self) == (AshRenderStateStorage {
                sampler_descriptor_set: descriptor_set,
                ..*old(self)
            }),
    {
        self.sampler_descriptor_set = descriptor_set;
    }

    /// Records a reset-render-state command: the linear sampler is bound again and the draw
    /// count restarts.
    pub fn record_reset(&mut self, linear_sampler_set: u64)
        ensures
            *final(self) == (AshRenderStateStorage {
                sampler_descriptor_set: linear_sampler_set,
                reset_count: saturating_inc(old(self).reset_count),
                draw_commands_since_reset: 0,
                ..*old(self)
            }),
    {
        self.sampler_descriptor_set = linear_sampler_set;
        self.reset_count = self.reset_count.saturating_add(1);
        self.draw_commands_since_reset = 0;
    }

    /// Records one indexed draw.
    pub fn record_draw_command(&mut self)
        ensures
            *final(self) == (AshRenderStateStorage {
                draw_commands_since_reset: saturating_inc(old(self).draw_commands_since_reset),
                ..*old(self)
            }),
    {
        self.draw_commands_since_reset = self.draw_commands_since_reset.saturating_add(1);
    }

    /// Begins a scoped access; refused while another one is in progress.
    pub fn try_borrow(&mut self) -> (r: Result<(), AshRenderStateAccessError>)
        ensures
            old(self).borrowed ==> r == Err::<(), AshRenderStateAccessError>(
                AshRenderStateAccessError::AlreadyBorrowed,
            ) && *final(self) == *old(self),
            !old(self).borrowed ==> r is Ok && *final(self) == (AshRenderStateStorage {
                borrowed: true,
                ..*old(self)
            }),
    {
        if self.borrowed {
            return Err(AshRenderStateAccessError::AlreadyBorrowed);
        }
        self.borrowed = true;
        Ok(())
    }

    /// Ends a scoped access.
    pub fn release(&mut self)
        ensures
            *final(self) == (AshRenderStateStorage { borrowed: false, ..*old(self) }),
    {
        self.borrowed = false;
    }
}

/// Begins a scoped access to the active render state; `None` when no state is active.
pub fn begin_render_state_access(state: &mut Option<AshRenderStateStorage>) -> (r: Result<
    (),
    AshRenderStateAccessError,
>)
    ensures
        match *old(state) {
            None => r == Err::<(), AshRenderStateAccessError>(AshRenderStateAccessError::Inactive)
                && *final(state) == *old(state),
            Some(s) => if s.borrowed {
                r == Err::<(), AshRenderStateAccessError>(
                    AshRenderStateAccessError::AlreadyBorrowed,
                ) && *final(state) == *old(state)
            } else {
                r is Ok && *final(state) == Some(AshRenderStateStorage { borrowed: true, ..s })
            },
        },
{
    match state {
        None => Err(AshRenderStateAccessError::Inactive),
        Some(s) => s.try_borrow(),
    }
}

/// Access to the render state is exclusive: while one access is in progress another is
/// refused, and ending it restores the state as it was.
pub proof fn law_access_is_exclusive(s: AshRenderStateStorage)
    requires
        !s.borrowed,
    ensures
        (AshRenderStateStorage { borrowed: true, ..s }).borrowed,
        (AshRenderStateStorage { borrowed: false, ..AshRenderStateStorage { borrowed: true, ..s } })
            == s,
{
}

} // verus!
