//! Checks the renderer makes before it touches Vulkan resources: whether it still exists, whether
//! a frame or Context is the one it serves, and how a device wait ends its teardown.

use crate::context_state::{
    after_validate, revoked, validate_result, RendererContextState, SharedRendererState,
};
use crate::error::RendererError;
use crate::viewport_runtime::{classify_device_idle, DeviceIdleOutcome};
use crate::vulkan_values::RESULT_ERROR_DEVICE_LOST;
use vstd::prelude::*;

verus! {

/// The Context and generation of the renderer consumer a renderer is attached through.
#[derive(Clone, Copy, Debug, PartialEq, Eq, Structural)]
pub struct ConsumerIdentity {
    /// The Context's identity.
    pub context_id: u64,
    /// The consumer generation.
    pub generation: u64,
}

/// Whether the renderer still owns its resources, and the consumer it serves.
#[derive(Clone, Copy, Debug, PartialEq, Eq, Structural)]
pub struct RendererLifecycle {
    /// The renderer released its Vulkan resources.
    pub destroyed: bool,
    /// The consumer the renderer is attached through, when attached.
    pub consumer: Option<ConsumerIdentity>,
}

/// How a teardown proceeds after waiting for the device.
#[derive(Debug, PartialEq, Eq)]
pub enum TeardownStep {
    /// Nothing to do: the resources are already gone.
    AlreadyDestroyed,
    /// The wait failed in a retryable way: keep every resource and report this error.
    Retry(RendererError),
    /// Release every resource, then report this result (device loss is reported after the
    /// release).
    Release(Result<(), RendererError>),
}

/// How a teardown of `l` proceeds after the device wait returned `idle`.
pub open spec fn teardown_plan(l: RendererLifecycle, idle: Result<(), i32>) -> TeardownStep {
    if l.destroyed {
        TeardownStep::AlreadyDestroyed
    } else {
        match idle {
            Ok(_) => TeardownStep::Release(Ok(())),
            Err(code) => if code == RESULT_ERROR_DEVICE_LOST {
                TeardownStep::Release(Err(RendererError::Vulkan(RESULT_ERROR_DEVICE_LOST)))
            } else {
                TeardownStep::Retry(RendererError::Vulkan(code))
            },
        }
    }
}

impl RendererLifecycle {
    /// A live renderer attached through `consumer`.
    pub fn new(consumer: ConsumerIdentity) -> (r: Self)
        ensures
            r == (RendererLifecycle { destroyed: false, consumer: Some(consumer) }),
    {
        RendererLifecycle { destroyed: false, consumer: Some(consumer) }
    }

    /// The renderer exists and its Context publication is intact.
    pub fn ensure_operational(
        &self,
        context_state: &mut RendererContextState,
        shared: &mut Option<SharedRendererState>,
    ) -> (r: Result<(), RendererError>)
        ensures
            self.destroyed ==> {
                &&& r == Err::<(), RendererError>(RendererError::RendererDestroyed)
                &&& *final(context_state) == *old(context_state)
                &&& *final(shared) == *old(shared)
            },
            !self.destroyed ==> {
                &&& r == validate_result(*old(context_state), *old(shared))
                &&& *final(context_state) == after_validate(*old(context_state), *old(shared))
                &&& *final(shared) == if r matches Err(RendererError::RendererStateReplaced { .. }) {
                    revoked(*old(context_state), *old(shared))
                } else {
                    *old(shared)
                }
            },
    {
        if self.destroyed {
            return Err(RendererError::RendererDestroyed);
        }
        context_state.validate(shared)
    }

    /// A rendered frame belongs to the Context and consumer generation the renderer serves.
    /// `frame_generation` is `None` for a frame without a managed-texture epoch.
    pub fn ensure_frame_matches(
        &self,
        context_state: &mut RendererContextState,
        shared: &mut Option<SharedRendererState>,
        frame_context: u64,
        frame_generation: Option<u64>,
    ) -> (r: Result<(), RendererError>)
        ensures
            self.destroyed ==> r == Err::<(), RendererError>(RendererError::RendererDestroyed),
            !self.destroyed && validate_result(*old(context_state), *old(shared)) is Err ==> r
                == validate_result(*old(context_state), *old(shared)),
            !self.destroyed && validate_result(*old(context_state), *old(shared)) is Ok ==> r == match self.consumer {
                None => Err::<(), RendererError>(RendererError::RendererNotAttached),
                Some(c) => if frame_context != c.context_id {
                    Err::<(), RendererError>(
                        RendererError::ContextMismatch { expected: c.context_id, actual: frame_context },
                    )
                } else {
                    match frame_generation {
                        None => Err::<(), RendererError>(
                            RendererError::InvalidRenderState(
                                "Ash requires a managed-texture renderer epoch",
                            ),
                        ),
                        Some(g) => if g != c.generation {
                            Err::<(), RendererError>(
                                RendererError::ConsumerGenerationMismatch {
                                    expected: c.generation,
                                    actual: g,
                                },
                            )
                        } else {
                            Ok::<(), RendererError>(())
                        },
                    }
                },
            },
    {
        match self.ensure_operational(context_state, shared) {
            Err(e) => return Err(e),
            Ok(()) => {},
        }
        let consumer = match self.consumer {
            None => return Err(RendererError::RendererNotAttached),
            Some(c) => c,
        };
        if frame_context != consumer.context_id {
            return Err(
                RendererError::ContextMismatch { expected: consumer.context_id, actual: frame_context },
            );
        }
        let generation = match frame_generation {
            None => return Err(
                RendererError::InvalidRenderState("Ash requires a managed-texture renderer epoch"),
            ),
            Some(g) => g,
        };
        if generation != consumer.generation {
            return Err(
                RendererError::ConsumerGenerationMismatch {
                    expected: consumer.generation,
                    actual: generation,
                },
            );
        }
        Ok(())
    }

    /// A lifecycle call names the Context the renderer serves.
    pub fn ensure_context_matches(&self, context_id: u64) -> (r: Result<(), RendererError>)
        ensures
            r == match self.consumer {
                None => Err::<(), RendererError>(RendererError::RendererNotAttached),
                Some(c) => if context_id != c.context_id {
                    Err::<(), RendererError>(
                        RendererError::ContextMismatch { expected: c.context_id, actual: context_id },
                    )
                } else {
                    Ok::<(), RendererError>(())
                },
            },
    {
        match self.consumer {
            None => Err(RendererError::RendererNotAttached),
            Some(c) => if context_id != c.context_id {
                Err(RendererError::ContextMismatch { expected: c.context_id, actual: context_id })
            } else {
                Ok(())
            },
        }
    }

    /// A shutdown through Context `context_id` may start: the renderer exists and serves it.
    pub fn ensure_shutdown_allowed(&self, context_id: u64) -> (r: Result<(), RendererError>)
        ensures
            self.destroyed ==> r == Err::<(), RendererError>(RendererError::RendererDestroyed),
            !self.destroyed ==> r == match self.consumer {
                None => Err::<(), RendererError>(RendererError::RendererNotAttached),
                Some(c) => if context_id != c.context_id {
                    Err::<(), RendererError>(
                        RendererError::ContextMismatch { expected: c.context_id, actual: context_id },
                    )
                } else {
                    Ok::<(), RendererError>(())
                },
            },
    {
        if self.destroyed {
            return Err(RendererError::RendererDestroyed);
        }
        self.ensure_context_matches(context_id)
    }

    /// Takes the consumer out for a shutdown transaction.
    pub fn take_shutdown_consumer(&mut self) -> (r: Result<ConsumerIdentity, RendererError>)
        ensures
            final(self).destroyed == old(self).destroyed,
            final(self).consumer is None,
            r == match old(self).consumer {
                None => Err::<ConsumerIdentity, RendererError>(RendererError::RendererNotAttached),
                Some(c) => Ok::<ConsumerIdentity, RendererError>(c),
            },
    {
        match self.consumer.take() {
            None => Err(RendererError::RendererNotAttached),
            Some(c) => Ok(c),
        }
    }

    /// Puts the consumer back after a shutdown transaction was abandoned.
    pub fn restore_shutdown_consumer(&mut self, consumer: ConsumerIdentity)
        ensures
            *final(self) == (RendererLifecycle { consumer: Some(consumer), ..*old(self) }),
    {
        self.consumer = Some(consumer);
    }

    /// Settles a shutdown transaction once its destroy step returned, with the consumer that
    /// [`Self::take_shutdown_consumer`] handed out. When the renderer is now destroyed the
    /// prepared texture reset commits and the consumer stays released (`true`); otherwise the
    /// reset is abandoned and the consumer is put back (`false`).
    pub fn settle_shutdown(&mut self, consumer: ConsumerIdentity) -> (committed: bool)
        ensures
            committed == old(self).destroyed,
            committed ==> *final(self) == *old(self),
            !committed ==> *final(self) == (RendererLifecycle {
                consumer: Some(consumer),
                ..*old(self)
            }),
    {
        if self.destroyed {
            return true;
        }
        self.restore_shutdown_consumer(consumer);
        false
    }

    /// Decides how a teardown proceeds after waiting for the device with result `idle`.
    pub fn teardown_step(&self, idle: Result<(), i32>) -> (r: TeardownStep)
        ensures
            r == teardown_plan(*self, idle),
    {
        if self.destroyed {
            return TeardownStep::AlreadyDestroyed;
        }
        match classify_device_idle(idle) {
            Ok(DeviceIdleOutcome::Complete) => TeardownStep::Release(Ok(())),
            Ok(DeviceIdleOutcome::DeviceLost) => TeardownStep::Release(
                Err(RendererError::Vulkan(RESULT_ERROR_DEVICE_LOST)),
            ),
            Err(code) => TeardownStep::Retry(RendererError::Vulkan(code)),
        }
    }

    /// Records that every resource was released.
    pub fn mark_destroyed(&mut self)
        ensures
            *final(self) == (RendererLifecycle { destroyed: true, ..*old(self) }),
    {
        self.destroyed = true;
    }

    /// Dropping a live renderer cleans up only once the native Context is gone: until then
    /// Context-managed texture bindings may still point at its resources.
    pub fn should_run_drop_cleanup(&self, native_context_destroyed: bool) -> (r: bool)
        ensures
            r == self.should_run_drop_cleanup_spec(native_context_destroyed),
    {
        !self.destroyed && native_context_destroyed
    }
}

/// A teardown releases resources at most once: after the release, every later teardown has
/// nothing to do whatever the device reports, and dropping the renderer cleans nothing up.
/// Device loss still releases the resources; any other failed wait keeps them for a retry.
pub proof fn law_teardown_releases_once(l: RendererLifecycle, first: Result<(), i32>, later: Result<(), i32>)
    ensures
        teardown_plan(RendererLifecycle { destroyed: true, ..l }, later) == TeardownStep::AlreadyDestroyed,
        !(RendererLifecycle { destroyed: true, ..l }).should_run_drop_cleanup_spec(true),
        !l.destroyed && first == Err::<(), i32>(RESULT_ERROR_DEVICE_LOST) ==> teardown_plan(l, first) is Release,
        !l.destroyed && (first matches Err(code) && code != RESULT_ERROR_DEVICE_LOST) ==> teardown_plan(l, first) is Retry,
{
}

impl RendererLifecycle {
    /// Whether dropping runs the cleanup, as a value.
    pub open spec fn should_run_drop_cleanup_spec(self, native_context_destroyed: bool) -> bool {
        !self.destroyed && native_context_destroyed
    }
}

} // verus!
