//! Command buffers whose level, usage, reset policy and lifecycle state are part of their type.

use vstd::prelude::*;

use relevant::Relevant;

use crate::device::{CommandBufferLevel, Device, OutOfMemory};
use crate::family::FamilyIndex;

verus! {

#[verifier::external_type_specification]
#[verifier::external_body]
pub struct ExRelevant(relevant::Relevant);

/// Relies on `relevant::Relevant`, a unit value that complains when dropped:
/// a new token that must be discharged before its owner goes away.
#[verifier::external_body]
pub(crate) fn leak_token() -> Relevant {
    Relevant
}

/// Relies on `relevant::Relevant::dispose`: discharges the token without complaint.
#[verifier::external_body]
pub(crate) fn discharge(token: Relevant) {
    token.dispose()
}

/// Bit of the usage flags for a buffer submitted only once.
pub const ONE_TIME_SUBMIT: u32 = 1;

/// Bit of the usage flags for a secondary buffer executed entirely in a render pass.
pub const RENDER_PASS_CONTINUE: u32 = 2;

/// Bit of the usage flags for a buffer that may be resubmitted while pending.
pub const SIMULTANEOUS_USE: u32 = 4;

/// Bit of the pool creation flags that allows individual buffer reset.
pub const RESET_COMMAND_BUFFER: u32 = 2;

/// Command buffers of this level can be submitted to the command queues.
#[derive(Clone, Copy, Debug, Default)]
pub struct PrimaryLevel;

/// Command buffers of this level can be executed as part of the primary buffers.
#[derive(Clone, Copy, Debug, Default)]
pub struct SecondaryLevel;

/// Command buffer level.
pub trait Level: Copy {
    /// The native level this marker stands for.
    spec fn spec_level(&self) -> CommandBufferLevel;

    /// Get raw level value.
    fn level(&self) -> (r: CommandBufferLevel)
        ensures
            r == self.spec_level(),
    ;
}

impl Level for PrimaryLevel {
    open spec fn spec_level(&self) -> CommandBufferLevel {
        CommandBufferLevel::Primary
    }

    fn level(&self) -> (r: CommandBufferLevel) {
        CommandBufferLevel::Primary
    }
}

impl Level for SecondaryLevel {
    open spec fn spec_level(&self) -> CommandBufferLevel {
        CommandBufferLevel::Secondary
    }

    fn level(&self) -> (r: CommandBufferLevel) {
        CommandBufferLevel::Secondary
    }
}

impl Level for CommandBufferLevel {
    open spec fn spec_level(&self) -> CommandBufferLevel {
        *self
    }

    fn level(&self) -> (r: CommandBufferLevel) {
        *self
    }
}

/// This flag specify that buffer can be reset individually.
#[derive(Clone, Copy, Debug, Default)]
pub struct IndividualReset;

/// This flag specify that buffer cannot be reset individually.
#[derive(Clone, Copy, Debug, Default)]
pub struct NoIndividualReset;

/// Specify flags required for command pool creation to allow individual buffer reset.
pub trait Reset: Copy {
    /// The pool creation bits this policy stands for.
    spec fn spec_flags(&self) -> u32;

    /// Pool creation bits for this policy.
    fn flags(&self) -> (r: u32)
        ensures
            r == self.spec_flags(),
    ;
}

impl Reset for IndividualReset {
    open spec fn spec_flags(&self) -> u32 {
        RESET_COMMAND_BUFFER
    }

    fn flags(&self) -> (r: u32) {
        RESET_COMMAND_BUFFER
    }
}

impl Reset for NoIndividualReset {
    open spec fn spec_flags(&self) -> u32 {
        0
    }

    fn flags(&self) -> (r: u32) {
        0
    }
}

/// Command buffer state in which all buffers start.
/// Resetting also moves buffer to this state.
#[derive(Clone, Copy, Debug, Default)]
pub struct InitialState;

/// Command buffer in recording state could be populated with commands.
#[derive(Clone, Copy, Debug, Default)]
pub struct RecordingState<U>(pub U);

/// Command buffer in executable state can be submitted.
#[derive(Clone, Copy, Debug, Default)]
pub struct ExecutableState<U>(pub U);

/// Command buffer in pending state are submitted to the device.
/// Buffer in pending state must never be invalidated or reset because device may read it at the moment.
/// Moving a buffer out of this state is left to the caller, who must know the device is done with it.
#[derive(Clone, Copy, Debug, Default)]
pub struct PendingState<N>(pub N);

/// One-shot buffers move to invalid state after execution.
/// Invalidating any resource referenced in any command recorded to the buffer implicitly move it to the invalid state.
#[derive(Clone, Copy, Debug, Default)]
pub struct InvalidState;

/// States in which command buffer can be reset.
pub trait Resettable {}

impl Resettable for InitialState {}

impl<U> Resettable for RecordingState<U> {}

impl<U> Resettable for ExecutableState<U> {}

impl Resettable for InvalidState {}

/// Buffer with this usage flag will move to invalid state after execution.
/// Resubmitting will require reset and rerecording commands.
#[derive(Clone, Copy, Debug, Default)]
pub struct OneShot;

/// Buffer with this usage flag will move back to executable state after execution.
#[derive(Clone, Copy, Debug, Default)]
pub struct MultiShot<S = ()>(pub S);

/// Additional flag for `MultiShot` that allows to resubmit buffer in pending state.
/// Note that resubmitting pending buffers can hurt performance.
#[derive(Clone, Copy, Debug, Default)]
pub struct SimultaneousUse;

/// Buffers with this usage flag must be secondary buffers executed entirely in render-pass.
#[derive(Clone, Copy, Debug, Default)]
pub struct RenderPassContinue;

/// Trait implemented by all usage types.
pub trait Usage {
    /// The usage bits this marker stands for.
    spec fn spec_flags(&self) -> u32;

    /// Usage bits handed to the device when recording begins.
    fn flags(&self) -> (r: u32)
        ensures
            r == self.spec_flags(),
    ;
}

impl Usage for OneShot {
    open spec fn spec_flags(&self) -> u32 {
        ONE_TIME_SUBMIT
    }

    fn flags(&self) -> (r: u32) {
        ONE_TIME_SUBMIT
    }
}

impl Usage for MultiShot {
    open spec fn spec_flags(&self) -> u32 {
        0
    }

    fn flags(&self) -> (r: u32) {
        0
    }
}

impl Usage for MultiShot<SimultaneousUse> {
    open spec fn spec_flags(&self) -> u32 {
        SIMULTANEOUS_USE
    }

    fn flags(&self) -> (r: u32) {
        SIMULTANEOUS_USE
    }
}

/// Command buffer wrapper.
/// This wrapper defines state with usage, level and ability to be individually reset at type level.
/// This way an operation exists only in the configurations where it is valid.
#[derive(Debug)]
pub struct Buffer<C, S, L, R = NoIndividualReset> {
    raw: u64,
    capability: C,
    state: S,
    level: L,
    reset: R,
    family: FamilyIndex,
    relevant: Relevant,
}

impl<C, S, L, R> Buffer<C, S, L, R> {
    /// Raw handle of the buffer.
    pub closed spec fn spec_raw(&self) -> u64 {
        self.raw
    }

    /// Capability the buffer records with.
    pub closed spec fn spec_capability(&self) -> C {
        self.capability
    }

    /// Lifecycle state of the buffer.
    pub closed spec fn spec_state(&self) -> S {
        self.state
    }

    /// Level marker of the buffer.
    pub closed spec fn spec_level(&self) -> L {
        self.level
    }

    /// Reset policy marker of the buffer.
    pub closed spec fn spec_reset(&self) -> R {
        self.reset
    }

    /// Queue family the buffer was allocated for.
    pub closed spec fn spec_family(&self) -> FamilyIndex {
        self.family
    }

    /// `other` is the same native buffer as `self`, with the same capability,
    /// level, reset policy and family; only its state may differ.
    pub open spec fn same_buffer<T>(&self, other: Buffer<C, T, L, R>) -> bool {
        &&& other.spec_raw() == self.spec_raw()
        &&& other.spec_capability() == self.spec_capability()
        &&& other.spec_level() == self.spec_level()
        &&& other.spec_reset() == self.spec_reset()
        &&& other.spec_family() == self.spec_family()
    }

    /// Wrap raw buffer handle.
    ///
    /// The caller vouches that `raw` is a valid command buffer handle allocated
    /// with `level` from a pool created for `family` (with individual reset where
    /// `reset` says so), that `capability` is a subset of the family's, and that
    /// `state` is the state the buffer is actually in.
    pub fn from_raw(raw: u64, capability: C, state: S, level: L, reset: R, family: FamilyIndex) -> (r:
        Self)
        ensures
            r.spec_raw() == raw,
            r.spec_capability() == capability,
            r.spec_state() == state,
            r.spec_level() == level,
            r.spec_reset() == reset,
            r.spec_family() == family,
    {
        Buffer { raw, capability, state, level, reset, family, relevant: leak_token() }
    }

    /// Get raw command buffer handle.
    ///
    /// Using it must not change the buffer's state, or `change_state` must be
    /// used afterwards to reflect the change.
    pub fn raw(&self) -> (r: u64)
        ensures
            r == self.spec_raw(),
    {
        self.raw
    }

    /// Give up the wrapper and get the raw command buffer handle.
    pub fn into_raw(self) -> (r: u64)
        ensures
            r == self.spec_raw(),
    {
        discharge(self.relevant);
        self.raw
    }

    /// Change state of the command buffer.
    ///
    /// This must be used only to reflect state changed through the raw handle.
    pub fn change_state<U, F: FnOnce(S) -> U>(self, f: F) -> (r: Buffer<C, U, L, R>)
        requires
            f.requires((self.spec_state(),)),
        ensures
            self.same_buffer(r),
            f.ensures((self.spec_state(),), r.spec_state()),
    {
        let state = f(self.state);
        Buffer {
            raw: self.raw,
            capability: self.capability,
            state,
            level: self.level,
            reset: self.reset,
            family: self.family,
            relevant: self.relevant,
        }
    }

    /// Same buffer in the state `state`.
    fn with_state<U>(self, state: U) -> (r: Buffer<C, U, L, R>)
        ensures
            self.same_buffer(r),
            r.spec_state() == state,
    {
        Buffer {
            raw: self.raw,
            capability: self.capability,
            state,
            level: self.level,
            reset: self.reset,
            family: self.family,
            relevant: self.relevant,
        }
    }
}

impl<C, R> Buffer<C, InitialState, PrimaryLevel, R> {
    /// Begin recording command buffer.
    ///
    /// `usage` specifies usage of the command buffer: `OneShot` or `MultiShot`.
    /// Its bits are handed to the device. If the device fails, the buffer must
    /// not be used again and the error is returned.
    pub fn begin<U: Usage, D: Device>(self, usage: U, device: &D) -> (r: Result<
        Buffer<C, RecordingState<U>, PrimaryLevel, R>,
        OutOfMemory,
    >)
        ensures
            r matches Ok(b) ==> self.same_buffer(b) && b.spec_state() == RecordingState(usage),
    {
        let flags = usage.flags();
        match device.begin_command_buffer(self.raw, flags) {
            Ok(()) => Ok(self.with_state(RecordingState(usage))),
            Err(e) => {
                discharge(self.relevant);
                Err(e)
            },
        }
    }
}

impl<C, U, R> Buffer<C, RecordingState<U>, PrimaryLevel, R> {
    /// Finish recording command buffer.
    ///
    /// If the device fails, the buffer must not be used again and the error is returned.
    pub fn finish<D: Device>(self, device: &D) -> (r: Result<
        Buffer<C, ExecutableState<U>, PrimaryLevel, R>,
        OutOfMemory,
    >)
        ensures
            r matches Ok(b) ==> self.same_buffer(b) && b.spec_state() == ExecutableState(
                self.spec_state().0,
            ),
    {
        match device.end_command_buffer(self.raw) {
            Ok(()) => {
                let Buffer { raw, capability, state, level, reset, family, relevant } = self;
                let RecordingState(usage) = state;
                Ok(
                    Buffer {
                        raw,
                        capability,
                        state: ExecutableState(usage),
                        level,
                        reset,
                        family,
                        relevant,
                    },
                )
            },
            Err(e) => {
                discharge(self.relevant);
                Err(e)
            },
        }
    }
}

/// Structure contains command buffer ready for submission.
#[derive(Debug)]
pub struct Submit {
    raw: u64,
    family: FamilyIndex,
}

impl Submit {
    /// Raw handle of the submitted buffer.
    pub closed spec fn spec_raw(&self) -> u64 {
        self.raw
    }

    /// Family of the submitted buffer.
    pub closed spec fn spec_family(&self) -> FamilyIndex {
        self.family
    }

    /// Get family this submit is associated with.
    pub fn family(&self) -> (r: FamilyIndex)
        ensures
            r == self.spec_family(),
    {
        self.family
    }

    /// Get raw command buffer.
    pub fn raw(&self) -> (r: u64)
        ensures
            r == self.spec_raw(),
    {
        self.raw
    }
}

impl<C, R> Buffer<C, ExecutableState<OneShot>, PrimaryLevel, R> {
    /// Produce `Submit` object that can be used to populate submission.
    /// The buffer becomes pending and turns invalid once complete.
    pub fn submit_once(self) -> (r: (Submit, Buffer<C, PendingState<InvalidState>, PrimaryLevel, R>))
        ensures
            r.0.spec_raw() == self.spec_raw(),
            r.0.spec_family() == self.spec_family(),
            self.same_buffer(r.1),
            r.1.spec_state() == PendingState(InvalidState),
    {
        let buffer = self.with_state(PendingState(InvalidState));
        let submit = Submit { raw: buffer.raw, family: buffer.family };
        (submit, buffer)
    }
}

impl<C, S, R> Buffer<C, ExecutableState<MultiShot<S>>, PrimaryLevel, R> {
    /// Produce `Submit` object that can be used to populate submission.
    /// The buffer becomes pending and turns executable again once complete.
    pub fn submit(self) -> (r: (
        Submit,
        Buffer<C, PendingState<ExecutableState<MultiShot<S>>>, PrimaryLevel, R>,
    ))
        ensures
            r.0.spec_raw() == self.spec_raw(),
            r.0.spec_family() == self.spec_family(),
            self.same_buffer(r.1),
            r.1.spec_state() == PendingState(self.spec_state()),
    {
        let Buffer { raw, capability, state, level, reset, family, relevant } = self;
        let buffer = Buffer {
            raw,
            capability,
            state: PendingState(state),
            level,
            reset,
            family,
            relevant,
        };
        let submit = Submit { raw: buffer.raw, family: buffer.family };
        (submit, buffer)
    }
}

impl<C, N, L, R> Buffer<C, PendingState<N>, L, R> {
    /// Mark command buffer as complete.
    ///
    /// The commands recorded to this buffer must be complete on the device,
    /// for instance after waiting for the fence given with the submission.
    pub fn complete(self) -> (r: Buffer<C, N, L, R>)
        ensures
            self.same_buffer(r),
            r.spec_state() == self.spec_state().0,
    {
        let Buffer { raw, capability, state, level, reset, family, relevant } = self;
        let PendingState(next) = state;
        Buffer { raw, capability, state: next, level, reset, family, relevant }
    }

    /// Release command buffer.
    ///
    /// It must be owned by an `OwningPool`, which keeps its handle.
    pub fn release(self) {
        discharge(self.relevant);
    }
}

impl<C, S: Resettable, L> Buffer<C, S, L, IndividualReset> {
    /// Reset command buffer.
    pub fn reset(self) -> (r: Buffer<C, InitialState, L, IndividualReset>)
        ensures
            self.same_buffer(r),
    {
        self.with_state(InitialState)
    }
}

impl<C, S: Resettable, L, R> Buffer<C, S, L, R> {
    /// Mark command buffer as reset.
    ///
    /// This must be used only to reflect the buffer being reset implicitly:
    /// by a reset of the pool it was allocated from, or through its raw handle.
    pub fn mark_reset(self) -> (r: Buffer<C, InitialState, L, R>)
        ensures
            self.same_buffer(r),
    {
        self.with_state(InitialState)
    }
}

/// Beginning and then finishing a buffer leaves it executable in the usage
/// that recording began with, and the same buffer in every other respect.
pub proof fn lemma_begin_finish<C, R, U>(
    initial: Buffer<C, InitialState, PrimaryLevel, R>,
    usage: U,
    recording: Buffer<C, RecordingState<U>, PrimaryLevel, R>,
    executable: Buffer<C, ExecutableState<U>, PrimaryLevel, R>,
)
    requires
        initial.same_buffer(recording),
        recording.spec_state() == RecordingState(usage),
        recording.same_buffer(executable),
        executable.spec_state() == ExecutableState(recording.spec_state().0),
    ensures
        initial.same_buffer(executable),
        executable.spec_state() == ExecutableState(usage),
{
}

/// A one-shot buffer that is submitted is pending with invalid as its next
/// state, and completing it leaves the same buffer invalid.
pub proof fn lemma_one_shot_invalidates<C, R>(
    executable: Buffer<C, ExecutableState<OneShot>, PrimaryLevel, R>,
    pending: Buffer<C, PendingState<InvalidState>, PrimaryLevel, R>,
    invalid: Buffer<C, InvalidState, PrimaryLevel, R>,
)
    requires
        executable.same_buffer(pending),
        pending.spec_state() == PendingState(InvalidState),
        pending.same_buffer(invalid),
        invalid.spec_state() == pending.spec_state().0,
    ensures
        executable.same_buffer(invalid),
        invalid.spec_state() == InvalidState,
{
}

/// Submitting a multi-shot buffer and completing it gives back exactly the
/// executable buffer that was submitted, ready to be submitted again.
pub proof fn lemma_multi_shot_round_trip<C, S, R>(
    executable: Buffer<C, ExecutableState<MultiShot<S>>, PrimaryLevel, R>,
    pending: Buffer<C, PendingState<ExecutableState<MultiShot<S>>>, PrimaryLevel, R>,
    completed: Buffer<C, ExecutableState<MultiShot<S>>, PrimaryLevel, R>,
)
    requires
        executable.same_buffer(pending),
        pending.spec_state() == PendingState(executable.spec_state()),
        pending.same_buffer(completed),
        completed.spec_state() == pending.spec_state().0,
    ensures
        executable.same_buffer(completed),
        completed.spec_state() == executable.spec_state(),
{
}

} // verus!
