//! Context recovery state machine: tracks device-lost / device-restored
//! transitions and forces a full re-acquire of program and uniform
//! bindings after a restore.
//!
//! The lost state is split in two so that resource release happens on the
//! render loop's own turn — it owns the graphics handles — rather than
//! inside the event callback that detected the loss.

use vstd::prelude::*;

verus! {

/// Lifecycle of the graphics device as the render loop sees it.
#[derive(Clone, Copy, PartialEq, Eq, Structural, Debug)]
pub enum RecoveryState {
    /// The device is usable and the active program is valid.
    Healthy,
    /// The device was lost; the render loop still has to release the
    /// program resources on its next turn.
    LostPendingRelease,
    /// The device is lost and the resources are released; every frame is
    /// skipped.
    LostReleased,
    /// The device came back; the next frame must recompile and rebind even
    /// if no new source was queued, because every device-side object was
    /// invalidated by the loss.
    RestoredPendingRecompile,
}

/// What the render loop does with the current frame.
#[derive(Clone, Copy, PartialEq, Eq, Structural, Debug)]
pub enum FrameAction {
    /// Release the program resources, then skip the frame.
    Release,
    /// Skip the frame: the device is still lost.
    Skip,
    /// Render; `force_recompile` demands a recompile even without a
    /// pending source.
    Run { force_recompile: bool },
}

/// Transition on a device-lost event.  A loss after the resources were
/// already released — including one that arrives before a forced
/// recompile happened — needs no further release.
pub open spec fn after_lost(state: RecoveryState) -> RecoveryState {
    match state {
        RecoveryState::Healthy => RecoveryState::LostPendingRelease,
        RecoveryState::LostPendingRelease => RecoveryState::LostPendingRelease,
        RecoveryState::LostReleased => RecoveryState::LostReleased,
        RecoveryState::RestoredPendingRecompile => RecoveryState::LostReleased,
    }
}

/// Transition on a device-restored event.  A restore that arrives before
/// the release frame ran leaves the program intact, so nothing is forced;
/// one after the release demands the forced recompile.
pub open spec fn after_restored(state: RecoveryState) -> RecoveryState {
    match state {
        RecoveryState::Healthy => RecoveryState::Healthy,
        RecoveryState::LostPendingRelease => RecoveryState::Healthy,
        RecoveryState::LostReleased => RecoveryState::RestoredPendingRecompile,
        RecoveryState::RestoredPendingRecompile => RecoveryState::RestoredPendingRecompile,
    }
}

/// Transition on a frame tick, with the action the frame takes.
pub open spec fn frame_transition(state: RecoveryState) -> (RecoveryState, FrameAction) {
    match state {
        RecoveryState::Healthy => (RecoveryState::Healthy, FrameAction::Run { force_recompile: false }),
        RecoveryState::LostPendingRelease => (RecoveryState::LostReleased, FrameAction::Release),
        RecoveryState::LostReleased => (RecoveryState::LostReleased, FrameAction::Skip),
        RecoveryState::RestoredPendingRecompile => (
            RecoveryState::Healthy,
            FrameAction::Run { force_recompile: true },
        ),
    }
}

/// Law: the device-loss sequence.  From a healthy state, a loss demands a
/// release; the release frame releases and skips; a restore then demands a
/// recompile; and the following frame forces that recompile — whatever the
/// reload flag of the source pipeline says, since the forced flag alone
/// already makes the pipeline hand a source out.
pub proof fn lemma_device_loss_sequence()
    ensures
        after_lost(RecoveryState::Healthy) == RecoveryState::LostPendingRelease,
        frame_transition(RecoveryState::LostPendingRelease)
            == (RecoveryState::LostReleased, FrameAction::Release),
        frame_transition(RecoveryState::LostReleased)
            == (RecoveryState::LostReleased, FrameAction::Skip),
        after_restored(RecoveryState::LostReleased) == RecoveryState::RestoredPendingRecompile,
        frame_transition(RecoveryState::RestoredPendingRecompile)
            == (RecoveryState::Healthy, FrameAction::Run { force_recompile: true }),
{
}

} // verus!
