//! A six-degrees-of-freedom free-flight control core.
//!
//! Discrete key events are mapped through a configurable binding table into
//! per-axis set-points, which ramp toward their targets at a bounded rate.
//! The resulting control-axis intensities drive an orientation engine that an
//! outside renderer consumes.  Axis intensities are carried in thousandths of
//! a unit so that the ramping arithmetic is exact.

use vstd::prelude::*;

pub mod input;

verus! {

/// Exit codes reported when start-up fails.
#[derive(Copy, Clone, Debug, PartialEq, Eq, Structural)]
pub enum ExitCode {
    /// The mesh for the scene could not be loaded.
    LoadMesh,
    /// The display (window and graphics context) could not be created.
    CreateDisplay,
}

impl ExitCode {
    /// The numeric process exit code for this failure.
    pub open spec fn spec_code(self) -> int {
        match self {
            ExitCode::LoadMesh => 1,
            ExitCode::CreateDisplay => 2,
        }
    }

    /// Returns the numeric process exit code for this failure.
    pub fn code(self) -> (c: i32)
        ensures
            c as int == self.spec_code(),
    {
        match self {
            ExitCode::LoadMesh => 1,
            ExitCode::CreateDisplay => 2,
        }
    }
}

/// What the frame callback asks of the event loop.
#[derive(Copy, Clone, Debug, PartialEq, Eq, Structural)]
pub enum Action {
    /// Leave the event loop.
    Stop,
    /// Keep running and schedule the next frame.
    Continue,
}

impl Action {
    /// Returns whether the event loop should exit.
    pub fn should_exit(self) -> (b: bool)
        ensures
            b == (self is Stop),
    {
        match self {
            Action::Stop => true,
            Action::Continue => false,
        }
    }
}

/// Why the event pump woke the loop up, for events that open a new batch.
#[derive(Copy, Clone, Debug, PartialEq, Eq, Structural)]
pub enum FrameCause {
    /// The scheduled time for the next frame was reached.
    ResumeTimeReached,
    /// The loop has just started.
    Init,
    /// Any other wake-up.
    Other,
}

/// One event as the pump hands it to the loop.
#[derive(Copy, Clone, Debug, PartialEq, Eq, Structural)]
pub enum PumpEvent {
    /// A new batch of events begins, for the given cause.
    NewEvents(FrameCause),
    /// An ordinary event was delivered and can be kept for the frame.
    Delivered,
    /// An event was delivered but cannot be kept beyond this call.
    Lost,
}

/// What the loop does with one pumped event.
#[derive(Copy, Clone, Debug, PartialEq, Eq, Structural)]
pub enum PumpDecision {
    /// Run the frame callback on the buffered events.
    RunFrame,
    /// Buffer the event for the next frame callback.
    Buffer,
    /// Drop the event.
    Ignore,
}

/// The decision for one pumped event: a new batch that begins because the
/// frame time was reached, or because the loop just started, runs the frame
/// callback; any other batch start and any event that cannot be kept are
/// dropped; every other event is buffered for the callback.
pub open spec fn spec_pump_decision(event: PumpEvent) -> PumpDecision {
    match event {
        PumpEvent::NewEvents(FrameCause::ResumeTimeReached) => PumpDecision::RunFrame,
        PumpEvent::NewEvents(FrameCause::Init) => PumpDecision::RunFrame,
        PumpEvent::NewEvents(FrameCause::Other) => PumpDecision::Ignore,
        PumpEvent::Delivered => PumpDecision::Buffer,
        PumpEvent::Lost => PumpDecision::Ignore,
    }
}

/// Returns what the loop does with one pumped event.
pub fn pump_decision(event: PumpEvent) -> (d: PumpDecision)
    ensures
        d == spec_pump_decision(event),
{
    match event {
        PumpEvent::NewEvents(FrameCause::ResumeTimeReached) => PumpDecision::RunFrame,
        PumpEvent::NewEvents(FrameCause::Init) => PumpDecision::RunFrame,
        PumpEvent::NewEvents(FrameCause::Other) => PumpDecision::Ignore,
        PumpEvent::Delivered => PumpDecision::Buffer,
        PumpEvent::Lost => PumpDecision::Ignore,
    }
}

} // verus!
