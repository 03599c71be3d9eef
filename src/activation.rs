//! The activation coordinator. At startup it decides whether this process is
//! the primary instance, which receives shares, or a secondary one, which hands
//! its activation to the primary and ends. The host performs each action it
//! asks for and reports back with an event.
use vstd::prelude::*;
use crate::error::{Result, ShareError};
use crate::kit::{ShareKit, ShareKitView};
use crate::models::{SharedContent, SharedContentView};

verus! {

/// What the coordinator concluded about this process.
#[derive(Clone, Copy, Debug, PartialEq, Eq, Structural)]
pub enum Role {
    /// Not a packaged installation: share targets do not apply; nothing to do.
    Inactive,
    /// This process receives shares.
    Primary,
    /// Another process receives shares; this one has forwarded its activation and should end.
    Secondary,
}

/// Where the coordinator stands.
#[derive(Clone, Copy, Debug, PartialEq, Eq, Structural)]
pub enum CoordinatorState {
    /// Waiting to learn whether the application is packaged.
    Start,
    /// Waiting for the claim of the instance key.
    Claiming,
    /// Primary; waiting for the inspection of this process's own launch.
    InspectingLaunch,
    /// Secondary; waiting for the activation to reach the primary.
    Forwarding,
    /// Decided.
    Done(Role),
}

/// What this process's own launch held.
#[derive(Debug)]
pub enum LaunchActivation {
    /// The launch was not a share-target activation.
    NotShareTarget,
    /// A share-target activation, and what extraction made of it.
    Extracted(Result<SharedContent>),
}

/// What the host reports.
#[derive(Debug)]
pub enum ActivationEvent {
    /// Whether the application runs as a packaged installation.
    PackageChecked(bool),
    /// Whether this process won the claim of the instance key.
    ClaimResolved(bool),
    /// What this process's launch held.
    LaunchInspected(LaunchActivation),
    /// Forwarding the activation to the primary ended, whether or not it succeeded.
    ForwardFinished,
}

/// What the host does next.
#[derive(Clone, Copy, Debug, PartialEq, Eq, Structural)]
pub enum ActivationAction {
    /// Claim the well-known instance key.
    ClaimInstanceKey,
    /// Install the handler of later activations, then inspect this launch.
    InstallHandlerAndInspectLaunch,
    /// Forward this process's activation to the primary and wait for it.
    ForwardToPrimary,
    /// Report the role; first acknowledge the share operation to the system
    /// where `acknowledge` is set, so that the sending application does not hang.
    Finish { role: Role, acknowledge: bool },
    /// The event does not apply in this state; nothing to do.
    Ignore,
}

/// The state after `e` arrives in state `s`.
pub open spec fn next_state(s: CoordinatorState, e: ActivationEvent) -> CoordinatorState {
    match (s, e) {
        (CoordinatorState::Start, ActivationEvent::PackageChecked(packaged)) => if packaged {
            CoordinatorState::Claiming
        } else {
            CoordinatorState::Done(Role::Inactive)
        },
        (CoordinatorState::Claiming, ActivationEvent::ClaimResolved(won)) => if won {
            CoordinatorState::InspectingLaunch
        } else {
            CoordinatorState::Forwarding
        },
        (CoordinatorState::InspectingLaunch, ActivationEvent::LaunchInspected(_)) => CoordinatorState::Done(Role::Primary),
        (CoordinatorState::Forwarding, ActivationEvent::ForwardFinished) => CoordinatorState::Done(Role::Secondary),
        _ => s,
    }
}

/// The action that `e` calls for in state `s`.
pub open spec fn action_for(s: CoordinatorState, e: ActivationEvent) -> ActivationAction {
    match (s, e) {
        (CoordinatorState::Start, ActivationEvent::PackageChecked(packaged)) => if packaged {
            ActivationAction::ClaimInstanceKey
        } else {
            ActivationAction::Finish { role: Role::Inactive, acknowledge: false }
        },
        (CoordinatorState::Claiming, ActivationEvent::ClaimResolved(won)) => if won {
            ActivationAction::InstallHandlerAndInspectLaunch
        } else {
            ActivationAction::ForwardToPrimary
        },
        (CoordinatorState::InspectingLaunch, ActivationEvent::LaunchInspected(l)) => ActivationAction::Finish {
            role: Role::Primary,
            acknowledge: l is Extracted,
        },
        (CoordinatorState::Forwarding, ActivationEvent::ForwardFinished) => ActivationAction::Finish {
            role: Role::Secondary,
            acknowledge: false,
        },
        _ => ActivationAction::Ignore,
    }
}

/// The share service after `e` arrives in state `s`: content extracted from
/// this process's own launch becomes pending; nothing else changes it.
pub open spec fn kit_after(k: ShareKitView, s: CoordinatorState, e: ActivationEvent) -> ShareKitView {
    match (s, e) {
        (
            CoordinatorState::InspectingLaunch,
            ActivationEvent::LaunchInspected(LaunchActivation::Extracted(Ok(c))),
        ) => ShareKitView { pending: Some(c@), ..k },
        _ => k,
    }
}

/// The coordinator of one process's startup.
#[derive(Debug)]
pub struct Coordinator {
    state: CoordinatorState,
}

impl View for Coordinator {
    type V = CoordinatorState;

    closed spec fn view(&self) -> CoordinatorState {
        self.state
    }
}

impl Coordinator {
    /// A coordinator that waits to learn whether the application is packaged.
    pub fn new() -> (r: Self)
        ensures
            r@ == CoordinatorState::Start,
    {
        Coordinator { state: CoordinatorState::Start }
    }

    /// Where the coordinator stands.
    pub fn state(&self) -> (r: CoordinatorState)
        ensures
            r == self@,
    {
        self.state
    }

    /// Takes in one event, keeps content from this launch in `kit`, and names
    /// the next action.
    pub fn step(&mut self, event: ActivationEvent, kit: &mut ShareKit) -> (r: ActivationAction)
        ensures
            r == action_for(old(self)@, event),
            final(self)@ == next_state(old(self)@, event),
            final(kit)@ == kit_after(old(kit)@, old(self)@, event),
    {
        match (self.state, event) {
            (CoordinatorState::Start, ActivationEvent::PackageChecked(packaged)) => {
                if packaged {
                    self.state = CoordinatorState::Claiming;
                    ActivationAction::ClaimInstanceKey
                } else {
                    self.state = CoordinatorState::Done(Role::Inactive);
                    ActivationAction::Finish { role: Role::Inactive, acknowledge: false }
                }
            },
            (CoordinatorState::Claiming, ActivationEvent::ClaimResolved(won)) => {
                if won {
                    self.state = CoordinatorState::InspectingLaunch;
                    ActivationAction::InstallHandlerAndInspectLaunch
                } else {
                    self.state = CoordinatorState::Forwarding;
                    ActivationAction::ForwardToPrimary
                }
            },
            (CoordinatorState::InspectingLaunch, ActivationEvent::LaunchInspected(launch)) => {
                self.state = CoordinatorState::Done(Role::Primary);
                match launch {
                    LaunchActivation::NotShareTarget => ActivationAction::Finish {
                        role: Role::Primary,
                        acknowledge: false,
                    },
                    LaunchActivation::Extracted(extracted) => {
                        match extracted {
                            Ok(c) => kit.receive(c),
                            Err(_) => {},
                        }
                        ActivationAction::Finish { role: Role::Primary, acknowledge: true }
                    },
                }
            },
            (CoordinatorState::Forwarding, ActivationEvent::ForwardFinished) => {
                self.state = CoordinatorState::Done(Role::Secondary);
                ActivationAction::Finish { role: Role::Secondary, acknowledge: false }
            },
            _ => ActivationAction::Ignore,
        }
    }
}

/// The event name under which a share received while running is broadcast.
pub fn shared_content_event() -> (r: &'static str)
    ensures
        r@ == "sharedContent"@,
{
    "sharedContent"
}

/// What the host does with a share that arrives while the process runs.
#[derive(Debug)]
pub enum WarmAction {
    /// Acknowledge the share to the system, then broadcast the content under
    /// [`shared_content_event`].
    AcknowledgeAndBroadcast(SharedContent),
    /// Extraction failed: log the error and drop the activation.
    Abandon(ShareError),
}

/// Decides what to do with a share that arrived while the process runs.
pub fn on_warm_activation(extracted: Result<SharedContent>) -> (r: WarmAction)
    ensures
        match extracted {
            Ok(c) => r is AcknowledgeAndBroadcast && r->AcknowledgeAndBroadcast_0@ == c@,
            Err(e) => r == WarmAction::Abandon(e),
        },
{
    match extracted {
        Ok(c) => WarmAction::AcknowledgeAndBroadcast(c),
        Err(e) => WarmAction::Abandon(e),
    }
}

/// A process that loses the claim forwards its activation, ends as secondary,
/// and never changes the pending share.
pub proof fn secondary_leaves_pending_alone(k: ShareKitView, e: ActivationEvent)
    ensures
        action_for(CoordinatorState::Claiming, ActivationEvent::ClaimResolved(false))
            == ActivationAction::ForwardToPrimary,
        next_state(CoordinatorState::Claiming, ActivationEvent::ClaimResolved(false))
            == CoordinatorState::Forwarding,
        kit_after(k, CoordinatorState::Claiming, ActivationEvent::ClaimResolved(false)) == k,
        kit_after(k, CoordinatorState::Forwarding, e) == k,
        action_for(CoordinatorState::Forwarding, ActivationEvent::ForwardFinished)
            == (ActivationAction::Finish { role: Role::Secondary, acknowledge: false }),
{
}

/// An unpackaged application decides at once that it is inactive, and claims nothing.
pub proof fn unpackaged_is_inactive()
    ensures
        action_for(CoordinatorState::Start, ActivationEvent::PackageChecked(false))
            == (ActivationAction::Finish { role: Role::Inactive, acknowledge: false }),
        next_state(CoordinatorState::Start, ActivationEvent::PackageChecked(false))
            == CoordinatorState::Done(Role::Inactive),
{
}

/// A share-target launch of the primary is always acknowledged, whether or
/// not its content could be extracted.
pub proof fn cold_start_always_acknowledges(x: Result<SharedContent>)
    ensures
        action_for(
            CoordinatorState::InspectingLaunch,
            ActivationEvent::LaunchInspected(LaunchActivation::Extracted(x)),
        ) == (ActivationAction::Finish { role: Role::Primary, acknowledge: true }),
{
}

} // verus!
