//! What the bootstrap holds and the order in which it is given back.
//!
//! The instance outlives the logical device, and the device outlives the
//! session. So whatever was acquired is released in the reverse order of
//! its creation, whether the bootstrap succeeded or failed.

use crate::error::{BootstrapError, BootstrapErrorView};
use crate::pipeline::{next, App, EventView, Phase, PhaseView};
use vstd::prelude::*;

verus! {

/// An object that the bootstrap acquires and that has to be given back.
#[derive(Debug, Clone, Copy, PartialEq, Eq, Structural)]
pub enum Resource {
    /// The loaded API library.
    Library,
    /// The API instance.
    Instance,
    /// The logical device.
    Device,
    /// The video session.
    Session,
}

/// The resources in the order in which a bootstrap creates them.
pub open spec fn creation_order() -> Seq<Resource> {
    seq![Resource::Library, Resource::Instance, Resource::Device, Resource::Session]
}

/// How many resources a bootstrap holds once it has failed in this way. A
/// failure acquires nothing: the count is that of the phase that failed.
pub open spec fn held_after(error: BootstrapErrorView) -> int {
    match error {
        BootstrapErrorView::Initialization => 0,
        BootstrapErrorView::InstanceCreation { .. } => 1,
        BootstrapErrorView::NoSuitableDevice => 2,
        BootstrapErrorView::NoEncodeQueue => 2,
        BootstrapErrorView::DeviceCreation { .. } => 2,
        BootstrapErrorView::MissingExtensionFunction { .. } => 3,
        BootstrapErrorView::UnsupportedProfile { .. } => 3,
        BootstrapErrorView::SessionCreation { .. } => 3,
    }
}

/// How many resources a bootstrap holds in a phase.
pub open spec fn held_count(phase: PhaseView) -> int {
    match phase {
        PhaseView::LoadingEntry => 0,
        PhaseView::CreatingInstance => 1,
        PhaseView::EnumeratingDevices => 2,
        PhaseView::QueryingQueueFamilies { .. } => 2,
        PhaseView::CreatingDevice { .. } => 2,
        PhaseView::ResolvingFunctions { .. } => 3,
        PhaseView::QueryingCapabilities { .. } => 3,
        PhaseView::CreatingSession { .. } => 3,
        PhaseView::Ready { .. } => 4,
        PhaseView::Failed { error } => held_after(error),
    }
}

/// The resources that a bootstrap holds in a phase, in the order of their
/// creation.
pub open spec fn held(phase: PhaseView) -> Seq<Resource> {
    creation_order().take(held_count(phase))
}

/// The order in which a bootstrap in this phase gives back what it holds:
/// the reverse of the order of creation.
pub open spec fn release_order(phase: PhaseView) -> Seq<Resource> {
    held(phase).reverse()
}

/// How many resources a bootstrap holds once it has failed in this way.
fn count_after(error: &BootstrapError) -> (count: u8)
    ensures
        count == held_after(error@),
{
    match error {
        BootstrapError::Initialization => 0,
        BootstrapError::InstanceCreation { .. } => 1,
        BootstrapError::NoSuitableDevice => 2,
        BootstrapError::NoEncodeQueue => 2,
        BootstrapError::DeviceCreation { .. } => 2,
        BootstrapError::MissingExtensionFunction { .. } => 3,
        BootstrapError::UnsupportedProfile { .. } => 3,
        BootstrapError::SessionCreation { .. } => 3,
    }
}

/// How many resources a bootstrap holds in a phase.
fn count_in(phase: &Phase) -> (count: u8)
    ensures
        count == held_count(phase@),
{
    match phase {
        Phase::LoadingEntry => 0,
        Phase::CreatingInstance => 1,
        Phase::EnumeratingDevices => 2,
        Phase::QueryingQueueFamilies { .. } => 2,
        Phase::CreatingDevice { .. } => 2,
        Phase::ResolvingFunctions { .. } => 3,
        Phase::QueryingCapabilities { .. } => 3,
        Phase::CreatingSession { .. } => 3,
        Phase::Ready { .. } => 4,
        Phase::Failed { error } => count_after(error),
    }
}

impl App {
    /// Lists what the bootstrap holds, in the order in which it is to be
    /// given back.
    pub fn release_plan(&self) -> (plan: Vec<Resource>)
        ensures
            plan@ == release_order(self@),
    {
        let count = count_in(self.phase());
        let mut plan: Vec<Resource> = Vec::new();
        if count >= 4 {
            plan.push(Resource::Session);
        }
        if count >= 3 {
            plan.push(Resource::Device);
        }
        if count >= 2 {
            plan.push(Resource::Instance);
        }
        if count >= 1 {
            plan.push(Resource::Library);
        }
        assert(plan@ =~= release_order(self@));
        plan
    }
}

/// What a bootstrap holds only grows, one resource at a time and in the
/// order of creation, and a step that fails acquires nothing.
pub proof fn law_holdings_only_grow(phase: PhaseView, event: EventView)
    ensures
        held(phase).is_prefix_of(held(next(phase, event))),
        held_count(phase) <= held_count(next(phase, event)) <= held_count(phase) + 1,
        next(phase, event) is Failed ==> held(next(phase, event)) == held(phase),
{
    let after = next(phase, event);
    assert(held(phase) =~= held(after).subrange(0, held(phase).len() as int));
}

/// Release runs against creation: of two resources that a bootstrap
/// holds, the one created later is given back first. The session goes
/// before the device, the device before the instance, and the instance
/// before the library.
pub proof fn law_release_reverses_creation(phase: PhaseView, first: int, second: int)
    requires
        0 <= first < second < release_order(phase).len(),
    ensures
        release_order(phase).len() == held_count(phase),
        release_order(phase)[first] == creation_order()[held_count(phase) - 1 - first],
        release_order(phase)[second] == creation_order()[held_count(phase) - 1 - second],
        release_order(phase).no_duplicates(),
{
}

} // verus!
