//! The bootstrap as a state machine.
//!
//! `App` holds how far the bootstrap has come. In every phase exactly one
//! request to the driver is outstanding; `App::pending` names it. The
//! caller carries the request out and reports what came back as an
//! `Event`; `App::advance` takes the event and moves on. A failure ends the
//! bootstrap for good, and so does success.

use crate::device::{device_request, planned_device, DeviceRequest, DeviceRequestView};
use crate::error::{BootstrapError, BootstrapErrorView, Stage};
use crate::instance::{instance_request, planned_instance, InstanceRequest};
use crate::loader::{
    check_resolutions, resolutions_view, table_verdict, Resolution, ResolutionView,
};
use crate::select::{
    chosen_device, chosen_family, select_encode_queue_family, select_physical_device, QueueFamily,
};
use crate::session::{
    coded_extent, encode_profile, negotiate, planned_extent, planned_profile, planned_session,
    session_outcome, session_request, spec_negotiate, spec_session_outcome, Extent,
    SessionRequest, SessionRequestView, VideoCapabilities, VideoProfile,
};
use vstd::prelude::*;

verus! {

/// What the driver answered to the outstanding request.
#[derive(Debug, Clone, PartialEq, Eq)]
pub enum Event {
    /// The API library was loaded.
    EntryLoaded,
    /// The API library could not be found or loaded.
    EntryUnavailable,
    /// The instance was created.
    InstanceCreated,
    /// The driver refused to create the instance.
    InstanceRejected { code: i32 },
    /// The physical devices, by their raw device types in enumeration
    /// order.
    DevicesEnumerated { device_types: Vec<i32> },
    /// The driver failed to enumerate the physical devices.
    EnumerationFailed { code: i32 },
    /// The queue families of the chosen device, in enumeration order.
    QueueFamiliesReported { families: Vec<QueueFamily> },
    /// The logical device was created and its queue fetched.
    DeviceCreated { queue: u64 },
    /// The driver refused to create the logical device.
    DeviceRejected { code: i32 },
    /// Every entry point was looked up.
    FunctionsResolved { entries: Vec<Resolution> },
    /// The capability query returned.
    CapabilitiesReported { code: i32, capabilities: VideoCapabilities },
    /// Session creation returned.
    SessionReported { code: i32, session: u64 },
}

/// An event as contracts see it.
pub enum EventView {
    EntryLoaded,
    EntryUnavailable,
    InstanceCreated,
    InstanceRejected { code: i32 },
    DevicesEnumerated { device_types: Seq<i32> },
    EnumerationFailed { code: i32 },
    QueueFamiliesReported { families: Seq<QueueFamily> },
    DeviceCreated { queue: u64 },
    DeviceRejected { code: i32 },
    FunctionsResolved { entries: Seq<ResolutionView> },
    CapabilitiesReported { code: i32, capabilities: VideoCapabilities },
    SessionReported { code: i32, session: u64 },
}

impl View for Event {
    type V = EventView;

    open spec fn view(&self) -> EventView {
        match self {
            Event::EntryLoaded => EventView::EntryLoaded,
            Event::EntryUnavailable => EventView::EntryUnavailable,
            Event::InstanceCreated => EventView::InstanceCreated,
            Event::InstanceRejected { code } => EventView::InstanceRejected { code: *code },
            Event::DevicesEnumerated { device_types } => EventView::DevicesEnumerated {
                device_types: device_types@,
            },
            Event::EnumerationFailed { code } => EventView::EnumerationFailed { code: *code },
            Event::QueueFamiliesReported { families } => EventView::QueueFamiliesReported {
                families: families@,
            },
            Event::DeviceCreated { queue } => EventView::DeviceCreated { queue: *queue },
            Event::DeviceRejected { code } => EventView::DeviceRejected { code: *code },
            Event::FunctionsResolved { entries } => EventView::FunctionsResolved {
                entries: resolutions_view(entries@),
            },
            Event::CapabilitiesReported { code, capabilities } => EventView::CapabilitiesReported {
                code: *code,
                capabilities: *capabilities,
            },
            Event::SessionReported { code, session } => EventView::SessionReported {
                code: *code,
                session: *session,
            },
        }
    }
}

/// What the caller is to do next.
#[derive(Debug, Clone, PartialEq, Eq)]
pub enum Action {
    /// Load the API library.
    LoadEntry,
    /// Create the instance.
    CreateInstance(InstanceRequest),
    /// Enumerate the physical devices and report their types.
    EnumerateDevices,
    /// Report the queue families of the device at this position.
    QueryQueueFamilies { device: usize },
    /// Create the logical device and fetch its queue.
    CreateDevice(DeviceRequest),
    /// Look up every extension entry point, each at the loader that
    /// `loader_for` names.
    ResolveFunctions,
    /// Query the capabilities of the device at this position for the
    /// profile.
    QueryCapabilities { device: usize, profile: VideoProfile },
    /// Create the video session.
    CreateSession(SessionRequest),
    /// The bootstrap is complete: announce it and go on with the session.
    Finish { session: u64 },
    /// The bootstrap has failed: report the failure and stop.
    Abort(BootstrapError),
}

/// An action as contracts see it.
pub enum ActionView {
    LoadEntry,
    CreateInstance(InstanceRequest),
    EnumerateDevices,
    QueryQueueFamilies { device: usize },
    CreateDevice(DeviceRequestView),
    ResolveFunctions,
    QueryCapabilities { device: usize, profile: VideoProfile },
    CreateSession(SessionRequestView),
    Finish { session: u64 },
    Abort(BootstrapErrorView),
}

impl View for Action {
    type V = ActionView;

    open spec fn view(&self) -> ActionView {
        match self {
            Action::LoadEntry => ActionView::LoadEntry,
            Action::CreateInstance(request) => ActionView::CreateInstance(*request),
            Action::EnumerateDevices => ActionView::EnumerateDevices,
            Action::QueryQueueFamilies { device } => ActionView::QueryQueueFamilies {
                device: *device,
            },
            Action::CreateDevice(request) => ActionView::CreateDevice(request@),
            Action::ResolveFunctions => ActionView::ResolveFunctions,
            Action::QueryCapabilities { device, profile } => ActionView::QueryCapabilities {
                device: *device,
                profile: *profile,
            },
            Action::CreateSession(request) => ActionView::CreateSession(request@),
            Action::Finish { session } => ActionView::Finish { session: *session },
            Action::Abort(error) => ActionView::Abort(error@),
        }
    }
}

/// How far the bootstrap has come.
#[derive(Debug, Clone, PartialEq, Eq)]
pub enum Phase {
    /// The API library is being loaded.
    LoadingEntry,
    /// The instance is being created.
    CreatingInstance,
    /// The physical devices are being enumerated.
    EnumeratingDevices,
    /// A device is chosen; its queue families are being read.
    QueryingQueueFamilies { device: usize },
    /// Device and family are chosen; the logical device is being created.
    CreatingDevice { device: usize, family: u32 },
    /// The logical device exists; the entry points are being looked up.
    ResolvingFunctions { device: usize, family: u32, queue: u64 },
    /// The entry points are there; the capability query is under way.
    QueryingCapabilities { device: usize, family: u32, queue: u64, profile: VideoProfile },
    /// The profile is accepted; the session is being created.
    CreatingSession {
        device: usize,
        family: u32,
        queue: u64,
        profile: VideoProfile,
        extent: Extent,
    },
    /// The session exists.
    Ready { device: usize, family: u32, queue: u64, session: u64 },
    /// The bootstrap has failed.
    Failed { error: BootstrapError },
}

/// A phase as contracts see it.
pub enum PhaseView {
    LoadingEntry,
    CreatingInstance,
    EnumeratingDevices,
    QueryingQueueFamilies { device: usize },
    CreatingDevice { device: usize, family: u32 },
    ResolvingFunctions { device: usize, family: u32, queue: u64 },
    QueryingCapabilities { device: usize, family: u32, queue: u64, profile: VideoProfile },
    CreatingSession {
        device: usize,
        family: u32,
        queue: u64,
        profile: VideoProfile,
        extent: Extent,
    },
    Ready { device: usize, family: u32, queue: u64, session: u64 },
    Failed { error: BootstrapErrorView },
}

impl View for Phase {
    type V = PhaseView;

    open spec fn view(&self) -> PhaseView {
        match self {
            Phase::LoadingEntry => PhaseView::LoadingEntry,
            Phase::CreatingInstance => PhaseView::CreatingInstance,
            Phase::EnumeratingDevices => PhaseView::EnumeratingDevices,
            Phase::QueryingQueueFamilies { device } => PhaseView::QueryingQueueFamilies {
                device: *device,
            },
            Phase::CreatingDevice { device, family } => PhaseView::CreatingDevice {
                device: *device,
                family: *family,
            },
            Phase::ResolvingFunctions { device, family, queue } => PhaseView::ResolvingFunctions {
                device: *device,
                family: *family,
                queue: *queue,
            },
            Phase::QueryingCapabilities {
                device,
                family,
                queue,
                profile,
            } => PhaseView::QueryingCapabilities {
                device: *device,
                family: *family,
                queue: *queue,
                profile: *profile,
            },
            Phase::CreatingSession {
                device,
                family,
                queue,
                profile,
                extent,
            } => PhaseView::CreatingSession {
                device: *device,
                family: *family,
                queue: *queue,
                profile: *profile,
                extent: *extent,
            },
            Phase::Ready { device, family, queue, session } => PhaseView::Ready {
                device: *device,
                family: *family,
                queue: *queue,
                session: *session,
            },
            Phase::Failed { error } => PhaseView::Failed { error: error@ },
        }
    }
}

impl PhaseView {
    /// The stage to which the phase belongs. A failed bootstrap stays in
    /// the stage in which it failed.
    pub open spec fn stage(self) -> Stage {
        match self {
            PhaseView::LoadingEntry => Stage::Instance,
            PhaseView::CreatingInstance => Stage::Instance,
            PhaseView::EnumeratingDevices => Stage::Selection,
            PhaseView::QueryingQueueFamilies { .. } => Stage::Selection,
            PhaseView::CreatingDevice { .. } => Stage::Device,
            PhaseView::ResolvingFunctions { .. } => Stage::Functions,
            PhaseView::QueryingCapabilities { .. } => Stage::Session,
            PhaseView::CreatingSession { .. } => Stage::Session,
            PhaseView::Ready { .. } => Stage::Session,
            PhaseView::Failed { error } => error.stage(),
        }
    }

    /// Whether the bootstrap has ended, well or badly.
    pub open spec fn is_final(self) -> bool {
        self is Ready || self is Failed
    }
}

/// The phase in which every bootstrap starts.
pub open spec fn initial() -> PhaseView {
    PhaseView::LoadingEntry
}

/// The request that is outstanding in a phase.
pub open spec fn request(phase: PhaseView) -> ActionView {
    match phase {
        PhaseView::LoadingEntry => ActionView::LoadEntry,
        PhaseView::CreatingInstance => ActionView::CreateInstance(planned_instance()),
        PhaseView::EnumeratingDevices => ActionView::EnumerateDevices,
        PhaseView::QueryingQueueFamilies { device } => ActionView::QueryQueueFamilies { device },
        PhaseView::CreatingDevice { device, family } => ActionView::CreateDevice(
            planned_device(device, family),
        ),
        PhaseView::ResolvingFunctions { .. } => ActionView::ResolveFunctions,
        PhaseView::QueryingCapabilities { device, profile, .. } => ActionView::QueryCapabilities {
            device,
            profile,
        },
        PhaseView::CreatingSession { profile, extent, .. } => ActionView::CreateSession(
            planned_session(profile, extent),
        ),
        PhaseView::Ready { session, .. } => ActionView::Finish { session },
        PhaseView::Failed { error } => ActionView::Abort(error),
    }
}

/// The phase that follows a phase on an event.
///
/// Each phase takes the events that answer its own request and moves one
/// step on, or fails. An event that does not answer the outstanding
/// request changes nothing.
pub open spec fn next(phase: PhaseView, event: EventView) -> PhaseView {
    match phase {
        PhaseView::LoadingEntry => match event {
            EventView::EntryLoaded => PhaseView::CreatingInstance,
            EventView::EntryUnavailable => PhaseView::Failed {
                error: BootstrapErrorView::Initialization,
            },
            _ => phase,
        },
        PhaseView::CreatingInstance => match event {
            EventView::InstanceCreated => PhaseView::EnumeratingDevices,
            EventView::InstanceRejected { code } => PhaseView::Failed {
                error: BootstrapErrorView::InstanceCreation { code },
            },
            _ => phase,
        },
        PhaseView::EnumeratingDevices => match event {
            EventView::DevicesEnumerated { device_types } => match chosen_device(device_types) {
                Some(at) => PhaseView::QueryingQueueFamilies { device: at as usize },
                None => PhaseView::Failed { error: BootstrapErrorView::NoSuitableDevice },
            },
            EventView::EnumerationFailed { .. } => PhaseView::Failed {
                error: BootstrapErrorView::NoSuitableDevice,
            },
            _ => phase,
        },
        PhaseView::QueryingQueueFamilies { device } => match event {
            EventView::QueueFamiliesReported { families } => match chosen_family(families) {
                Some(family) => PhaseView::CreatingDevice { device, family },
                None => PhaseView::Failed { error: BootstrapErrorView::NoEncodeQueue },
            },
            _ => phase,
        },
        PhaseView::CreatingDevice { device, family } => match event {
            EventView::DeviceCreated { queue } => PhaseView::ResolvingFunctions {
                device,
                family,
                queue,
            },
            EventView::DeviceRejected { code } => PhaseView::Failed {
                error: BootstrapErrorView::DeviceCreation { code },
            },
            _ => phase,
        },
        PhaseView::ResolvingFunctions { device, family, queue } => match event {
            EventView::FunctionsResolved { entries } => match table_verdict(entries) {
                Ok(()) => PhaseView::QueryingCapabilities {
                    device,
                    family,
                    queue,
                    profile: planned_profile(),
                },
                Err(error) => PhaseView::Failed { error },
            },
            _ => phase,
        },
        PhaseView::QueryingCapabilities { device, family, queue, profile } => match event {
            EventView::CapabilitiesReported { code, capabilities } => match spec_negotiate(
                code,
                capabilities,
                profile,
                planned_extent(),
            ) {
                Ok(session) => PhaseView::CreatingSession {
                    device,
                    family,
                    queue,
                    profile: session.profile,
                    extent: session.max_coded_extent,
                },
                Err(error) => PhaseView::Failed { error },
            },
            _ => phase,
        },
        PhaseView::CreatingSession { device, family, queue, .. } => match event {
            EventView::SessionReported { code, session } => match spec_session_outcome(
                code,
                session,
            ) {
                Ok(handle) => PhaseView::Ready { device, family, queue, session: handle },
                Err(error) => PhaseView::Failed { error },
            },
            _ => phase,
        },
        PhaseView::Ready { .. } => phase,
        PhaseView::Failed { .. } => phase,
    }
}

/// The phase that a bootstrap is in after a sequence of events.
pub open spec fn run(events: Seq<EventView>) -> PhaseView
    decreases events.len(),
{
    if events.len() == 0 {
        initial()
    } else {
        next(run(events.drop_last()), events.last())
    }
}

/// One more event takes a run one step further.
pub proof fn lemma_run_push(events: Seq<EventView>, event: EventView)
    ensures
        run(events.push(event)) == next(run(events), event),
{
    assert(events.push(event).drop_last() =~= events);
}

/// The phase that follows `phase` on `event`, or `None` where the event
/// changes nothing.
fn successor(phase: &Phase, event: Event) -> (moved: Option<Phase>)
    ensures
        match moved {
            Some(after) => after@ == next(phase@, event@),
            None => next(phase@, event@) == phase@,
        },
{
    match phase {
        Phase::LoadingEntry => match event {
            Event::EntryLoaded => Some(Phase::CreatingInstance),
            Event::EntryUnavailable => Some(
                Phase::Failed { error: BootstrapError::Initialization },
            ),
            _ => None,
        },
        Phase::CreatingInstance => match event {
            Event::InstanceCreated => Some(Phase::EnumeratingDevices),
            Event::InstanceRejected { code } => Some(
                Phase::Failed { error: BootstrapError::InstanceCreation { code } },
            ),
            _ => None,
        },
        Phase::EnumeratingDevices => match event {
            Event::DevicesEnumerated { device_types } => match select_physical_device(
                &device_types,
            ) {
                Ok(device) => Some(Phase::QueryingQueueFamilies { device }),
                Err(error) => Some(Phase::Failed { error }),
            },
            Event::EnumerationFailed { .. } => Some(
                Phase::Failed { error: BootstrapError::NoSuitableDevice },
            ),
            _ => None,
        },
        Phase::QueryingQueueFamilies { device } => match event {
            Event::QueueFamiliesReported { families } => match select_encode_queue_family(
                &families,
            ) {
                Ok(family) => Some(Phase::CreatingDevice { device: *device, family }),
                Err(error) => Some(Phase::Failed { error }),
            },
            _ => None,
        },
        Phase::CreatingDevice { device, family } => match event {
            Event::DeviceCreated { queue } => Some(
                Phase::ResolvingFunctions { device: *device, family: *family, queue },
            ),
            Event::DeviceRejected { code } => Some(
                Phase::Failed { error: BootstrapError::DeviceCreation { code } },
            ),
            _ => None,
        },
        Phase::ResolvingFunctions { device, family, queue } => match event {
            Event::FunctionsResolved { entries } => match check_resolutions(&entries) {
                Ok(()) => Some(
                    Phase::QueryingCapabilities {
                        device: *device,
                        family: *family,
                        queue: *queue,
                        profile: encode_profile(),
                    },
                ),
                Err(error) => Some(Phase::Failed { error }),
            },
            _ => None,
        },
        Phase::QueryingCapabilities { device, family, queue, profile } => match event {
            Event::CapabilitiesReported { code, capabilities } => match negotiate(
                code,
                &capabilities,
                *profile,
                coded_extent(),
            ) {
                Ok(session) => Some(
                    Phase::CreatingSession {
                        device: *device,
                        family: *family,
                        queue: *queue,
                        profile: session.profile,
                        extent: session.max_coded_extent,
                    },
                ),
                Err(error) => Some(Phase::Failed { error }),
            },
            _ => None,
        },
        Phase::CreatingSession { device, family, queue, .. } => match event {
            Event::SessionReported { code, session } => match session_outcome(code, session) {
                Ok(handle) => Some(
                    Phase::Ready {
                        device: *device,
                        family: *family,
                        queue: *queue,
                        session: handle,
                    },
                ),
                Err(error) => Some(Phase::Failed { error }),
            },
            _ => None,
        },
        Phase::Ready { .. } => None,
        Phase::Failed { .. } => None,
    }
}

/// The bootstrap of one video-encode session.
///
/// An `App` can only be made by `App::new` and changed by `App::advance`,
/// so it is always in the phase that its events lead to from the start.
pub struct App {
    phase: Phase,
    history: Ghost<Seq<EventView>>,
}

impl View for App {
    type V = PhaseView;

    closed spec fn view(&self) -> PhaseView {
        self.phase@
    }
}

impl App {
    #[verifier::type_invariant]
    spec fn reached(self) -> bool {
        self.phase@ == run(self.history@)
    }

    /// The events that the bootstrap has taken so far, oldest first.
    pub closed spec fn history(self) -> Seq<EventView> {
        self.history@
    }

    /// A bootstrap at its start: nothing is loaded yet.
    pub fn new() -> (app: App)
        ensures
            app@ == initial(),
            app.history() == Seq::<EventView>::empty(),
    {
        App { phase: Phase::LoadingEntry, history: Ghost(Seq::empty()) }
    }

    /// The phase that the bootstrap is in. It is the phase that the events
    /// taken so far lead to.
    pub fn phase(&self) -> (phase: &Phase)
        ensures
            phase@ == self@,
            self@ == run(self.history()),
    {
        proof {
            use_type_invariant(self);
        }
        &self.phase
    }

    /// The stage to which the current phase belongs.
    pub fn stage(&self) -> (stage: Stage)
        ensures
            stage == self@.stage(),
    {
        match &self.phase {
            Phase::LoadingEntry => Stage::Instance,
            Phase::CreatingInstance => Stage::Instance,
            Phase::EnumeratingDevices => Stage::Selection,
            Phase::QueryingQueueFamilies { .. } => Stage::Selection,
            Phase::CreatingDevice { .. } => Stage::Device,
            Phase::ResolvingFunctions { .. } => Stage::Functions,
            Phase::QueryingCapabilities { .. } => Stage::Session,
            Phase::CreatingSession { .. } => Stage::Session,
            Phase::Ready { .. } => Stage::Session,
            Phase::Failed { error } => error.stage(),
        }
    }

    /// The request that is outstanding: what the caller is to do next.
    pub fn pending(&self) -> (action: Action)
        ensures
            action@ == request(self@),
            self@ == run(self.history()),
    {
        proof {
            use_type_invariant(self);
        }
        match &self.phase {
            Phase::LoadingEntry => Action::LoadEntry,
            Phase::CreatingInstance => Action::CreateInstance(instance_request()),
            Phase::EnumeratingDevices => Action::EnumerateDevices,
            Phase::QueryingQueueFamilies { device } => Action::QueryQueueFamilies {
                device: *device,
            },
            Phase::CreatingDevice { device, family } => Action::CreateDevice(
                device_request(*device, *family),
            ),
            Phase::ResolvingFunctions { .. } => Action::ResolveFunctions,
            Phase::QueryingCapabilities { device, profile, .. } => Action::QueryCapabilities {
                device: *device,
                profile: *profile,
            },
            Phase::CreatingSession { profile, extent, .. } => Action::CreateSession(
                session_request(*profile, *extent),
            ),
            Phase::Ready { session, .. } => Action::Finish { session: *session },
            Phase::Failed { error } => Action::Abort(error.duplicate()),
        }
    }

    /// Takes the driver's answer to the outstanding request, moves to the
    /// phase that `next` names, and returns the request of that phase.
    pub fn advance(&mut self, event: Event) -> (action: Action)
        ensures
            final(self)@ == next(old(self)@, event@),
            final(self).history() == old(self).history().push(event@),
            action@ == request(final(self)@),
    {
        proof {
            use_type_invariant(&*self);
            lemma_run_push(self.history@, event@);
        }
        let ghost history = self.history@.push(event@);
        match successor(&self.phase, event) {
            Some(after) => {
                *self = App { phase: after, history: Ghost(history) };
            },
            None => {
                self.history = Ghost(history);
            },
        }
        self.pending()
    }
}

} // verus!
