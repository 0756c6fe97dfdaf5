//! What holds of every bootstrap, whatever the driver answers.

use crate::device::planned_device;
use crate::error::BootstrapErrorView;
use crate::loader::{capabilities_symbol, create_session_symbol, provides, unresolved_marks};
use crate::loader::{table_verdict, ResolutionView};
use crate::pipeline::{
    initial, lemma_run_push, next, request, run, ActionView, EventView, PhaseView,
};
use crate::search::lemma_first_true_meaning;
use crate::select::{chosen_device, chosen_family, QueueFamily};
use crate::session::{planned_extent, planned_profile, planned_session, VideoCapabilities};
use vstd::prelude::*;

verus! {

/// Position of a phase on the way from start to success, counted from
/// one. A failed bootstrap has no position and counts as zero.
pub open spec fn position(phase: PhaseView) -> int {
    match phase {
        PhaseView::Failed { .. } => 0,
        PhaseView::LoadingEntry => 1,
        PhaseView::CreatingInstance => 2,
        PhaseView::EnumeratingDevices => 3,
        PhaseView::QueryingQueueFamilies { .. } => 4,
        PhaseView::CreatingDevice { .. } => 5,
        PhaseView::ResolvingFunctions { .. } => 6,
        PhaseView::QueryingCapabilities { .. } => 7,
        PhaseView::CreatingSession { .. } => 8,
        PhaseView::Ready { .. } => 9,
    }
}

/// Success and failure are final: no event moves a bootstrap that has
/// ended.
pub proof fn law_ended_bootstrap_stays(phase: PhaseView, event: EventView)
    requires
        phase.is_final(),
    ensures
        next(phase, event) == phase,
{
}

/// No step is skipped and none is repeated: an event leaves the phase as it
/// is, or moves it to the very next one, or fails the bootstrap in the
/// stage that the phase belongs to.
pub proof fn law_one_step_at_a_time(phase: PhaseView, event: EventView)
    ensures
        ({
            let after = next(phase, event);
            ||| after == phase
            ||| !(after is Failed) && position(after) == position(phase) + 1
            ||| after is Failed && !phase.is_final() && after.stage() == phase.stage()
        }),
{
}

/// The stage of a bootstrap never goes back, through success or failure.
pub proof fn law_stage_never_goes_back(phase: PhaseView, event: EventView)
    ensures
        phase.stage().ordinal() <= next(phase, event).stage().ordinal(),
{
}

/// The logical device is requested for the selection that was made: the
/// chosen device, one queue of the family that was chosen from the
/// reported families, at priority 1.0, with the three required
/// extensions.
pub proof fn law_device_follows_selection(device: usize, families: Seq<QueueFamily>)
    requires
        chosen_family(families) is Some,
    ensures
        request(
            next(
                PhaseView::QueryingQueueFamilies { device },
                EventView::QueueFamiliesReported { families },
            ),
        ) == ActionView::CreateDevice(planned_device(device, chosen_family(families)->Some_0)),
{
}

/// Nothing is called through an entry point that was not resolved: the
/// bootstrap goes on to the capability query only if every entry point
/// that was looked up has an address, and the two that the bootstrap calls
/// are among them.
pub proof fn law_resolved_before_called(phase: PhaseView, event: EventView)
    requires
        phase is ResolvingFunctions,
        next(phase, event) is QueryingCapabilities,
    ensures
        event is FunctionsResolved,
        forall|i: int|
            0 <= i < event->entries.len() ==> (#[trigger] event->entries[i]).address != 0,
        provides(event->entries, capabilities_symbol()),
        provides(event->entries, create_session_symbol()),
{
    let entries = event->entries;
    lemma_first_true_meaning(unresolved_marks(entries));
    assert forall|i: int| 0 <= i < entries.len() implies (#[trigger] entries[i]).address
        != 0 by {
        assert(!unresolved_marks(entries)[i]);
    }
}

/// A session beyond the driver's limits is never asked for: where the
/// reported maximum does not cover the planned frame size, the answer to
/// the capability query ends the bootstrap with `UnsupportedProfile`,
/// whatever the result code was.
pub proof fn law_oversized_session_is_not_requested(
    phase: PhaseView,
    code: i32,
    capabilities: VideoCapabilities,
)
    requires
        phase is QueryingCapabilities,
        !planned_extent().spec_fits_within(capabilities.max_extent),
    ensures
        next(phase, EventView::CapabilitiesReported { code, capabilities }) is Failed,
        next(
            phase,
            EventView::CapabilitiesReported { code, capabilities },
        )->error is UnsupportedProfile,
{
}

/// In every phase that a bootstrap reaches with a profile, the profile is
/// the planned one: H.264 encode, 4:2:0, 8 bits of luma and of chroma. A
/// session is only ever requested for the planned frame size.
pub proof fn law_profile_is_the_planned_one(events: Seq<EventView>)
    ensures
        run(events) is QueryingCapabilities ==> run(events)->QueryingCapabilities_profile
            == planned_profile(),
        run(events) is CreatingSession ==> run(events)->CreatingSession_profile
            == planned_profile() && run(events)->extent == planned_extent(),
    decreases events.len(),
{
    if events.len() > 0 {
        law_profile_is_the_planned_one(events.drop_last());
    }
}

/// The capability query comes before session creation, and the session is
/// requested with the identical profile: whenever a bootstrap has the
/// session request outstanding, it had, at an earlier point of the same
/// run, a capability query outstanding for the very profile of that
/// request, on the same device.
pub proof fn law_capability_query_precedes_session(events: Seq<EventView>) -> (earlier: int)
    requires
        run(events) is CreatingSession,
    ensures
        0 <= earlier < events.len(),
        request(run(events.take(earlier))) == (ActionView::QueryCapabilities {
            device: run(events)->CreatingSession_device,
            profile: run(events)->CreatingSession_profile,
        }),
        request(run(events)) == ActionView::CreateSession(
            planned_session(run(events)->CreatingSession_profile, planned_extent()),
        ),
    decreases events.len(),
{
    law_profile_is_the_planned_one(events);
    let before = events.drop_last();
    if run(before) is CreatingSession {
        let earlier = law_capability_query_precedes_session(before);
        assert(before.take(earlier) =~= events.take(earlier));
        earlier
    } else {
        assert(events.take(events.len() - 1) =~= before);
        events.len() - 1
    }
}

/// Along a run the stage only grows: at no earlier point was the bootstrap
/// in a later stage than at the end.
pub proof fn law_run_keeps_stage_order(events: Seq<EventView>, earlier: int)
    requires
        0 <= earlier <= events.len(),
    ensures
        run(events.take(earlier)).stage().ordinal() <= run(events).stage().ordinal(),
    decreases events.len(),
{
    if earlier == events.len() {
        assert(events.take(earlier) =~= events);
    } else {
        let before = events.drop_last();
        law_run_keeps_stage_order(before, earlier);
        assert(before.take(earlier) =~= events.take(earlier));
        law_stage_never_goes_back(run(before), events.last());
    }
}

/// A bootstrap that ends for want of a discrete GPU has at no point asked
/// for a logical device or for a video session.
pub proof fn law_no_device_without_discrete_gpu(events: Seq<EventView>, earlier: int)
    requires
        run(events) == (PhaseView::Failed { error: BootstrapErrorView::NoSuitableDevice }),
        0 <= earlier <= events.len(),
    ensures
        !(request(run(events.take(earlier))) is CreateDevice),
        !(request(run(events.take(earlier))) is CreateSession),
{
    law_run_keeps_stage_order(events, earlier);
}

/// Every run starts with the request to load the API library.
pub proof fn law_run_starts_by_loading()
    ensures
        run(Seq::<EventView>::empty()) == initial(),
        request(initial()) == ActionView::LoadEntry,
{
}

/// The events of a bootstrap to which the driver grants every request.
pub open spec fn granted_events(
    device_types: Seq<i32>,
    families: Seq<QueueFamily>,
    queue: u64,
    entries: Seq<ResolutionView>,
    capabilities: VideoCapabilities,
    session: u64,
) -> Seq<EventView> {
    seq![
        EventView::EntryLoaded,
        EventView::InstanceCreated,
        EventView::DevicesEnumerated { device_types },
        EventView::QueueFamiliesReported { families },
        EventView::DeviceCreated { queue },
        EventView::FunctionsResolved { entries },
        EventView::CapabilitiesReported { code: 0, capabilities },
        EventView::SessionReported { code: 0, session },
    ]
}

/// Success is owed where nothing stands against it: with a discrete GPU
/// among the devices, an encode family among its queue families, every
/// entry point resolved, and limits that cover the planned frame size, a
/// bootstrap to which the driver grants every request ends with the
/// session that the driver created, on the first discrete GPU and its
/// first encode family.
pub proof fn law_granted_bootstrap_succeeds(
    device_types: Seq<i32>,
    families: Seq<QueueFamily>,
    queue: u64,
    entries: Seq<ResolutionView>,
    capabilities: VideoCapabilities,
    session: u64,
)
    requires
        chosen_device(device_types) is Some,
        chosen_family(families) is Some,
        table_verdict(entries) is Ok,
        planned_extent().spec_fits_within(capabilities.max_extent),
    ensures
        run(granted_events(device_types, families, queue, entries, capabilities, session)) == (
        PhaseView::Ready {
            device: chosen_device(device_types)->Some_0 as usize,
            family: chosen_family(families)->Some_0,
            queue,
            session,
        }),
        request(
            run(granted_events(device_types, families, queue, entries, capabilities, session)),
        ) == (ActionView::Finish { session }),
{
    let all = granted_events(device_types, families, queue, entries, capabilities, session);
    let e0 = Seq::<EventView>::empty();
    let e1 = e0.push(all[0]);
    let e2 = e1.push(all[1]);
    let e3 = e2.push(all[2]);
    let e4 = e3.push(all[3]);
    let e5 = e4.push(all[4]);
    let e6 = e5.push(all[5]);
    let e7 = e6.push(all[6]);
    let e8 = e7.push(all[7]);
    assert(e8 =~= all);
    lemma_run_push(e0, all[0]);
    lemma_run_push(e1, all[1]);
    lemma_run_push(e2, all[2]);
    lemma_run_push(e3, all[3]);
    lemma_run_push(e4, all[4]);
    lemma_run_push(e5, all[5]);
    lemma_run_push(e6, all[6]);
    lemma_run_push(e7, all[7]);
}

} // verus!
