use encode_session::device::device_request;
use encode_session::error::{BootstrapError, Stage};
use encode_session::instance::instance_request;
use encode_session::loader::Resolution;
use encode_session::pipeline::{Action, App, Event, Phase};
use encode_session::select::QueueFamily;
use encode_session::session::{
    coded_extent, encode_profile, session_request, Extent, VideoCapabilities,
};

const INTEGRATED: i32 = 1;
const DISCRETE: i32 = 2;
const GRAPHICS: u32 = 0x1;
const VIDEO_ENCODE: u32 = 0x40;
const QUEUE: u64 = 0x5151;
const SESSION: u64 = 0xabcd_0001;

fn entry(symbol: &str, address: usize) -> Resolution {
    Resolution { symbol: String::from(symbol), address }
}

fn resolved() -> Vec<Resolution> {
    vec![
        entry("vkGetPhysicalDeviceVideoCapabilitiesKHR", 0x100),
        entry("vkGetPhysicalDeviceVideoFormatPropertiesKHR", 0x108),
        entry("vkCreateVideoSessionKHR", 0x110),
        entry("vkDestroyVideoSessionKHR", 0x118),
        entry("vkCmdEncodeVideoKHR", 0x120),
    ]
}

fn families() -> Vec<QueueFamily> {
    vec![
        QueueFamily { flags: GRAPHICS, queue_count: 16 },
        QueueFamily { flags: VIDEO_ENCODE, queue_count: 1 },
    ]
}

fn wide_limits() -> VideoCapabilities {
    VideoCapabilities {
        min_extent: Extent { width: 16, height: 16 },
        max_extent: Extent { width: 4096, height: 4096 },
    }
}

/// The events of a bootstrap in which the driver grants everything.
fn granted() -> Vec<Event> {
    vec![
        Event::EntryLoaded,
        Event::InstanceCreated,
        Event::DevicesEnumerated { device_types: vec![INTEGRATED, DISCRETE] },
        Event::QueueFamiliesReported { families: families() },
        Event::DeviceCreated { queue: QUEUE },
        Event::FunctionsResolved { entries: resolved() },
        Event::CapabilitiesReported { code: 0, capabilities: wide_limits() },
        Event::SessionReported { code: 0, session: SESSION },
    ]
}

/// An app that has taken the first `count` granted events.
fn app_after(count: usize) -> App {
    let mut app = App::new();
    for event in granted().into_iter().take(count) {
        app.advance(event);
    }
    app
}

#[test]
fn new_app_waits_for_the_library() {
    let app = App::new();
    assert_eq!(app.phase(), &Phase::LoadingEntry);
    assert_eq!(app.pending(), Action::LoadEntry);
    assert_eq!(app.stage(), Stage::Instance);
}

#[test]
fn granted_bootstrap_runs_through_all_five_stages() {
    let mut app = App::new();
    let mut actions = vec![app.pending()];
    let mut stages = vec![app.stage()];
    for event in granted() {
        actions.push(app.advance(event));
        stages.push(app.stage());
    }
    assert_eq!(
        actions,
        vec![
            Action::LoadEntry,
            Action::CreateInstance(instance_request()),
            Action::EnumerateDevices,
            Action::QueryQueueFamilies { device: 1 },
            Action::CreateDevice(device_request(1, 1)),
            Action::ResolveFunctions,
            Action::QueryCapabilities { device: 1, profile: encode_profile() },
            Action::CreateSession(session_request(encode_profile(), coded_extent())),
            Action::Finish { session: SESSION },
        ]
    );
    assert_eq!(
        stages,
        vec![
            Stage::Instance,
            Stage::Instance,
            Stage::Selection,
            Stage::Selection,
            Stage::Device,
            Stage::Functions,
            Stage::Session,
            Stage::Session,
            Stage::Session,
        ]
    );
    assert_eq!(app.phase(), &Phase::Ready { device: 1, family: 1, queue: QUEUE, session: SESSION });
    assert_ne!(SESSION, 0);
    assert_eq!(app.pending(), Action::Finish { session: SESSION });
}

#[test]
fn session_is_requested_with_the_queried_profile() {
    let mut app = app_after(5);
    let query = app.advance(granted().remove(5));
    let create = app.advance(granted().remove(6));
    let queried = match query {
        Action::QueryCapabilities { profile, .. } => profile,
        other => panic!("unexpected action {:?}", other),
    };
    let requested = match create {
        Action::CreateSession(request) => request,
        other => panic!("unexpected action {:?}", other),
    };
    assert_eq!(requested.profile, queried);
    assert_eq!(queried, encode_profile());
    assert_eq!(requested.max_coded_extent, Extent { width: 1920, height: 1080 });
}

#[test]
fn without_discrete_gpu_the_bootstrap_fails_at_selection() {
    let mut app = app_after(2);
    let action =
        app.advance(Event::DevicesEnumerated { device_types: vec![INTEGRATED, 3, 4, 0] });
    assert_eq!(action, Action::Abort(BootstrapError::NoSuitableDevice));
    assert_eq!(app.phase(), &Phase::Failed { error: BootstrapError::NoSuitableDevice });
    assert_eq!(app.stage(), Stage::Selection);
    assert_eq!(app.stage().number(), 2);
}

#[test]
fn without_discrete_gpu_no_device_and_no_session_is_asked_for() {
    let mut app = App::new();
    let mut actions = vec![app.pending()];
    let mut events = granted();
    events[2] = Event::DevicesEnumerated { device_types: vec![] };
    for event in events {
        actions.push(app.advance(event));
    }
    for action in &actions {
        assert!(!matches!(action, Action::CreateDevice(_)));
        assert!(!matches!(action, Action::CreateSession(_)));
        assert!(!matches!(action, Action::Finish { .. }));
    }
    assert_eq!(actions.last(), Some(&Action::Abort(BootstrapError::NoSuitableDevice)));
}

#[test]
fn missing_library_is_an_initialization_failure() {
    let mut app = App::new();
    assert_eq!(app.advance(Event::EntryUnavailable), Action::Abort(BootstrapError::Initialization));
    assert_eq!(app.stage(), Stage::Instance);
}

#[test]
fn refused_instance_is_an_instance_creation_failure() {
    let mut app = app_after(1);
    assert_eq!(
        app.advance(Event::InstanceRejected { code: -9 }),
        Action::Abort(BootstrapError::InstanceCreation { code: -9 })
    );
    assert_eq!(app.stage(), Stage::Instance);
}

#[test]
fn failed_enumeration_is_no_suitable_device() {
    let mut app = app_after(2);
    assert_eq!(
        app.advance(Event::EnumerationFailed { code: -3 }),
        Action::Abort(BootstrapError::NoSuitableDevice)
    );
}

#[test]
fn device_without_encode_family_is_no_encode_queue() {
    let mut app = app_after(3);
    let action = app.advance(Event::QueueFamiliesReported {
        families: vec![QueueFamily { flags: GRAPHICS, queue_count: 1 }],
    });
    assert_eq!(action, Action::Abort(BootstrapError::NoEncodeQueue));
    assert_eq!(app.stage(), Stage::Selection);
}

#[test]
fn refused_device_is_a_device_creation_failure() {
    let mut app = app_after(4);
    assert_eq!(
        app.advance(Event::DeviceRejected { code: -7 }),
        Action::Abort(BootstrapError::DeviceCreation { code: -7 })
    );
    assert_eq!(app.stage(), Stage::Device);
}

#[test]
fn unresolved_function_is_named() {
    let mut app = app_after(5);
    let mut entries = resolved();
    entries[3].address = 0;
    assert_eq!(
        app.advance(Event::FunctionsResolved { entries }),
        Action::Abort(BootstrapError::MissingExtensionFunction {
            symbol: String::from("vkDestroyVideoSessionKHR"),
        })
    );
    assert_eq!(app.stage(), Stage::Functions);
}

#[test]
fn refused_profile_is_unsupported() {
    let mut app = app_after(6);
    assert_eq!(
        app.advance(Event::CapabilitiesReported { code: -11, capabilities: wide_limits() }),
        Action::Abort(BootstrapError::UnsupportedProfile { code: Some(-11) })
    );
    assert_eq!(app.stage(), Stage::Session);
}

#[test]
fn limits_below_1920_by_1080_are_unsupported() {
    let mut app = app_after(6);
    let capabilities = VideoCapabilities {
        min_extent: Extent { width: 16, height: 16 },
        max_extent: Extent { width: 1280, height: 720 },
    };
    assert_eq!(
        app.advance(Event::CapabilitiesReported { code: 0, capabilities }),
        Action::Abort(BootstrapError::UnsupportedProfile { code: None })
    );
}

#[test]
fn refused_session_is_a_session_creation_failure() {
    let mut app = app_after(7);
    assert_eq!(
        app.advance(Event::SessionReported { code: -2, session: 0 }),
        Action::Abort(BootstrapError::SessionCreation { code: -2 })
    );
    assert_eq!(app.stage(), Stage::Session);
}

#[test]
fn an_event_that_answers_another_request_changes_nothing() {
    for count in 0..granted().len() {
        let untouched = app_after(count);
        for (position, event) in granted().into_iter().enumerate() {
            if position == count {
                continue;
            }
            let mut app = app_after(count);
            let action = app.advance(event);
            assert_eq!(app.phase(), untouched.phase());
            assert_eq!(action, untouched.pending());
        }
    }
}

#[test]
fn a_finished_bootstrap_stays_finished() {
    let done = app_after(8);
    for event in granted() {
        let mut app = app_after(8);
        assert_eq!(app.advance(event), Action::Finish { session: SESSION });
        assert_eq!(app.phase(), done.phase());
    }
}

#[test]
fn a_failed_bootstrap_stays_failed() {
    for event in granted() {
        let mut app = App::new();
        app.advance(Event::EntryUnavailable);
        assert_eq!(app.advance(event), Action::Abort(BootstrapError::Initialization));
        assert_eq!(app.phase(), &Phase::Failed { error: BootstrapError::Initialization });
    }
}
