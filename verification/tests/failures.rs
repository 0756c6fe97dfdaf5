use encode_session::error::{BootstrapError, Stage};

fn all_errors() -> Vec<BootstrapError> {
    vec![
        BootstrapError::Initialization,
        BootstrapError::InstanceCreation { code: -3 },
        BootstrapError::NoSuitableDevice,
        BootstrapError::NoEncodeQueue,
        BootstrapError::DeviceCreation { code: -7 },
        BootstrapError::MissingExtensionFunction { symbol: String::from("vkCmdEncodeVideoKHR") },
        BootstrapError::UnsupportedProfile { code: Some(-11) },
        BootstrapError::UnsupportedProfile { code: None },
        BootstrapError::SessionCreation { code: -2 },
    ]
}

#[test]
fn stages_are_numbered_in_order() {
    assert_eq!(Stage::Instance.number(), 1);
    assert_eq!(Stage::Selection.number(), 2);
    assert_eq!(Stage::Device.number(), 3);
    assert_eq!(Stage::Functions.number(), 4);
    assert_eq!(Stage::Session.number(), 5);
}

#[test]
fn stages_have_labels() {
    assert_eq!(Stage::Instance.label(), "instance bootstrap");
    assert_eq!(Stage::Selection.label(), "device selection");
    assert_eq!(Stage::Device.label(), "logical device creation");
    assert_eq!(Stage::Functions.label(), "extension function loading");
    assert_eq!(Stage::Session.label(), "video session negotiation");
}

#[test]
fn every_failure_belongs_to_its_stage() {
    let stages: Vec<Stage> = all_errors().iter().map(|error| error.stage()).collect();
    assert_eq!(
        stages,
        vec![
            Stage::Instance,
            Stage::Instance,
            Stage::Selection,
            Stage::Selection,
            Stage::Device,
            Stage::Functions,
            Stage::Session,
            Stage::Session,
            Stage::Session,
        ]
    );
}

#[test]
fn driver_codes_are_kept() {
    let codes: Vec<Option<i32>> = all_errors().iter().map(|error| error.driver_code()).collect();
    assert_eq!(
        codes,
        vec![None, Some(-3), None, None, Some(-7), None, Some(-11), None, Some(-2)]
    );
}

#[test]
fn duplicate_stands_for_the_same_failure() {
    for error in all_errors() {
        assert_eq!(error.duplicate(), error);
    }
}
