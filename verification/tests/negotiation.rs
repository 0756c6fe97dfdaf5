use encode_session::error::{BootstrapError, Stage};
use encode_session::session::{
    coded_extent, encode_profile, negotiate, session_outcome, session_request, Extent,
    VideoCapabilities,
};

fn limits(width: u32, height: u32) -> VideoCapabilities {
    VideoCapabilities {
        min_extent: Extent { width: 16, height: 16 },
        max_extent: Extent { width, height },
    }
}

#[test]
fn accepted_profile_gives_the_session_request() {
    let profile = encode_profile();
    let extent = coded_extent();
    let outcome = negotiate(0, &limits(4096, 4096), profile, extent);
    assert_eq!(outcome, Ok(session_request(profile, extent)));
    let request = outcome.unwrap();
    assert_eq!(request.profile, profile);
    assert_eq!(request.max_coded_extent, Extent { width: 1920, height: 1080 });
    assert_eq!(request.std_header_version.extension_name, "");
    assert_eq!(request.std_header_version.spec_version, 0);
}

#[test]
fn maximum_equal_to_the_extent_is_enough() {
    let outcome = negotiate(0, &limits(1920, 1080), encode_profile(), coded_extent());
    assert_eq!(outcome, Ok(session_request(encode_profile(), coded_extent())));
}

#[test]
fn refused_profile_is_unsupported_with_the_code() {
    let code = ash::vk::Result::ERROR_FORMAT_NOT_SUPPORTED.as_raw();
    assert_eq!(
        negotiate(code, &limits(4096, 4096), encode_profile(), coded_extent()),
        Err(BootstrapError::UnsupportedProfile { code: Some(-11) })
    );
    assert_eq!(
        negotiate(5, &limits(4096, 4096), encode_profile(), coded_extent()),
        Err(BootstrapError::UnsupportedProfile { code: Some(5) })
    );
    assert_eq!(
        negotiate(i32::MIN, &limits(0, 0), encode_profile(), coded_extent()),
        Err(BootstrapError::UnsupportedProfile { code: Some(i32::MIN) })
    );
}

#[test]
fn extent_beyond_the_maximum_is_unsupported_not_a_session_failure() {
    for (width, height) in [(1919, 1080), (1920, 1079), (1280, 720), (0, 0), (u32::MAX, 1079)] {
        let outcome = negotiate(0, &limits(width, height), encode_profile(), coded_extent());
        assert_eq!(outcome, Err(BootstrapError::UnsupportedProfile { code: None }));
        assert_eq!(outcome.unwrap_err().stage(), Stage::Session);
    }
}

#[test]
fn larger_wanted_extent_needs_larger_limits() {
    let wanted = Extent { width: 3840, height: 2160 };
    assert_eq!(
        negotiate(0, &limits(1920, 1080), encode_profile(), wanted),
        Err(BootstrapError::UnsupportedProfile { code: None })
    );
    assert_eq!(
        negotiate(0, &limits(3840, 2160), encode_profile(), wanted),
        Ok(session_request(encode_profile(), wanted))
    );
}

#[test]
fn created_session_hands_its_handle_on() {
    assert_eq!(session_outcome(0, 0xdead_beef), Ok(0xdead_beef));
    assert_eq!(session_outcome(ash::vk::Result::SUCCESS.as_raw(), 1), Ok(1));
    assert_eq!(session_outcome(0, u64::MAX), Ok(u64::MAX));
}

#[test]
fn refused_session_is_a_session_failure_with_the_code() {
    let code = ash::vk::Result::ERROR_OUT_OF_DEVICE_MEMORY.as_raw();
    assert_eq!(session_outcome(code, 7), Err(BootstrapError::SessionCreation { code: -2 }));
    assert_eq!(session_outcome(1, 7), Err(BootstrapError::SessionCreation { code: 1 }));
    assert_eq!(
        session_outcome(i32::MAX, 0),
        Err(BootstrapError::SessionCreation { code: i32::MAX })
    );
}
