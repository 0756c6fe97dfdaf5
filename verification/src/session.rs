//! Negotiation of the video profile and creation of the video session.
//!
//! The profile names the coding configuration. It is the key of the
//! capability query and, unchanged, a parameter of the session. The session
//! is only asked for when the driver accepts the profile and its limits
//! cover the frame size that will be encoded.

use crate::driver::{
    check_result, chroma_420_bit, depth_8_bit, encode_h264_bit, spec_check_result,
    spec_chroma_420_bit, spec_depth_8_bit, spec_encode_h264_bit,
};
use crate::error::{BootstrapError, BootstrapErrorView};
use vstd::prelude::*;

verus! {

/// A frame size in pixels.
#[derive(Debug, Clone, Copy, PartialEq, Eq, Structural)]
pub struct Extent {
    pub width: u32,
    pub height: u32,
}

impl Extent {
    /// Whether a frame of this size fits into one of size `outer`.
    pub open spec fn spec_fits_within(self, outer: Extent) -> bool {
        self.width <= outer.width && self.height <= outer.height
    }

    /// Whether a frame of this size fits into one of size `outer`.
    pub fn fits_within(&self, outer: &Extent) -> (held: bool)
        ensures
            held == self.spec_fits_within(*outer),
    {
        self.width <= outer.width && self.height <= outer.height
    }
}

/// A video coding configuration, in the driver's raw flag words.
#[derive(Debug, Clone, Copy, PartialEq, Eq, Structural)]
pub struct VideoProfile {
    pub codec_operation: u32,
    pub chroma_subsampling: u32,
    pub luma_bit_depth: u32,
    pub chroma_bit_depth: u32,
}

/// The limits that the driver reports for a profile, as far as the
/// bootstrap reads them.
#[derive(Debug, Clone, Copy, PartialEq, Eq, Structural)]
pub struct VideoCapabilities {
    pub min_extent: Extent,
    pub max_extent: Extent,
}

/// Names the version of the codec's standard headers.
#[derive(Debug, Clone, PartialEq, Eq)]
pub struct StdHeaderVersion {
    pub extension_name: String,
    pub spec_version: u32,
}

/// A header version as contracts see it.
pub struct StdHeaderVersionView {
    pub extension_name: Seq<char>,
    pub spec_version: u32,
}

impl View for StdHeaderVersion {
    type V = StdHeaderVersionView;

    open spec fn view(&self) -> StdHeaderVersionView {
        StdHeaderVersionView {
            extension_name: self.extension_name@,
            spec_version: self.spec_version,
        }
    }
}

/// What video session creation is asked for.
#[derive(Debug, Clone, PartialEq, Eq)]
pub struct SessionRequest {
    /// The profile of the session.
    pub profile: VideoProfile,
    /// The largest frame that the session will code.
    pub max_coded_extent: Extent,
    /// The standard header version that the session declares.
    pub std_header_version: StdHeaderVersion,
}

/// A session request as contracts see it.
pub struct SessionRequestView {
    pub profile: VideoProfile,
    pub max_coded_extent: Extent,
    pub std_header_version: StdHeaderVersionView,
}

impl View for SessionRequest {
    type V = SessionRequestView;

    open spec fn view(&self) -> SessionRequestView {
        SessionRequestView {
            profile: self.profile,
            max_coded_extent: self.max_coded_extent,
            std_header_version: self.std_header_version@,
        }
    }
}

/// The profile of the bootstrap: H.264 encode, 4:2:0 chroma subsampling,
/// 8 bits of luma and of chroma.
pub open spec fn planned_profile() -> VideoProfile {
    VideoProfile {
        codec_operation: spec_encode_h264_bit(),
        chroma_subsampling: spec_chroma_420_bit(),
        luma_bit_depth: spec_depth_8_bit(),
        chroma_bit_depth: spec_depth_8_bit(),
    }
}

/// Builds the profile of the bootstrap.
pub fn encode_profile() -> (profile: VideoProfile)
    ensures
        profile == planned_profile(),
{
    VideoProfile {
        codec_operation: encode_h264_bit(),
        chroma_subsampling: chroma_420_bit(),
        luma_bit_depth: depth_8_bit(),
        chroma_bit_depth: depth_8_bit(),
    }
}

/// The frame size of the bootstrap: 1920 by 1080.
pub open spec fn planned_extent() -> Extent {
    Extent { width: 1920, height: 1080 }
}

/// Builds the frame size of the bootstrap.
pub fn coded_extent() -> (extent: Extent)
    ensures
        extent == planned_extent(),
{
    Extent { width: 1920, height: 1080 }
}

/// The session request for a profile and a frame size: that profile, that
/// size as the largest coded size, and an empty header version.
pub open spec fn planned_session(profile: VideoProfile, extent: Extent) -> SessionRequestView {
    SessionRequestView {
        profile,
        max_coded_extent: extent,
        std_header_version: StdHeaderVersionView {
            extension_name: Seq::<char>::empty(),
            spec_version: 0,
        },
    }
}

/// Builds the session request for a profile and a frame size.
pub fn session_request(profile: VideoProfile, extent: Extent) -> (request: SessionRequest)
    ensures
        request@ == planned_session(profile, extent),
{
    SessionRequest {
        profile,
        max_coded_extent: extent,
        std_header_version: StdHeaderVersion { extension_name: String::new(), spec_version: 0 },
    }
}

/// What follows from the answer to a capability query.
///
/// A result code other than success means that the driver does not support
/// the profile. With success, the reported maximum must cover the wanted
/// frame size; if it does not, the profile is unsupported as well, and no
/// session is asked for. Otherwise the session is requested with the very
/// profile that was queried.
pub open spec fn spec_negotiate(
    code: i32,
    capabilities: VideoCapabilities,
    profile: VideoProfile,
    extent: Extent,
) -> Result<SessionRequestView, BootstrapErrorView> {
    match spec_check_result(code) {
        Err(refusal) => Err(BootstrapErrorView::UnsupportedProfile { code: Some(refusal) }),
        Ok(()) => if extent.spec_fits_within(capabilities.max_extent) {
            Ok(planned_session(profile, extent))
        } else {
            Err(BootstrapErrorView::UnsupportedProfile { code: None })
        },
    }
}

/// Judges the answer to a capability query, as `spec_negotiate` says.
pub fn negotiate(
    code: i32,
    capabilities: &VideoCapabilities,
    profile: VideoProfile,
    extent: Extent,
) -> (outcome: Result<SessionRequest, BootstrapError>)
    ensures
        match outcome {
            Ok(request) => spec_negotiate(code, *capabilities, profile, extent) == Ok::<
                SessionRequestView,
                BootstrapErrorView,
            >(request@),
            Err(error) => spec_negotiate(code, *capabilities, profile, extent) == Err::<
                SessionRequestView,
                BootstrapErrorView,
            >(error@),
        },
{
    match check_result(code) {
        Err(refusal) => Err(BootstrapError::UnsupportedProfile { code: Some(refusal) }),
        Ok(()) => {
            if extent.fits_within(&capabilities.max_extent) {
                Ok(session_request(profile, extent))
            } else {
                Err(BootstrapError::UnsupportedProfile { code: None })
            }
        },
    }
}

/// What follows from the answer to session creation: the session's handle
/// on success, `SessionCreation` with the driver's code on anything else.
pub open spec fn spec_session_outcome(code: i32, session: u64) -> Result<u64, BootstrapErrorView> {
    match spec_check_result(code) {
        Ok(()) => Ok(session),
        Err(refusal) => Err(BootstrapErrorView::SessionCreation { code: refusal }),
    }
}

/// Judges the answer to session creation, as `spec_session_outcome` says.
pub fn session_outcome(code: i32, session: u64) -> (outcome: Result<u64, BootstrapError>)
    ensures
        match outcome {
            Ok(handle) => spec_session_outcome(code, session) == Ok::<u64, BootstrapErrorView>(
                handle,
            ),
            Err(error) => spec_session_outcome(code, session) == Err::<u64, BootstrapErrorView>(
                error@,
            ),
        },
{
    match check_result(code) {
        Ok(()) => Ok(session),
        Err(refusal) => Err(BootstrapError::SessionCreation { code: refusal }),
    }
}

/// A session that negotiation asks for carries the queried profile
/// unchanged, and its largest coded size is no smaller than any frame that
/// fits the wanted size and no larger than the driver's maximum.
pub proof fn law_session_covers_every_frame(
    code: i32,
    capabilities: VideoCapabilities,
    profile: VideoProfile,
    extent: Extent,
    frame: Extent,
)
    requires
        spec_negotiate(code, capabilities, profile, extent) is Ok,
        frame.spec_fits_within(extent),
    ensures
        spec_negotiate(code, capabilities, profile, extent)->Ok_0.profile == profile,
        frame.spec_fits_within(
            spec_negotiate(code, capabilities, profile, extent)->Ok_0.max_coded_extent,
        ),
        spec_negotiate(
            code,
            capabilities,
            profile,
            extent,
        )->Ok_0.max_coded_extent.spec_fits_within(capabilities.max_extent),
{
}

/// A frame size beyond the driver's reported maximum is refused as an
/// unsupported profile, whatever the result code was, and never as a
/// failed session creation.
pub proof fn law_oversized_extent_is_unsupported(
    code: i32,
    capabilities: VideoCapabilities,
    profile: VideoProfile,
    extent: Extent,
)
    requires
        !extent.spec_fits_within(capabilities.max_extent),
    ensures
        spec_negotiate(code, capabilities, profile, extent) is Err,
        spec_negotiate(code, capabilities, profile, extent)->Err_0 is UnsupportedProfile,
{
}

} // verus!
