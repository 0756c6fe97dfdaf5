//! Values and predicates that are taken from the `ash` bindings.
//!
//! Nothing in this module is proved. Each function calls one item of `ash`
//! and states what the bindings' source shows about it; the spec functions
//! beside them give the numbers a name that contracts elsewhere can use.

use ash::vk;
use vstd::prelude::*;

verus! {

/// Raw value of the physical device type "discrete GPU".
pub open spec fn spec_discrete_gpu_type() -> i32 {
    2
}

/// Raw value of the queue capability bit "video encode".
pub open spec fn spec_video_encode_queue_bit() -> u32 {
    0x40
}

/// Raw value of the chroma subsampling bit "4:2:0".
pub open spec fn spec_chroma_420_bit() -> u32 {
    0x2
}

/// Raw value of the component bit depth bit "8 bits".
pub open spec fn spec_depth_8_bit() -> u32 {
    0x1
}

/// Raw value of the codec operation bit "H.264 encode".
pub open spec fn spec_encode_h264_bit() -> u32 {
    0x1_0000
}

/// Packed number of API version 1.3: major 1 at bit 22, minor 3 at bit 12.
pub open spec fn spec_api_version_1_3() -> u32 {
    0x0040_3000
}

/// Whether every bit of `wanted` is set in `flags`.
pub open spec fn spec_flags_contain(flags: u32, wanted: u32) -> bool {
    flags & wanted == wanted
}

/// What a driver result code means: zero is success, anything else is the
/// failure that the code names.
pub open spec fn spec_check_result(code: i32) -> Result<(), i32> {
    if code == 0 {
        Ok(())
    } else {
        Err(code)
    }
}

/// `vk::PhysicalDeviceType::DISCRETE_GPU`, as its raw value.
///
/// Claims that the bindings define the constant as `2`.
#[verifier::external_body]
pub(crate) fn discrete_gpu_type() -> (raw: i32)
    ensures
        raw == spec_discrete_gpu_type(),
{
    vk::PhysicalDeviceType::DISCRETE_GPU.as_raw()
}

/// `vk::QueueFlags::VIDEO_ENCODE_KHR`, as its raw value.
///
/// Claims that the bindings define the flag as bit 6.
#[verifier::external_body]
pub(crate) fn video_encode_queue_bit() -> (raw: u32)
    ensures
        raw == spec_video_encode_queue_bit(),
{
    vk::QueueFlags::VIDEO_ENCODE_KHR.as_raw()
}

/// `vk::VideoChromaSubsamplingFlagsKHR::TYPE_420`, as its raw value.
///
/// Claims that the bindings define the flag as bit 1.
#[verifier::external_body]
pub(crate) fn chroma_420_bit() -> (raw: u32)
    ensures
        raw == spec_chroma_420_bit(),
{
    vk::VideoChromaSubsamplingFlagsKHR::TYPE_420.as_raw()
}

/// `vk::VideoComponentBitDepthFlagsKHR::TYPE_8`, as its raw value.
///
/// Claims that the bindings define the flag as bit 0.
#[verifier::external_body]
pub(crate) fn depth_8_bit() -> (raw: u32)
    ensures
        raw == spec_depth_8_bit(),
{
    vk::VideoComponentBitDepthFlagsKHR::TYPE_8.as_raw()
}

/// `vk::VideoCodecOperationFlagsKHR::ENCODE_H264_EXT`, as its raw value.
///
/// Claims that the bindings define the flag as bit 16.
#[verifier::external_body]
pub(crate) fn encode_h264_bit() -> (raw: u32)
    ensures
        raw == spec_encode_h264_bit(),
{
    vk::VideoCodecOperationFlagsKHR::ENCODE_H264_EXT.as_raw()
}

/// `vk::API_VERSION_1_3`.
///
/// Claims that the bindings compute the constant as
/// `make_api_version(0, 1, 3, 0)`, which packs the major number at bit 22
/// and the minor number at bit 12.
#[verifier::external_body]
pub(crate) fn api_version_1_3() -> (version: u32)
    ensures
        version == spec_api_version_1_3(),
{
    vk::API_VERSION_1_3
}

/// `vk::QueueFlags::contains` on two raw flag words.
///
/// Claims that `contains` answers whether the bitwise AND of the two words
/// equals the second one.
#[verifier::external_body]
pub(crate) fn flags_contain(flags: u32, wanted: u32) -> (held: bool)
    ensures
        held == spec_flags_contain(flags, wanted),
{
    vk::QueueFlags::from_raw(flags).contains(vk::QueueFlags::from_raw(wanted))
}

/// `vk::Result::result` on a raw result code.
///
/// Claims that `result` gives `Ok` for `vk::Result::SUCCESS`, whose raw
/// value is zero, and hands every other code back as the error.
#[verifier::external_body]
pub(crate) fn check_result(code: i32) -> (outcome: Result<(), i32>)
    ensures
        outcome == spec_check_result(code),
{
    vk::Result::from_raw(code).result().map_err(|failure| failure.as_raw())
}

} // verus!
