use encode_session::device::{device_request, DeviceRequest, PRIORITY_ONE};
use encode_session::instance::{instance_request, InstanceRequest};
use encode_session::session::{
    coded_extent, encode_profile, session_request, Extent, SessionRequest, StdHeaderVersion,
    VideoProfile,
};

#[test]
fn instance_declares_api_version_1_3() {
    let request = instance_request();
    assert_eq!(request, InstanceRequest { api_version: 0x0040_3000 });
    assert_eq!(request.api_version, ash::vk::API_VERSION_1_3);
    assert_eq!(ash::vk::api_version_major(request.api_version), 1);
    assert_eq!(ash::vk::api_version_minor(request.api_version), 3);
    assert_eq!(ash::vk::api_version_patch(request.api_version), 0);
    assert_eq!(ash::vk::api_version_variant(request.api_version), 0);
}

#[test]
fn priority_one_is_the_single_1_0() {
    assert_eq!(PRIORITY_ONE, 0x3f80_0000);
    assert_eq!(f32::from_bits(PRIORITY_ONE), 1.0f32);
    assert_eq!(1.0f32.to_bits(), PRIORITY_ONE);
}

#[test]
fn device_request_asks_for_one_queue_and_three_extensions() {
    let request = device_request(4, 7);
    assert_eq!(
        request,
        DeviceRequest {
            physical_device: 4,
            queue_family_index: 7,
            queue_priorities: vec![0x3f80_0000],
            extensions: vec![
                String::from("VK_KHR_video_queue"),
                String::from("VK_KHR_video_encode_queue"),
                String::from("VK_EXT_video_encode_h264"),
            ],
            queue_index: 0,
        }
    );
}

#[test]
fn device_request_names_the_extensions_of_the_bindings() {
    let request = device_request(0, 0);
    let names = [
        ash::vk::KhrVideoQueueFn::name(),
        ash::vk::KhrVideoEncodeQueueFn::name(),
        ash::vk::ExtVideoEncodeH264Fn::name(),
    ];
    assert_eq!(request.extensions.len(), names.len());
    for (ours, theirs) in request.extensions.iter().zip(names.iter()) {
        assert_eq!(ours.as_bytes(), theirs.to_bytes());
    }
}

#[test]
fn device_request_follows_its_arguments() {
    let low = device_request(0, 0);
    assert_eq!(low.physical_device, 0);
    assert_eq!(low.queue_family_index, 0);
    let high = device_request(usize::MAX, u32::MAX);
    assert_eq!(high.physical_device, usize::MAX);
    assert_eq!(high.queue_family_index, u32::MAX);
    assert_eq!(high.queue_priorities, low.queue_priorities);
    assert_eq!(high.extensions, low.extensions);
    assert_eq!(high.queue_index, 0);
}

#[test]
fn profile_is_h264_encode_420_8_bit() {
    let profile = encode_profile();
    assert_eq!(
        profile,
        VideoProfile {
            codec_operation: 0x1_0000,
            chroma_subsampling: 0x2,
            luma_bit_depth: 0x1,
            chroma_bit_depth: 0x1,
        }
    );
    assert_eq!(
        profile.codec_operation,
        ash::vk::VideoCodecOperationFlagsKHR::ENCODE_H264_EXT.as_raw()
    );
    assert_eq!(
        profile.chroma_subsampling,
        ash::vk::VideoChromaSubsamplingFlagsKHR::TYPE_420.as_raw()
    );
    assert_eq!(profile.luma_bit_depth, ash::vk::VideoComponentBitDepthFlagsKHR::TYPE_8.as_raw());
    assert_eq!(profile.chroma_bit_depth, ash::vk::VideoComponentBitDepthFlagsKHR::TYPE_8.as_raw());
}

#[test]
fn coded_extent_is_1920_by_1080() {
    assert_eq!(coded_extent(), Extent { width: 1920, height: 1080 });
}

#[test]
fn session_request_carries_profile_and_extent() {
    let profile = VideoProfile {
        codec_operation: 9,
        chroma_subsampling: 8,
        luma_bit_depth: 7,
        chroma_bit_depth: 6,
    };
    let extent = Extent { width: 640, height: 480 };
    assert_eq!(
        session_request(profile, extent),
        SessionRequest {
            profile,
            max_coded_extent: extent,
            std_header_version: StdHeaderVersion { extension_name: String::new(), spec_version: 0 },
        }
    );
}

#[test]
fn extent_fits_when_neither_side_is_larger() {
    let outer = Extent { width: 1920, height: 1080 };
    assert!(Extent { width: 1920, height: 1080 }.fits_within(&outer));
    assert!(Extent { width: 0, height: 0 }.fits_within(&outer));
    assert!(Extent { width: 1280, height: 720 }.fits_within(&outer));
    assert!(!Extent { width: 1921, height: 1080 }.fits_within(&outer));
    assert!(!Extent { width: 1920, height: 1081 }.fits_within(&outer));
    assert!(!Extent { width: 1, height: u32::MAX }.fits_within(&outer));
    assert!(!outer.fits_within(&Extent { width: 1080, height: 1920 }));
}
