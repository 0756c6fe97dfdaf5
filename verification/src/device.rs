//! The request that creates the logical device.

use vstd::prelude::*;

verus! {

/// Queue priority 1.0, as the bits of an IEEE 754 single.
pub const PRIORITY_ONE: u32 = 0x3f80_0000;

/// What logical device creation is asked for, and which queue is fetched
/// from the new device.
#[derive(Debug, Clone, PartialEq, Eq)]
pub struct DeviceRequest {
    /// Position of the physical device in enumeration order.
    pub physical_device: usize,
    /// The family from which queues are requested.
    pub queue_family_index: u32,
    /// One priority for each requested queue, as the bits of a single.
    pub queue_priorities: Vec<u32>,
    /// The device extensions to enable.
    pub extensions: Vec<String>,
    /// Index, within the family, of the queue to fetch.
    pub queue_index: u32,
}

/// A device request as contracts see it.
pub struct DeviceRequestView {
    pub physical_device: usize,
    pub queue_family_index: u32,
    pub queue_priorities: Seq<u32>,
    pub extensions: Seq<Seq<char>>,
    pub queue_index: u32,
}

impl View for DeviceRequest {
    type V = DeviceRequestView;

    open spec fn view(&self) -> DeviceRequestView {
        DeviceRequestView {
            physical_device: self.physical_device,
            queue_family_index: self.queue_family_index,
            queue_priorities: self.queue_priorities@,
            extensions: self.extensions@.map_values(|name: String| name@),
            queue_index: self.queue_index,
        }
    }
}

/// The device extensions that the bootstrap enables: generic video queue,
/// video encode queue and H.264 encode, in this order.
pub open spec fn required_extensions() -> Seq<Seq<char>> {
    seq!["VK_KHR_video_queue"@, "VK_KHR_video_encode_queue"@, "VK_EXT_video_encode_h264"@]
}

/// The device request of the bootstrap for a chosen device and family:
/// one queue of that family at priority 1.0, the three required
/// extensions, and the family's first queue to fetch.
pub open spec fn planned_device(physical_device: usize, queue_family_index: u32)
    -> DeviceRequestView {
    DeviceRequestView {
        physical_device,
        queue_family_index,
        queue_priorities: seq![PRIORITY_ONE],
        extensions: required_extensions(),
        queue_index: 0,
    }
}

/// Builds the device request for a chosen device and family.
pub fn device_request(physical_device: usize, queue_family_index: u32) -> (request: DeviceRequest)
    ensures
        request@ == planned_device(physical_device, queue_family_index),
{
    let mut queue_priorities: Vec<u32> = Vec::new();
    queue_priorities.push(PRIORITY_ONE);
    let mut extensions: Vec<String> = Vec::new();
    extensions.push("VK_KHR_video_queue".to_owned());
    extensions.push("VK_KHR_video_encode_queue".to_owned());
    extensions.push("VK_EXT_video_encode_h264".to_owned());
    let request = DeviceRequest {
        physical_device,
        queue_family_index,
        queue_priorities,
        extensions,
        queue_index: 0,
    };
    assert(request@.queue_priorities =~= seq![PRIORITY_ONE]);
    assert(request@.extensions =~= required_extensions());
    request
}

/// Every device request of the bootstrap asks for exactly one queue, at
/// priority 1.0, from the family it was built for, and enables exactly
/// three extensions, no two of them the same.
pub proof fn law_device_request_shape(physical_device: usize, queue_family_index: u32)
    ensures
        planned_device(physical_device, queue_family_index).queue_family_index
            == queue_family_index,
        planned_device(physical_device, queue_family_index).queue_priorities.len() == 1,
        planned_device(physical_device, queue_family_index).queue_priorities[0] == PRIORITY_ONE,
        planned_device(physical_device, queue_family_index).extensions.len() == 3,
        planned_device(physical_device, queue_family_index).extensions.no_duplicates(),
{
    reveal_strlit("VK_KHR_video_queue");
    reveal_strlit("VK_KHR_video_encode_queue");
    reveal_strlit("VK_EXT_video_encode_h264");
    let names = required_extensions();
    assert(names[0].len() == 18);
    assert(names[1].len() == 25);
    assert(names[2].len() == 24);
}

} // verus!
