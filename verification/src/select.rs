//! Choice of the physical device and of its encode queue family.
//!
//! Both choices take the first candidate in enumeration order that
//! qualifies. Nothing is scored and nothing else is fallen back on.

use crate::driver::{
    discrete_gpu_type, flags_contain, spec_discrete_gpu_type, spec_flags_contain,
    spec_video_encode_queue_bit, video_encode_queue_bit,
};
use crate::error::{BootstrapError, BootstrapErrorView};
use crate::search::{
    first_true, lemma_first_true_absent, lemma_first_true_found, lemma_first_true_meaning,
};
use vstd::prelude::*;

verus! {

/// A queue family as the driver reports it.
#[derive(Debug, Clone, Copy, PartialEq, Eq, Structural)]
pub struct QueueFamily {
    /// Capability bits of the family.
    pub flags: u32,
    /// Number of queues in the family.
    pub queue_count: u32,
}

impl QueueFamily {
    /// Whether the family's capability bits include "video encode".
    pub open spec fn spec_encodes_video(self) -> bool {
        spec_flags_contain(self.flags, spec_video_encode_queue_bit())
    }

    /// Whether the family's capability bits include "video encode".
    pub fn encodes_video(&self) -> (held: bool)
        ensures
            held == self.spec_encodes_video(),
    {
        flags_contain(self.flags, video_encode_queue_bit())
    }
}

/// Whether a raw device type is "discrete GPU".
pub open spec fn spec_is_discrete(device_type: i32) -> bool {
    device_type == spec_discrete_gpu_type()
}

/// Whether a raw device type is "discrete GPU".
pub fn is_discrete(device_type: i32) -> (held: bool)
    ensures
        held == spec_is_discrete(device_type),
{
    device_type == discrete_gpu_type()
}

/// For each enumerated device, whether it is a discrete GPU.
pub open spec fn discrete_marks(device_types: Seq<i32>) -> Seq<bool> {
    Seq::new(device_types.len(), |i: int| spec_is_discrete(device_types[i]))
}

/// For each queue family, whether it encodes video.
pub open spec fn encode_marks(families: Seq<QueueFamily>) -> Seq<bool> {
    Seq::new(families.len(), |i: int| families[i].spec_encodes_video())
}

/// The position of the device to use: the first discrete GPU.
pub open spec fn chosen_device(device_types: Seq<i32>) -> Option<int> {
    first_true(discrete_marks(device_types))
}

/// The index of the queue family to use: the first one that encodes video,
/// provided that its position can be written as a family index.
pub open spec fn chosen_family(families: Seq<QueueFamily>) -> Option<u32> {
    match first_true(encode_marks(families)) {
        Some(at) => if at <= u32::MAX {
            Some(at as u32)
        } else {
            None
        },
        None => None,
    }
}

/// Chooses the physical device from the device types in enumeration order.
///
/// The answer is the position of the first discrete GPU. Devices of any
/// other type are passed over, wherever they stand. Without a discrete GPU
/// the choice fails with `NoSuitableDevice`.
pub fn select_physical_device(device_types: &Vec<i32>) -> (choice: Result<usize, BootstrapError>)
    ensures
        match choice {
            Ok(at) => {
                &&& chosen_device(device_types@) == Some(at as int)
                &&& at < device_types@.len()
                &&& spec_is_discrete(device_types@[at as int])
                &&& forall|j: int| 0 <= j < at ==> !spec_is_discrete(device_types@[j])
            },
            Err(error) => {
                &&& chosen_device(device_types@) is None
                &&& error@ == BootstrapErrorView::NoSuitableDevice
                &&& forall|j: int|
                    0 <= j < device_types@.len() ==> !spec_is_discrete(device_types@[j])
            },
        },
{
    let mut at: usize = 0;
    while at < device_types.len()
        invariant
            at <= device_types@.len(),
            forall|j: int| 0 <= j < at ==> !spec_is_discrete(device_types@[j]),
        decreases device_types@.len() - at,
    {
        if is_discrete(device_types[at]) {
            proof {
                law_first_discrete_device_wins(device_types@, at as int);
            }
            return Ok(at);
        }
        at += 1;
    }
    proof {
        law_first_discrete_device_wins(device_types@, 0);
    }
    Err(BootstrapError::NoSuitableDevice)
}

/// Chooses the encode queue family from a device's families in
/// enumeration order.
///
/// The answer is the index of the first family whose capability bits
/// include "video encode". Without such a family, or where its position is
/// beyond what a family index can hold, the choice fails with
/// `NoEncodeQueue`.
pub fn select_encode_queue_family(families: &Vec<QueueFamily>) -> (choice: Result<
    u32,
    BootstrapError,
>)
    ensures
        match choice {
            Ok(index) => {
                &&& chosen_family(families@) == Some(index)
                &&& index < families@.len()
                &&& families@[index as int].spec_encodes_video()
                &&& forall|j: int| 0 <= j < index ==> !families@[j].spec_encodes_video()
            },
            Err(error) => {
                &&& chosen_family(families@) is None
                &&& error@ == BootstrapErrorView::NoEncodeQueue
            },
        },
        families@.len() <= u32::MAX ==> (choice is Err <==> forall|j: int|
            0 <= j < families@.len() ==> !families@[j].spec_encodes_video()),
{
    let mut at: usize = 0;
    while at < families.len()
        invariant
            at <= families@.len(),
            forall|j: int| 0 <= j < at ==> !families@[j].spec_encodes_video(),
        decreases families@.len() - at,
    {
        if families[at].encodes_video() {
            proof {
                lemma_first_encode_family(families@, at as int);
            }
            if at > u32::MAX as usize {
                return Err(BootstrapError::NoEncodeQueue);
            }
            return Ok(at as u32);
        }
        at += 1;
    }
    proof {
        lemma_no_encode_family(families@);
    }
    Err(BootstrapError::NoEncodeQueue)
}

/// Each mark of `discrete_marks` says of its own device whether it is a
/// discrete GPU.
proof fn lemma_discrete_marks(device_types: Seq<i32>)
    ensures
        discrete_marks(device_types).len() == device_types.len(),
        forall|j: int|
            0 <= j < device_types.len() ==> #[trigger] discrete_marks(device_types)[j]
                == spec_is_discrete(device_types[j]),
        forall|j: int|
            0 <= j < device_types.len() ==> discrete_marks(device_types)[j]
                == #[trigger] spec_is_discrete(device_types[j]),
{
}

/// Each mark of `encode_marks` says of its own family whether it encodes
/// video.
proof fn lemma_encode_marks(families: Seq<QueueFamily>)
    ensures
        encode_marks(families).len() == families.len(),
        forall|j: int|
            0 <= j < families.len() ==> #[trigger] encode_marks(families)[j]
                == families[j].spec_encodes_video(),
        forall|j: int|
            0 <= j < families.len() ==> encode_marks(families)[j]
                == #[trigger] families[j].spec_encodes_video(),
{
}

/// The device choice is the first discrete GPU and nothing else: a
/// position is chosen exactly when it holds a discrete GPU and no position
/// before it does, and no position is chosen exactly when no device is a
/// discrete GPU.
pub proof fn law_first_discrete_device_wins(device_types: Seq<i32>, at: int)
    ensures
        chosen_device(device_types) == Some(at) <==> {
            &&& 0 <= at < device_types.len()
            &&& spec_is_discrete(device_types[at])
            &&& forall|j: int| 0 <= j < at ==> !spec_is_discrete(device_types[j])
        },
        chosen_device(device_types) is None <==> forall|j: int|
            0 <= j < device_types.len() ==> !spec_is_discrete(device_types[j]),
{
    let marks = discrete_marks(device_types);
    lemma_discrete_marks(device_types);
    lemma_first_true_meaning(marks);
    if 0 <= at < marks.len() && marks[at] && forall|j: int| 0 <= j < at ==> !marks[j] {
        lemma_first_true_found(marks, at);
    }
    if forall|j: int| 0 <= j < marks.len() ==> !marks[j] {
        lemma_first_true_absent(marks);
    }
}

/// A family that encodes video, with none before it that does, is the
/// first marked position among the families.
proof fn lemma_first_encode_family(families: Seq<QueueFamily>, at: int)
    requires
        0 <= at < families.len(),
        families[at].spec_encodes_video(),
        forall|j: int| 0 <= j < at ==> !families[j].spec_encodes_video(),
    ensures
        first_true(encode_marks(families)) == Some(at),
{
    let marks = encode_marks(families);
    lemma_encode_marks(families);
    lemma_first_true_found(marks, at);
}

/// Where no family encodes video, no position among the families is
/// marked.
proof fn lemma_no_encode_family(families: Seq<QueueFamily>)
    requires
        forall|j: int| 0 <= j < families.len() ==> !families[j].spec_encodes_video(),
    ensures
        first_true(encode_marks(families)) is None,
{
    let marks = encode_marks(families);
    lemma_encode_marks(families);
    lemma_first_true_absent(marks);
}

/// The family choice is the first family that encodes video: an index is
/// chosen exactly when its family encodes video and no family before it
/// does. Where no family encodes video, nothing is chosen; and as long as
/// every position can be written as a family index, nothing is chosen only
/// then.
pub proof fn law_first_encode_family_wins(families: Seq<QueueFamily>, index: u32)
    ensures
        chosen_family(families) == Some(index) <==> {
            &&& index < families.len()
            &&& families[index as int].spec_encodes_video()
            &&& forall|j: int| 0 <= j < index ==> !families[j].spec_encodes_video()
        },
        (forall|j: int| 0 <= j < families.len() ==> !families[j].spec_encodes_video())
            ==> chosen_family(families) is None,
        families.len() <= u32::MAX && chosen_family(families) is None ==> forall|j: int|
            0 <= j < families.len() ==> !families[j].spec_encodes_video(),
{
    let marks = encode_marks(families);
    lemma_encode_marks(families);
    lemma_first_true_meaning(marks);
    if index < families.len() && families[index as int].spec_encodes_video() && forall|j: int|
        0 <= j < index ==> !families[j].spec_encodes_video() {
        lemma_first_encode_family(families, index as int);
    }
    if forall|j: int| 0 <= j < families.len() ==> !families[j].spec_encodes_video() {
        lemma_no_encode_family(families);
    }
}

} // verus!
