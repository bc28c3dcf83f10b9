use std::sync::Arc;

use vstd::prelude::*;

use crate::barrier::Extent3D;
use crate::error::Result;
use crate::extensions::SupportedDeviceExtensions;
use crate::memory::{
    allocate_info, allocation_prefer_device_local, allocation_search, contains_flags,
    find_memory_type, find_memory_type_prefer_device_local, MemoryAllocateInfo,
    MemoryPropertyFlags, MemoryRequirements, MemoryType,
};

verus! {

/// Native queue capability bits.
pub type QueueFlags = u32;

/// Native video codec operation bits.
pub type VideoCodecOperationFlags = u32;

pub const QUEUE_GRAPHICS: QueueFlags = 1;

pub const QUEUE_COMPUTE: QueueFlags = 2;

pub const QUEUE_TRANSFER: QueueFlags = 4;

pub const VIDEO_CODEC_OPERATION_ENCODE_H264: VideoCodecOperationFlags = 0x10000;

/// What a physical device reports of one queue family.
#[derive(Debug, Clone, Copy, PartialEq, Eq)]
pub struct QueueFamilyProperties {
    pub queue_flags: QueueFlags,
    pub queue_count: u32,
    pub timestamp_valid_bits: u32,
    pub min_image_transfer_granularity: Extent3D,
    pub video_codec_operations: VideoCodecOperationFlags,
}

/// Family `index` has at least one queue and every bit of `flags`.
pub open spec fn family_supports(families: Seq<QueueFamilyProperties>, flags: u32, index: int) -> bool {
    0 <= index < families.len() && contains_flags(families[index].queue_flags, flags)
        && families[index].queue_count > 0
}

/// Family `index` has at least one queue and every codec operation of `ops`.
pub open spec fn family_supports_video(
    families: Seq<QueueFamilyProperties>,
    ops: u32,
    index: int,
) -> bool {
    0 <= index < families.len() && contains_flags(families[index].video_codec_operations, ops)
        && families[index].queue_count > 0
}

/// `r` is the lowest family that has a queue and every bit of `flags`, or `None`
/// exactly when no family does.
pub open spec fn lowest_family(families: Seq<QueueFamilyProperties>, flags: u32, r: Option<u32>) -> bool {
    match r {
        Some(i) => family_supports(families, flags, i as int) && forall|j: int|
            0 <= j < i ==> !#[trigger] family_supports(families, flags, j),
        None => forall|j: int| 0 <= j < families.len() ==> !#[trigger] family_supports(families, flags, j),
    }
}

/// `r` is the lowest family that has a queue and every codec operation of `ops`, or
/// `None` exactly when no family does.
pub open spec fn lowest_video_family(
    families: Seq<QueueFamilyProperties>,
    ops: u32,
    r: Option<u32>,
) -> bool {
    match r {
        Some(i) => family_supports_video(families, ops, i as int) && forall|j: int|
            0 <= j < i ==> !#[trigger] family_supports_video(families, ops, j),
        None => forall|j: int|
            0 <= j < families.len() ==> !#[trigger] family_supports_video(families, ops, j),
    }
}

/// A physical device as the library uses it: its handle, its queue families, the
/// device extensions it supports and its memory-type table.
#[derive(Debug)]
pub struct PhysicalDevice {
    pub handle: u64,
    pub queue_family_properties: Vec<QueueFamilyProperties>,
    pub supported_extensions: SupportedDeviceExtensions,
    pub memory_types: Vec<MemoryType>,
}

fn flags_contain(flags: u32, required: u32) -> (r: bool)
    ensures
        r == contains_flags(flags, required),
{
    flags & required == required
}

impl PhysicalDevice {
    /// Queue-family indices are 32-bit in the native API.
    pub open spec fn wf(&self) -> bool {
        self.queue_family_properties.len() <= u32::MAX
    }

    /// The first queue family that has a queue and every bit of `queue_flags`.
    pub fn find_queue_family_index(&self, queue_flags: QueueFlags) -> (r: Option<u32>)
        requires
            self.wf(),
        ensures
            lowest_family(self.queue_family_properties@, queue_flags, r),
    {
        let mut index: usize = 0;
        while index < self.queue_family_properties.len()
            invariant
                index <= self.queue_family_properties.len(),
                self.queue_family_properties.len() <= u32::MAX,
                forall|j: int| 0 <= j < index ==> !family_supports(self.queue_family_properties@, queue_flags, j),
            decreases self.queue_family_properties.len() - index,
        {
            if flags_contain(self.queue_family_properties[index].queue_flags, queue_flags) && self.queue_family_properties[index].queue_count
                > 0 {
                return Some(index as u32);
            }
            index += 1;
        }
        None
    }

    /// The first queue family that has a queue and every codec operation of `video_ops`.
    pub fn find_video_queue_family_index(&self, video_ops: VideoCodecOperationFlags) -> (r: Option<
        u32,
    >)
        requires
            self.wf(),
        ensures
            lowest_video_family(self.queue_family_properties@, video_ops, r),
    {
        let mut index: usize = 0;
        while index < self.queue_family_properties.len()
            invariant
                index <= self.queue_family_properties.len(),
                self.queue_family_properties.len() <= u32::MAX,
                forall|j: int|
                    0 <= j < index ==> !family_supports_video(self.queue_family_properties@, video_ops, j),
            decreases self.queue_family_properties.len() - index,
        {
            if flags_contain(self.queue_family_properties[index].video_codec_operations, video_ops)
                && self.queue_family_properties[index].queue_count > 0 {
                return Some(index as u32);
            }
            index += 1;
        }
        None
    }
}

/// The queue families to create queues on: each selected family once, compute first.
pub open spec fn unique_families_spec(compute: Option<u32>, encode: Option<u32>) -> Seq<u32> {
    match (compute, encode) {
        (Some(c), Some(e)) => if c == e {
            seq![c]
        } else {
            seq![c, e]
        },
        (Some(c), None) => seq![c],
        (None, Some(e)) => seq![e],
        (None, None) => seq![],
    }
}

/// Lists the selected queue families once each, so that no family is asked for twice.
pub fn unique_family_indices(compute: Option<u32>, encode: Option<u32>) -> (r: Vec<u32>)
    ensures
        r@ == unique_families_spec(compute, encode),
{
    let mut indices: Vec<u32> = Vec::new();
    if let Some(c) = compute {
        indices.push(c);
    }
    match encode {
        Some(e) => {
            let repeated = match compute {
                Some(c) => c == e,
                None => false,
            };
            if !repeated {
                indices.push(e);
            }
        },
        None => {},
    }
    proof {
        assert(indices@ =~= unique_families_spec(compute, encode));
    }
    indices
}

/// A logical device and the physical device it was made from; the allocation
/// authority that chooses memory types.
#[derive(Debug)]
pub struct Device {
    pub handle: u64,
    pub physical_device: Arc<PhysicalDevice>,
}

impl Device {
    pub fn from_raw(physical_device: Arc<PhysicalDevice>, handle: u64) -> (r: Arc<Device>)
        ensures
            r.handle == handle,
            r.physical_device == physical_device,
    {
        Arc::new(Device { handle, physical_device })
    }

    /// The memory-type table this device allocates from.
    pub open spec fn memory_types_spec(&self) -> Seq<MemoryType> {
        self.physical_device.memory_types@
    }

    /// The allocation for `requirements` at the lowest memory type that they allow and
    /// whose flags contain `required_properties`.
    pub fn allocate_memory(
        &self,
        required_properties: MemoryPropertyFlags,
        requirements: &MemoryRequirements,
    ) -> (r: Result<MemoryAllocateInfo>)
        ensures
            allocation_search(self.memory_types_spec(), *requirements, required_properties, r),
    {
        let types = &self.physical_device.memory_types;
        let found = find_memory_type(types, requirements, required_properties);
        allocate_info(types, requirements, found)
    }

    /// The allocation for `requirements` under the device-local-preferred policy.
    pub fn allocate_memory_prefer_device_local(
        &self,
        requirements: &MemoryRequirements,
    ) -> (r: Result<MemoryAllocateInfo>)
        ensures
            allocation_prefer_device_local(self.memory_types_spec(), *requirements, r),
    {
        let types = &self.physical_device.memory_types;
        let found = find_memory_type_prefer_device_local(types, requirements);
        allocate_info(types, requirements, found)
    }
}

} // verus!
