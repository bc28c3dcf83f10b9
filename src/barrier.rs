use vstd::prelude::*;

verus! {

/// A native image layout.
pub type ImageLayout = i32;

/// Native pipeline-stage bits (64-bit form).
pub type PipelineStageFlags = u64;

/// Native memory-access bits (64-bit form).
pub type AccessFlags = u64;

/// Native image-aspect bits.
pub type ImageAspectFlags = u32;

pub const IMAGE_LAYOUT_UNDEFINED: ImageLayout = 0;

pub const IMAGE_LAYOUT_GENERAL: ImageLayout = 1;

pub const IMAGE_LAYOUT_SHADER_READ_ONLY_OPTIMAL: ImageLayout = 5;

pub const IMAGE_LAYOUT_TRANSFER_SRC_OPTIMAL: ImageLayout = 6;

pub const IMAGE_LAYOUT_TRANSFER_DST_OPTIMAL: ImageLayout = 7;

pub const PIPELINE_STAGE_NONE: PipelineStageFlags = 0;

pub const PIPELINE_STAGE_COMPUTE_SHADER: PipelineStageFlags = 0x800;

pub const PIPELINE_STAGE_TRANSFER: PipelineStageFlags = 0x1000;

pub const ACCESS_NONE: AccessFlags = 0;

pub const ACCESS_SHADER_READ: AccessFlags = 0x20;

pub const ACCESS_TRANSFER_READ: AccessFlags = 0x800;

pub const ACCESS_TRANSFER_WRITE: AccessFlags = 0x1000;

pub const IMAGE_ASPECT_COLOR: ImageAspectFlags = 1;

/// The queue-family value that marks a barrier as making no ownership transfer.
pub const QUEUE_FAMILY_IGNORED: u32 = 0xffff_ffff;

/// The size of an image or of a copy, in texels.
#[derive(Debug, Clone, Copy, PartialEq, Eq)]
pub struct Extent3D {
    pub width: u32,
    pub height: u32,
    pub depth: u32,
}

/// The mip levels and array layers a barrier covers.
#[derive(Debug, Clone, Copy, PartialEq, Eq)]
pub struct ImageSubresourceRange {
    pub aspect_mask: ImageAspectFlags,
    pub base_mip_level: u32,
    pub level_count: u32,
    pub base_array_layer: u32,
    pub layer_count: u32,
}

/// The mip level and array layers one copy touches.
#[derive(Debug, Clone, Copy, PartialEq, Eq)]
pub struct ImageSubresourceLayers {
    pub aspect_mask: ImageAspectFlags,
    pub mip_level: u32,
    pub base_array_layer: u32,
    pub layer_count: u32,
}

/// A layout transition of one image, with the stages and accesses it orders and an
/// optional transfer of queue-family ownership.
#[derive(Debug, Clone, Copy, PartialEq, Eq)]
pub struct ImageMemoryBarrier {
    pub src_stage_mask: PipelineStageFlags,
    pub src_access_mask: AccessFlags,
    pub dst_stage_mask: PipelineStageFlags,
    pub dst_access_mask: AccessFlags,
    pub old_layout: ImageLayout,
    pub new_layout: ImageLayout,
    pub src_queue_family_index: u32,
    pub dst_queue_family_index: u32,
    /// The native image handle.
    pub image: u64,
    pub subresource_range: ImageSubresourceRange,
}

/// One buffer-image copy region.
#[derive(Debug, Clone, Copy, PartialEq, Eq)]
pub struct BufferImageCopy {
    pub buffer_offset: u64,
    pub buffer_row_length: u32,
    pub buffer_image_height: u32,
    pub image_subresource: ImageSubresourceLayers,
    pub image_offset_x: i32,
    pub image_offset_y: i32,
    pub image_offset_z: i32,
    pub image_extent: Extent3D,
}

/// Mip level 0 and array layer 0, one of each: the single subresource every barrier
/// of this library covers.
pub open spec fn single_subresource(aspect_mask: ImageAspectFlags) -> ImageSubresourceRange {
    ImageSubresourceRange {
        aspect_mask,
        base_mip_level: 0,
        level_count: 1,
        base_array_layer: 0,
        layer_count: 1,
    }
}

/// The barrier that `image_barrier` builds; without a transfer pair both queue-family
/// fields are ignored.
pub open spec fn image_barrier_spec(
    image: u64,
    old_layout: ImageLayout,
    new_layout: ImageLayout,
    src_stage_mask: PipelineStageFlags,
    dst_stage_mask: PipelineStageFlags,
    src_access_mask: AccessFlags,
    dst_access_mask: AccessFlags,
    aspect_mask: ImageAspectFlags,
    queue_families: Option<(u32, u32)>,
) -> ImageMemoryBarrier {
    ImageMemoryBarrier {
        src_stage_mask,
        src_access_mask,
        dst_stage_mask,
        dst_access_mask,
        old_layout,
        new_layout,
        src_queue_family_index: match queue_families {
            Some(pair) => pair.0,
            None => QUEUE_FAMILY_IGNORED,
        },
        dst_queue_family_index: match queue_families {
            Some(pair) => pair.1,
            None => QUEUE_FAMILY_IGNORED,
        },
        image,
        subresource_range: single_subresource(aspect_mask),
    }
}

/// A copy of the whole of mip level 0, array layer 0, from a tightly packed buffer
/// at offset 0.
pub open spec fn copy_region_spec(aspect_mask: ImageAspectFlags, extent: Extent3D) -> BufferImageCopy {
    BufferImageCopy {
        buffer_offset: 0,
        buffer_row_length: 0,
        buffer_image_height: 0,
        image_subresource: ImageSubresourceLayers {
            aspect_mask,
            mip_level: 0,
            base_array_layer: 0,
            layer_count: 1,
        },
        image_offset_x: 0,
        image_offset_y: 0,
        image_offset_z: 0,
        image_extent: extent,
    }
}

/// Builds the barrier for one layout transition of `image`.
pub fn build_image_barrier(
    image: u64,
    old_layout: ImageLayout,
    new_layout: ImageLayout,
    src_stage_mask: PipelineStageFlags,
    dst_stage_mask: PipelineStageFlags,
    src_access_mask: AccessFlags,
    dst_access_mask: AccessFlags,
    aspect_mask: ImageAspectFlags,
    queue_families: Option<(u32, u32)>,
) -> (r: ImageMemoryBarrier)
    ensures
        r == image_barrier_spec(
            image,
            old_layout,
            new_layout,
            src_stage_mask,
            dst_stage_mask,
            src_access_mask,
            dst_access_mask,
            aspect_mask,
            queue_families,
        ),
{
    let (src_queue, dst_queue) = match queue_families {
        Some(pair) => pair,
        None => (QUEUE_FAMILY_IGNORED, QUEUE_FAMILY_IGNORED),
    };
    ImageMemoryBarrier {
        src_stage_mask,
        src_access_mask,
        dst_stage_mask,
        dst_access_mask,
        old_layout,
        new_layout,
        src_queue_family_index: src_queue,
        dst_queue_family_index: dst_queue,
        image,
        subresource_range: ImageSubresourceRange {
            aspect_mask,
            base_mip_level: 0,
            level_count: 1,
            base_array_layer: 0,
            layer_count: 1,
        },
    }
}

/// Builds the region that copies a whole `extent` of mip level 0, array layer 0.
pub fn build_copy_region(aspect_mask: ImageAspectFlags, extent: Extent3D) -> (r: BufferImageCopy)
    ensures
        r == copy_region_spec(aspect_mask, extent),
{
    BufferImageCopy {
        buffer_offset: 0,
        buffer_row_length: 0,
        buffer_image_height: 0,
        image_subresource: ImageSubresourceLayers {
            aspect_mask,
            mip_level: 0,
            base_array_layer: 0,
            layer_count: 1,
        },
        image_offset_x: 0,
        image_offset_y: 0,
        image_offset_z: 0,
        image_extent: extent,
    }
}

} // verus!
