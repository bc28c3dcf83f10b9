use std::sync::Arc;

use vendec::barrier::{
    build_copy_region, build_image_barrier, BufferImageCopy, Extent3D, ImageMemoryBarrier,
    ImageSubresourceLayers, ImageSubresourceRange, ACCESS_NONE, ACCESS_SHADER_READ,
    ACCESS_TRANSFER_READ, ACCESS_TRANSFER_WRITE, IMAGE_ASPECT_COLOR, IMAGE_LAYOUT_GENERAL,
    IMAGE_LAYOUT_SHADER_READ_ONLY_OPTIMAL, IMAGE_LAYOUT_TRANSFER_DST_OPTIMAL,
    IMAGE_LAYOUT_TRANSFER_SRC_OPTIMAL, IMAGE_LAYOUT_UNDEFINED, PIPELINE_STAGE_COMPUTE_SHADER,
    PIPELINE_STAGE_NONE, PIPELINE_STAGE_TRANSFER, QUEUE_FAMILY_IGNORED,
};
use vendec::command_buffer::{Command, CommandBuffer, Resource};
use vendec::device::{Device, PhysicalDevice};
use vendec::extensions::SupportedDeviceExtensions;
use vendec::memory::{Memory, MemoryAllocateInfo, MemoryType, MEMORY_PROPERTY_DEVICE_LOCAL, MEMORY_PROPERTY_HOST_VISIBLE};
use vendec::queue::Queue;
use vendec::resource::{Buffer, Image};
use vendec::Error;

fn device() -> Arc<Device> {
    let physical = PhysicalDevice {
        handle: 1,
        queue_family_properties: Vec::new(),
        supported_extensions: SupportedDeviceExtensions::new(&Vec::new()),
        memory_types: vec![
            MemoryType { property_flags: MEMORY_PROPERTY_DEVICE_LOCAL, heap_index: 0 },
            MemoryType { property_flags: MEMORY_PROPERTY_HOST_VISIBLE, heap_index: 1 },
        ],
    };
    Device::from_raw(Arc::new(physical), 2)
}

fn memory(device: &Arc<Device>, index: u32, size: u64, handle: u64) -> Arc<Memory> {
    let flags = device.physical_device.memory_types[index as usize].property_flags;
    let info = MemoryAllocateInfo { allocation_size: size, memory_type_index: index, property_flags: flags };
    Memory::new(device.clone(), &info, handle)
}

fn image(device: &Arc<Device>, handle: u64, width: u32, height: u32) -> Arc<Image> {
    let mem = memory(device, 0, width as u64 * height as u64 * 4, handle + 1000);
    Image::new(handle, handle + 2000, mem, width, height)
}

fn buffer(device: &Arc<Device>, handle: u64, size: u64) -> Arc<Buffer> {
    Buffer::new(handle, size, memory(device, 1, size, handle + 1000))
}

fn queue(device: &Arc<Device>, family: u32) -> Arc<Queue> {
    Queue::from_raw(device.clone(), 40 + family as u64, family, 0, 50 + family as u64)
}

fn color_region(width: u32, height: u32) -> BufferImageCopy {
    BufferImageCopy {
        buffer_offset: 0,
        buffer_row_length: 0,
        buffer_image_height: 0,
        image_subresource: ImageSubresourceLayers {
            aspect_mask: IMAGE_ASPECT_COLOR,
            mip_level: 0,
            base_array_layer: 0,
            layer_count: 1,
        },
        image_offset_x: 0,
        image_offset_y: 0,
        image_offset_z: 0,
        image_extent: Extent3D { width, height, depth: 1 },
    }
}

fn barrier(image: u64, old: i32, new: i32, stages: (u64, u64), access: (u64, u64)) -> Command {
    Command::PipelineBarrier(ImageMemoryBarrier {
        src_stage_mask: stages.0,
        src_access_mask: access.0,
        dst_stage_mask: stages.1,
        dst_access_mask: access.1,
        old_layout: old,
        new_layout: new,
        src_queue_family_index: QUEUE_FAMILY_IGNORED,
        dst_queue_family_index: QUEUE_FAMILY_IGNORED,
        image,
        subresource_range: ImageSubresourceRange {
            aspect_mask: IMAGE_ASPECT_COLOR,
            base_mip_level: 0,
            level_count: 1,
            base_array_layer: 0,
            layer_count: 1,
        },
    })
}

fn retained_handles(cmd: &CommandBuffer) -> Vec<(char, u64)> {
    cmd.resources()
        .iter()
        .map(|r| match r {
            Resource::Buffer(b) => ('b', b.handle),
            Resource::Image(i) => ('i', i.image_handle),
            Resource::Memory(m) => ('m', m.handle),
        })
        .collect()
}

#[test]
fn barrier_without_transfer_ignores_queue_families() {
    let b = build_image_barrier(9, 1, 7, 0x800, 0x1000, 0x20, 0x1000, 1, None);
    assert_eq!(b.src_queue_family_index, QUEUE_FAMILY_IGNORED);
    assert_eq!(b.dst_queue_family_index, QUEUE_FAMILY_IGNORED);
    assert_eq!(b.old_layout, 1);
    assert_eq!(b.new_layout, 7);
    assert_eq!(b.src_stage_mask, 0x800);
    assert_eq!(b.dst_stage_mask, 0x1000);
    assert_eq!(b.src_access_mask, 0x20);
    assert_eq!(b.dst_access_mask, 0x1000);
    assert_eq!(b.image, 9);
    assert_eq!(
        b.subresource_range,
        ImageSubresourceRange { aspect_mask: 1, base_mip_level: 0, level_count: 1, base_array_layer: 0, layer_count: 1 }
    );
}

#[test]
fn copy_region_covers_the_whole_extent() {
    let extent = Extent3D { width: 1920, height: 1080, depth: 1 };
    assert_eq!(build_copy_region(IMAGE_ASPECT_COLOR, extent), color_region(1920, 1080));
}

#[test]
fn image_barrier_records_and_retains() {
    let device = device();
    let q = queue(&device, 0);
    let img = image(&device, 10, 4, 4);
    let mut cmd = CommandBuffer::new(q.clone(), 99);
    assert!(cmd.commands().is_empty());
    cmd.image_barrier(
        img.clone(),
        IMAGE_LAYOUT_UNDEFINED,
        IMAGE_LAYOUT_GENERAL,
        PIPELINE_STAGE_NONE,
        PIPELINE_STAGE_COMPUTE_SHADER,
        ACCESS_NONE,
        ACCESS_SHADER_READ,
        IMAGE_ASPECT_COLOR,
        None,
    );
    assert_eq!(
        cmd.commands(),
        &vec![barrier(
            10,
            IMAGE_LAYOUT_UNDEFINED,
            IMAGE_LAYOUT_GENERAL,
            (PIPELINE_STAGE_NONE, PIPELINE_STAGE_COMPUTE_SHADER),
            (ACCESS_NONE, ACCESS_SHADER_READ)
        )]
    );
    assert_eq!(retained_handles(&cmd), vec![('i', 10)]);
    assert_eq!(Arc::strong_count(&img), 2);
    assert_eq!(cmd.handle(), 99);
}

#[test]
fn image_barrier_with_ownership_transfer() {
    let device = device();
    let compute = queue(&device, 0);
    let encode = queue(&device, 3);
    let img = image(&device, 10, 4, 4);
    let mut cmd = CommandBuffer::new(compute.clone(), 99);
    cmd.image_barrier(
        img,
        IMAGE_LAYOUT_GENERAL,
        IMAGE_LAYOUT_GENERAL,
        PIPELINE_STAGE_COMPUTE_SHADER,
        PIPELINE_STAGE_NONE,
        ACCESS_SHADER_READ,
        ACCESS_NONE,
        IMAGE_ASPECT_COLOR,
        Some((&compute, &encode)),
    );
    match cmd.commands()[0] {
        Command::PipelineBarrier(b) => {
            assert_eq!(b.src_queue_family_index, 0);
            assert_eq!(b.dst_queue_family_index, 3);
        }
        _ => panic!("expected a barrier"),
    }
}

#[test]
fn update_records_transition_copy_transition() {
    let device = device();
    let q = queue(&device, 0);
    let img = image(&device, 10, 1920, 1080);
    let staging = buffer(&device, 20, 1920 * 1080 * 4);
    let mut cmd = CommandBuffer::new(q, 99);
    img.clone().cmd_update(
        &mut cmd,
        staging.clone(),
        IMAGE_LAYOUT_SHADER_READ_ONLY_OPTIMAL,
        PIPELINE_STAGE_COMPUTE_SHADER,
        ACCESS_SHADER_READ,
    );
    let expected = vec![
        barrier(
            10,
            IMAGE_LAYOUT_UNDEFINED,
            IMAGE_LAYOUT_TRANSFER_DST_OPTIMAL,
            (PIPELINE_STAGE_NONE, PIPELINE_STAGE_TRANSFER),
            (ACCESS_NONE, ACCESS_TRANSFER_WRITE),
        ),
        Command::CopyBufferToImage {
            buffer: 20,
            image: 10,
            image_layout: IMAGE_LAYOUT_TRANSFER_DST_OPTIMAL,
            region: color_region(1920, 1080),
        },
        barrier(
            10,
            IMAGE_LAYOUT_TRANSFER_DST_OPTIMAL,
            IMAGE_LAYOUT_SHADER_READ_ONLY_OPTIMAL,
            (PIPELINE_STAGE_TRANSFER, PIPELINE_STAGE_COMPUTE_SHADER),
            (ACCESS_TRANSFER_WRITE, ACCESS_SHADER_READ),
        ),
    ];
    assert_eq!(cmd.commands(), &expected);
    assert_eq!(retained_handles(&cmd), vec![('i', 10), ('i', 10), ('b', 20), ('i', 10)]);
}

#[test]
fn download_records_and_returns_staging() {
    let device = device();
    let q = queue(&device, 0);
    let img = image(&device, 10, 16, 8);
    assert_eq!(img.download_size(), 16 * 8 * 4);
    let staging = buffer(&device, 30, img.download_size());
    let mut cmd = CommandBuffer::new(q, 99);
    let out = img.clone().cmd_download(
        &mut cmd,
        staging.clone(),
        IMAGE_LAYOUT_SHADER_READ_ONLY_OPTIMAL,
        PIPELINE_STAGE_COMPUTE_SHADER,
        ACCESS_SHADER_READ,
    );
    assert!(Arc::ptr_eq(&out, &staging));
    let expected = vec![
        barrier(
            10,
            IMAGE_LAYOUT_SHADER_READ_ONLY_OPTIMAL,
            IMAGE_LAYOUT_TRANSFER_SRC_OPTIMAL,
            (PIPELINE_STAGE_COMPUTE_SHADER, PIPELINE_STAGE_TRANSFER),
            (ACCESS_SHADER_READ, ACCESS_TRANSFER_READ),
        ),
        Command::CopyImageToBuffer {
            image: 10,
            image_layout: IMAGE_LAYOUT_TRANSFER_SRC_OPTIMAL,
            buffer: 30,
            region: color_region(16, 8),
        },
        barrier(
            10,
            IMAGE_LAYOUT_TRANSFER_SRC_OPTIMAL,
            IMAGE_LAYOUT_SHADER_READ_ONLY_OPTIMAL,
            (PIPELINE_STAGE_TRANSFER, PIPELINE_STAGE_COMPUTE_SHADER),
            (ACCESS_TRANSFER_READ, ACCESS_SHADER_READ),
        ),
    ];
    assert_eq!(cmd.commands(), &expected);
    assert_eq!(retained_handles(&cmd), vec![('i', 10), ('i', 10), ('b', 30), ('i', 10)]);
}

#[test]
fn download_size_of_a_full_hd_image() {
    let device = device();
    let img = image(&device, 10, 1920, 1080);
    assert_eq!(img.download_size(), 8_294_400);
    assert_eq!(img.extent(), Extent3D { width: 1920, height: 1080, depth: 1 });
}

#[test]
fn copy_to_image_retains_image_then_buffer() {
    let device = device();
    let q = queue(&device, 0);
    let img = image(&device, 10, 2, 2);
    let buf = buffer(&device, 20, 16);
    let mut cmd = CommandBuffer::new(q, 99);
    buf.cmd_copy_to_image(&mut cmd, img, IMAGE_ASPECT_COLOR);
    assert_eq!(retained_handles(&cmd), vec![('i', 10), ('b', 20)]);
}

#[test]
fn resources_outlive_the_callers_handles_until_retired() {
    let device = device();
    let q = queue(&device, 0);
    let img = image(&device, 10, 64, 64);
    let staging = buffer(&device, 20, 64 * 64 * 4);
    let mut cmd = CommandBuffer::new(q, 99);
    img.clone().cmd_update(&mut cmd, staging.clone(), IMAGE_LAYOUT_GENERAL, PIPELINE_STAGE_COMPUTE_SHADER, ACCESS_SHADER_READ);
    let weak_image = Arc::downgrade(&img);
    let weak_staging = Arc::downgrade(&staging);
    drop(img);
    drop(staging);
    let mut fence = cmd.submit(123);
    assert_eq!(fence.handle(), 123);
    assert!(!fence.is_signaled());
    assert!(weak_image.upgrade().is_some());
    assert!(weak_staging.upgrade().is_some());
    assert_eq!(fence.wait(0), Ok(()));
    assert!(fence.is_signaled());
    let retired = fence.retire();
    assert_eq!(retired.commands().len(), 3);
    drop(retired);
    assert!(weak_image.upgrade().is_none());
    assert!(weak_staging.upgrade().is_none());
}

#[test]
fn failed_wait_passes_the_status_through() {
    let device = device();
    let q = queue(&device, 0);
    let mut fence = CommandBuffer::new(q, 99).submit(5);
    assert_eq!(fence.wait(-4), Err(Error::Other(-4)));
    assert!(!fence.is_signaled());
    assert_eq!(fence.command_buffer().handle(), 99);
}

#[test]
fn upload_then_download_round_trip_is_recorded_in_order() {
    let device = device();
    let q = queue(&device, 0);
    let img = image(&device, 10, 1920, 1080);
    let upload = buffer(&device, 20, 1920 * 1080 * 4);
    let mut cmd = CommandBuffer::new(q.clone(), 1);
    img.clone().cmd_update(&mut cmd, upload, IMAGE_LAYOUT_SHADER_READ_ONLY_OPTIMAL, PIPELINE_STAGE_COMPUTE_SHADER, ACCESS_SHADER_READ);
    let mut fence = cmd.submit(2);
    assert!(fence.wait(0).is_ok());
    drop(fence.retire());

    let download = buffer(&device, 30, img.download_size());
    let mut cmd = CommandBuffer::new(q, 3);
    let out = img.clone().cmd_download(&mut cmd, download, IMAGE_LAYOUT_SHADER_READ_ONLY_OPTIMAL, PIPELINE_STAGE_COMPUTE_SHADER, ACCESS_SHADER_READ);
    assert_eq!(out.size, 1920 * 1080 * 4);
    let mut fence = cmd.submit(4);
    assert!(fence.wait(0).is_ok());
    let retired = fence.retire();
    match retired.commands()[1] {
        Command::CopyImageToBuffer { image, buffer, region, .. } => {
            assert_eq!((image, buffer), (10, 30));
            assert_eq!(region.image_extent, Extent3D { width: 1920, height: 1080, depth: 1 });
        }
        _ => panic!("expected a copy"),
    }
    assert!(out.memory.read().is_ok());
}

#[test]
fn any_resource_kind_can_be_retained() {
    let device = device();
    let q = queue(&device, 0);
    let img = image(&device, 10, 2, 2);
    let mut cmd = CommandBuffer::new(q, 99);
    cmd.add_resource(img.memory.clone());
    cmd.add_resource(buffer(&device, 20, 8));
    cmd.add_resource(img);
    assert_eq!(retained_handles(&cmd), vec![('m', 1010), ('b', 20), ('i', 10)]);
    assert!(cmd.commands().is_empty());
}
