use ash::vk;
use vendec::barrier::{
    Extent3D, ACCESS_NONE, ACCESS_SHADER_READ, ACCESS_TRANSFER_READ, ACCESS_TRANSFER_WRITE,
    IMAGE_ASPECT_COLOR, IMAGE_LAYOUT_GENERAL, IMAGE_LAYOUT_SHADER_READ_ONLY_OPTIMAL,
    IMAGE_LAYOUT_TRANSFER_DST_OPTIMAL, IMAGE_LAYOUT_TRANSFER_SRC_OPTIMAL, IMAGE_LAYOUT_UNDEFINED,
    PIPELINE_STAGE_COMPUTE_SHADER, PIPELINE_STAGE_NONE, PIPELINE_STAGE_TRANSFER,
    QUEUE_FAMILY_IGNORED,
};
use vendec::device::{
    unique_family_indices, PhysicalDevice, QueueFamilyProperties, QUEUE_COMPUTE, QUEUE_GRAPHICS,
    QUEUE_TRANSFER, VIDEO_CODEC_OPERATION_ENCODE_H264,
};
use vendec::extensions::{Capabilities, Extension, SupportedDeviceExtensions};
use vendec::memory::{
    MAX_MEMORY_TYPES, MEMORY_PROPERTY_DEVICE_LOCAL, MEMORY_PROPERTY_HOST_COHERENT,
    MEMORY_PROPERTY_HOST_VISIBLE,
};

fn family(queue_flags: u32, queue_count: u32, video: u32) -> QueueFamilyProperties {
    QueueFamilyProperties {
        queue_flags,
        queue_count,
        timestamp_valid_bits: 64,
        min_image_transfer_granularity: Extent3D { width: 1, height: 1, depth: 1 },
        video_codec_operations: video,
    }
}

fn physical(families: Vec<QueueFamilyProperties>) -> PhysicalDevice {
    PhysicalDevice {
        handle: 1,
        queue_family_properties: families,
        supported_extensions: SupportedDeviceExtensions::new(&Vec::new()),
        memory_types: Vec::new(),
    }
}

#[test]
fn constants_match_the_native_api() {
    assert_eq!(IMAGE_LAYOUT_UNDEFINED, vk::ImageLayout::UNDEFINED.as_raw());
    assert_eq!(IMAGE_LAYOUT_GENERAL, vk::ImageLayout::GENERAL.as_raw());
    assert_eq!(IMAGE_LAYOUT_SHADER_READ_ONLY_OPTIMAL, vk::ImageLayout::SHADER_READ_ONLY_OPTIMAL.as_raw());
    assert_eq!(IMAGE_LAYOUT_TRANSFER_SRC_OPTIMAL, vk::ImageLayout::TRANSFER_SRC_OPTIMAL.as_raw());
    assert_eq!(IMAGE_LAYOUT_TRANSFER_DST_OPTIMAL, vk::ImageLayout::TRANSFER_DST_OPTIMAL.as_raw());
    assert_eq!(PIPELINE_STAGE_NONE, vk::PipelineStageFlags2::NONE.as_raw());
    assert_eq!(PIPELINE_STAGE_TRANSFER, vk::PipelineStageFlags2::TRANSFER.as_raw());
    assert_eq!(PIPELINE_STAGE_COMPUTE_SHADER, vk::PipelineStageFlags2::COMPUTE_SHADER.as_raw());
    assert_eq!(ACCESS_NONE, vk::AccessFlags2::empty().as_raw());
    assert_eq!(ACCESS_SHADER_READ, vk::AccessFlags2::SHADER_READ.as_raw());
    assert_eq!(ACCESS_TRANSFER_READ, vk::AccessFlags2::TRANSFER_READ.as_raw());
    assert_eq!(ACCESS_TRANSFER_WRITE, vk::AccessFlags2::TRANSFER_WRITE.as_raw());
    assert_eq!(IMAGE_ASPECT_COLOR, vk::ImageAspectFlags::COLOR.as_raw());
    assert_eq!(QUEUE_FAMILY_IGNORED, vk::QUEUE_FAMILY_IGNORED);
    assert_eq!(MEMORY_PROPERTY_DEVICE_LOCAL, vk::MemoryPropertyFlags::DEVICE_LOCAL.as_raw());
    assert_eq!(MEMORY_PROPERTY_HOST_VISIBLE, vk::MemoryPropertyFlags::HOST_VISIBLE.as_raw());
    assert_eq!(MEMORY_PROPERTY_HOST_COHERENT, vk::MemoryPropertyFlags::HOST_COHERENT.as_raw());
    assert_eq!(MAX_MEMORY_TYPES, vk::MAX_MEMORY_TYPES);
    assert_eq!(QUEUE_GRAPHICS, vk::QueueFlags::GRAPHICS.as_raw());
    assert_eq!(QUEUE_COMPUTE, vk::QueueFlags::COMPUTE.as_raw());
    assert_eq!(QUEUE_TRANSFER, vk::QueueFlags::TRANSFER.as_raw());
    assert_eq!(VIDEO_CODEC_OPERATION_ENCODE_H264, vk::VideoCodecOperationFlagsKHR::ENCODE_H264.as_raw());
}

#[test]
fn extension_names_match_the_native_api() {
    assert_eq!(Extension::VideoQueue.name().as_bytes(), ash::khr::video_queue::NAME.to_bytes());
    assert_eq!(Extension::VideoEncodeQueue.name().as_bytes(), ash::khr::video_encode_queue::NAME.to_bytes());
    assert_eq!(Extension::VideoEncodeH264.name().as_bytes(), ash::khr::video_encode_h264::NAME.to_bytes());
    assert_eq!(Extension::Synchronization2.name().as_bytes(), ash::khr::synchronization2::NAME.to_bytes());
}

#[test]
fn queue_family_lookup_takes_first_with_a_queue() {
    let pd = physical(vec![
        family(QUEUE_GRAPHICS | QUEUE_COMPUTE, 0, 0),
        family(QUEUE_TRANSFER, 2, 0),
        family(QUEUE_COMPUTE | QUEUE_TRANSFER, 1, 0),
        family(QUEUE_COMPUTE, 4, VIDEO_CODEC_OPERATION_ENCODE_H264),
    ]);
    assert_eq!(pd.find_queue_family_index(QUEUE_COMPUTE), Some(2));
    assert_eq!(pd.find_queue_family_index(QUEUE_TRANSFER), Some(1));
    assert_eq!(pd.find_queue_family_index(QUEUE_GRAPHICS), None);
    assert_eq!(pd.find_video_queue_family_index(VIDEO_CODEC_OPERATION_ENCODE_H264), Some(3));
    assert_eq!(physical(Vec::new()).find_video_queue_family_index(VIDEO_CODEC_OPERATION_ENCODE_H264), None);
}

#[test]
fn selected_families_are_listed_once() {
    assert_eq!(unique_family_indices(Some(0), Some(2)), vec![0, 2]);
    assert_eq!(unique_family_indices(Some(1), Some(1)), vec![1]);
    assert_eq!(unique_family_indices(None, Some(3)), vec![3]);
    assert_eq!(unique_family_indices(Some(4), None), vec![4]);
    assert_eq!(unique_family_indices(None, None), Vec::<u32>::new());
}

#[test]
fn supported_extensions_from_reported_names() {
    let names = vec![
        "VK_KHR_swapchain".to_string(),
        "VK_KHR_video_encode_h264".to_string(),
        "VK_KHR_video_queue".to_string(),
    ];
    let supported = SupportedDeviceExtensions::new(&names);
    assert!(supported.video_queue);
    assert!(!supported.video_encode_queue);
    assert!(supported.video_encode_h264);
    assert_eq!(supported.names(), vec![Extension::VideoQueue, Extension::VideoEncodeH264]);
    assert_eq!(SupportedDeviceExtensions::new(&Vec::new()).names(), Vec::<Extension>::new());
}

#[test]
fn capabilities_list_extensions() {
    let plain = Capabilities { h264_encode: false };
    let h264 = Capabilities { h264_encode: true };
    assert_eq!(plain.instance_extensions(), vec![Extension::VideoQueue]);
    assert_eq!(h264.instance_extensions(), vec![Extension::VideoQueue, Extension::VideoEncodeQueue]);
    assert_eq!(plain.device_extensions(), vec![Extension::Synchronization2]);
    assert_eq!(
        h264.device_extensions(),
        vec![Extension::Synchronization2, Extension::VideoEncodeQueue, Extension::VideoEncodeH264]
    );
}
