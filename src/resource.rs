use std::sync::Arc;

use vstd::prelude::*;

use crate::barrier::Extent3D;
use crate::device::Device;
use crate::memory::Memory;

verus! {

/// A buffer bound to its own memory allocation.
#[derive(Debug)]
pub struct Buffer {
    pub handle: u64,
    pub size: u64,
    pub memory: Arc<Memory>,
}

/// A two-dimensional image with one mip level and one array layer, its view, and the
/// memory it is bound to.
#[derive(Debug)]
pub struct Image {
    pub image_handle: u64,
    pub view_handle: u64,
    pub memory: Arc<Memory>,
    pub width: u32,
    pub height: u32,
}

/// The bytes a download of a `width` by `height` image takes at four bytes a texel.
pub open spec fn download_size_spec(width: u32, height: u32) -> int {
    width as int * height as int * 4
}

impl Buffer {
    pub fn new(handle: u64, size: u64, memory: Arc<Memory>) -> (r: Arc<Buffer>)
        ensures
            r.handle == handle,
            r.size == size,
            r.memory == memory,
    {
        Arc::new(Buffer { handle, size, memory })
    }
}

impl Image {
    pub fn new(
        image_handle: u64,
        view_handle: u64,
        memory: Arc<Memory>,
        width: u32,
        height: u32,
    ) -> (r: Arc<Image>)
        ensures
            r.image_handle == image_handle,
            r.view_handle == view_handle,
            r.memory == memory,
            r.width == width,
            r.height == height,
    {
        Arc::new(Image { image_handle, view_handle, memory, width, height })
    }

    /// The image's size, one texel deep.
    pub fn extent(&self) -> (r: Extent3D)
        ensures
            r == (Extent3D { width: self.width, height: self.height, depth: 1 }),
    {
        Extent3D { width: self.width, height: self.height, depth: 1 }
    }

    pub fn device(&self) -> (r: &Arc<Device>)
        ensures
            r == &self.memory.device,
    {
        &self.memory.device
    }

    /// The size of the staging buffer a download needs: four bytes per texel. This
    /// holds only for formats of four bytes a texel.
    pub fn download_size(&self) -> (r: u64)
        requires
            download_size_spec(self.width, self.height) <= u64::MAX,
        ensures
            r == download_size_spec(self.width, self.height),
    {
        self.width as u64 * self.height as u64 * 4
    }
}

} // verus!
