use std::sync::Arc;

use vstd::prelude::*;

use crate::device::Device;

verus! {

/// One queue of a device and the command pool its command buffers come from.
#[derive(Debug)]
pub struct Queue {
    pub handle: u64,
    pub family_index: u32,
    pub queue_index: u32,
    pub command_pool: u64,
    pub device: Arc<Device>,
}

impl Queue {
    pub fn from_raw(
        device: Arc<Device>,
        handle: u64,
        family_index: u32,
        queue_index: u32,
        command_pool: u64,
    ) -> (r: Arc<Queue>)
        ensures
            r.handle == handle,
            r.family_index == family_index,
            r.queue_index == queue_index,
            r.command_pool == command_pool,
            r.device == device,
    {
        Arc::new(Queue { handle, family_index, queue_index, command_pool, device })
    }

    pub fn device(&self) -> (r: &Arc<Device>)
        ensures
            r == &self.device,
    {
        &self.device
    }
}

} // verus!
