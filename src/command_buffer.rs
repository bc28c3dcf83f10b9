use std::sync::Arc;

use vstd::prelude::*;

use crate::barrier::{
    build_copy_region, build_image_barrier, copy_region_spec, image_barrier_spec, AccessFlags,
    BufferImageCopy, Extent3D, ImageAspectFlags, ImageLayout, ImageMemoryBarrier, PipelineStageFlags,
    ACCESS_NONE, ACCESS_TRANSFER_READ, ACCESS_TRANSFER_WRITE, IMAGE_ASPECT_COLOR,
    IMAGE_LAYOUT_TRANSFER_DST_OPTIMAL, IMAGE_LAYOUT_TRANSFER_SRC_OPTIMAL, IMAGE_LAYOUT_UNDEFINED,
    PIPELINE_STAGE_NONE, PIPELINE_STAGE_TRANSFER,
};
use crate::error::{Error, Result};
use crate::memory::Memory;
use crate::queue::Queue;
use crate::resource::{download_size_spec, Buffer, Image};

verus! {

/// A resource that a command buffer keeps alive until its fence has signalled.
#[derive(Debug)]
pub enum Resource {
    Buffer(Arc<Buffer>),
    Image(Arc<Image>),
    Memory(Arc<Memory>),
}

/// Resources that a command buffer can retain: anything whose only duty is to stay
/// alive until the command buffer is retired.
pub trait CommandBufferResource: Sized {
    /// The retention-list entry that keeps `this` alive.
    spec fn retained_spec(this: Arc<Self>) -> Resource;

    fn retained(this: Arc<Self>) -> (r: Resource)
        ensures
            r == Self::retained_spec(this),
    ;
}

impl CommandBufferResource for Buffer {
    open spec fn retained_spec(this: Arc<Self>) -> Resource {
        Resource::Buffer(this)
    }

    fn retained(this: Arc<Self>) -> (r: Resource) {
        Resource::Buffer(this)
    }
}

impl CommandBufferResource for Image {
    open spec fn retained_spec(this: Arc<Self>) -> Resource {
        Resource::Image(this)
    }

    fn retained(this: Arc<Self>) -> (r: Resource) {
        Resource::Image(this)
    }
}

impl CommandBufferResource for Memory {
    open spec fn retained_spec(this: Arc<Self>) -> Resource {
        Resource::Memory(this)
    }

    fn retained(this: Arc<Self>) -> (r: Resource) {
        Resource::Memory(this)
    }
}

/// One command recorded into a command buffer, in the order the device runs them.
#[derive(Debug, Clone, Copy, PartialEq, Eq)]
pub enum Command {
    PipelineBarrier(ImageMemoryBarrier),
    CopyBufferToImage {
        buffer: u64,
        image: u64,
        image_layout: ImageLayout,
        region: BufferImageCopy,
    },
    CopyImageToBuffer {
        image: u64,
        image_layout: ImageLayout,
        buffer: u64,
        region: BufferImageCopy,
    },
}

/// The image handle a retention entry keeps alive, if it is an image.
pub open spec fn retained_image(r: Resource) -> Option<u64> {
    match r {
        Resource::Image(image) => Some(image.image_handle),
        _ => None,
    }
}

/// The buffer handle a retention entry keeps alive, if it is a buffer.
pub open spec fn retained_buffer(r: Resource) -> Option<u64> {
    match r {
        Resource::Buffer(buffer) => Some(buffer.handle),
        _ => None,
    }
}

/// Some entry of `resources` keeps the image `handle` alive.
pub open spec fn retains_image(resources: Seq<Resource>, handle: u64) -> bool {
    exists|j: int| 0 <= j < resources.len() && #[trigger] retained_image(resources[j]) == Some(handle)
}

/// Some entry of `resources` keeps the buffer `handle` alive.
pub open spec fn retains_buffer(resources: Seq<Resource>, handle: u64) -> bool {
    exists|j: int|
        0 <= j < resources.len() && #[trigger] retained_buffer(resources[j]) == Some(handle)
}

/// Every resource that `command` reads or writes is kept alive by `resources`.
pub open spec fn command_retained(command: Command, resources: Seq<Resource>) -> bool {
    match command {
        Command::PipelineBarrier(barrier) => retains_image(resources, barrier.image),
        Command::CopyBufferToImage { buffer, image, .. } => retains_buffer(resources, buffer)
            && retains_image(resources, image),
        Command::CopyImageToBuffer { image, buffer, .. } => retains_image(resources, image)
            && retains_buffer(resources, buffer),
    }
}

/// Every resource that any of `commands` references is kept alive by `resources`.
pub open spec fn references_retained(commands: Seq<Command>, resources: Seq<Resource>) -> bool {
    forall|i: int| 0 <= i < commands.len() ==> command_retained(#[trigger] commands[i], resources)
}

proof fn lemma_retained_after_push(commands: Seq<Command>, resources: Seq<Resource>, extra: Resource)
    requires
        references_retained(commands, resources),
    ensures
        references_retained(commands, resources.push(extra)),
        forall|h: u64| retains_image(resources, h) ==> retains_image(resources.push(extra), h),
        forall|h: u64| retains_buffer(resources, h) ==> retains_buffer(resources.push(extra), h),
{
    let pushed = resources.push(extra);
    assert forall|h: u64| retains_image(resources, h) implies retains_image(pushed, h) by {
        let j = choose|j: int| 0 <= j < resources.len() && #[trigger] retained_image(resources[j]) == Some(h);
        assert(pushed[j] == resources[j]);
    }
    assert forall|h: u64| retains_buffer(resources, h) implies retains_buffer(pushed, h) by {
        let j = choose|j: int|
            0 <= j < resources.len() && #[trigger] retained_buffer(resources[j]) == Some(h);
        assert(pushed[j] == resources[j]);
    }
    assert forall|i: int| 0 <= i < commands.len() implies command_retained(#[trigger] commands[i], pushed) by {
        match commands[i] {
            Command::PipelineBarrier(barrier) => {
                assert(retains_image(resources, barrier.image));
            },
            Command::CopyBufferToImage { buffer, image, .. } => {
                assert(retains_image(resources, image));
                assert(retains_buffer(resources, buffer));
            },
            Command::CopyImageToBuffer { image, buffer, .. } => {
                assert(retains_image(resources, image));
                assert(retains_buffer(resources, buffer));
            },
        }
    }
}

/// A single-use command buffer in the recording state: the commands recorded so far
/// and every resource they reference, kept alive until the buffer is retired.
#[derive(Debug)]
pub struct CommandBuffer {
    handle: u64,
    queue: Arc<Queue>,
    commands: Vec<Command>,
    resources: Vec<Resource>,
}

impl CommandBuffer {
    pub closed spec fn handle_spec(&self) -> u64 {
        self.handle
    }

    pub closed spec fn queue_spec(&self) -> Arc<Queue> {
        self.queue
    }

    /// The commands recorded so far, oldest first.
    pub closed spec fn commands_spec(&self) -> Seq<Command> {
        self.commands@
    }

    /// The retention list, oldest first.
    pub closed spec fn resources_spec(&self) -> Seq<Resource> {
        self.resources@
    }

    /// Every command's resources are retained.
    pub open spec fn wf(&self) -> bool {
        references_retained(self.commands_spec(), self.resources_spec())
    }

    /// A freshly allocated native command buffer of `queue`'s pool, recording begun.
    pub fn new(queue: Arc<Queue>, handle: u64) -> (r: CommandBuffer)
        ensures
            r.wf(),
            r.handle_spec() == handle,
            r.queue_spec() == queue,
            r.commands_spec() == Seq::<Command>::empty(),
            r.resources_spec() == Seq::<Resource>::empty(),
    {
        CommandBuffer { handle, queue, commands: Vec::new(), resources: Vec::new() }
    }

    pub fn handle(&self) -> (r: u64)
        ensures
            r == self.handle_spec(),
    {
        self.handle
    }

    pub fn queue(&self) -> (r: &Arc<Queue>)
        ensures
            *r == self.queue_spec(),
    {
        &self.queue
    }

    pub fn commands(&self) -> (r: &Vec<Command>)
        ensures
            r@ == self.commands_spec(),
    {
        &self.commands
    }

    pub fn resources(&self) -> (r: &Vec<Resource>)
        ensures
            r@ == self.resources_spec(),
    {
        &self.resources
    }

    /// Keeps `resource` alive for as long as this command buffer.
    pub fn add_resource<R: CommandBufferResource>(&mut self, resource: Arc<R>)
        requires
            old(self).wf(),
        ensures
            final(self).wf(),
            final(self).handle_spec() == old(self).handle_spec(),
            final(self).queue_spec() == old(self).queue_spec(),
            final(self).commands_spec() == old(self).commands_spec(),
            final(self).resources_spec() == old(self).resources_spec().push(
                R::retained_spec(resource),
            ),
    {
        let entry = R::retained(resource);
        proof {
            lemma_retained_after_push(self.commands@, self.resources@, entry);
        }
        self.resources.push(entry);
    }

    /// Records a layout transition of `image` (mip level 0, array layer 0) and retains
    /// the image. With `queue_transfer` the barrier hands ownership from the first
    /// queue's family to the second's; without it both family fields are ignored.
    pub fn image_barrier(
        &mut self,
        image: Arc<Image>,
        src: ImageLayout,
        dst: ImageLayout,
        src_stage_mask: PipelineStageFlags,
        dst_stage_mask: PipelineStageFlags,
        src_access_mask: AccessFlags,
        dst_access_mask: AccessFlags,
        aspect_mask: ImageAspectFlags,
        queue_transfer: Option<(&Queue, &Queue)>,
    )
        requires
            old(self).wf(),
        ensures
            final(self).wf(),
            final(self).handle_spec() == old(self).handle_spec(),
            final(self).queue_spec() == old(self).queue_spec(),
            final(self).commands_spec() == old(self).commands_spec().push(
                Command::PipelineBarrier(
                    image_barrier_spec(
                        image.image_handle,
                        src,
                        dst,
                        src_stage_mask,
                        dst_stage_mask,
                        src_access_mask,
                        dst_access_mask,
                        aspect_mask,
                        match queue_transfer {
                            Some(pair) => Some((pair.0.family_index, pair.1.family_index)),
                            None => None,
                        },
                    ),
                ),
            ),
            final(self).resources_spec() == old(self).resources_spec().push(Resource::Image(image)),
    {
        let families = match queue_transfer {
            Some(pair) => Some((pair.0.family_index, pair.1.family_index)),
            None => None,
        };
        let barrier = build_image_barrier(
            image.image_handle,
            src,
            dst,
            src_stage_mask,
            dst_stage_mask,
            src_access_mask,
            dst_access_mask,
            aspect_mask,
            families,
        );
        let ghost old_resources = self.resources@;
        self.add_resource(image);
        proof {
            assert(retained_image(self.resources@[old_resources.len() as int]) == Some(
                barrier.image,
            ));
        }
        self.record(Command::PipelineBarrier(barrier));
    }

    /// Appends `command`, whose resources are already retained.
    fn record(&mut self, command: Command)
        requires
            old(self).wf(),
            command_retained(command, old(self).resources_spec()),
        ensures
            final(self).wf(),
            final(self).handle_spec() == old(self).handle_spec(),
            final(self).queue_spec() == old(self).queue_spec(),
            final(self).commands_spec() == old(self).commands_spec().push(command),
            final(self).resources_spec() == old(self).resources_spec(),
    {
        let ghost old_commands = self.commands@;
        self.commands.push(command);
        proof {
            assert forall|i: int| 0 <= i < self.commands@.len() implies command_retained(
                #[trigger] self.commands@[i],
                self.resources@,
            ) by {
                if i < old_commands.len() {
                    assert(self.commands@[i] == old_commands[i]);
                }
            }
        }
    }

    /// Ends recording: the command buffer was submitted with the native fence `fence`,
    /// which now owns it until it is retired.
    pub fn submit(self, fence: u64) -> (r: Fence)
        requires
            self.wf(),
        ensures
            r.wf(),
            r.handle_spec() == fence,
            !r.is_signaled_spec(),
            r.command_buffer_spec().handle_spec() == self.handle_spec(),
            r.command_buffer_spec().queue_spec() == self.queue_spec(),
            r.command_buffer_spec().commands_spec() == self.commands_spec(),
            r.command_buffer_spec().resources_spec() == self.resources_spec(),
    {
        Fence { handle: fence, command_buffer: self, signaled: false }
    }
}

/// The completion signal of one submitted command buffer, which it owns together with
/// everything that buffer retained.
#[derive(Debug)]
pub struct Fence {
    handle: u64,
    command_buffer: CommandBuffer,
    signaled: bool,
}

impl Fence {
    pub closed spec fn handle_spec(&self) -> u64 {
        self.handle
    }

    pub closed spec fn command_buffer_spec(&self) -> CommandBuffer {
        self.command_buffer
    }

    /// A wait on the fence has returned success.
    pub closed spec fn is_signaled_spec(&self) -> bool {
        self.signaled
    }

    pub open spec fn wf(&self) -> bool {
        self.command_buffer_spec().wf()
    }

    pub fn handle(&self) -> (r: u64)
        ensures
            r == self.handle_spec(),
    {
        self.handle
    }

    pub fn command_buffer(&self) -> (r: &CommandBuffer)
        ensures
            *r == self.command_buffer_spec(),
    {
        &self.command_buffer
    }

    pub fn is_signaled(&self) -> (r: bool)
        ensures
            r == self.is_signaled_spec(),
    {
        self.signaled
    }

    /// Takes in the status that the native, unbounded wait on this fence returned:
    /// success marks the submission complete; any other status is passed through and
    /// leaves it pending.
    pub fn wait(&mut self, status: i32) -> (r: Result<()>)
        ensures
            final(self).handle_spec() == old(self).handle_spec(),
            final(self).command_buffer_spec() == old(self).command_buffer_spec(),
            status == 0 ==> r is Ok && final(self).is_signaled_spec(),
            status != 0 ==> r == Err::<(), Error>(Error::Other(status))
                && final(self).is_signaled_spec() == old(self).is_signaled_spec(),
    {
        if status == 0 {
            self.signaled = true;
            Ok(())
        } else {
            Err(Error::Other(status))
        }
    }

    /// Gives back the command buffer, with its retention list, once the fence has
    /// signalled: from then on its resources may be dropped.
    pub fn retire(self) -> (r: CommandBuffer)
        requires
            self.is_signaled_spec(),
        ensures
            r == self.command_buffer_spec(),
    {
        self.command_buffer
    }
}

/// The copy that `Buffer::cmd_copy_to_image` records.
pub open spec fn copy_to_image_spec(buffer: &Buffer, image: &Image, aspect_mask: ImageAspectFlags) -> Command {
    Command::CopyBufferToImage {
        buffer: buffer.handle,
        image: image.image_handle,
        image_layout: IMAGE_LAYOUT_TRANSFER_DST_OPTIMAL,
        region: copy_region_spec(
            aspect_mask,
            Extent3D { width: image.width, height: image.height, depth: 1 },
        ),
    }
}

/// The copy that `Image::cmd_copy_to_buffer` records.
pub open spec fn copy_to_buffer_spec(image: &Image, image_layout: ImageLayout, buffer: &Buffer) -> Command {
    Command::CopyImageToBuffer {
        image: image.image_handle,
        image_layout,
        buffer: buffer.handle,
        region: copy_region_spec(
            IMAGE_ASPECT_COLOR,
            Extent3D { width: image.width, height: image.height, depth: 1 },
        ),
    }
}

/// A colour barrier on `image` without ownership transfer.
pub open spec fn color_barrier(
    image: &Image,
    old_layout: ImageLayout,
    new_layout: ImageLayout,
    src_stage: PipelineStageFlags,
    dst_stage: PipelineStageFlags,
    src_access: AccessFlags,
    dst_access: AccessFlags,
) -> Command {
    Command::PipelineBarrier(
        image_barrier_spec(
            image.image_handle,
            old_layout,
            new_layout,
            src_stage,
            dst_stage,
            src_access,
            dst_access,
            IMAGE_ASPECT_COLOR,
            None,
        ),
    )
}

impl Buffer {
    /// Records a copy of this buffer into the whole of `image`, which must be in the
    /// transfer-destination layout, and retains the image and then the buffer.
    pub fn cmd_copy_to_image(
        self: Arc<Self>,
        cmd_buf: &mut CommandBuffer,
        image: Arc<Image>,
        aspect_mask: ImageAspectFlags,
    )
        requires
            old(cmd_buf).wf(),
        ensures
            final(cmd_buf).wf(),
            final(cmd_buf).handle_spec() == old(cmd_buf).handle_spec(),
            final(cmd_buf).queue_spec() == old(cmd_buf).queue_spec(),
            final(cmd_buf).commands_spec() == old(cmd_buf).commands_spec().push(
                copy_to_image_spec(&*self, &*image, aspect_mask),
            ),
            final(cmd_buf).resources_spec() == old(cmd_buf).resources_spec().push(
                Resource::Image(image),
            ).push(Resource::Buffer(self)),
    {
        let region = build_copy_region(aspect_mask, image.extent());
        let command = Command::CopyBufferToImage {
            buffer: self.handle,
            image: image.image_handle,
            image_layout: IMAGE_LAYOUT_TRANSFER_DST_OPTIMAL,
            region,
        };
        let ghost before = cmd_buf.resources_spec();
        cmd_buf.add_resource(image);
        cmd_buf.add_resource(self);
        proof {
            let after = cmd_buf.resources_spec();
            assert(retained_image(after[before.len() as int]) == Some(image.image_handle));
            assert(retained_buffer(after[before.len() as int + 1]) == Some(self.handle));
        }
        cmd_buf.record(command);
    }
}

/// The commands an upload of `staging` into `image` records, ending in `dst_layout`.
pub open spec fn update_commands(
    image: &Image,
    staging: &Buffer,
    dst_layout: ImageLayout,
    dst_stage: PipelineStageFlags,
    dst_access: AccessFlags,
) -> Seq<Command> {
    seq![
        color_barrier(
            image,
            IMAGE_LAYOUT_UNDEFINED,
            IMAGE_LAYOUT_TRANSFER_DST_OPTIMAL,
            PIPELINE_STAGE_NONE,
            PIPELINE_STAGE_TRANSFER,
            ACCESS_NONE,
            ACCESS_TRANSFER_WRITE,
        ),
        copy_to_image_spec(staging, image, IMAGE_ASPECT_COLOR),
        color_barrier(
            image,
            IMAGE_LAYOUT_TRANSFER_DST_OPTIMAL,
            dst_layout,
            PIPELINE_STAGE_TRANSFER,
            dst_stage,
            ACCESS_TRANSFER_WRITE,
            dst_access,
        ),
    ]
}

/// The commands a download of `image` into `staging` records, returning the image
/// to `src_layout`.
pub open spec fn download_commands(
    image: &Image,
    staging: &Buffer,
    src_layout: ImageLayout,
    src_stage: PipelineStageFlags,
    src_access: AccessFlags,
) -> Seq<Command> {
    seq![
        color_barrier(
            image,
            src_layout,
            IMAGE_LAYOUT_TRANSFER_SRC_OPTIMAL,
            src_stage,
            PIPELINE_STAGE_TRANSFER,
            src_access,
            ACCESS_TRANSFER_READ,
        ),
        copy_to_buffer_spec(image, IMAGE_LAYOUT_TRANSFER_SRC_OPTIMAL, staging),
        color_barrier(
            image,
            IMAGE_LAYOUT_TRANSFER_SRC_OPTIMAL,
            src_layout,
            PIPELINE_STAGE_TRANSFER,
            src_stage,
            ACCESS_TRANSFER_READ,
            src_access,
        ),
    ]
}

impl Image {
    /// Records a copy of the whole image, in `image_layout`, into `buffer`, and retains
    /// the image and then the buffer.
    pub fn cmd_copy_to_buffer(
        self: Arc<Self>,
        cmd_buf: &mut CommandBuffer,
        image_layout: ImageLayout,
        buffer: Arc<Buffer>,
    ) -> (r: Result<()>)
        requires
            old(cmd_buf).wf(),
        ensures
            r is Ok,
            final(cmd_buf).wf(),
            final(cmd_buf).handle_spec() == old(cmd_buf).handle_spec(),
            final(cmd_buf).queue_spec() == old(cmd_buf).queue_spec(),
            final(cmd_buf).commands_spec() == old(cmd_buf).commands_spec().push(
                copy_to_buffer_spec(&*self, image_layout, &*buffer),
            ),
            final(cmd_buf).resources_spec() == old(cmd_buf).resources_spec().push(
                Resource::Image(self),
            ).push(Resource::Buffer(buffer)),
    {
        let region = build_copy_region(IMAGE_ASPECT_COLOR, self.extent());
        let command = Command::CopyImageToBuffer {
            image: self.image_handle,
            image_layout,
            buffer: buffer.handle,
            region,
        };
        let ghost before = cmd_buf.resources_spec();
        let ghost image_handle = self.image_handle;
        let ghost buffer_handle = buffer.handle;
        cmd_buf.add_resource(self);
        cmd_buf.add_resource(buffer);
        proof {
            let after = cmd_buf.resources_spec();
            assert(retained_image(after[before.len() as int]) == Some(image_handle));
            assert(retained_buffer(after[before.len() as int + 1]) == Some(buffer_handle));
        }
        cmd_buf.record(command);
        Ok(())
    }

    /// Records an upload from `staging`, which already holds the payload and has been
    /// flushed: the image goes from undefined to transfer-destination layout, the
    /// staging buffer is copied over its whole extent, and the image goes on to
    /// `dst_layout` for `dst_stage` and `dst_access`. Every step retains what it uses.
    pub fn cmd_update(
        self: Arc<Self>,
        cmd_buf: &mut CommandBuffer,
        staging: Arc<Buffer>,
        dst_layout: ImageLayout,
        dst_stage: PipelineStageFlags,
        dst_access: AccessFlags,
    )
        requires
            old(cmd_buf).wf(),
        ensures
            final(cmd_buf).wf(),
            final(cmd_buf).handle_spec() == old(cmd_buf).handle_spec(),
            final(cmd_buf).queue_spec() == old(cmd_buf).queue_spec(),
            final(cmd_buf).commands_spec() == old(cmd_buf).commands_spec() + update_commands(
                &*self,
                &*staging,
                dst_layout,
                dst_stage,
                dst_access,
            ),
            final(cmd_buf).resources_spec() == old(cmd_buf).resources_spec() + seq![
                Resource::Image(self),
                Resource::Image(self),
                Resource::Buffer(staging),
                Resource::Image(self),
            ],
    {
        let ghost commands0 = cmd_buf.commands_spec();
        let ghost resources0 = cmd_buf.resources_spec();
        cmd_buf.image_barrier(
            self.clone(),
            IMAGE_LAYOUT_UNDEFINED,
            IMAGE_LAYOUT_TRANSFER_DST_OPTIMAL,
            PIPELINE_STAGE_NONE,
            PIPELINE_STAGE_TRANSFER,
            ACCESS_NONE,
            ACCESS_TRANSFER_WRITE,
            IMAGE_ASPECT_COLOR,
            None,
        );
        staging.cmd_copy_to_image(cmd_buf, self.clone(), IMAGE_ASPECT_COLOR);
        cmd_buf.image_barrier(
            self,
            IMAGE_LAYOUT_TRANSFER_DST_OPTIMAL,
            dst_layout,
            PIPELINE_STAGE_TRANSFER,
            dst_stage,
            ACCESS_TRANSFER_WRITE,
            dst_access,
            IMAGE_ASPECT_COLOR,
            None,
        );
        proof {
            assert(cmd_buf.commands_spec() =~= commands0 + update_commands(
                &*self,
                &*staging,
                dst_layout,
                dst_stage,
                dst_access,
            ));
            assert(cmd_buf.resources_spec() =~= resources0 + seq![
                Resource::Image(self),
                Resource::Image(self),
                Resource::Buffer(staging),
                Resource::Image(self),
            ]);
        }
    }

    /// Records a download into `staging`, which must hold `download_size` bytes: the
    /// image goes from `src_layout` to transfer-source layout, is copied whole into the
    /// staging buffer, and returns to `src_layout`, `src_stage` and `src_access`. The
    /// staging buffer is handed back to be read once the submission's fence has
    /// signalled.
    pub fn cmd_download(
        self: Arc<Self>,
        cmd_buf: &mut CommandBuffer,
        staging: Arc<Buffer>,
        src_layout: ImageLayout,
        src_stage: PipelineStageFlags,
        src_access: AccessFlags,
    ) -> (r: Arc<Buffer>)
        requires
            old(cmd_buf).wf(),
            staging.size >= download_size_spec(self.width, self.height),
        ensures
            r == staging,
            final(cmd_buf).wf(),
            final(cmd_buf).handle_spec() == old(cmd_buf).handle_spec(),
            final(cmd_buf).queue_spec() == old(cmd_buf).queue_spec(),
            final(cmd_buf).commands_spec() == old(cmd_buf).commands_spec() + download_commands(
                &*self,
                &*staging,
                src_layout,
                src_stage,
                src_access,
            ),
            final(cmd_buf).resources_spec() == old(cmd_buf).resources_spec() + seq![
                Resource::Image(self),
                Resource::Image(self),
                Resource::Buffer(staging),
                Resource::Image(self),
            ],
    {
        let ghost commands0 = cmd_buf.commands_spec();
        let ghost resources0 = cmd_buf.resources_spec();
        cmd_buf.image_barrier(
            self.clone(),
            src_layout,
            IMAGE_LAYOUT_TRANSFER_SRC_OPTIMAL,
            src_stage,
            PIPELINE_STAGE_TRANSFER,
            src_access,
            ACCESS_TRANSFER_READ,
            IMAGE_ASPECT_COLOR,
            None,
        );
        let _ = self.clone().cmd_copy_to_buffer(
            cmd_buf,
            IMAGE_LAYOUT_TRANSFER_SRC_OPTIMAL,
            staging.clone(),
        );
        cmd_buf.image_barrier(
            self,
            IMAGE_LAYOUT_TRANSFER_SRC_OPTIMAL,
            src_layout,
            PIPELINE_STAGE_TRANSFER,
            src_stage,
            ACCESS_TRANSFER_READ,
            src_access,
            IMAGE_ASPECT_COLOR,
            None,
        );
        proof {
            assert(cmd_buf.commands_spec() =~= commands0 + download_commands(
                &*self,
                &*staging,
                src_layout,
                src_stage,
                src_access,
            ));
            assert(cmd_buf.resources_spec() =~= resources0 + seq![
                Resource::Image(self),
                Resource::Image(self),
                Resource::Buffer(staging),
                Resource::Image(self),
            ]);
        }
        staging
    }
}

/// Everything a submitted command buffer references stays alive for as long as its
/// fence: each command's images and buffers are in the retention list the fence owns,
/// so after a successful wait the fence can be retired and they can be dropped.
pub proof fn lemma_fence_keeps_references_alive(fence: Fence, i: int)
    requires
        fence.wf(),
        0 <= i < fence.command_buffer_spec().commands_spec().len(),
    ensures
        command_retained(
            fence.command_buffer_spec().commands_spec()[i],
            fence.command_buffer_spec().resources_spec(),
        ),
{
}

} // verus!
