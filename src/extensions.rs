use vstd::prelude::*;

verus! {

/// The extensions the library knows by name.
#[derive(Debug, Clone, Copy, PartialEq, Eq)]
pub enum Extension {
    VideoQueue,
    VideoEncodeQueue,
    VideoEncodeH264,
    Synchronization2,
}

/// The name the native API knows `e` by.
pub open spec fn extension_name(e: Extension) -> Seq<char> {
    match e {
        Extension::VideoQueue => "VK_KHR_video_queue"@,
        Extension::VideoEncodeQueue => "VK_KHR_video_encode_queue"@,
        Extension::VideoEncodeH264 => "VK_KHR_video_encode_h264"@,
        Extension::Synchronization2 => "VK_KHR_synchronization2"@,
    }
}

impl Extension {
    pub fn name(self) -> (r: &'static str)
        ensures
            r@ == extension_name(self),
    {
        match self {
            Extension::VideoQueue => "VK_KHR_video_queue",
            Extension::VideoEncodeQueue => "VK_KHR_video_encode_queue",
            Extension::VideoEncodeH264 => "VK_KHR_video_encode_h264",
            Extension::Synchronization2 => "VK_KHR_synchronization2",
        }
    }
}

/// Some entry of `names` is the name of `e`.
pub open spec fn offers(names: Seq<String>, e: Extension) -> bool {
    exists|i: int| 0 <= i < names.len() && #[trigger] names[i]@ == extension_name(e)
}

fn offered(names: &Vec<String>, e: Extension) -> (r: bool)
    ensures
        r == offers(names@, e),
{
    let wanted = e.name().to_owned();
    let mut i: usize = 0;
    while i < names.len()
        invariant
            i <= names.len(),
            wanted@ == extension_name(e),
            forall|j: int| 0 <= j < i ==> names@[j]@ != extension_name(e),
        decreases names.len() - i,
    {
        if names[i] == wanted {
            return true;
        }
        i += 1;
    }
    false
}

/// The device extensions that a physical device offers, of those the library uses.
#[derive(Debug, Clone, Copy, PartialEq, Eq)]
#[non_exhaustive]
pub struct SupportedDeviceExtensions {
    pub video_queue: bool,
    pub video_encode_queue: bool,
    pub video_encode_h264: bool,
}

/// The extensions listed for `s`, in the order video queue, video encode queue,
/// H.264 encode.
pub open spec fn supported_names(s: SupportedDeviceExtensions) -> Seq<Extension> {
    (if s.video_queue { seq![Extension::VideoQueue] } else { seq![] }) + (if s.video_encode_queue {
        seq![Extension::VideoEncodeQueue]
    } else {
        seq![]
    }) + (if s.video_encode_h264 { seq![Extension::VideoEncodeH264] } else { seq![] })
}

impl SupportedDeviceExtensions {
    /// Which of the library's device extensions appear among the names a physical
    /// device reports.
    pub fn new(extension_names: &Vec<String>) -> (r: SupportedDeviceExtensions)
        ensures
            r.video_queue == offers(extension_names@, Extension::VideoQueue),
            r.video_encode_queue == offers(extension_names@, Extension::VideoEncodeQueue),
            r.video_encode_h264 == offers(extension_names@, Extension::VideoEncodeH264),
    {
        SupportedDeviceExtensions {
            video_queue: offered(extension_names, Extension::VideoQueue),
            video_encode_queue: offered(extension_names, Extension::VideoEncodeQueue),
            video_encode_h264: offered(extension_names, Extension::VideoEncodeH264),
        }
    }

    /// The supported extensions, to enable on the device.
    pub fn names(&self) -> (r: Vec<Extension>)
        ensures
            r@ == supported_names(*self),
    {
        let mut names: Vec<Extension> = Vec::new();
        if self.video_queue {
            names.push(Extension::VideoQueue);
        }
        if self.video_encode_queue {
            names.push(Extension::VideoEncodeQueue);
        }
        if self.video_encode_h264 {
            names.push(Extension::VideoEncodeH264);
        }
        proof {
            assert(names@ =~= supported_names(*self));
        }
        names
    }
}

/// The codec features an instance and device are set up for.
#[derive(Debug, Clone, Copy, PartialEq, Eq)]
pub struct Capabilities {
    pub h264_encode: bool,
}

impl Capabilities {
    /// The instance extensions: video queue, and video encode queue for H.264 encode.
    pub fn instance_extensions(&self) -> (r: Vec<Extension>)
        ensures
            r@ == if self.h264_encode {
                seq![Extension::VideoQueue, Extension::VideoEncodeQueue]
            } else {
                seq![Extension::VideoQueue]
            },
    {
        let mut extensions: Vec<Extension> = vec![Extension::VideoQueue];
        if self.h264_encode {
            extensions.push(Extension::VideoEncodeQueue);
        }
        proof {
            if self.h264_encode {
                assert(extensions@ =~= seq![Extension::VideoQueue, Extension::VideoEncodeQueue]);
            } else {
                assert(extensions@ =~= seq![Extension::VideoQueue]);
            }
        }
        extensions
    }

    /// The device extensions: synchronization2 always, and video encode queue and
    /// H.264 encode for H.264 encode.
    pub fn device_extensions(&self) -> (r: Vec<Extension>)
        ensures
            r@ == if self.h264_encode {
                seq![
                    Extension::Synchronization2,
                    Extension::VideoEncodeQueue,
                    Extension::VideoEncodeH264,
                ]
            } else {
                seq![Extension::Synchronization2]
            },
    {
        let mut extensions: Vec<Extension> = vec![Extension::Synchronization2];
        if self.h264_encode {
            extensions.push(Extension::VideoEncodeQueue);
            extensions.push(Extension::VideoEncodeH264);
        }
        proof {
            if self.h264_encode {
                assert(extensions@ =~= seq![
                    Extension::Synchronization2,
                    Extension::VideoEncodeQueue,
                    Extension::VideoEncodeH264,
                ]);
            } else {
                assert(extensions@ =~= seq![Extension::Synchronization2]);
            }
        }
        extensions
    }
}

} // verus!
