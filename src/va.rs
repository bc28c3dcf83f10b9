use std::sync::Arc;

use vstd::prelude::*;
use vstd::string::StringSliceAdditionalSpecFns;

use libloading::Library as DynamicLibrary;

verus! {

/// A status code returned by a VA-API call.
pub type VaStatus = i32;

pub const VA_STATUS_SUCCESS: u32 = 0x0;

pub const VA_STATUS_ERROR_OPERATION_FAILED: u32 = 0x1;

pub const VA_STATUS_ERROR_ALLOCATION_FAILED: u32 = 0x2;

pub const VA_STATUS_ERROR_INVALID_DISPLAY: u32 = 0x3;

pub const VA_STATUS_ERROR_INVALID_CONFIG: u32 = 0x4;

pub const VA_STATUS_ERROR_INVALID_CONTEXT: u32 = 0x5;

pub const VA_STATUS_ERROR_INVALID_SURFACE: u32 = 0x6;

pub const VA_STATUS_ERROR_INVALID_BUFFER: u32 = 0x7;

pub const VA_STATUS_ERROR_INVALID_IMAGE: u32 = 0x8;

pub const VA_STATUS_ERROR_INVALID_SUBPICTURE: u32 = 0x9;

pub const VA_STATUS_ERROR_ATTR_NOT_SUPPORTED: u32 = 0xa;

pub const VA_STATUS_ERROR_MAX_NUM_EXCEEDED: u32 = 0xb;

pub const VA_STATUS_ERROR_UNSUPPORTED_PROFILE: u32 = 0xc;

pub const VA_STATUS_ERROR_UNSUPPORTED_ENTRYPOINT: u32 = 0xd;

pub const VA_STATUS_ERROR_UNSUPPORTED_RT_FORMAT: u32 = 0xe;

pub const VA_STATUS_ERROR_UNSUPPORTED_BUFFERTYPE: u32 = 0xf;

pub const VA_STATUS_ERROR_SURFACE_BUSY: u32 = 0x10;

pub const VA_STATUS_ERROR_FLAG_NOT_SUPPORTED: u32 = 0x11;

pub const VA_STATUS_ERROR_INVALID_PARAMETER: u32 = 0x12;

pub const VA_STATUS_ERROR_RESOLUTION_NOT_SUPPORTED: u32 = 0x13;

pub const VA_STATUS_ERROR_UNIMPLEMENTED: u32 = 0x14;

pub const VA_STATUS_ERROR_SURFACE_IN_DISPLAYING: u32 = 0x15;

pub const VA_STATUS_ERROR_INVALID_IMAGE_FORMAT: u32 = 0x16;

pub const VA_STATUS_ERROR_DECODING_ERROR: u32 = 0x17;

pub const VA_STATUS_ERROR_ENCODING_ERROR: u32 = 0x18;

pub const VA_STATUS_ERROR_INVALID_VALUE: u32 = 0x19;

pub const VA_STATUS_ERROR_UNSUPPORTED_FILTER: u32 = 0x20;

pub const VA_STATUS_ERROR_INVALID_FILTER_CHAIN: u32 = 0x21;

pub const VA_STATUS_ERROR_HW_BUSY: u32 = 0x22;

pub const VA_STATUS_ERROR_UNSUPPORTED_MEMORY_TYPE: u32 = 0x24;

pub const VA_STATUS_ERROR_NOT_ENOUGH_BUFFER: u32 = 0x25;

pub const VA_STATUS_ERROR_TIMEDOUT: u32 = 0x26;

pub const VA_STATUS_ERROR_UNKNOWN: u32 = 0xffff_ffff;

/// A failing VA-API status.
#[derive(Debug, Clone, Copy, PartialEq, Eq)]
pub enum ErrorStatus {
    OperationFailed,
    AllocationFailed,
    InvalidDisplay,
    InvalidConfig,
    InvalidContext,
    InvalidSurface,
    InvalidBuffer,
    InvalidImage,
    InvalidSubpicture,
    AttrNotSupported,
    MaxNumExceeded,
    UnsupportedProfile,
    UnsupportedEntrypoint,
    UnsupportedRtFormat,
    UnsupportedBufferType,
    SurfaceBusy,
    FlagNotSupported,
    InvalidParameter,
    ResolutionNotSupported,
    Unimplemented,
    SurfaceInDisplaying,
    InvalidImageFormat,
    DecodingError,
    EncodingError,
    InvalidValue,
    UnsupportedFilter,
    InvalidFilterChain,
    HwBusy,
    UnsupportedMemoryType,
    NotEnoughBuffer,
    TimedOut,
    Unknown,
}

/// The error that the non-success status `code` stands for; codes the library does
/// not know are `Unknown`.
pub open spec fn error_of_code(code: u32) -> ErrorStatus {
    match code {
        VA_STATUS_ERROR_OPERATION_FAILED => ErrorStatus::OperationFailed,
        VA_STATUS_ERROR_ALLOCATION_FAILED => ErrorStatus::AllocationFailed,
        VA_STATUS_ERROR_INVALID_DISPLAY => ErrorStatus::InvalidDisplay,
        VA_STATUS_ERROR_INVALID_CONFIG => ErrorStatus::InvalidConfig,
        VA_STATUS_ERROR_INVALID_CONTEXT => ErrorStatus::InvalidContext,
        VA_STATUS_ERROR_INVALID_SURFACE => ErrorStatus::InvalidSurface,
        VA_STATUS_ERROR_INVALID_BUFFER => ErrorStatus::InvalidBuffer,
        VA_STATUS_ERROR_INVALID_IMAGE => ErrorStatus::InvalidImage,
        VA_STATUS_ERROR_INVALID_SUBPICTURE => ErrorStatus::InvalidSubpicture,
        VA_STATUS_ERROR_ATTR_NOT_SUPPORTED => ErrorStatus::AttrNotSupported,
        VA_STATUS_ERROR_MAX_NUM_EXCEEDED => ErrorStatus::MaxNumExceeded,
        VA_STATUS_ERROR_UNSUPPORTED_PROFILE => ErrorStatus::UnsupportedProfile,
        VA_STATUS_ERROR_UNSUPPORTED_ENTRYPOINT => ErrorStatus::UnsupportedEntrypoint,
        VA_STATUS_ERROR_UNSUPPORTED_RT_FORMAT => ErrorStatus::UnsupportedRtFormat,
        VA_STATUS_ERROR_UNSUPPORTED_BUFFERTYPE => ErrorStatus::UnsupportedBufferType,
        VA_STATUS_ERROR_SURFACE_BUSY => ErrorStatus::SurfaceBusy,
        VA_STATUS_ERROR_FLAG_NOT_SUPPORTED => ErrorStatus::FlagNotSupported,
        VA_STATUS_ERROR_INVALID_PARAMETER => ErrorStatus::InvalidParameter,
        VA_STATUS_ERROR_RESOLUTION_NOT_SUPPORTED => ErrorStatus::ResolutionNotSupported,
        VA_STATUS_ERROR_UNIMPLEMENTED => ErrorStatus::Unimplemented,
        VA_STATUS_ERROR_SURFACE_IN_DISPLAYING => ErrorStatus::SurfaceInDisplaying,
        VA_STATUS_ERROR_INVALID_IMAGE_FORMAT => ErrorStatus::InvalidImageFormat,
        VA_STATUS_ERROR_DECODING_ERROR => ErrorStatus::DecodingError,
        VA_STATUS_ERROR_ENCODING_ERROR => ErrorStatus::EncodingError,
        VA_STATUS_ERROR_INVALID_VALUE => ErrorStatus::InvalidValue,
        VA_STATUS_ERROR_UNSUPPORTED_FILTER => ErrorStatus::UnsupportedFilter,
        VA_STATUS_ERROR_INVALID_FILTER_CHAIN => ErrorStatus::InvalidFilterChain,
        VA_STATUS_ERROR_HW_BUSY => ErrorStatus::HwBusy,
        VA_STATUS_ERROR_UNSUPPORTED_MEMORY_TYPE => ErrorStatus::UnsupportedMemoryType,
        VA_STATUS_ERROR_NOT_ENOUGH_BUFFER => ErrorStatus::NotEnoughBuffer,
        VA_STATUS_ERROR_TIMEDOUT => ErrorStatus::TimedOut,
        _ => ErrorStatus::Unknown,
    }
}

/// `None` for success, else the error `status` stands for.
pub open spec fn status_error(status: VaStatus) -> Option<ErrorStatus> {
    if status as u32 == VA_STATUS_SUCCESS {
        None
    } else {
        Some(error_of_code(status as u32))
    }
}

/// `Ok` for success, else the error `status` stands for.
pub open spec fn status_result(status: VaStatus) -> Result<(), ErrorStatus> {
    match status_error(status) {
        Some(err) => Err(err),
        None => Ok(()),
    }
}

impl ErrorStatus {
    pub fn from_status(status: VaStatus) -> (r: Option<ErrorStatus>)
        ensures
            r == status_error(status),
    {
        let code = status as u32;
        if code == VA_STATUS_SUCCESS {
            return None;
        }
        Some(
            match code {
                VA_STATUS_ERROR_OPERATION_FAILED => ErrorStatus::OperationFailed,
                VA_STATUS_ERROR_ALLOCATION_FAILED => ErrorStatus::AllocationFailed,
                VA_STATUS_ERROR_INVALID_DISPLAY => ErrorStatus::InvalidDisplay,
                VA_STATUS_ERROR_INVALID_CONFIG => ErrorStatus::InvalidConfig,
                VA_STATUS_ERROR_INVALID_CONTEXT => ErrorStatus::InvalidContext,
                VA_STATUS_ERROR_INVALID_SURFACE => ErrorStatus::InvalidSurface,
                VA_STATUS_ERROR_INVALID_BUFFER => ErrorStatus::InvalidBuffer,
                VA_STATUS_ERROR_INVALID_IMAGE => ErrorStatus::InvalidImage,
                VA_STATUS_ERROR_INVALID_SUBPICTURE => ErrorStatus::InvalidSubpicture,
                VA_STATUS_ERROR_ATTR_NOT_SUPPORTED => ErrorStatus::AttrNotSupported,
                VA_STATUS_ERROR_MAX_NUM_EXCEEDED => ErrorStatus::MaxNumExceeded,
                VA_STATUS_ERROR_UNSUPPORTED_PROFILE => ErrorStatus::UnsupportedProfile,
                VA_STATUS_ERROR_UNSUPPORTED_ENTRYPOINT => ErrorStatus::UnsupportedEntrypoint,
                VA_STATUS_ERROR_UNSUPPORTED_RT_FORMAT => ErrorStatus::UnsupportedRtFormat,
                VA_STATUS_ERROR_UNSUPPORTED_BUFFERTYPE => ErrorStatus::UnsupportedBufferType,
                VA_STATUS_ERROR_SURFACE_BUSY => ErrorStatus::SurfaceBusy,
                VA_STATUS_ERROR_FLAG_NOT_SUPPORTED => ErrorStatus::FlagNotSupported,
                VA_STATUS_ERROR_INVALID_PARAMETER => ErrorStatus::InvalidParameter,
                VA_STATUS_ERROR_RESOLUTION_NOT_SUPPORTED => ErrorStatus::ResolutionNotSupported,
                VA_STATUS_ERROR_UNIMPLEMENTED => ErrorStatus::Unimplemented,
                VA_STATUS_ERROR_SURFACE_IN_DISPLAYING => ErrorStatus::SurfaceInDisplaying,
                VA_STATUS_ERROR_INVALID_IMAGE_FORMAT => ErrorStatus::InvalidImageFormat,
                VA_STATUS_ERROR_DECODING_ERROR => ErrorStatus::DecodingError,
                VA_STATUS_ERROR_ENCODING_ERROR => ErrorStatus::EncodingError,
                VA_STATUS_ERROR_INVALID_VALUE => ErrorStatus::InvalidValue,
                VA_STATUS_ERROR_UNSUPPORTED_FILTER => ErrorStatus::UnsupportedFilter,
                VA_STATUS_ERROR_INVALID_FILTER_CHAIN => ErrorStatus::InvalidFilterChain,
                VA_STATUS_ERROR_HW_BUSY => ErrorStatus::HwBusy,
                VA_STATUS_ERROR_UNSUPPORTED_MEMORY_TYPE => ErrorStatus::UnsupportedMemoryType,
                VA_STATUS_ERROR_NOT_ENOUGH_BUFFER => ErrorStatus::NotEnoughBuffer,
                VA_STATUS_ERROR_TIMEDOUT => ErrorStatus::TimedOut,
                _ => ErrorStatus::Unknown,
            },
        )
    }

    pub fn result(status: VaStatus) -> (r: Result<(), ErrorStatus>)
        ensures
            r == status_result(status),
    {
        match ErrorStatus::from_status(status) {
            Some(err) => Err(err),
            None => Ok(()),
        }
    }
}

/// Turns a VA-API status into a `Result`.
pub trait VaStatusExt: Sized {
    /// The status code `self` carries.
    spec fn status_code(&self) -> VaStatus;

    fn va_result(self) -> (r: Result<(), ErrorStatus>)
        ensures
            r == status_result(self.status_code()),
    ;

    fn va_result_with_success<T>(self, success: T) -> (r: Result<T, ErrorStatus>)
        ensures
            match status_error(self.status_code()) {
                Some(err) => r == Err::<T, ErrorStatus>(err),
                None => r == Ok::<T, ErrorStatus>(success),
            },
    ;
}

impl VaStatusExt for VaStatus {
    open spec fn status_code(&self) -> VaStatus {
        *self
    }

    fn va_result(self) -> (r: Result<(), ErrorStatus>) {
        ErrorStatus::result(self)
    }

    fn va_result_with_success<T>(self, success: T) -> (r: Result<T, ErrorStatus>) {
        match ErrorStatus::result(self) {
            Ok(()) => Ok(success),
            Err(err) => Err(err),
        }
    }
}

/// A four-character code, first character in the lowest byte.
#[derive(Debug, Clone, Copy, PartialEq, Eq, Hash)]
pub struct Fourcc(pub u32);

/// The code of four bytes, first byte lowest.
pub open spec fn fourcc_code(b: Seq<u8>) -> u32 {
    (b[0] as u32) | ((b[1] as u32) << 8u32) | ((b[2] as u32) << 16u32) | ((b[3] as u32) << 24u32)
}

/// A code is made of exactly four bytes.
pub open spec fn fourcc_from_bytes(b: Seq<u8>) -> Result<Fourcc, ()> {
    if b.len() == 4 {
        Ok(Fourcc(fourcc_code(b)))
    } else {
        Err(())
    }
}

impl<'a> TryFrom<&'a str> for Fourcc {
    type Error = ();

    fn try_from(value: &'a str) -> (r: Result<Fourcc, ()>) {
        if value.len() != 4 {
            return Err(());
        }
        let bytes = value.as_bytes();
        Ok(
            Fourcc(
                (bytes[0] as u32) | ((bytes[1] as u32) << 8u32) | ((bytes[2] as u32) << 16u32) | ((
                bytes[3] as u32) << 24u32),
            ),
        )
    }
}

impl<'a> vstd::std_specs::convert::TryFromSpecImpl<&'a str> for Fourcc {
    open spec fn obeys_try_from_spec() -> bool {
        true
    }

    open spec fn try_from_spec(value: &'a str) -> Result<Fourcc, ()> {
        fourcc_from_bytes(value.spec_bytes())
    }
}

impl From<u32> for Fourcc {
    fn from(value: u32) -> (r: Fourcc) {
        Fourcc(value)
    }
}

impl vstd::std_specs::convert::FromSpecImpl<u32> for Fourcc {
    open spec fn obeys_from_spec() -> bool {
        true
    }

    open spec fn from_spec(value: u32) -> Fourcc {
        Fourcc(value)
    }
}

impl From<Fourcc> for u32 {
    fn from(value: Fourcc) -> (r: u32) {
        value.0
    }
}

impl vstd::std_specs::convert::FromSpecImpl<Fourcc> for u32 {
    open spec fn obeys_from_spec() -> bool {
        true
    }

    open spec fn from_spec(value: Fourcc) -> u32 {
        value.0
    }
}

impl Fourcc {
    /// The four bytes of the code, first character first.
    pub fn to_bytes(self) -> (r: [u8; 4])
        ensures
            r@ == seq![self.0 as u8, (self.0 >> 8u32) as u8, (self.0 >> 16u32) as u8, (self.0 >> 24u32) as u8],
    {
        let r = [self.0 as u8, (self.0 >> 8u32) as u8, (self.0 >> 16u32) as u8, (self.0 >> 24u32) as u8];
        proof {
            assert(r@ =~= seq![self.0 as u8, (self.0 >> 8u32) as u8, (self.0 >> 16u32) as u8, (self.0 >> 24u32) as u8]);
        }
        r
    }
}

pub const VA_LSB_FIRST: u32 = 1;

pub const VA_MSB_FIRST: u32 = 2;

/// The byte order of an image format's pixels.
#[derive(Debug, Clone, Copy, PartialEq, Eq, Hash)]
pub enum ByteOrder {
    MsbFirst,
    LsbFirst,
}

/// The byte order a raw value names, if any.
pub open spec fn byte_order_of(value: u32) -> Result<ByteOrder, ()> {
    if value == VA_LSB_FIRST {
        Ok(ByteOrder::LsbFirst)
    } else if value == VA_MSB_FIRST {
        Ok(ByteOrder::MsbFirst)
    } else {
        Err(())
    }
}

impl TryFrom<u32> for ByteOrder {
    type Error = ();

    fn try_from(value: u32) -> (r: Result<ByteOrder, ()>) {
        if value == VA_LSB_FIRST {
            Ok(ByteOrder::LsbFirst)
        } else if value == VA_MSB_FIRST {
            Ok(ByteOrder::MsbFirst)
        } else {
            Err(())
        }
    }
}

impl vstd::std_specs::convert::TryFromSpecImpl<u32> for ByteOrder {
    open spec fn obeys_try_from_spec() -> bool {
        true
    }

    open spec fn try_from_spec(value: u32) -> Result<ByteOrder, ()> {
        byte_order_of(value)
    }
}

impl From<ByteOrder> for u32 {
    fn from(value: ByteOrder) -> (r: u32) {
        match value {
            ByteOrder::LsbFirst => VA_LSB_FIRST,
            ByteOrder::MsbFirst => VA_MSB_FIRST,
        }
    }
}

impl vstd::std_specs::convert::FromSpecImpl<ByteOrder> for u32 {
    open spec fn obeys_from_spec() -> bool {
        true
    }

    open spec fn from_spec(value: ByteOrder) -> u32 {
        match value {
            ByteOrder::LsbFirst => VA_LSB_FIRST,
            ByteOrder::MsbFirst => VA_MSB_FIRST,
        }
    }
}

/// The layout of an image's pixels.
#[derive(Debug, Clone, Copy, PartialEq, Eq, Hash)]
pub struct ImageFormat {
    pub fourcc: Fourcc,
    pub byte_order: Option<ByteOrder>,
    pub bits_per_pixel: u32,
    /// For RGB formats: the colour depth and where each channel lies.
    pub depth: u32,
    pub red_mask: u32,
    pub green_mask: u32,
    pub blue_mask: u32,
    pub alpha_mask: u32,
}

/// Surface attribute type: the pixel format.
pub const VA_SURFACE_ATTRIB_PIXEL_FORMAT: u32 = 1;

/// Surface attribute type: the usage hint.
pub const VA_SURFACE_ATTRIB_USAGE_HINT: u32 = 8;

/// The attribute is one the caller sets.
pub const VA_SURFACE_ATTRIB_SETTABLE: u32 = 2;

pub const VA_SURFACE_ATTRIB_USAGE_HINT_GENERIC: u32 = 0;

pub const VA_SURFACE_ATTRIB_USAGE_HINT_DECODER: u32 = 1;

pub const VA_SURFACE_ATTRIB_USAGE_HINT_ENCODER: u32 = 2;

/// One integer-valued attribute of a surface to create.
#[derive(Debug, Clone, Copy, PartialEq, Eq)]
pub struct SurfaceAttrib {
    pub attrib_type: u32,
    pub flags: u32,
    pub value: i32,
}

/// The attributes a surface is created with: its pixel format when one is asked for,
/// then its usage hint.
pub open spec fn surface_attributes_spec(pixel_format: Option<Fourcc>, usage_hint: u32) -> Seq<SurfaceAttrib> {
    let hint = SurfaceAttrib {
        attrib_type: VA_SURFACE_ATTRIB_USAGE_HINT,
        flags: VA_SURFACE_ATTRIB_SETTABLE,
        value: usage_hint as i32,
    };
    match pixel_format {
        Some(fourcc) => seq![
            SurfaceAttrib {
                attrib_type: VA_SURFACE_ATTRIB_PIXEL_FORMAT,
                flags: VA_SURFACE_ATTRIB_SETTABLE,
                value: fourcc.0 as i32,
            },
            hint,
        ],
        None => seq![hint],
    }
}

/// Builds the attribute list for creating surfaces.
pub fn surface_attributes(pixel_format: Option<Fourcc>, usage_hint: u32) -> (r: Vec<SurfaceAttrib>)
    ensures
        r@ == surface_attributes_spec(pixel_format, usage_hint),
{
    let mut attributes: Vec<SurfaceAttrib> = Vec::new();
    if let Some(fourcc) = pixel_format {
        attributes.push(
            SurfaceAttrib {
                attrib_type: VA_SURFACE_ATTRIB_PIXEL_FORMAT,
                flags: VA_SURFACE_ATTRIB_SETTABLE,
                value: fourcc.0 as i32,
            },
        );
    }
    attributes.push(
        SurfaceAttrib {
            attrib_type: VA_SURFACE_ATTRIB_USAGE_HINT,
            flags: VA_SURFACE_ATTRIB_SETTABLE,
            value: usage_hint as i32,
        },
    );
    proof {
        assert(attributes@ =~= surface_attributes_spec(pixel_format, usage_hint));
    }
    attributes
}

/// Relies on `libloading::Library`, the handle of a loaded shared library: carried
/// through unopened, nothing about it is assumed.
#[verifier::external_type_specification]
#[verifier::external_body]
pub struct ExDynamicLibrary(DynamicLibrary);

/// The loaded VA-API driver library.
pub struct Library {
    lib: DynamicLibrary,
}

impl Library {
    pub closed spec fn lib_spec(&self) -> DynamicLibrary {
        self.lib
    }

    pub fn new(lib: DynamicLibrary) -> (r: Arc<Library>)
        ensures
            r.lib_spec() == lib,
    {
        Arc::new(Library { lib })
    }

    pub fn lib(&self) -> (r: &DynamicLibrary)
        ensures
            *r == self.lib_spec(),
    {
        &self.lib
    }
}

/// An initialised VA-API display.
pub struct Display {
    handle: usize,
    library: Arc<Library>,
}

impl Display {
    pub closed spec fn handle_spec(&self) -> usize {
        self.handle
    }

    pub closed spec fn library_spec(&self) -> Arc<Library> {
        self.library
    }

    /// Wraps the native display `handle`, already initialised through `library`.
    pub fn from_raw(library: Arc<Library>, handle: usize) -> (r: Arc<Display>)
        ensures
            r.handle_spec() == handle,
            r.library_spec() == library,
    {
        Arc::new(Display { handle, library })
    }

    pub fn handle(&self) -> (r: usize)
        ensures
            r == self.handle_spec(),
    {
        self.handle
    }

    pub fn library(&self) -> (r: &Arc<Library>)
        ensures
            *r == self.library_spec(),
    {
        &self.library
    }
}

/// A VA-API configuration of a display.
pub struct Config {
    handle: u32,
    display: Arc<Display>,
}

impl Config {
    pub closed spec fn handle_spec(&self) -> u32 {
        self.handle
    }

    pub closed spec fn display_spec(&self) -> Arc<Display> {
        self.display
    }

    pub fn from_raw(display: Arc<Display>, handle: u32) -> (r: Arc<Config>)
        ensures
            r.handle_spec() == handle,
            r.display_spec() == display,
    {
        Arc::new(Config { handle, display })
    }

    pub fn handle(&self) -> (r: u32)
        ensures
            r == self.handle_spec(),
    {
        self.handle
    }

    pub fn display(&self) -> (r: &Arc<Display>)
        ensures
            *r == self.display_spec(),
    {
        &self.display
    }

    pub fn library(&self) -> (r: &Arc<Library>)
        ensures
            *r == self.display_spec().library_spec(),
    {
        self.display.library()
    }
}

/// A VA-API surface of a display.
pub struct Surface {
    handle: u32,
    display: Arc<Display>,
}

impl Surface {
    pub closed spec fn handle_spec(&self) -> u32 {
        self.handle
    }

    pub closed spec fn display_spec(&self) -> Arc<Display> {
        self.display
    }

    /// Wraps the surface `handle` that was created on `display`.
    pub fn new(display: Arc<Display>, handle: u32) -> (r: Arc<Surface>)
        ensures
            r.handle_spec() == handle,
            r.display_spec() == display,
    {
        Arc::new(Surface { handle, display })
    }

    /// Wraps each of the surface `handles` created together on `display`, in order.
    pub fn new_many(display: Arc<Display>, handles: &Vec<u32>) -> (r: Vec<Arc<Surface>>)
        ensures
            r@.len() == handles@.len(),
            forall|i: int|
                0 <= i < handles@.len() ==> (#[trigger] r@[i]).handle_spec() == handles@[i]
                    && r@[i].display_spec() == display,
    {
        let mut surfaces: Vec<Arc<Surface>> = Vec::new();
        let mut i: usize = 0;
        while i < handles.len()
            invariant
                i <= handles@.len(),
                surfaces@.len() == i,
                forall|j: int|
                    0 <= j < i ==> (#[trigger] surfaces@[j]).handle_spec() == handles@[j]
                        && surfaces@[j].display_spec() == display,
            decreases handles.len() - i,
        {
            surfaces.push(Surface::new(display.clone(), handles[i]));
            i += 1;
        }
        surfaces
    }

    pub fn handle(&self) -> (r: u32)
        ensures
            r == self.handle_spec(),
    {
        self.handle
    }

    pub fn library(&self) -> (r: &Arc<Library>)
        ensures
            *r == self.display_spec().library_spec(),
    {
        self.display.library()
    }

    pub fn display(&self) -> (r: &Arc<Display>)
        ensures
            *r == self.display_spec(),
    {
        &self.display
    }
}

/// A VA-API processing or coding context, holding its render targets alive.
pub struct Context {
    handle: u32,
    config: Arc<Config>,
    targets: Vec<Arc<Surface>>,
}

impl Context {
    pub closed spec fn handle_spec(&self) -> u32 {
        self.handle
    }

    pub closed spec fn config_spec(&self) -> Arc<Config> {
        self.config
    }

    pub closed spec fn targets_spec(&self) -> Seq<Arc<Surface>> {
        self.targets@
    }

    /// Wraps the context `handle` created from `config` over `render_targets`.
    pub fn from_raw(config: Arc<Config>, handle: u32, render_targets: Vec<Arc<Surface>>) -> (r: Arc<
        Context,
    >)
        ensures
            r.handle_spec() == handle,
            r.config_spec() == config,
            r.targets_spec() == render_targets@,
    {
        Arc::new(Context { handle, config, targets: render_targets })
    }

    pub fn handle(&self) -> (r: u32)
        ensures
            r == self.handle_spec(),
    {
        self.handle
    }

    pub fn config(&self) -> (r: &Arc<Config>)
        ensures
            *r == self.config_spec(),
    {
        &self.config
    }

    pub fn display(&self) -> (r: &Arc<Display>)
        ensures
            *r == self.config_spec().display_spec(),
    {
        self.config.display()
    }
}

/// The native handles of `surfaces`, in order.
pub open spec fn surface_ids(surfaces: Seq<Arc<Surface>>) -> Seq<u32> {
    surfaces.map_values(|s: Arc<Surface>| s.handle_spec())
}

/// The handles of the render targets, to create a context over.
pub fn render_target_ids(render_targets: &Vec<Arc<Surface>>) -> (r: Vec<u32>)
    ensures
        r@ == surface_ids(render_targets@),
{
    let mut ids: Vec<u32> = Vec::new();
    let mut i: usize = 0;
    while i < render_targets.len()
        invariant
            i <= render_targets@.len(),
            ids@ == surface_ids(render_targets@.take(i as int)),
        decreases render_targets.len() - i,
    {
        ids.push(render_targets[i].handle());
        proof {
            assert(render_targets@.take(i as int + 1) =~= render_targets@.take(i as int).push(
                render_targets@[i as int],
            ));
            assert(surface_ids(render_targets@.take(i as int + 1)) =~= surface_ids(render_targets@.take(i as int)).push(render_targets@[i as int].handle_spec()));
        }
        i += 1;
    }
    proof {
        assert(render_targets@.take(render_targets@.len() as int) =~= render_targets@);
    }
    ids
}

/// The prefix of a DRM render node's file name.
pub open spec fn render_node_prefix() -> Seq<u8> {
    seq![114u8, 101u8, 110u8, 100u8, 101u8, 114u8, 68u8]
}

pub open spec fn is_digit(b: u8) -> bool {
    48 <= b <= 57
}

/// The value of a string of decimal digits.
pub open spec fn digits_value(s: Seq<u8>) -> int
    decreases s.len(),
{
    if s.len() == 0 {
        0
    } else {
        digits_value(s.drop_last()) * 10 + (s.last() - 48)
    }
}

/// The node number of a render node's file name: `renderD` followed by decimal
/// digits whose value fits in 32 bits.
pub open spec fn render_node_spec(name: Seq<u8>) -> Option<u32> {
    let digits = name.skip(7);
    if name.len() > 7 && name.take(7) == render_node_prefix() && (forall|i: int|
        0 <= i < digits.len() ==> is_digit(#[trigger] digits[i])) && digits_value(digits)
        <= u32::MAX {
        Some(digits_value(digits) as u32)
    } else {
        None
    }
}

proof fn lemma_digits_value_grows(s: Seq<u8>, i: int, j: int)
    requires
        0 <= i <= j <= s.len(),
        forall|k: int| 0 <= k < s.len() ==> is_digit(#[trigger] s[k]),
    ensures
        digits_value(s.take(i)) <= digits_value(s.take(j)),
    decreases j - i,
{
    if i < j {
        lemma_digits_value_grows(s, i, j - 1);
        assert(s.take(j).drop_last() =~= s.take(j - 1));
        assert(is_digit(s[j - 1]));
        assert(digits_value(s.take(j - 1)) >= 0) by {
            lemma_digits_value_nonneg(s.take(j - 1));
        }
    }
}

proof fn lemma_digits_value_nonneg(s: Seq<u8>)
    requires
        forall|k: int| 0 <= k < s.len() ==> is_digit(#[trigger] s[k]),
    ensures
        digits_value(s) >= 0,
    decreases s.len(),
{
    if s.len() > 0 {
        assert forall|k: int| 0 <= k < s.drop_last().len() implies is_digit(#[trigger] s.drop_last()[k]) by {
            assert(s.drop_last()[k] == s[k]);
        }
        lemma_digits_value_nonneg(s.drop_last());
    }
}

/// Reads the node number out of a DRM render node's file name such as `renderD128`.
pub fn render_node_id(name: &str) -> (r: Option<u32>)
    ensures
        r == render_node_spec(name.spec_bytes()),
{
    let bytes = name.as_bytes();
    let ghost b = bytes@;
    let prefix: [u8; 7] = [114u8, 101u8, 110u8, 100u8, 101u8, 114u8, 68u8];
    if bytes.len() <= 7 {
        return None;
    }
    let mut i: usize = 0;
    while i < 7
        invariant
            i <= 7,
            b.len() > 7,
            bytes@ == b,
            b == name.spec_bytes(),
            prefix@ == render_node_prefix(),
            forall|k: int| 0 <= k < i ==> b[k] == render_node_prefix()[k],
        decreases 7 - i,
    {
        if bytes[i] != prefix[i] {
            proof {
                assert(b.take(7)[i as int] != render_node_prefix()[i as int]);
            }
            return None;
        }
        i += 1;
    }
    proof {
        assert(b.take(7) =~= render_node_prefix());
    }
    let ghost digits = b.skip(7);
    let mut value: u32 = 0;
    let mut j: usize = 7;
    while j < bytes.len()
        invariant
            7 <= j <= b.len(),
            bytes@ == b,
            b == name.spec_bytes(),
            digits == b.skip(7),
            b.take(7) == render_node_prefix(),
            forall|k: int| 0 <= k < j - 7 ==> is_digit(#[trigger] digits[k]),
            value as int == digits_value(digits.take(j - 7)),
        decreases b.len() - j,
    {
        let c = bytes[j];
        if c < 48u8 || c > 57u8 {
            proof {
                assert(!is_digit(digits[j - 7]));
            }
            return None;
        }
        let d = (c - 48u8) as u32;
        proof {
            assert(digits.take(j - 7 + 1).drop_last() =~= digits.take(j - 7));
            assert(digits.take(j - 7 + 1).last() == c);
        }
        if value > (u32::MAX - d) / 10 {
            proof {
                assert(digits_value(digits.take(j - 7 + 1)) > u32::MAX) by (nonlinear_arith)
                    requires
                        value > (u32::MAX - d) / 10,
                        digits_value(digits.take(j - 7 + 1)) == value * 10 + d,
                ;
                if forall|k: int| 0 <= k < digits.len() ==> is_digit(#[trigger] digits[k]) {
                    lemma_digits_value_grows(digits, j - 7 + 1, digits.len() as int);
                    assert(digits.take(digits.len() as int) =~= digits);
                }
            }
            return None;
        }
        value = value * 10 + d;
        j += 1;
    }
    proof {
        assert(digits.take(digits.len() as int) =~= digits);
    }
    Some(value)
}

} // verus!
