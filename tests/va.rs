use std::sync::Arc;

use vendec::va::{
    render_node_id, render_target_ids, surface_attributes, ByteOrder, Config, Context, Display, ErrorStatus,
    Fourcc, Library, Surface, SurfaceAttrib, VaStatusExt, VA_SURFACE_ATTRIB_PIXEL_FORMAT,
    VA_SURFACE_ATTRIB_SETTABLE, VA_SURFACE_ATTRIB_USAGE_HINT, VA_SURFACE_ATTRIB_USAGE_HINT_GENERIC,
};

#[test]
fn success_is_no_error() {
    assert_eq!(ErrorStatus::from_status(0), None);
    assert_eq!(ErrorStatus::result(0), Ok(()));
    assert_eq!(0.va_result(), Ok(()));
    assert_eq!(0.va_result_with_success(7u8), Ok(7u8));
}

#[test]
fn status_codes_map_to_errors() {
    assert_eq!(ErrorStatus::from_status(1), Some(ErrorStatus::OperationFailed));
    assert_eq!(ErrorStatus::from_status(3), Some(ErrorStatus::InvalidDisplay));
    assert_eq!(ErrorStatus::from_status(0x12), Some(ErrorStatus::InvalidParameter));
    assert_eq!(ErrorStatus::from_status(0x22), Some(ErrorStatus::HwBusy));
    assert_eq!(ErrorStatus::from_status(0x24), Some(ErrorStatus::UnsupportedMemoryType));
    assert_eq!(ErrorStatus::from_status(0x26), Some(ErrorStatus::TimedOut));
    assert_eq!(ErrorStatus::from_status(0x23), Some(ErrorStatus::Unknown));
    assert_eq!(ErrorStatus::from_status(-1), Some(ErrorStatus::Unknown));
    assert_eq!(ErrorStatus::result(0xe), Err(ErrorStatus::UnsupportedRtFormat));
    assert_eq!(6.va_result(), Err(ErrorStatus::InvalidSurface));
    assert_eq!(0x14.va_result_with_success("x"), Err(ErrorStatus::Unimplemented));
}

#[test]
fn fourcc_from_text() {
    let nv12 = Fourcc::try_from("NV12").unwrap();
    assert_eq!(u32::from(nv12), 0x3231_564e);
    assert_eq!(nv12.to_bytes(), *b"NV12");
    assert_eq!(Fourcc::from(0x3231_564e), nv12);
    assert_eq!(Fourcc::try_from("RGB32"), Err(()));
    assert_eq!(Fourcc::try_from("RGB"), Err(()));
    assert_eq!(u32::from(Fourcc::try_from("RGBA").unwrap()), 0x4142_4752);
}

#[test]
fn byte_order_round_trip() {
    assert_eq!(ByteOrder::try_from(1u32), Ok(ByteOrder::LsbFirst));
    assert_eq!(ByteOrder::try_from(2u32), Ok(ByteOrder::MsbFirst));
    assert_eq!(ByteOrder::try_from(0u32), Err(()));
    assert_eq!(u32::from(ByteOrder::LsbFirst), 1);
    assert_eq!(u32::from(ByteOrder::MsbFirst), 2);
}

#[test]
fn surface_attributes_put_pixel_format_first() {
    let nv12 = Fourcc::try_from("NV12").unwrap();
    assert_eq!(
        surface_attributes(Some(nv12), VA_SURFACE_ATTRIB_USAGE_HINT_GENERIC),
        vec![
            SurfaceAttrib { attrib_type: VA_SURFACE_ATTRIB_PIXEL_FORMAT, flags: VA_SURFACE_ATTRIB_SETTABLE, value: 0x3231_564e },
            SurfaceAttrib { attrib_type: VA_SURFACE_ATTRIB_USAGE_HINT, flags: VA_SURFACE_ATTRIB_SETTABLE, value: 0 },
        ]
    );
    assert_eq!(
        surface_attributes(None, 2),
        vec![SurfaceAttrib { attrib_type: VA_SURFACE_ATTRIB_USAGE_HINT, flags: VA_SURFACE_ATTRIB_SETTABLE, value: 2 }]
    );
}

#[test]
fn display_objects_keep_their_parents() {
    let loaded = libloading::os::unix::Library::this();
    let library = Library::new(loaded.into());
    let display = Display::from_raw(library.clone(), 0x1000);
    assert_eq!(display.handle(), 0x1000);
    assert!(Arc::ptr_eq(display.library(), &library));
    let config = Config::from_raw(display.clone(), 3);
    assert_eq!(config.handle(), 3);
    assert!(Arc::ptr_eq(config.display(), &display));
    assert!(Arc::ptr_eq(config.library(), &library));
    let surfaces = Surface::new_many(display.clone(), &vec![7, 8]);
    assert_eq!(surfaces.iter().map(|s| s.handle()).collect::<Vec<_>>(), vec![7, 8]);
    let single = Surface::new(display.clone(), 9);
    assert_eq!(single.handle(), 9);
    assert!(Arc::ptr_eq(single.library(), &library));
    assert!(Arc::ptr_eq(single.display(), &display));
    assert_eq!(render_target_ids(&surfaces), vec![7, 8]);
    let context = Context::from_raw(config.clone(), 11, surfaces);
    assert_eq!(context.handle(), 11);
    assert!(Arc::ptr_eq(context.config(), &config));
    assert!(Arc::ptr_eq(context.display(), &display));
}

#[test]
fn render_node_names() {
    assert_eq!(render_node_id("renderD128"), Some(128));
    assert_eq!(render_node_id("renderD0"), Some(0));
    assert_eq!(render_node_id("renderD4294967295"), Some(u32::MAX));
    assert_eq!(render_node_id("renderD4294967296"), None);
    assert_eq!(render_node_id("renderD"), None);
    assert_eq!(render_node_id("card0"), None);
    assert_eq!(render_node_id("renderD12a"), None);
    assert_eq!(render_node_id("renderd128"), None);
}
