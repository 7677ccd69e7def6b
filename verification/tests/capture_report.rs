use peekaboox::backends::{capture_backend_capabilities, CaptureEnvironment, SessionType};
use peekaboox::capture_report::{
    dmabuf_capture_probe_result, file_probe_result, frame_probe_result, listed_image_backends,
    probe_error_result, probe_region, region_probe_result,
};
use peekaboox::frame::CaptureFrameSource;
use peekaboox::types::{BackendKind, PixelFormat, Rect};

#[test]
fn probe_results_describe_what_was_captured() {
    let file = file_probe_result("scrot".to_owned(), BackendKind::X11, "/tmp/shot.png".to_owned(), 2048);
    assert!(file.ok);
    assert_eq!(file.probe, "file");
    assert_eq!(file.backend_kind.as_deref(), Some("x11"));
    assert_eq!(file.detail, "wrote 2048 bytes");
    assert_eq!(file.bytes_written, Some(2048));

    let frame = frame_probe_result("grim".to_owned(), BackendKind::Wayland, 1920, 1080, CaptureFrameSource::DirectStdout);
    assert_eq!(frame.detail, "captured 1920x1080 via direct-stdout");
    assert_eq!(frame.width, Some(1920));

    let region = region_probe_result(
        Rect::new(0, 0, 320, 180),
        "maim".to_owned(),
        BackendKind::X11,
        320,
        180,
        CaptureFrameSource::FullFrameCrop,
    );
    assert_eq!(region.detail, "captured 320x180 region 0,0,320x180 via full-frame-crop");

    let dmabuf = dmabuf_capture_probe_result("portal".to_owned(), 42, None, 1280, 720, "bgra8", 1);
    assert_eq!(dmabuf.backend_kind.as_deref(), Some("compute"));
    assert_eq!(
        dmabuf.detail,
        "stream node_id=42 pipewire_serial=- frame=1280x720 format=bgra8 planes=1"
    );
    let serial = dmabuf_capture_probe_result("portal".to_owned(), 42, Some(9001), 1280, 720, "bgra8", 2);
    assert_eq!(
        serial.detail,
        "stream node_id=42 pipewire_serial=9001 frame=1280x720 format=bgra8 planes=2"
    );

    let failed = probe_error_result("frame", "no backend".to_owned());
    assert!(!failed.ok);
    assert_eq!(failed.probe, "frame");
    assert_eq!(failed.detail, "no backend");
    assert_eq!(failed.backend_name, None);
}

#[test]
fn region_probe_defaults_to_the_top_left_corner() {
    assert_eq!(probe_region(None), Rect::new(0, 0, 320, 180));
    assert_eq!(probe_region(Some(Rect::new(5, 6, 7, 8))), Rect::new(5, 6, 7, 8));
}

#[test]
fn reports_list_unusable_backends_only_when_diagnosing() {
    let environment = CaptureEnvironment {
        session_type: SessionType::X11,
        current_desktop: None,
        pipewire_session_available: false,
        commands: vec!["scrot".to_owned()],
    };
    let all = capture_backend_capabilities(&environment, "shot.png");
    let listed = listed_image_backends(all.clone(), false);
    assert!(!listed.is_empty());
    assert!(listed.iter().all(|capability| capability.reason.is_none()));
    assert!(listed.len() < all.len());
    assert_eq!(listed_image_backends(all.clone(), true), all);
}

#[test]
fn pixel_formats_have_lower_case_report_names() {
    assert_eq!(PixelFormat::Bgra8.report_name(), "bgra8");
    assert_eq!(PixelFormat::Rgba8.report_name(), "rgba8");
    assert_eq!(PixelFormat::Rgb8.report_name(), "rgb8");
}
