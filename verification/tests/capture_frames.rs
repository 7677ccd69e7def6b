use peekaboox::dmabuf::{
    dmabuf_descriptor_from_candidate, fourcc_code, import_dmabuf_frame,
    prepare_dmabuf_import_descriptor, DmaBufFrameCandidate, DmaBufFrameDescriptor,
    DmaBufImportTarget, DmaBufMemoryLayout, DmaBufPlaneCandidate, DmaBufPlaneDescriptor,
    DmaBufSynchronization, DRM_FORMAT_MOD_INVALID,
};
use peekaboox::frame::{
    crop_frame, grim_region_geometry, validate_region, validate_region_capture_frame,
    x11_region_geometry, CaptureBackend, UnimplementedCaptureBackend,
};
use peekaboox::types::{CaptureFrame, PixelFormat, Rect};
use peekaboox::uri::{file_uri_to_path, portal_request_path_from_unique_name};
fn descriptor_with_fd(fd: i32) -> DmaBufFrameDescriptor {
    let mut descriptor = single_plane_dmabuf_descriptor();
    descriptor.planes[0].fd = fd;
    descriptor
}

fn single_plane_dmabuf_descriptor() -> DmaBufFrameDescriptor {
    DmaBufFrameDescriptor {
        width: 1920,
        height: 1080,
        format: PixelFormat::Bgra8,
        fourcc: fourcc_code(b'X', b'R', b'2', b'4'),
        planes: vec![DmaBufPlaneDescriptor {
            fd: 12,
            offset: 128,
            stride: 7680,
            modifier: DRM_FORMAT_MOD_INVALID,
        }],
    }
}

fn unimplemented_backend_error() {
    let backend = UnimplementedCaptureBackend;
    let error = backend.capture_screen().unwrap_err();
    assert!(error.message().contains("capture backend"));
}

#[test]
fn lib_unimplemented_backend_returns_typed_error() {
    unimplemented_backend_error();
}

#[test]
fn tests_unimplemented_backend_returns_typed_error() {
    unimplemented_backend_error();
}

#[test]
fn derives_portal_request_path_before_method_call() {
    let path = portal_request_path_from_unique_name(":1.42", "peekaboox_token").unwrap();
    assert_eq!(
        path.to_string(),
        "/org/freedesktop/portal/desktop/request/1_42/peekaboox_token"
    );
}

#[test]
fn lib_uses_linux_drm_invalid_modifier_value() {
    assert_eq!(DRM_FORMAT_MOD_INVALID, 0x00ff_ffff_ffff_ffff);
}

#[test]
fn tests_uses_linux_drm_invalid_modifier_value() {
    assert_eq!(DRM_FORMAT_MOD_INVALID, 0x00ff_ffff_ffff_ffff);
}

fn builds_descriptor_from_candidate() {
    let fd = 7;
    let descriptor = dmabuf_descriptor_from_candidate(DmaBufFrameCandidate {
        width: 1920,
        height: 1080,
        format: PixelFormat::Bgra8,
        fourcc: fourcc_code(b'X', b'R', b'2', b'4'),
        modifier: DRM_FORMAT_MOD_INVALID,
        planes: vec![DmaBufPlaneCandidate { fd, offset: 128, stride: 7680 }],
    })
    .unwrap();
    assert_eq!(descriptor.width, 1920);
    assert_eq!(descriptor.height, 1080);
    assert_eq!(descriptor.format, PixelFormat::Bgra8);
    assert_eq!(descriptor.fourcc, fourcc_code(b'X', b'R', b'2', b'4'));
    assert_eq!(descriptor.planes.len(), 1);
    assert_eq!(descriptor.planes[0].fd, fd);
    assert_eq!(descriptor.planes[0].offset, 128);
    assert_eq!(descriptor.planes[0].stride, 7680);
    assert_eq!(descriptor.planes[0].modifier, DRM_FORMAT_MOD_INVALID);
}

#[test]
fn lib_builds_dmabuf_descriptor_from_pipewire_plane_metadata() {
    builds_descriptor_from_candidate();
}

#[test]
fn tests_builds_dmabuf_descriptor_from_pipewire_plane_metadata() {
    builds_descriptor_from_candidate();
}

fn rejects_candidate_without_planes() {
    let error = dmabuf_descriptor_from_candidate(DmaBufFrameCandidate {
        width: 1920,
        height: 1080,
        format: PixelFormat::Bgra8,
        fourcc: fourcc_code(b'X', b'R', b'2', b'4'),
        modifier: DRM_FORMAT_MOD_INVALID,
        planes: Vec::new(),
    })
    .unwrap_err();
    assert!(error.error.message().contains("did not expose any planes"));
    assert!(error.plane_fds.is_empty());
}

#[test]
fn lib_rejects_dmabuf_descriptor_without_planes() {
    rejects_candidate_without_planes();
}

#[test]
fn tests_rejects_dmabuf_descriptor_without_planes() {
    rejects_candidate_without_planes();
}

#[test]
fn closes_candidate_plane_fds_when_validation_fails() {
    let valid_fd = 5;
    let invalid_fd = 6;

    let rejected = dmabuf_descriptor_from_candidate(DmaBufFrameCandidate {
        width: 1920,
        height: 1080,
        format: PixelFormat::Bgra8,
        fourcc: fourcc_code(b'X', b'R', b'2', b'4'),
        modifier: DRM_FORMAT_MOD_INVALID,
        planes: vec![
            DmaBufPlaneCandidate { fd: valid_fd, offset: 128, stride: 7680 },
            DmaBufPlaneCandidate { fd: invalid_fd, offset: 128, stride: 0 },
        ],
    })
    .unwrap_err();

    assert!(rejected.error.message().contains("zero stride"));
    assert_eq!(rejected.error.message(), "PipeWire DMA-BUF plane 1 has zero stride");
    // Both descriptors come back to the caller, who closes them.
    assert_eq!(rejected.plane_fds, vec![valid_fd, invalid_fd]);
}

fn prepares_for_compute() {
    let descriptor = descriptor_with_fd(12);
    let fd = descriptor.planes[0].fd;
    let duplicate = 40;

    let import =
        prepare_dmabuf_import_descriptor(&descriptor, DmaBufImportTarget::Compute, &[duplicate])
            .unwrap();

    assert_eq!(import.target, DmaBufImportTarget::Compute);
    assert_eq!(import.width, 1920);
    assert_eq!(import.height, 1080);
    assert_eq!(import.format, PixelFormat::Bgra8);
    assert_eq!(import.fourcc, fourcc_code(b'X', b'R', b'2', b'4'));
    assert_eq!(import.memory_layout, DmaBufMemoryLayout::SinglePlane);
    assert_eq!(import.synchronization, DmaBufSynchronization::Implicit);
    assert_eq!(import.planes.len(), 1);
    assert_eq!(import.planes[0].plane_index, 0);
    assert_ne!(import.planes[0].fd, fd);
    assert_eq!(import.planes[0].fd, duplicate);
    assert_eq!(import.planes[0].offset, 128);
    assert_eq!(import.planes[0].stride, 7680);
    assert_eq!(import.planes[0].modifier, DRM_FORMAT_MOD_INVALID);
}

#[test]
fn lib_prepares_dmabuf_import_descriptor_for_compute_backend() {
    prepares_for_compute();
}

#[test]
fn tests_prepares_dmabuf_import_descriptor_for_compute_backend() {
    prepares_for_compute();
}

#[test]
fn import_descriptor_keeps_fd_valid_after_source_descriptor_drops() {
    let descriptor = descriptor_with_fd(12);
    let source_fd = descriptor.planes[0].fd;
    let import =
        prepare_dmabuf_import_descriptor(&descriptor, DmaBufImportTarget::Compute, &[40]).unwrap();
    let import_fd = import.planes[0].fd;

    drop(descriptor);

    // The import holds its own descriptor, not the one the frame released.
    assert_ne!(import_fd, source_fd);
    assert_eq!(import.planes[0].fd, 40);
    drop(import);
}

fn imports_with_named_backend() {
    let descriptor = single_plane_dmabuf_descriptor();
    let imported = import_dmabuf_frame(&descriptor, DmaBufImportTarget::Vulkan, &[13]).unwrap();
    assert_eq!(imported.descriptor.planes[0].fd, 13);
    assert_eq!(imported.backend_name, "dmabuf-import-vulkan");
    assert_eq!(imported.backend_kind, DmaBufImportTarget::Vulkan);
    assert_eq!(imported.descriptor.target, DmaBufImportTarget::Vulkan);
}

#[test]
fn lib_imports_dmabuf_frame_with_named_target_backend() {
    imports_with_named_backend();
}

#[test]
fn tests_imports_dmabuf_frame_with_named_target_backend() {
    imports_with_named_backend();
}

fn rejects_fourcc_mismatch() {
    let mut descriptor = single_plane_dmabuf_descriptor();
    descriptor.fourcc = fourcc_code(b'R', b'G', b'2', b'4');
    let error = prepare_dmabuf_import_descriptor(&descriptor, DmaBufImportTarget::Compute, &[13]).unwrap_err();
    assert!(error.message().contains("does not match"));
    assert_eq!(
        error.message(),
        "DMA-BUF pixel format Bgra8 does not match fourcc 0x34324752"
    );
}

#[test]
fn lib_rejects_dmabuf_import_when_fourcc_does_not_match_pixel_format() {
    rejects_fourcc_mismatch();
}

#[test]
fn tests_rejects_dmabuf_import_when_fourcc_does_not_match_pixel_format() {
    rejects_fourcc_mismatch();
}

fn rejects_small_stride() {
    let mut descriptor = single_plane_dmabuf_descriptor();
    descriptor.planes[0].stride = 4;
    let error = prepare_dmabuf_import_descriptor(&descriptor, DmaBufImportTarget::Compute, &[13]).unwrap_err();
    assert!(error.message().contains("smaller than row width"));
    assert_eq!(
        error.message(),
        "DMA-BUF plane 0 stride 4 is smaller than row width 7680"
    );
}

#[test]
fn lib_rejects_dmabuf_import_when_stride_is_too_small() {
    rejects_small_stride();
}

#[test]
fn tests_rejects_dmabuf_import_when_stride_is_too_small() {
    rejects_small_stride();
}

#[test]
fn rejects_unsupported_fourcc_and_zero_size() {
    let mut descriptor = single_plane_dmabuf_descriptor();
    descriptor.fourcc = 0x1234_abcd;
    let error = prepare_dmabuf_import_descriptor(&descriptor, DmaBufImportTarget::Egl, &[13]).unwrap_err();
    assert_eq!(
        error.message(),
        "unsupported DMA-BUF fourcc 0x1234abcd; supported import formats are XR24, AR24, XB24, AB24, and RG24"
    );
    let mut descriptor = single_plane_dmabuf_descriptor();
    descriptor.height = 0;
    let error = prepare_dmabuf_import_descriptor(&descriptor, DmaBufImportTarget::Egl, &[13]).unwrap_err();
    assert_eq!(error.message(), "invalid DMA-BUF frame dimensions 1920x0");
}

fn formats_geometry() {
    let region = Rect::new(10, 20, 300, 120);
    assert_eq!(grim_region_geometry(region), "10,20 300x120");
    assert_eq!(x11_region_geometry(region), "300x120+10+20");
}

#[test]
fn lib_formats_region_geometry_for_capture_tools() {
    formats_geometry();
}

#[test]
fn tests_formats_region_geometry_for_capture_tools() {
    formats_geometry();
}

#[test]
fn formats_negative_region_origin() {
    let region = Rect::new(-5, -7, 1, 2);
    assert_eq!(grim_region_geometry(region), "-5,-7 1x2");
    assert_eq!(x11_region_geometry(region), "1x2+-5+-7");
}

fn crops_with_format() {
    let frame = CaptureFrame {
        width: 3,
        height: 2,
        stride: 9,
        format: PixelFormat::Rgb8,
        data: vec![1, 2, 3, 4, 5, 6, 7, 8, 9, 10, 11, 12, 13, 14, 15, 16, 17, 18],
    };
    let cropped = crop_frame(&frame, Rect::new(1, 0, 2, 2)).unwrap();
    assert_eq!(cropped.width, 2);
    assert_eq!(cropped.height, 2);
    assert_eq!(cropped.stride, 6);
    assert_eq!(cropped.format, PixelFormat::Rgb8);
    assert_eq!(cropped.data, vec![4, 5, 6, 7, 8, 9, 13, 14, 15, 16, 17, 18]);
}

#[test]
fn lib_crops_frame_region_with_preserved_format() {
    crops_with_format();
}

#[test]
fn tests_crops_frame_region_with_preserved_format() {
    crops_with_format();
}

fn rejects_negative_region() {
    let backend = peekaboox::capture_run::CommandCaptureBackend;
    let environment = peekaboox::backends::CaptureEnvironment {
        session_type: peekaboox::backends::SessionType::Wayland,
        current_desktop: Some("sway".to_owned()),
        pipewire_session_available: false,
        commands: vec!["grim".to_owned()],
    };
    let error = backend
        .region_capture_attempts(&environment, Rect::new(-1, 0, 10, 10))
        .unwrap_err();
    assert!(error.message().contains("non-negative"));
    assert_eq!(error.message(), validate_region(Rect::new(-1, 0, 10, 10)).unwrap_err().message());
}

#[test]
fn lib_rejects_invalid_capture_region() {
    rejects_negative_region();
}

#[test]
fn tests_rejects_invalid_capture_region() {
    rejects_negative_region();
}

fn rejects_mismatched_frame() {
    let frame = CaptureFrame {
        width: 9,
        height: 10,
        stride: 36,
        format: PixelFormat::Rgba8,
        data: vec![0; 9 * 10 * 4],
    };
    let error = validate_region_capture_frame(frame, Rect::new(0, 0, 10, 10)).unwrap_err();
    assert!(error.message().contains("expected 10x10"));
}

#[test]
fn lib_rejects_mismatched_region_capture_frame_dimensions() {
    rejects_mismatched_frame();
}

#[test]
fn tests_rejects_mismatched_region_capture_frame_dimensions() {
    rejects_mismatched_frame();
}

fn decodes_uri() {
    let path = file_uri_to_path("file:///tmp/PeekabooX%20Screenshot.png").unwrap();
    assert_eq!(std::path::Path::new(&path), std::path::Path::new("/tmp/PeekabooX Screenshot.png"));
}

#[test]
fn lib_decodes_file_uri_paths() {
    decodes_uri();
}

#[test]
fn tests_decodes_file_uri_paths() {
    decodes_uri();
}

#[test]
fn dmabuf_frames_need_a_pipewire_consumer() {
    let error = peekaboox::dmabuf::capture_first_dmabuf_frame(42, "xdg-desktop-portal-screencast")
        .unwrap_err();
    assert_eq!(
        error.message(),
        "opened PipeWire ScreenCast stream node 42 via xdg-desktop-portal-screencast, but this build was compiled without the `pipewire-backend` feature required to consume DMA-BUF buffers"
    );
}
