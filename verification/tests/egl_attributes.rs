use peekaboox::dmabuf::{
    fourcc_code, DmaBufFrameImportDescriptor, DmaBufImportTarget, DmaBufMemoryLayout,
    DmaBufPlaneImportDescriptor, DmaBufSynchronization, DRM_FORMAT_MOD_INVALID,
};
use peekaboox::egl::{
    egl_dma_buf_attributes, egl_extension_present, plane_fd_attr, plane_modifier_hi_attr,
    plane_modifier_lo_attr, plane_offset_attr, plane_pitch_attr, EGL_EXT_IMAGE_DMA_BUF_IMPORT,
    EGL_HEIGHT, EGL_LINUX_DRM_FOURCC_EXT, EGL_NONE, EGL_WIDTH,
};
use peekaboox::types::PixelFormat;

fn egl_import_descriptor(modifier: u64) -> DmaBufFrameImportDescriptor {
    DmaBufFrameImportDescriptor {
        target: DmaBufImportTarget::Egl,
        width: 1920,
        height: 1080,
        format: PixelFormat::Bgra8,
        fourcc: fourcc_code(b'X', b'R', b'2', b'4'),
        memory_layout: DmaBufMemoryLayout::SinglePlane,
        synchronization: DmaBufSynchronization::Implicit,
        planes: vec![DmaBufPlaneImportDescriptor {
            plane_index: 0,
            fd: 12,
            offset: 128,
            stride: 7680,
            modifier,
        }],
    }
}

#[test]
fn builds_egl_attributes_without_invalid_modifier() {
    let descriptor = egl_import_descriptor(DRM_FORMAT_MOD_INVALID);
    let attributes = egl_dma_buf_attributes(&descriptor, false).unwrap();
    assert_eq!(
        attributes,
        vec![
            EGL_WIDTH,
            1920,
            EGL_HEIGHT,
            1080,
            EGL_LINUX_DRM_FOURCC_EXT,
            fourcc_code(b'X', b'R', b'2', b'4') as i32,
            plane_fd_attr(0),
            12,
            plane_offset_attr(0),
            128,
            plane_pitch_attr(0),
            7680,
            EGL_NONE,
        ]
    );
}

#[test]
fn builds_egl_attributes_with_explicit_modifier() {
    let descriptor = egl_import_descriptor(0x0102_0304_0506_0708);
    let attributes = egl_dma_buf_attributes(&descriptor, true).unwrap();
    assert_eq!(
        attributes,
        vec![
            EGL_WIDTH,
            1920,
            EGL_HEIGHT,
            1080,
            EGL_LINUX_DRM_FOURCC_EXT,
            fourcc_code(b'X', b'R', b'2', b'4') as i32,
            plane_fd_attr(0),
            12,
            plane_offset_attr(0),
            128,
            plane_pitch_attr(0),
            7680,
            plane_modifier_lo_attr(0),
            0x0506_0708,
            plane_modifier_hi_attr(0),
            0x0102_0304,
            EGL_NONE,
        ]
    );
    assert_eq!(plane_fd_attr(0), 0x3272);
    assert_eq!(plane_modifier_hi_attr(3), 0x344a);
}

#[test]
fn rejects_explicit_modifier_when_egl_extension_is_missing() {
    let descriptor = egl_import_descriptor(0x0102_0304_0506_0708);
    let error = egl_dma_buf_attributes(&descriptor, false).unwrap_err();
    assert!(error.message().contains("modifier support"));
}

#[test]
fn rejects_width_that_overflows_egl_int() {
    let mut descriptor = egl_import_descriptor(DRM_FORMAT_MOD_INVALID);
    descriptor.width = 0x8000_0000;
    let error = egl_dma_buf_attributes(&descriptor, true).unwrap_err();
    assert_eq!(error.message(), "EGL DMA-BUF width value 2147483648 overflows EGLint");
}

#[test]
fn detects_egl_extension_as_ascii_word() {
    assert!(egl_extension_present(
        "EGL_EXT_alpha EGL_EXT_image_dma_buf_import EGL_EXT_beta",
        EGL_EXT_IMAGE_DMA_BUF_IMPORT
    ));
    assert!(!egl_extension_present(
        "EGL_EXT_image_dma_buf_import_modifiers",
        EGL_EXT_IMAGE_DMA_BUF_IMPORT
    ));
}
