use vstd::prelude::*;

use crate::fmt::{dec, hex_fixed, hex_text, u64_text};
use crate::types::{spec_bytes_per_pixel, spec_pixel_format_debug, PeekabooXError, PixelFormat};

verus! {

/// The DRM "no explicit modifier" value, `(1 << 56) - 1`.
pub const DRM_FORMAT_MOD_INVALID: u64 = 0x00ff_ffff_ffff_ffffu64;

/// `XR24`.
pub const DRM_FORMAT_XRGB8888: u32 = 0x3432_5258u32;

/// `AR24`.
pub const DRM_FORMAT_ARGB8888: u32 = 0x3432_5241u32;

/// `XB24`.
pub const DRM_FORMAT_XBGR8888: u32 = 0x3432_4258u32;

/// `AB24`.
pub const DRM_FORMAT_ABGR8888: u32 = 0x3432_4241u32;

/// `RG24`.
pub const DRM_FORMAT_RGB888: u32 = 0x3432_4752u32;

/// A little-endian four-character code.
pub open spec fn spec_fourcc(a: u8, b: u8, c: u8, d: u8) -> int {
    a + b * 0x100 + c * 0x1_0000 + d * 0x100_0000
}

/// Packs four characters into a DRM format code.
pub fn fourcc_code(a: u8, b: u8, c: u8, d: u8) -> (code: u32)
    ensures
        code == spec_fourcc(a, b, c, d),
{
    (a as u32) + (b as u32) * 0x100 + (c as u32) * 0x1_0000 + (d as u32) * 0x100_0000
}

/// One plane of a DMA-BUF frame as delivered by the compositor.
#[derive(Debug, PartialEq, Eq)]
pub struct DmaBufPlaneDescriptor {
    pub fd: i32,
    pub offset: u32,
    pub stride: u32,
    pub modifier: u64,
}

/// A DMA-BUF frame as delivered by the compositor.
#[derive(Debug, PartialEq, Eq)]
pub struct DmaBufFrameDescriptor {
    pub width: u32,
    pub height: u32,
    pub format: PixelFormat,
    pub fourcc: u32,
    pub planes: Vec<DmaBufPlaneDescriptor>,
}

/// The API a frame is being prepared for.
#[derive(Debug, Clone, Copy, PartialEq, Eq, Structural)]
pub enum DmaBufImportTarget {
    Egl,
    Vulkan,
    Compute,
}

/// The name of an import target.
pub open spec fn spec_target_name(target: DmaBufImportTarget) -> Seq<char> {
    match target {
        DmaBufImportTarget::Egl => "egl"@,
        DmaBufImportTarget::Vulkan => "vulkan"@,
        DmaBufImportTarget::Compute => "compute"@,
    }
}

impl DmaBufImportTarget {
    pub fn name(self) -> (name: &'static str)
        ensures
            name@ == spec_target_name(self),
    {
        match self {
            DmaBufImportTarget::Egl => "egl",
            DmaBufImportTarget::Vulkan => "vulkan",
            DmaBufImportTarget::Compute => "compute",
        }
    }
}

/// How access to the buffer is synchronized with the producer.
#[derive(Debug, Clone, Copy, PartialEq, Eq, Structural)]
pub enum DmaBufSynchronization {
    Implicit,
}

impl DmaBufSynchronization {
    pub fn name(self) -> (name: &'static str)
        ensures
            name@ == "implicit"@,
    {
        "implicit"
    }
}

/// Whether a frame lives in one plane or several.
#[derive(Debug, Clone, Copy, PartialEq, Eq, Structural)]
pub enum DmaBufMemoryLayout {
    SinglePlane,
    MultiPlane,
}

impl DmaBufMemoryLayout {
    pub fn name(self) -> (name: &'static str)
        ensures
            name@ == (match self {
                DmaBufMemoryLayout::SinglePlane => "single-plane"@,
                DmaBufMemoryLayout::MultiPlane => "multi-plane"@,
            }),
    {
        match self {
            DmaBufMemoryLayout::SinglePlane => "single-plane",
            DmaBufMemoryLayout::MultiPlane => "multi-plane",
        }
    }
}

/// One plane of a validated frame, ready for import.
#[derive(Debug, Clone, PartialEq, Eq)]
pub struct DmaBufPlaneImportDescriptor {
    pub plane_index: usize,
    pub fd: i32,
    pub offset: u32,
    pub stride: u32,
    pub modifier: u64,
}

/// A validated frame, ready for import into a graphics or compute API.
#[derive(Debug, Clone, PartialEq, Eq)]
pub struct DmaBufFrameImportDescriptor {
    pub target: DmaBufImportTarget,
    pub width: u32,
    pub height: u32,
    pub format: PixelFormat,
    pub fourcc: u32,
    pub memory_layout: DmaBufMemoryLayout,
    pub synchronization: DmaBufSynchronization,
    pub planes: Vec<DmaBufPlaneImportDescriptor>,
}

/// The outcome of importing a frame.
#[derive(Debug, Clone, PartialEq, Eq)]
pub struct ImportedDmaBufFrame {
    pub backend_name: String,
    pub backend_kind: DmaBufImportTarget,
    pub descriptor: DmaBufFrameImportDescriptor,
}

/// Planes a supported fourcc uses; `None` for unsupported codes.
pub open spec fn spec_plane_count(fourcc: u32) -> Option<nat> {
    if fourcc == DRM_FORMAT_XRGB8888 || fourcc == DRM_FORMAT_ARGB8888 || fourcc
        == DRM_FORMAT_XBGR8888 || fourcc == DRM_FORMAT_ABGR8888 || fourcc == DRM_FORMAT_RGB888 {
        Some(1)
    } else {
        None
    }
}

/// Which fourcc codes carry which pixel layout.
pub open spec fn spec_format_matches(format: PixelFormat, fourcc: u32) -> bool {
    match format {
        PixelFormat::Bgra8 => fourcc == DRM_FORMAT_XRGB8888 || fourcc == DRM_FORMAT_ARGB8888,
        PixelFormat::Rgba8 => fourcc == DRM_FORMAT_XBGR8888 || fourcc == DRM_FORMAT_ABGR8888,
        PixelFormat::Rgb8 => fourcc == DRM_FORMAT_RGB888,
    }
}

/// How many planes a supported fourcc format has; `None` for an unsupported one.
pub fn dmabuf_fourcc_plane_count(fourcc: u32) -> (r: Option<usize>)
    ensures
        match spec_plane_count(fourcc) {
            Some(n) => r == Some(n as usize),
            None => r is None,
        },
{
    if fourcc == DRM_FORMAT_XRGB8888 || fourcc == DRM_FORMAT_ARGB8888 || fourcc
        == DRM_FORMAT_XBGR8888 || fourcc == DRM_FORMAT_ABGR8888 || fourcc == DRM_FORMAT_RGB888 {
        Some(1)
    } else {
        None
    }
}

/// Whether a pixel format can be read from buffers of a fourcc format.
pub fn dmabuf_pixel_format_matches_fourcc(format: PixelFormat, fourcc: u32) -> (r: bool)
    ensures
        r == spec_format_matches(format, fourcc),
{
    match format {
        PixelFormat::Bgra8 => fourcc == DRM_FORMAT_XRGB8888 || fourcc == DRM_FORMAT_ARGB8888,
        PixelFormat::Rgba8 => fourcc == DRM_FORMAT_XBGR8888 || fourcc == DRM_FORMAT_ABGR8888,
        PixelFormat::Rgb8 => fourcc == DRM_FORMAT_RGB888,
    }
}

/// The error for a frame with a zero side.
pub open spec fn msg_dimensions(width: u32, height: u32) -> Seq<char> {
    "invalid DMA-BUF frame dimensions "@ + dec(width as nat) + "x"@ + dec(height as nat)
}

/// The error for a fourcc format that cannot be imported.
pub open spec fn msg_unsupported_fourcc(fourcc: u32) -> Seq<char> {
    "unsupported DMA-BUF fourcc 0x"@ + hex_fixed(fourcc as nat, 8)
        + "; supported import formats are XR24, AR24, XB24, AB24, and RG24"@
}

/// The error for a plane count that does not fit the format.
pub open spec fn msg_plane_count(found: nat, expected: nat, fourcc: u32) -> Seq<char> {
    "DMA-BUF frame exposes "@ + dec(found) + " plane(s), expected "@ + dec(expected)
        + " for fourcc 0x"@ + hex_fixed(fourcc as nat, 8)
}

/// The error for a pixel format that does not fit the fourcc format.
pub open spec fn msg_format_mismatch(format: PixelFormat, fourcc: u32) -> Seq<char> {
    "DMA-BUF pixel format "@ + spec_pixel_format_debug(format) + " does not match fourcc 0x"@
        + hex_fixed(fourcc as nat, 8)
}

/// Bytes in one row of visible pixels.
pub open spec fn row_bytes(d: DmaBufFrameDescriptor) -> nat {
    (d.width * spec_bytes_per_pixel(d.format)) as nat
}

/// Why plane `i` of a frame cannot be imported, if it cannot.
pub open spec fn spec_plane_error(d: DmaBufFrameDescriptor, i: int) -> Option<Seq<char>> {
    let plane = d.planes@[i];
    let last_row_offset = plane.offset + (if d.height == 0 { 0 } else { d.height - 1 }) * plane.stride;
    if plane.fd < 0 {
        Some("DMA-BUF plane "@ + dec(i as nat) + " has an invalid file descriptor"@)
    } else if plane.stride == 0 {
        Some("DMA-BUF plane "@ + dec(i as nat) + " has zero stride"@)
    } else if plane.stride < row_bytes(d) {
        Some(
            "DMA-BUF plane "@ + dec(i as nat) + " stride "@ + dec(plane.stride as nat)
                + " is smaller than row width "@ + dec(row_bytes(d)),
        )
    } else if last_row_offset + row_bytes(d) > u64::MAX {
        Some("DMA-BUF plane "@ + dec(i as nat) + " byte range overflows u64"@)
    } else {
        None
    }
}

/// The first plane error among planes `0..n`.
pub open spec fn spec_planes_error(d: DmaBufFrameDescriptor, n: int) -> Option<Seq<char>>
    decreases n,
{
    if n <= 0 {
        None
    } else {
        match spec_planes_error(d, n - 1) {
            Some(m) => Some(m),
            None => spec_plane_error(d, n - 1),
        }
    }
}

/// Why a frame cannot be imported, if it cannot; the checks run in this order:
/// dimensions, fourcc, plane count, pixel format, then each plane in turn.
pub open spec fn spec_dmabuf_error(d: DmaBufFrameDescriptor) -> Option<Seq<char>> {
    if d.width == 0 || d.height == 0 {
        Some(msg_dimensions(d.width, d.height))
    } else if spec_plane_count(d.fourcc) is None {
        Some(msg_unsupported_fourcc(d.fourcc))
    } else if d.planes@.len() != spec_plane_count(d.fourcc)->0 {
        Some(msg_plane_count(d.planes@.len(), spec_plane_count(d.fourcc)->0, d.fourcc))
    } else if !spec_format_matches(d.format, d.fourcc) {
        Some(msg_format_mismatch(d.format, d.fourcc))
    } else {
        spec_planes_error(d, d.planes@.len() as int)
    }
}

proof fn lemma_planes_error_sticks(d: DmaBufFrameDescriptor, k: int, n: int)
    requires
        0 <= k <= n,
        spec_planes_error(d, k) is Some,
    ensures
        spec_planes_error(d, n) == spec_planes_error(d, k),
    decreases n - k,
{
    if n > k {
        lemma_planes_error_sticks(d, k, n - 1);
    }
}

fn append_u64(s: &mut String, n: u64)
    ensures
        final(s)@ == old(s)@ + dec(n as nat),
{
    let t = u64_text(n);
    s.append(t.as_str());
}

fn append_hex8(s: &mut String, n: u32)
    ensures
        final(s)@ == old(s)@ + hex_fixed(n as nat, 8),
{
    let t = hex_text(n as u64, 8);
    s.append(t.as_str());
}

/// The error for a fourcc format that cannot be imported.
pub fn unsupported_dmabuf_fourcc_error(fourcc: u32) -> (e: PeekabooXError)
    ensures
        e.message@ == msg_unsupported_fourcc(fourcc),
{
    let mut m = String::from_str("unsupported DMA-BUF fourcc 0x");
    append_hex8(&mut m, fourcc);
    m.append("; supported import formats are XR24, AR24, XB24, AB24, and RG24");
    PeekabooXError::new(m)
}

fn plane_error(d: &DmaBufFrameDescriptor, i: usize) -> (r: Option<PeekabooXError>)
    requires
        i < d.planes@.len(),
    ensures
        match spec_plane_error(*d, i as int) {
            Some(m) => r matches Some(e) && e.message@ == m,
            None => r is None,
        },
{
    let plane = &d.planes[i];
    let bpp = d.format.bytes_per_pixel() as u64;
    assert(d.width as u64 * bpp <= 0xffff_ffffu64 * 4) by (nonlinear_arith)
        requires
            d.width <= 0xffff_ffffu32,
            bpp <= 4,
    ;
    let row: u64 = d.width as u64 * bpp;
    if plane.fd < 0 {
        let mut m = String::from_str("DMA-BUF plane ");
        append_u64(&mut m, i as u64);
        m.append(" has an invalid file descriptor");
        return Some(PeekabooXError::new(m));
    }
    if plane.stride == 0 {
        let mut m = String::from_str("DMA-BUF plane ");
        append_u64(&mut m, i as u64);
        m.append(" has zero stride");
        return Some(PeekabooXError::new(m));
    }
    if (plane.stride as u64) < row {
        let mut m = String::from_str("DMA-BUF plane ");
        append_u64(&mut m, i as u64);
        m.append(" stride ");
        append_u64(&mut m, plane.stride as u64);
        m.append(" is smaller than row width ");
        append_u64(&mut m, row);
        return Some(PeekabooXError::new(m));
    }
    let rows_before_last: u64 = if d.height == 0 { 0 } else { (d.height - 1) as u64 };
    assert(rows_before_last * plane.stride <= 0xffff_ffffu64 * 0xffff_ffffu64) by (nonlinear_arith)
        requires
            rows_before_last <= 0xffff_ffffu64,
            plane.stride <= 0xffff_ffffu32,
    ;
    let last_row_offset: u64 = plane.offset as u64 + rows_before_last * plane.stride as u64;
    match last_row_offset.checked_add(row) {
        Some(_) => None,
        None => {
            let mut m = String::from_str("DMA-BUF plane ");
            append_u64(&mut m, i as u64);
            m.append(" byte range overflows u64");
            Some(PeekabooXError::new(m))
        },
    }
}

/// Checks that a frame can be imported (see [`spec_dmabuf_error`]).
pub fn validate_dmabuf_frame_descriptor(descriptor: &DmaBufFrameDescriptor) -> (r: Result<
    (),
    PeekabooXError,
>)
    ensures
        match spec_dmabuf_error(*descriptor) {
            Some(m) => r matches Err(e) && e.message@ == m,
            None => r is Ok,
        },
{
    if descriptor.width == 0 || descriptor.height == 0 {
        let mut m = String::from_str("invalid DMA-BUF frame dimensions ");
        append_u64(&mut m, descriptor.width as u64);
        m.append("x");
        append_u64(&mut m, descriptor.height as u64);
        return Err(PeekabooXError::new(m));
    }
    let expected = match dmabuf_fourcc_plane_count(descriptor.fourcc) {
        Some(n) => n,
        None => return Err(unsupported_dmabuf_fourcc_error(descriptor.fourcc)),
    };
    if descriptor.planes.len() != expected {
        let mut m = String::from_str("DMA-BUF frame exposes ");
        append_u64(&mut m, descriptor.planes.len() as u64);
        m.append(" plane(s), expected ");
        append_u64(&mut m, expected as u64);
        m.append(" for fourcc 0x");
        append_hex8(&mut m, descriptor.fourcc);
        return Err(PeekabooXError::new(m));
    }
    if !dmabuf_pixel_format_matches_fourcc(descriptor.format, descriptor.fourcc) {
        let mut m = String::from_str("DMA-BUF pixel format ");
        m.append(descriptor.format.debug_name());
        m.append(" does not match fourcc 0x");
        append_hex8(&mut m, descriptor.fourcc);
        return Err(PeekabooXError::new(m));
    }
    let mut i: usize = 0;
    while i < descriptor.planes.len()
        invariant
            i <= descriptor.planes@.len(),
            spec_planes_error(*descriptor, i as int) is None,
            spec_dmabuf_error(*descriptor) == spec_planes_error(
                *descriptor,
                descriptor.planes@.len() as int,
            ),
        decreases descriptor.planes@.len() - i,
    {
        match plane_error(descriptor, i) {
            Some(e) => {
                proof {
                    lemma_planes_error_sticks(*descriptor, i + 1, descriptor.planes@.len() as int);
                }
                return Err(e);
            },
            None => {},
        }
        i = i + 1;
    }
    Ok(())
}

/// The import form of a validated frame's planes, each tagged with its index
/// and holding the import's own descriptor `plane_fds[i]` in place of the
/// frame's.
pub open spec fn spec_import_planes(
    d: DmaBufFrameDescriptor,
    plane_fds: Seq<i32>,
    planes: Seq<DmaBufPlaneImportDescriptor>,
) -> bool {
    &&& planes.len() == d.planes@.len()
    &&& forall|i: int|
        0 <= i < planes.len() ==> {
            &&& (#[trigger] planes[i]).plane_index == i
            &&& planes[i].fd == plane_fds[i]
            &&& planes[i].offset == d.planes@[i].offset
            &&& planes[i].stride == d.planes@[i].stride
            &&& planes[i].modifier == d.planes@[i].modifier
        }
}

/// `import` describes frame `d` prepared for `target`, with the descriptors
/// `plane_fds`.
pub open spec fn spec_import_of(
    import: DmaBufFrameImportDescriptor,
    d: DmaBufFrameDescriptor,
    plane_fds: Seq<i32>,
    target: DmaBufImportTarget,
) -> bool {
    &&& import.target == target
    &&& import.width == d.width
    &&& import.height == d.height
    &&& import.format == d.format
    &&& import.fourcc == d.fourcc
    &&& import.memory_layout == (if d.planes@.len() == 1 {
        DmaBufMemoryLayout::SinglePlane
    } else {
        DmaBufMemoryLayout::MultiPlane
    })
    &&& import.synchronization == DmaBufSynchronization::Implicit
    &&& spec_import_planes(d, plane_fds, import.planes@)
}

/// `plane_fds` holds one descriptor per plane of `d`, none of them a
/// descriptor of the frame itself: the duplicates that an import owns, so
/// that it outlives the frame it came from.
pub open spec fn spec_own_plane_fds(d: DmaBufFrameDescriptor, plane_fds: Seq<i32>) -> bool {
    &&& plane_fds.len() == d.planes@.len()
    &&& forall|i: int, j: int|
        0 <= i < plane_fds.len() && 0 <= j < d.planes@.len() ==> #[trigger] plane_fds[i]
            != #[trigger] d.planes@[j].fd
}

/// Validates a frame and describes it for import into `target`; the import
/// holds `plane_fds`, the caller's duplicates of the frame's plane
/// descriptors, and none of the frame's own.
pub fn prepare_dmabuf_import_descriptor(
    descriptor: &DmaBufFrameDescriptor,
    target: DmaBufImportTarget,
    plane_fds: &[i32],
) -> (r: Result<DmaBufFrameImportDescriptor, PeekabooXError>)
    requires
        spec_own_plane_fds(*descriptor, plane_fds@),
    ensures
        match spec_dmabuf_error(*descriptor) {
            Some(m) => r matches Err(e) && e.message@ == m,
            None => r matches Ok(import) && spec_import_of(import, *descriptor, plane_fds@, target),
        },
        r matches Ok(import) ==> forall|i: int, j: int|
            0 <= i < import.planes@.len() && 0 <= j < descriptor.planes@.len()
                ==> #[trigger] import.planes@[i].fd != #[trigger] descriptor.planes@[j].fd,
{
    validate_dmabuf_frame_descriptor(descriptor)?;
    let memory_layout = if descriptor.planes.len() == 1 {
        DmaBufMemoryLayout::SinglePlane
    } else {
        DmaBufMemoryLayout::MultiPlane
    };
    let mut planes: Vec<DmaBufPlaneImportDescriptor> = Vec::new();
    let mut i: usize = 0;
    while i < descriptor.planes.len()
        invariant
            i <= descriptor.planes@.len(),
            plane_fds@.len() == descriptor.planes@.len(),
            planes@.len() == i,
            forall|j: int|
                0 <= j < i ==> {
                    &&& (#[trigger] planes@[j]).plane_index == j
                    &&& planes@[j].fd == plane_fds@[j]
                    &&& planes@[j].offset == descriptor.planes@[j].offset
                    &&& planes@[j].stride == descriptor.planes@[j].stride
                    &&& planes@[j].modifier == descriptor.planes@[j].modifier
                },
        decreases descriptor.planes@.len() - i,
    {
        let plane = &descriptor.planes[i];
        planes.push(
            DmaBufPlaneImportDescriptor {
                plane_index: i,
                fd: plane_fds[i],
                offset: plane.offset,
                stride: plane.stride,
                modifier: plane.modifier,
            },
        );
        i = i + 1;
    }
    let import = DmaBufFrameImportDescriptor {
        target,
        width: descriptor.width,
        height: descriptor.height,
        format: descriptor.format,
        fourcc: descriptor.fourcc,
        memory_layout,
        synchronization: DmaBufSynchronization::Implicit,
        planes,
    };
    assert(forall|i: int| 0 <= i < import.planes@.len() ==> #[trigger] import.planes@[i].fd == plane_fds@[i]);
    Ok(import)
}


/// Something that takes DMA-BUF frames into a graphics or compute API.
pub trait DmaBufFrameImporter {
    fn backend_name(&self) -> &str;

    fn import_target(&self) -> DmaBufImportTarget;

    fn import_frame(&self, descriptor: &DmaBufFrameDescriptor, plane_fds: &[i32]) -> Result<
        ImportedDmaBufFrame,
        PeekabooXError,
    >
        requires
            spec_own_plane_fds(*descriptor, plane_fds@),
    ;
}

/// An importer that validates frames and describes them for its target API.
#[derive(Debug, Clone, PartialEq, Eq)]
pub struct ValidatingDmaBufImporter {
    target: DmaBufImportTarget,
    backend_name: String,
}

impl ValidatingDmaBufImporter {
    /// The target the importer produces.
    pub closed spec fn spec_target(&self) -> DmaBufImportTarget {
        self.target
    }

    /// The name the importer reports.
    pub closed spec fn spec_backend_name(&self) -> Seq<char> {
        self.backend_name@
    }

    /// An importer named `dmabuf-import-<target>`.
    pub fn new(target: DmaBufImportTarget) -> (importer: Self)
        ensures
            importer.spec_target() == target,
            importer.spec_backend_name() == "dmabuf-import-"@ + spec_target_name(target),
    {
        let mut name = String::from_str("dmabuf-import-");
        name.append(target.name());
        Self::named(target, name)
    }

    /// An importer for `target` with the given name.
    pub fn named(target: DmaBufImportTarget, backend_name: String) -> (importer: Self)
        ensures
            importer.spec_target() == target,
            importer.spec_backend_name() == backend_name@,
    {
        ValidatingDmaBufImporter { target, backend_name }
    }
}

impl Default for ValidatingDmaBufImporter {
    fn default() -> (importer: Self)
        ensures
            importer.spec_target() == DmaBufImportTarget::Compute,
            importer.spec_backend_name() == "dmabuf-import-"@ + "compute"@,
    {
        Self::new(DmaBufImportTarget::Compute)
    }
}

impl DmaBufFrameImporter for ValidatingDmaBufImporter {
    fn backend_name(&self) -> (name: &str)
        ensures
            name@ == self.spec_backend_name(),
    {
        self.backend_name.as_str()
    }

    fn import_target(&self) -> (target: DmaBufImportTarget)
        ensures
            target == self.spec_target(),
    {
        self.target
    }

    fn import_frame(&self, descriptor: &DmaBufFrameDescriptor, plane_fds: &[i32]) -> (r: Result<
        ImportedDmaBufFrame,
        PeekabooXError,
    >)
        ensures
            match spec_dmabuf_error(*descriptor) {
                Some(m) => r matches Err(e) && e.message@ == m,
                None => r matches Ok(imported) && imported.backend_name@ == self.spec_backend_name()
                    && imported.backend_kind == self.spec_target() && spec_import_of(
                    imported.descriptor,
                    *descriptor,
                    plane_fds@,
                    self.spec_target(),
                ),
            },
    {
        let import_descriptor = prepare_dmabuf_import_descriptor(descriptor, self.target, plane_fds)?;
        Ok(
            ImportedDmaBufFrame {
                backend_name: self.backend_name.clone(),
                backend_kind: self.target,
                descriptor: import_descriptor,
            },
        )
    }
}

/// Two imports hold the same values.
pub open spec fn same_import(a: DmaBufFrameImportDescriptor, b: DmaBufFrameImportDescriptor) -> bool {
    &&& a.target == b.target
    &&& a.width == b.width
    &&& a.height == b.height
    &&& a.format == b.format
    &&& a.fourcc == b.fourcc
    &&& a.memory_layout == b.memory_layout
    &&& a.synchronization == b.synchronization
    &&& a.planes@ == b.planes@
}

/// An import is determined by the frame, the descriptors it holds and the
/// target: so what an importer hands out (see
/// [`ValidatingDmaBufImporter::import_frame`]) is what
/// [`prepare_dmabuf_import_descriptor`] gives for the importer's target,
/// wrapped with the importer's name and target; and a refused frame is
/// refused by both with the same error ([`spec_dmabuf_error`]).
pub proof fn lemma_import_is_determined(
    a: DmaBufFrameImportDescriptor,
    b: DmaBufFrameImportDescriptor,
    d: DmaBufFrameDescriptor,
    plane_fds: Seq<i32>,
    target: DmaBufImportTarget,
)
    requires
        spec_import_of(a, d, plane_fds, target),
        spec_import_of(b, d, plane_fds, target),
    ensures
        same_import(a, b),
{
    assert forall|i: int| 0 <= i < a.planes@.len() implies #[trigger] a.planes@[i] == b.planes@[i] by {
        assert(a.planes@[i].plane_index == b.planes@[i].plane_index);
    }
    assert(a.planes@ =~= b.planes@);
}

/// Validates a frame and imports it with the default importer for `target`,
/// the import holding `plane_fds` (see [`prepare_dmabuf_import_descriptor`]).
pub fn import_dmabuf_frame(
    descriptor: &DmaBufFrameDescriptor,
    target: DmaBufImportTarget,
    plane_fds: &[i32],
) -> (r: Result<ImportedDmaBufFrame, PeekabooXError>)
    requires
        spec_own_plane_fds(*descriptor, plane_fds@),
    ensures
        match spec_dmabuf_error(*descriptor) {
            Some(m) => r matches Err(e) && e.message@ == m,
            None => r matches Ok(imported) && imported.backend_name@ == "dmabuf-import-"@
                + spec_target_name(target) && imported.backend_kind == target && spec_import_of(
                imported.descriptor,
                *descriptor,
                plane_fds@,
                target,
            ),
        },
{
    let importer = ValidatingDmaBufImporter::new(target);
    importer.import_frame(descriptor, plane_fds)
}

/// One plane of a buffer as PipeWire reports it.
#[derive(Debug, Clone, PartialEq, Eq)]
pub struct DmaBufPlaneCandidate {
    pub fd: i32,
    pub offset: u32,
    pub stride: u32,
}

/// A buffer as PipeWire reports it, before it is checked.
#[derive(Debug, Clone, PartialEq, Eq)]
pub struct DmaBufFrameCandidate {
    pub width: u32,
    pub height: u32,
    pub format: PixelFormat,
    pub fourcc: u32,
    pub modifier: u64,
    pub planes: Vec<DmaBufPlaneCandidate>,
}

/// Why plane `i` of a PipeWire buffer is unusable, if it is.
pub open spec fn spec_candidate_plane_error(c: DmaBufFrameCandidate, i: int) -> Option<Seq<char>> {
    if c.planes@[i].fd < 0 {
        Some("PipeWire DMA-BUF plane "@ + dec(i as nat) + " has an invalid file descriptor"@)
    } else if c.planes@[i].stride == 0 {
        Some("PipeWire DMA-BUF plane "@ + dec(i as nat) + " has zero stride"@)
    } else {
        None
    }
}

/// The first plane error among planes `0..n`.
pub open spec fn spec_candidate_planes_error(c: DmaBufFrameCandidate, n: int) -> Option<Seq<char>>
    decreases n,
{
    if n <= 0 {
        None
    } else {
        match spec_candidate_planes_error(c, n - 1) {
            Some(m) => Some(m),
            None => spec_candidate_plane_error(c, n - 1),
        }
    }
}

/// Why a PipeWire buffer is unusable, if it is.
pub open spec fn spec_candidate_error(c: DmaBufFrameCandidate) -> Option<Seq<char>> {
    if c.width == 0 || c.height == 0 {
        Some(msg_dimensions(c.width, c.height))
    } else if c.planes@.len() == 0 {
        Some("PipeWire DMA-BUF frame did not expose any planes"@)
    } else {
        spec_candidate_planes_error(c, c.planes@.len() as int)
    }
}

proof fn lemma_candidate_error_sticks(c: DmaBufFrameCandidate, k: int, n: int)
    requires
        0 <= k <= n,
        spec_candidate_planes_error(c, k) is Some,
    ensures
        spec_candidate_planes_error(c, n) == spec_candidate_planes_error(c, k),
    decreases n - k,
{
    if n > k {
        lemma_candidate_error_sticks(c, k, n - 1);
    }
}

/// The descriptors of a PipeWire buffer's planes, in order.
pub open spec fn spec_candidate_fds(c: DmaBufFrameCandidate) -> Seq<i32> {
    c.planes@.map_values(|p: DmaBufPlaneCandidate| p.fd)
}

/// A PipeWire buffer that failed its checks: why, and the descriptors of its
/// planes, which the caller still owns and must close.
#[derive(Debug, Clone, PartialEq, Eq)]
pub struct RejectedDmaBufCandidate {
    pub error: PeekabooXError,
    pub plane_fds: Vec<i32>,
}

fn candidate_fds(candidate: &DmaBufFrameCandidate) -> (fds: Vec<i32>)
    ensures
        fds@ == spec_candidate_fds(*candidate),
{
    let mut fds: Vec<i32> = Vec::new();
    let mut i: usize = 0;
    while i < candidate.planes.len()
        invariant
            i <= candidate.planes@.len(),
            fds@ == spec_candidate_fds(*candidate).subrange(0, i as int),
        decreases candidate.planes@.len() - i,
    {
        fds.push(candidate.planes[i].fd);
        i = i + 1;
        assert(fds@ =~= spec_candidate_fds(*candidate).subrange(0, i as int));
    }
    assert(fds@ =~= spec_candidate_fds(*candidate));
    fds
}

fn reject_candidate(candidate: &DmaBufFrameCandidate, error: PeekabooXError) -> (r: RejectedDmaBufCandidate)
    ensures
        r.error == error,
        r.plane_fds@ == spec_candidate_fds(*candidate),
{
    RejectedDmaBufCandidate { error, plane_fds: candidate_fds(candidate) }
}

/// Turns a PipeWire buffer into a frame descriptor, giving every plane the
/// buffer's modifier; a rejected buffer hands its plane descriptors back for
/// the caller to close.
pub fn dmabuf_descriptor_from_candidate(candidate: DmaBufFrameCandidate) -> (r: Result<
    DmaBufFrameDescriptor,
    RejectedDmaBufCandidate,
>)
    ensures
        match spec_candidate_error(candidate) {
            Some(m) => r matches Err(rejected) && rejected.error.message@ == m
                && rejected.plane_fds@ == spec_candidate_fds(candidate),
            None => r matches Ok(d) && d.width == candidate.width && d.height == candidate.height
                && d.format == candidate.format && d.fourcc == candidate.fourcc && d.planes@.len()
                == candidate.planes@.len() && forall|i: int|
                0 <= i < d.planes@.len() ==> (#[trigger] d.planes@[i]).fd == candidate.planes@[i].fd
                    && d.planes@[i].offset == candidate.planes@[i].offset && d.planes@[i].stride
                    == candidate.planes@[i].stride && d.planes@[i].modifier == candidate.modifier,
        },
{
    if candidate.width == 0 || candidate.height == 0 {
        let mut m = String::from_str("invalid DMA-BUF frame dimensions ");
        append_u64(&mut m, candidate.width as u64);
        m.append("x");
        append_u64(&mut m, candidate.height as u64);
        return Err(reject_candidate(&candidate, PeekabooXError::new(m)));
    }
    if candidate.planes.len() == 0 {
        return Err(
            reject_candidate(
                &candidate,
                PeekabooXError::from_str("PipeWire DMA-BUF frame did not expose any planes"),
            ),
        );
    }
    let mut planes: Vec<DmaBufPlaneDescriptor> = Vec::new();
    let mut i: usize = 0;
    while i < candidate.planes.len()
        invariant
            i <= candidate.planes@.len(),
            candidate.planes@.len() > 0,
            spec_candidate_error(candidate) == spec_candidate_planes_error(
                candidate,
                candidate.planes@.len() as int,
            ),
            spec_candidate_planes_error(candidate, i as int) is None,
            planes@.len() == i,
            forall|j: int|
                0 <= j < i ==> (#[trigger] planes@[j]).fd == candidate.planes@[j].fd
                    && planes@[j].offset == candidate.planes@[j].offset && planes@[j].stride
                    == candidate.planes@[j].stride && planes@[j].modifier == candidate.modifier,
        decreases candidate.planes@.len() - i,
    {
        let plane = &candidate.planes[i];
        if plane.fd < 0 {
            proof {
                lemma_candidate_error_sticks(candidate, i + 1, candidate.planes@.len() as int);
            }
            let mut m = String::from_str("PipeWire DMA-BUF plane ");
            append_u64(&mut m, i as u64);
            m.append(" has an invalid file descriptor");
            return Err(reject_candidate(&candidate, PeekabooXError::new(m)));
        }
        if plane.stride == 0 {
            proof {
                lemma_candidate_error_sticks(candidate, i + 1, candidate.planes@.len() as int);
            }
            let mut m = String::from_str("PipeWire DMA-BUF plane ");
            append_u64(&mut m, i as u64);
            m.append(" has zero stride");
            return Err(reject_candidate(&candidate, PeekabooXError::new(m)));
        }
        planes.push(
            DmaBufPlaneDescriptor {
                fd: plane.fd,
                offset: plane.offset,
                stride: plane.stride,
                modifier: candidate.modifier,
            },
        );
        i = i + 1;
    }
    Ok(
        DmaBufFrameDescriptor {
            width: candidate.width,
            height: candidate.height,
            format: candidate.format,
            fourcc: candidate.fourcc,
            planes,
        },
    )
}

/// The raw video formats a PipeWire stream can negotiate; any other is
/// carried with the name its `Debug` form prints.
#[derive(Debug, Clone, PartialEq, Eq)]
pub enum StreamVideoFormatKind {
    Bgrx,
    Bgra,
    Rgbx,
    Rgba,
    Rgb,
    Other(String),
}

/// The pixel format, DRM fourcc and plane count of a stream format, or the
/// error for an unsupported one.
pub open spec fn spec_video_format_descriptor(format: StreamVideoFormatKind) -> Result<
    (PixelFormat, int, nat),
    Seq<char>,
> {
    match format {
        StreamVideoFormatKind::Bgrx => Ok((PixelFormat::Bgra8, spec_fourcc(88, 82, 50, 52), 1)),
        StreamVideoFormatKind::Bgra => Ok((PixelFormat::Bgra8, spec_fourcc(65, 82, 50, 52), 1)),
        StreamVideoFormatKind::Rgbx => Ok((PixelFormat::Rgba8, spec_fourcc(88, 66, 50, 52), 1)),
        StreamVideoFormatKind::Rgba => Ok((PixelFormat::Rgba8, spec_fourcc(65, 66, 50, 52), 1)),
        StreamVideoFormatKind::Rgb => Ok((PixelFormat::Rgb8, spec_fourcc(82, 71, 50, 52), 1)),
        StreamVideoFormatKind::Other(name) => Err(
            "unsupported PipeWire DMA-BUF video format "@ + name@,
        ),
    }
}

/// Describes a stream video format for DMA-BUF import (see
/// [`spec_video_format_descriptor`]).
pub fn video_format_descriptor(format: StreamVideoFormatKind) -> (r: Result<
    (PixelFormat, u32, usize),
    PeekabooXError,
>)
    ensures
        match spec_video_format_descriptor(format) {
            Ok((p, f, n)) => r matches Ok(x) && x.0 == p && x.1 == f && x.2 == n,
            Err(m) => r matches Err(e) && e.message@ == m,
        },
{
    match format {
        StreamVideoFormatKind::Bgrx => Ok((PixelFormat::Bgra8, fourcc_code(88u8, 82u8, 50u8, 52u8), 1)),
        StreamVideoFormatKind::Bgra => Ok((PixelFormat::Bgra8, fourcc_code(65u8, 82u8, 50u8, 52u8), 1)),
        StreamVideoFormatKind::Rgbx => Ok((PixelFormat::Rgba8, fourcc_code(88u8, 66u8, 50u8, 52u8), 1)),
        StreamVideoFormatKind::Rgba => Ok((PixelFormat::Rgba8, fourcc_code(65u8, 66u8, 50u8, 52u8), 1)),
        StreamVideoFormatKind::Rgb => Ok((PixelFormat::Rgb8, fourcc_code(82u8, 71u8, 50u8, 52u8), 1)),
        StreamVideoFormatKind::Other(name) => {
            let mut m = String::from_str("unsupported PipeWire DMA-BUF video format ");
            m.append(name.as_str());
            Err(PeekabooXError::new(m))
        },
    }
}

/// The modifier of a negotiated stream: the one it declares when its flags
/// say it has one, else the invalid modifier.
pub fn stream_modifier(has_modifier: bool, modifier: u64) -> (m: u64)
    ensures
        m == if has_modifier {
            modifier
        } else {
            DRM_FORMAT_MOD_INVALID
        },
{
    if has_modifier {
        modifier
    } else {
        DRM_FORMAT_MOD_INVALID
    }
}

/// Every stream format the library accepts gives a DMA-BUF descriptor that
/// the validation of its plane layout accepts: its pixel format matches its
/// fourcc, which has one plane.
pub proof fn lemma_video_formats_match_fourcc(format: StreamVideoFormatKind)
    ensures
        spec_video_format_descriptor(format) matches Ok((p, f, n)) ==> 0 <= f <= u32::MAX
            && spec_format_matches(p, f as u32) && spec_plane_count(f as u32) == Some(n),
{
}


/// The refusal of a build without a PipeWire consumer to take a DMA-BUF frame
/// from an opened screen-cast stream.
pub open spec fn msg_no_dmabuf_consumer(stream_node_id: u32, backend_name: Seq<char>) -> Seq<char> {
    "opened PipeWire ScreenCast stream node "@ + dec(stream_node_id as nat) + " via "@ + backend_name
        + ", but this build was compiled without the `pipewire-backend` feature required to consume DMA-BUF buffers"@
}

/// Takes the first DMA-BUF frame of an opened screen-cast stream (its node id
/// and the backend that opened it). This build has no PipeWire consumer, so
/// it always says so (see [`msg_no_dmabuf_consumer`]).
pub fn capture_first_dmabuf_frame(stream_node_id: u32, backend_name: &str) -> (r: Result<
    DmaBufFrameDescriptor,
    PeekabooXError,
>)
    ensures
        r matches Err(e) && e.message@ == msg_no_dmabuf_consumer(stream_node_id, backend_name@),
{
    let mut m = String::from_str("opened PipeWire ScreenCast stream node ");
    let node = u64_text(stream_node_id as u64);
    m.append(node.as_str());
    m.append(" via ");
    m.append(backend_name);
    m.append(
        ", but this build was compiled without the `pipewire-backend` feature required to consume DMA-BUF buffers",
    );
    Err(PeekabooXError::new(m))
}

} // verus!
