use vstd::prelude::*;

use crate::dmabuf::{DmaBufFrameImportDescriptor, DmaBufPlaneImportDescriptor, DRM_FORMAT_MOD_INVALID};
use crate::fmt::{dec, u64_text};
use crate::text::{chars_eq, chars_of, split_tokens, tokens, views, Separators};
use crate::types::PeekabooXError;

verus! {

/// Ends an EGL attribute list.
pub const EGL_NONE: i32 = 0x3038i32;

/// The EGL attribute for an image's width.
pub const EGL_WIDTH: i32 = 0x3057i32;

/// The EGL attribute for an image's height.
pub const EGL_HEIGHT: i32 = 0x3056i32;

/// The EGL attribute for an image's fourcc format.
pub const EGL_LINUX_DRM_FOURCC_EXT: i32 = 0x3271i32;

/// The name of the EGL extension that imports DMA-BUF planes.
pub const EGL_EXT_IMAGE_DMA_BUF_IMPORT: &'static str = "EGL_EXT_image_dma_buf_import";

/// The name of the EGL extension that accepts explicit format modifiers.
pub const EGL_EXT_IMAGE_DMA_BUF_IMPORT_MODIFIERS: &'static str = "EGL_EXT_image_dma_buf_import_modifiers";

/// `EGL_DMA_BUF_PLANE{i}_FD_EXT`.
pub open spec fn spec_plane_fd_attr(i: int) -> i32 {
    if i == 0 { 0x3272 } else if i == 1 { 0x3275 } else if i == 2 { 0x3278 } else { 0x3440 }
}

/// `EGL_DMA_BUF_PLANE{i}_OFFSET_EXT`.
pub open spec fn spec_plane_offset_attr(i: int) -> i32 {
    if i == 0 { 0x3273 } else if i == 1 { 0x3276 } else if i == 2 { 0x3279 } else { 0x3441 }
}

/// `EGL_DMA_BUF_PLANE{i}_PITCH_EXT`.
pub open spec fn spec_plane_pitch_attr(i: int) -> i32 {
    if i == 0 { 0x3274 } else if i == 1 { 0x3277 } else if i == 2 { 0x327a } else { 0x3442 }
}

/// `EGL_DMA_BUF_PLANE{i}_MODIFIER_LO_EXT`.
pub open spec fn spec_plane_modifier_lo_attr(i: int) -> i32 {
    if i == 0 { 0x3443 } else if i == 1 { 0x3445 } else if i == 2 { 0x3447 } else { 0x3449 }
}

/// `EGL_DMA_BUF_PLANE{i}_MODIFIER_HI_EXT`.
pub open spec fn spec_plane_modifier_hi_attr(i: int) -> i32 {
    if i == 0 { 0x3444 } else if i == 1 { 0x3446 } else if i == 2 { 0x3448 } else { 0x344a }
}

/// The EGL attribute naming plane `i`'s file descriptor.
pub fn plane_fd_attr(i: usize) -> (a: i32)
    ensures
        a == spec_plane_fd_attr(i as int),
{
    if i == 0 { 0x3272 } else if i == 1 { 0x3275 } else if i == 2 { 0x3278 } else { 0x3440 }
}

/// The EGL attribute naming plane `i`'s offset.
pub fn plane_offset_attr(i: usize) -> (a: i32)
    ensures
        a == spec_plane_offset_attr(i as int),
{
    if i == 0 { 0x3273 } else if i == 1 { 0x3276 } else if i == 2 { 0x3279 } else { 0x3441 }
}

/// The EGL attribute naming plane `i`'s pitch.
pub fn plane_pitch_attr(i: usize) -> (a: i32)
    ensures
        a == spec_plane_pitch_attr(i as int),
{
    if i == 0 { 0x3274 } else if i == 1 { 0x3277 } else if i == 2 { 0x327a } else { 0x3442 }
}

/// The EGL attribute naming the low half of plane `i`'s modifier.
pub fn plane_modifier_lo_attr(i: usize) -> (a: i32)
    ensures
        a == spec_plane_modifier_lo_attr(i as int),
{
    if i == 0 { 0x3443 } else if i == 1 { 0x3445 } else if i == 2 { 0x3447 } else { 0x3449 }
}

/// The EGL attribute naming the high half of plane `i`'s modifier.
pub fn plane_modifier_hi_attr(i: usize) -> (a: i32)
    ensures
        a == spec_plane_modifier_hi_attr(i as int),
{
    if i == 0 { 0x3444 } else if i == 1 { 0x3446 } else if i == 2 { 0x3448 } else { 0x344a }
}

/// The message for a value that does not fit an `EGLint`.
pub open spec fn msg_overflow(name: Seq<char>, value: u32) -> Seq<char> {
    name + " value "@ + dec(value as nat) + " overflows EGLint"@
}

/// Converts an unsigned attribute value to `EGLint`, refusing values above `i32::MAX`.
pub fn u32_to_egl_int(name: &str, value: u32) -> (r: Result<i32, PeekabooXError>)
    ensures
        value <= i32::MAX ==> r == Ok::<i32, PeekabooXError>(value as i32),
        value > i32::MAX ==> (r matches Err(e) && e.message@ == msg_overflow(name@, value)),
{
    if value <= 0x7fff_ffff {
        Ok(value as i32)
    } else {
        let mut m = name.to_owned();
        m.append(" value ");
        let t = u64_text(value as u64);
        m.append(t.as_str());
        m.append(" overflows EGLint");
        Err(PeekabooXError::new(m))
    }
}

/// The attributes one plane contributes, or why it cannot be imported.
pub open spec fn spec_plane_attributes(p: DmaBufPlaneImportDescriptor, supports_modifiers: bool) -> Result<
    Seq<i32>,
    Seq<char>,
> {
    let i = p.plane_index as int;
    if p.plane_index >= 4 {
        Err("EGL DMA-BUF plane index "@ + dec(p.plane_index as nat) + " is out of range"@)
    } else if p.offset > i32::MAX {
        Err(msg_overflow("EGL DMA-BUF plane offset"@, p.offset))
    } else if p.stride > i32::MAX {
        Err(msg_overflow("EGL DMA-BUF plane stride"@, p.stride))
    } else if p.modifier != DRM_FORMAT_MOD_INVALID && !supports_modifiers {
        Err("EGL DMA-BUF import requires explicit modifier support"@)
    } else {
        Ok(
            seq![
                spec_plane_fd_attr(i),
                p.fd,
                spec_plane_offset_attr(i),
                p.offset as i32,
                spec_plane_pitch_attr(i),
                p.stride as i32,
            ] + if p.modifier != DRM_FORMAT_MOD_INVALID {
                seq![
                    spec_plane_modifier_lo_attr(i),
                    (p.modifier as u32) as i32,
                    spec_plane_modifier_hi_attr(i),
                    ((p.modifier >> 32u64) as u32) as i32,
                ]
            } else {
                Seq::<i32>::empty()
            },
        )
    }
}

/// The attributes of a run of planes, or the first plane's error.
pub open spec fn spec_planes_attributes(
    planes: Seq<DmaBufPlaneImportDescriptor>,
    supports_modifiers: bool,
) -> Result<Seq<i32>, Seq<char>>
    decreases planes.len(),
{
    if planes.len() == 0 {
        Ok(Seq::empty())
    } else {
        match spec_planes_attributes(planes.drop_last(), supports_modifiers) {
            Err(e) => Err(e),
            Ok(a) => match spec_plane_attributes(planes.last(), supports_modifiers) {
                Err(e) => Err(e),
                Ok(b) => Ok(a + b),
            },
        }
    }
}

/// The `eglCreateImage` attribute list for a frame: size, fourcc, each plane's
/// fd, offset, pitch (and modifier when one is given), then `EGL_NONE`.
pub open spec fn spec_egl_attributes(d: DmaBufFrameImportDescriptor, supports_modifiers: bool) -> Result<
    Seq<i32>,
    Seq<char>,
> {
    if d.planes@.len() > 4 {
        Err("EGL DMA-BUF import supports at most 4 planes, got "@ + dec(d.planes@.len()))
    } else if d.width > i32::MAX {
        Err(msg_overflow("EGL DMA-BUF width"@, d.width))
    } else if d.height > i32::MAX {
        Err(msg_overflow("EGL DMA-BUF height"@, d.height))
    } else {
        match spec_planes_attributes(d.planes@, supports_modifiers) {
            Err(e) => Err(e),
            Ok(p) => Ok(
                seq![
                    EGL_WIDTH,
                    d.width as i32,
                    EGL_HEIGHT,
                    d.height as i32,
                    EGL_LINUX_DRM_FOURCC_EXT,
                    d.fourcc as i32,
                ] + p + seq![EGL_NONE],
            ),
        }
    }
}

/// `r` is the outcome that `spec` describes.
pub open spec fn matches_outcome(r: Result<Vec<i32>, PeekabooXError>, spec: Result<Seq<i32>, Seq<char>>) -> bool {
    match spec {
        Ok(a) => r matches Ok(v) && v@ == a,
        Err(m) => r matches Err(e) && e.message@ == m,
    }
}

proof fn lemma_planes_error_sticks(
    planes: Seq<DmaBufPlaneImportDescriptor>,
    k: int,
    supports_modifiers: bool,
)
    requires
        0 <= k <= planes.len(),
        spec_planes_attributes(planes.subrange(0, k), supports_modifiers) is Err,
    ensures
        spec_planes_attributes(planes, supports_modifiers) == spec_planes_attributes(
            planes.subrange(0, k),
            supports_modifiers,
        ),
    decreases planes.len() - k,
{
    if k < planes.len() {
        assert(planes.drop_last().subrange(0, k) =~= planes.subrange(0, k));
        lemma_planes_error_sticks(planes.drop_last(), k, supports_modifiers);
        assert(planes.subrange(0, planes.len() as int) =~= planes);
    } else {
        assert(planes.subrange(0, k) =~= planes);
    }
}

fn plane_attributes(p: &DmaBufPlaneImportDescriptor, supports_modifiers: bool, out: &mut Vec<i32>) -> (r: Result<(), PeekabooXError>)
    ensures
        match spec_plane_attributes(*p, supports_modifiers) {
            Ok(a) => r is Ok && final(out)@ == old(out)@ + a,
            Err(m) => r matches Err(e) && e.message@ == m,
        },
{
    if p.plane_index >= 4 {
        let mut m = String::from_str("EGL DMA-BUF plane index ");
        let t = u64_text(p.plane_index as u64);
        m.append(t.as_str());
        m.append(" is out of range");
        return Err(PeekabooXError::new(m));
    }
    let offset = u32_to_egl_int("EGL DMA-BUF plane offset", p.offset)?;
    let stride = u32_to_egl_int("EGL DMA-BUF plane stride", p.stride)?;
    let has_modifier = p.modifier != DRM_FORMAT_MOD_INVALID;
    if has_modifier && !supports_modifiers {
        return Err(PeekabooXError::from_str("EGL DMA-BUF import requires explicit modifier support"));
    }
    let ghost before = out@;
    out.push(plane_fd_attr(p.plane_index));
    out.push(p.fd);
    out.push(plane_offset_attr(p.plane_index));
    out.push(offset);
    out.push(plane_pitch_attr(p.plane_index));
    out.push(stride);
    if has_modifier {
        out.push(plane_modifier_lo_attr(p.plane_index));
        out.push((p.modifier as u32) as i32);
        out.push(plane_modifier_hi_attr(p.plane_index));
        out.push(((p.modifier >> 32u64) as u32) as i32);
    }
    proof {
        let a = spec_plane_attributes(*p, supports_modifiers)->Ok_0;
        assert(out@ =~= before + a);
    }
    Ok(())
}

/// Builds the `eglCreateImage` attribute list of a frame (see [`spec_egl_attributes`]).
pub fn egl_dma_buf_attributes(descriptor: &DmaBufFrameImportDescriptor, supports_modifiers: bool) -> (r:
    Result<Vec<i32>, PeekabooXError>)
    ensures
        matches_outcome(r, spec_egl_attributes(*descriptor, supports_modifiers)),
{
    if descriptor.planes.len() > 4 {
        let mut m = String::from_str("EGL DMA-BUF import supports at most 4 planes, got ");
        let t = u64_text(descriptor.planes.len() as u64);
        m.append(t.as_str());
        return Err(PeekabooXError::new(m));
    }
    let width = u32_to_egl_int("EGL DMA-BUF width", descriptor.width)?;
    let height = u32_to_egl_int("EGL DMA-BUF height", descriptor.height)?;
    let mut attributes: Vec<i32> = Vec::new();
    attributes.push(EGL_WIDTH);
    attributes.push(width);
    attributes.push(EGL_HEIGHT);
    attributes.push(height);
    attributes.push(EGL_LINUX_DRM_FOURCC_EXT);
    attributes.push(descriptor.fourcc as i32);
    let ghost header = attributes@;
    let ghost planes = descriptor.planes@;
    let mut i: usize = 0;
    while i < descriptor.planes.len()
        invariant
            i <= planes.len(),
            planes == descriptor.planes@,
            planes.len() <= 4,
            descriptor.width <= i32::MAX,
            descriptor.height <= i32::MAX,
            spec_planes_attributes(planes.subrange(0, i as int), supports_modifiers) is Ok,
            attributes@ == header + spec_planes_attributes(
                planes.subrange(0, i as int),
                supports_modifiers,
            )->Ok_0,
        decreases planes.len() - i,
    {
        assert(planes.subrange(0, i + 1).drop_last() =~= planes.subrange(0, i as int));
        assert(planes.subrange(0, i + 1).last() == planes[i as int]);
        match plane_attributes(&descriptor.planes[i], supports_modifiers, &mut attributes) {
            Ok(()) => {},
            Err(e) => {
                proof {
                    lemma_planes_error_sticks(planes, i + 1, supports_modifiers);
                }
                return Err(e);
            },
        }
        proof {
            assert(attributes@ =~= header + spec_planes_attributes(
                planes.subrange(0, i + 1),
                supports_modifiers,
            )->Ok_0);
        }
        i = i + 1;
    }
    assert(planes.subrange(0, planes.len() as int) =~= planes);
    attributes.push(EGL_NONE);
    proof {
        let p = spec_planes_attributes(planes, supports_modifiers)->Ok_0;
        assert(attributes@ =~= seq![
            EGL_WIDTH,
            descriptor.width as i32,
            EGL_HEIGHT,
            descriptor.height as i32,
            EGL_LINUX_DRM_FOURCC_EXT,
            descriptor.fourcc as i32,
        ] + p + seq![EGL_NONE]);
    }
    Ok(attributes)
}

/// `extension` is one of the space-separated names of an extension list.
pub open spec fn spec_extension_listed(extensions: Seq<char>, extension: Seq<char>) -> bool {
    exists|i: int|
        0 <= i < tokens(extensions, Separators::AsciiWhitespace).len() && #[trigger] tokens(
            extensions,
            Separators::AsciiWhitespace,
        )[i] == extension
}

/// Whether an extension list names `extension` as a whole word.
pub fn extension_list_contains(extensions: &str, extension: &str) -> (r: bool)
    ensures
        r == spec_extension_listed(extensions@, extension@),
{
    let list = chars_of(extensions);
    let wanted = chars_of(extension);
    let names = split_tokens(&list, Separators::AsciiWhitespace);
    let mut i: usize = 0;
    while i < names.len()
        invariant
            i <= names@.len(),
            views(names@) == tokens(extensions@, Separators::AsciiWhitespace),
            wanted@ == extension@,
            forall|j: int| 0 <= j < i ==> views(names@)[j] != extension@,
        decreases names@.len() - i,
    {
        if chars_eq(&names[i], &wanted) {
            assert(views(names@)[i as int] == extension@);
            return true;
        }
        i = i + 1;
    }
    false
}

/// Whether the display's extension list names `extension`.
pub fn egl_extension_present(extensions: &str, extension: &str) -> (r: bool)
    ensures
        r == spec_extension_listed(extensions@, extension@),
{
    extension_list_contains(extensions, extension)
}

} // verus!
