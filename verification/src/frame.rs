use vstd::prelude::*;

use crate::fmt::{dec, dec_int, i64_text, u64_text};
use crate::types::{spec_bytes_per_pixel, BackendKind, CaptureFrame, PeekabooXError, PixelFormat, Rect};

verus! {

/// Something that can capture the screen or a region of it.
pub trait CaptureBackend {
    fn capture_screen(&self) -> Result<CaptureFrame, PeekabooXError>;

    fn capture_region(&self, region: Rect) -> Result<CaptureFrame, PeekabooXError>;
}

/// A capture backend for environments without any: every call fails.
#[derive(Debug, Default)]
pub struct UnimplementedCaptureBackend;

impl CaptureBackend for UnimplementedCaptureBackend {
    fn capture_screen(&self) -> (r: Result<CaptureFrame, PeekabooXError>)
        ensures
            r matches Err(e) && e.message@ == "screen capture backend is unavailable in this environment"@,
    {
        Err(PeekabooXError::from_str("screen capture backend is unavailable in this environment"))
    }

    fn capture_region(&self, region: Rect) -> (r: Result<CaptureFrame, PeekabooXError>)
        ensures
            r matches Err(e) && e.message@ == "region capture backend is unavailable in this environment"@,
    {
        Err(PeekabooXError::from_str("region capture backend is unavailable in this environment"))
    }
}

/// Where a captured frame came from.
#[derive(Debug, Clone, Copy, PartialEq, Eq, Structural)]
pub enum CaptureFrameSource {
    DirectStdout,
    DmaBufZeroCopy,
    FileFallback,
    FullFrameCrop,
}

/// A captured frame and the backend that produced it.
#[derive(Debug, Clone, PartialEq, Eq)]
pub struct CaptureFrameMetadata {
    pub frame: CaptureFrame,
    pub backend_name: String,
    pub backend_kind: BackendKind,
    pub source: CaptureFrameSource,
}

/// A screenshot written to a file and the backend that wrote it.
#[derive(Debug, Clone, PartialEq, Eq)]
pub struct CaptureFileMetadata {
    pub output_path: String,
    pub backend_name: String,
    pub backend_kind: BackendKind,
    pub bytes_written: u64,
}

/// Bytes in one row of visible pixels of a frame.
pub open spec fn frame_row_bytes(frame: CaptureFrame) -> int {
    frame.width * spec_bytes_per_pixel(frame.format)
}

/// Bytes a frame's data must hold: every row but the last at full stride, then
/// one row of pixels.
pub open spec fn frame_required_len(frame: CaptureFrame) -> int {
    (frame.height - 1) * frame.stride + frame_row_bytes(frame)
}

/// Why a frame's geometry and data are inconsistent, if they are.
pub open spec fn spec_frame_error(frame: CaptureFrame, name: Seq<char>) -> Option<Seq<char>> {
    if frame.width == 0 || frame.height == 0 {
        Some(name + " frame dimensions must be greater than zero"@)
    } else if frame_row_bytes(frame) > usize::MAX {
        Some(name + " frame row size overflows usize"@)
    } else if frame.stride < frame_row_bytes(frame) {
        Some(
            name + " frame stride "@ + dec(frame.stride as nat) + " is smaller than row width "@
                + dec(frame_row_bytes(frame) as nat),
        )
    } else if frame_required_len(frame) > usize::MAX {
        Some(name + " frame data length overflows usize"@)
    } else if frame.data@.len() < frame_required_len(frame) {
        Some(
            name + " frame data is too short: expected at least "@ + dec(
                frame_required_len(frame) as nat,
            ) + " bytes, got "@ + dec(frame.data@.len()),
        )
    } else {
        None
    }
}

proof fn lemma_mul_le(a: int, b: int, c: int)
    requires
        0 <= a <= b,
        0 <= c,
    ensures
        a * c <= b * c,
{
    assert(a * c <= b * c) by (nonlinear_arith)
        requires
            0 <= a <= b,
            0 <= c,
    ;
}

/// Checks a frame (see [`spec_frame_error`]); `name` opens the error message.
pub fn validate_frame(frame: &CaptureFrame, name: &str) -> (r: Result<(), PeekabooXError>)
    ensures
        match spec_frame_error(*frame, name@) {
            Some(m) => r matches Err(e) && e.message@ == m,
            None => r is Ok,
        },
{
    if frame.width == 0 || frame.height == 0 {
        let mut m = name.to_owned();
        m.append(" frame dimensions must be greater than zero");
        return Err(PeekabooXError::new(m));
    }
    let bpp = frame.format.bytes_per_pixel() as u64;
    proof {
        lemma_mul_le(bpp as int, 4, frame.width as int);
    }
    let row: u64 = frame.width as u64 * bpp;
    if row > usize::MAX as u64 {
        let mut m = name.to_owned();
        m.append(" frame row size overflows usize");
        return Err(PeekabooXError::new(m));
    }
    if (frame.stride as u64) < row {
        let mut m = name.to_owned();
        m.append(" frame stride ");
        let t = u64_text(frame.stride as u64);
        m.append(t.as_str());
        m.append(" is smaller than row width ");
        let t2 = u64_text(row);
        m.append(t2.as_str());
        return Err(PeekabooXError::new(m));
    }
    proof {
        lemma_mul_le((frame.height - 1) as int, 0xffff_ffff, frame.stride as int);
        lemma_mul_le(frame.stride as int, 0xffff_ffff, 0xffff_ffff);
    }
    let required: u64 = (frame.height - 1) as u64 * frame.stride as u64 + row;
    if required > usize::MAX as u64 {
        let mut m = name.to_owned();
        m.append(" frame data length overflows usize");
        return Err(PeekabooXError::new(m));
    }
    if (frame.data.len() as u64) < required {
        let mut m = name.to_owned();
        m.append(" frame data is too short: expected at least ");
        let t = u64_text(required);
        m.append(t.as_str());
        m.append(" bytes, got ");
        let t2 = u64_text(frame.data.len() as u64);
        m.append(t2.as_str());
        return Err(PeekabooXError::new(m));
    }
    Ok(())
}

/// Why a capture region is unusable, if it is.
pub open spec fn spec_region_error(region: Rect) -> Option<Seq<char>> {
    if region.width == 0 || region.height == 0 {
        Some("capture region dimensions must be greater than zero"@)
    } else if region.x < 0 || region.y < 0 {
        Some("capture region origin must be non-negative"@)
    } else if region.x + region.width > i32::MAX || region.y + region.height > i32::MAX {
        Some("capture region overflows i32"@)
    } else {
        None
    }
}

/// The coordinate one past the end of a span, if it fits in `i32`.
pub fn region_end_i32(origin: i32, length: u32) -> (r: Result<i32, PeekabooXError>)
    ensures
        origin + length <= i32::MAX ==> r == Ok::<i32, PeekabooXError>((origin + length) as i32),
        origin + length > i32::MAX ==> (r matches Err(e) && e.message@ == "capture region overflows i32"@),
{
    let end: i64 = origin as i64 + length as i64;
    if end > i32::MAX as i64 {
        return Err(PeekabooXError::from_str("capture region overflows i32"));
    }
    Ok(end as i32)
}

/// Checks a capture region (see [`spec_region_error`]).
pub fn validate_region(region: Rect) -> (r: Result<(), PeekabooXError>)
    ensures
        match spec_region_error(region) {
            Some(m) => r matches Err(e) && e.message@ == m,
            None => r is Ok,
        },
{
    if region.width == 0 || region.height == 0 {
        return Err(PeekabooXError::from_str("capture region dimensions must be greater than zero"));
    }
    if region.x < 0 || region.y < 0 {
        return Err(PeekabooXError::from_str("capture region origin must be non-negative"));
    }
    region_end_i32(region.x, region.width)?;
    region_end_i32(region.y, region.height)?;
    Ok(())
}

/// Accepts a frame from a region capture only if it has the region's size.
pub fn validate_region_capture_frame(frame: CaptureFrame, region: Rect) -> (r: Result<
    CaptureFrame,
    PeekabooXError,
>)
    ensures
        frame.width == region.width && frame.height == region.height ==> r == Ok::<
            CaptureFrame,
            PeekabooXError,
        >(frame),
        !(frame.width == region.width && frame.height == region.height) ==> (r matches Err(e)
            && e.message@ == "region capture returned "@ + dec(frame.width as nat) + "x"@ + dec(
            frame.height as nat,
        ) + " but expected "@ + dec(region.width as nat) + "x"@ + dec(region.height as nat)),
{
    if frame.width == region.width && frame.height == region.height {
        return Ok(frame);
    }
    let mut m = String::from_str("region capture returned ");
    let a = u64_text(frame.width as u64);
    m.append(a.as_str());
    m.append("x");
    let b = u64_text(frame.height as u64);
    m.append(b.as_str());
    m.append(" but expected ");
    let c = u64_text(region.width as u64);
    m.append(c.as_str());
    m.append("x");
    let d = u64_text(region.height as u64);
    m.append(d.as_str());
    Err(PeekabooXError::new(m))
}

/// The `grim -g` geometry of a region: `x,y wxh`.
pub fn grim_region_geometry(region: Rect) -> (g: String)
    ensures
        g@ == dec_int(region.x as int) + ","@ + dec_int(region.y as int) + " "@ + dec(
            region.width as nat,
        ) + "x"@ + dec(region.height as nat),
{
    let mut g = i64_text(region.x as i64);
    g.append(",");
    let y = i64_text(region.y as i64);
    g.append(y.as_str());
    g.append(" ");
    let w = u64_text(region.width as u64);
    g.append(w.as_str());
    g.append("x");
    let h = u64_text(region.height as u64);
    g.append(h.as_str());
    g
}

/// The X11 geometry of a region: `wxh+x+y`.
pub fn x11_region_geometry(region: Rect) -> (g: String)
    ensures
        g@ == dec(region.width as nat) + "x"@ + dec(region.height as nat) + "+"@ + dec_int(
            region.x as int,
        ) + "+"@ + dec_int(region.y as int),
{
    let mut g = u64_text(region.width as u64);
    g.append("x");
    let h = u64_text(region.height as u64);
    g.append(h.as_str());
    g.append("+");
    let x = i64_text(region.x as i64);
    g.append(x.as_str());
    g.append("+");
    let y = i64_text(region.y as i64);
    g.append(y.as_str());
    g
}


/// `n` rows of `row` bytes each, the first at `start`, the next `stride` further on.
pub open spec fn rows_from(data: Seq<u8>, start: int, stride: int, row: int, n: nat) -> Seq<u8>
    decreases n,
{
    if n == 0 {
        Seq::empty()
    } else {
        data.subrange(start, start + row) + rows_from(data, start + stride, stride, row, (n - 1) as nat)
    }
}

/// Why a frame cannot be cropped to a region, if it cannot.
pub open spec fn spec_crop_error(frame: CaptureFrame, region: Rect) -> Option<Seq<char>> {
    match spec_frame_error(frame, "crop source"@) {
        Some(m) => Some(m),
        None => match spec_region_error(region) {
            Some(m) => Some(m),
            None => if region.x + region.width > frame.width || region.y + region.height > frame.height {
                Some("capture region exceeds full-frame capture bounds"@)
            } else {
                None
            },
        },
    }
}

/// The pixels of `region`, row by row, tightly packed, in the frame's format.
pub open spec fn spec_cropped(frame: CaptureFrame, region: Rect) -> Seq<u8> {
    let bpp = spec_bytes_per_pixel(frame.format) as int;
    rows_from(
        frame.data@,
        region.y * frame.stride + region.x * bpp,
        frame.stride as int,
        region.width * bpp,
        region.height as nat,
    )
}

fn extend_from_range(out: &mut Vec<u8>, data: &Vec<u8>, start: usize, end: usize)
    requires
        start <= end <= data@.len(),
    ensures
        final(out)@ == old(out)@ + data@.subrange(start as int, end as int),
{
    let mut i = start;
    let ghost before = out@;
    while i < end
        invariant
            start <= i <= end <= data@.len(),
            out@ == before + data@.subrange(start as int, i as int),
        decreases end - i,
    {
        out.push(data[i]);
        i = i + 1;
        assert(out@ =~= before + data@.subrange(start as int, i as int));
    }
}

proof fn lemma_rows_from_step(data: Seq<u8>, start: int, stride: int, row: int, n: nat, k: nat)
    requires
        k < n,
    ensures
        rows_from(data, start, stride, row, n) == rows_from(data, start, stride, row, k)
            + data.subrange(start + k * stride, start + k * stride + row) + rows_from(
            data,
            start + (k + 1) * stride,
            stride,
            row,
            (n - k - 1) as nat,
        ),
    decreases k,
{
    if k == 0 {
        assert(rows_from(data, start, stride, row, 0) =~= Seq::<u8>::empty());
        assert(start + (0 + 1) * stride == start + stride) by (nonlinear_arith);
        assert(Seq::<u8>::empty() + data.subrange(start, start + row) =~= data.subrange(start, start + row));
    } else {
        lemma_rows_from_step(data, start + stride, stride, row, (n - 1) as nat, (k - 1) as nat);
        assert(start + stride + (k - 1) * stride == start + k * stride) by (nonlinear_arith);
        assert(start + stride + k * stride == start + (k + 1) * stride) by (nonlinear_arith);
        assert(rows_from(data, start, stride, row, k) =~= data.subrange(start, start + row)
            + rows_from(data, start + stride, stride, row, (k - 1) as nat));
        assert(rows_from(data, start, stride, row, n) =~= data.subrange(start, start + row)
            + rows_from(data, start + stride, stride, row, (n - 1) as nat));
    }
}

proof fn lemma_rows_from_prefix(data: Seq<u8>, start: int, stride: int, row: int, k: nat)
    ensures
        rows_from(data, start, stride, row, k + 1) == rows_from(data, start, stride, row, k)
            + data.subrange(start + k * stride, start + k * stride + row),
{
    lemma_rows_from_step(data, start, stride, row, k + 1, k);
    assert(rows_from(data, start + (k + 1) * stride, stride, row, 0) =~= Seq::<u8>::empty());
    assert(rows_from(data, start, stride, row, k + 1) =~= rows_from(data, start, stride, row, k)
        + data.subrange(start + k * stride, start + k * stride + row));
}

proof fn lemma_rows_from_len(data: Seq<u8>, start: int, stride: int, row: int, n: nat)
    requires
        0 <= start,
        0 <= row <= stride,
        n > 0 ==> start + (n - 1) * stride + row <= data.len(),
    ensures
        rows_from(data, start, stride, row, n).len() == n * row,
    decreases n,
{
    if n > 0 {
        if n > 1 {
            assert(start + stride + (n - 2) * stride == start + (n - 1) * stride) by (nonlinear_arith);
            assert((n - 1) * stride >= 0) by (nonlinear_arith)
                requires
                    n >= 1,
                    stride >= 0,
            ;
        }
        assert((n - 1) * stride >= 0) by (nonlinear_arith)
            requires
                n >= 1,
                stride >= 0,
        ;
        lemma_rows_from_len(data, start + stride, stride, row, (n - 1) as nat);
        let a = data.subrange(start, start + row);
        assert(a.len() == row);
        assert(rows_from(data, start, stride, row, n) == a + rows_from(
            data,
            start + stride,
            stride,
            row,
            (n - 1) as nat,
        ));
        assert(row + (n - 1) * row == n * row) by (nonlinear_arith);
    } else {
        assert(n * row == 0) by (nonlinear_arith)
            requires
                n == 0,
        ;
    }
}

proof fn lemma_rows_from_index(data: Seq<u8>, start: int, stride: int, row: int, n: nat, i: int, k: int)
    requires
        0 <= start,
        0 <= row <= stride,
        start + (n - 1) * stride + row <= data.len(),
        0 <= i < n,
        0 <= k < row,
    ensures
        rows_from(data, start, stride, row, n)[i * row + k] == data[start + i * stride + k],
    decreases n,
{
    assert((n - 1) * stride >= 0) by (nonlinear_arith)
        requires
            n >= 1,
            stride >= 0,
    ;
    let a = data.subrange(start, start + row);
    let b = rows_from(data, start + stride, stride, row, (n - 1) as nat);
    assert(rows_from(data, start, stride, row, n) == a + b);
    if i == 0 {
        assert(0 * row + k == k);
        assert(start + 0 * stride + k == start + k);
    } else {
        assert(start + stride + (n - 2) * stride == start + (n - 1) * stride) by (nonlinear_arith);
        lemma_rows_from_len(data, start + stride, stride, row, (n - 1) as nat);
        lemma_rows_from_index(data, start + stride, stride, row, (n - 1) as nat, i - 1, k);
        assert(i * row + k - row == (i - 1) * row + k) by (nonlinear_arith);
        assert((i - 1) * row + k < (n - 1) * row) by (nonlinear_arith)
            requires
                0 <= k < row,
                1 <= i < n,
        ;
        assert(i * row + k >= row) by (nonlinear_arith)
            requires
                0 <= k,
                1 <= i,
                0 <= row,
        ;
        assert(start + stride + (i - 1) * stride + k == start + i * stride + k) by (nonlinear_arith);
    }
}

/// Cropping copies the region out row by row: byte `k` of row `r` of the
/// cropped pixels (rows packed `width * bpp` bytes apart) is byte
/// `(region.y + r) * stride + region.x * bpp + k` of the frame, for every
/// row and byte of the region.
pub proof fn lemma_crop_copies_region_rows(frame: CaptureFrame, region: Rect)
    requires
        spec_crop_error(frame, region) is None,
    ensures
        ({
            let bpp = spec_bytes_per_pixel(frame.format) as int;
            let w = region.width * bpp;
            &&& spec_cropped(frame, region).len() == region.height * w
            &&& forall|r: int, k: int|
                0 <= r < region.height && 0 <= k < w ==> #[trigger] spec_cropped(frame, region)[r
                    * w + k] == frame.data@[(region.y + r) * frame.stride + region.x * bpp + k]
        }),
{
    let bpp = spec_bytes_per_pixel(frame.format) as int;
    let w = region.width * bpp;
    let stride = frame.stride as int;
    let start = region.y * stride + region.x * bpp;
    let h = region.height as nat;
    assert(region.x >= 0 && region.y >= 0);
    assert(start >= 0) by (nonlinear_arith)
        requires
            region.x >= 0,
            region.y >= 0,
            stride >= 0,
            bpp >= 0,
            start == region.y * stride + region.x * bpp,
    ;
    lemma_mul_le(region.x as int + region.width as int, frame.width as int, bpp);
    assert((region.x + region.width) * bpp == region.x * bpp + w) by (nonlinear_arith)
        requires
            w == region.width * bpp,
    ;
    lemma_mul_le(region.y as int + region.height as int - 1, frame.height as int - 1, stride);
    assert(start + (h - 1) * stride + w == (region.y + h - 1) * stride + region.x * bpp + w)
        by (nonlinear_arith)
        requires
            start == region.y * stride + region.x * bpp,
            h == region.height,
    ;
    lemma_mul_le(region.width as int, frame.width as int, bpp);
    assert(w <= stride);
    assert(0 <= w);
    lemma_rows_from_len(frame.data@, start, stride, w, h);
    assert forall|r: int, k: int| 0 <= r < region.height && 0 <= k < w implies #[trigger] spec_cropped(
        frame,
        region,
    )[r * w + k] == frame.data@[(region.y + r) * frame.stride + region.x * bpp + k] by {
        lemma_rows_from_index(frame.data@, start, stride, w, h, r, k);
        assert(start + r * stride + k == (region.y + r) * frame.stride + region.x * bpp + k)
            by (nonlinear_arith)
            requires
                start == region.y * stride + region.x * bpp,
                stride == frame.stride,
        ;
    }
}

/// Copies `region` out of a frame (see [`spec_cropped`]).
pub fn crop_frame(frame: &CaptureFrame, region: Rect) -> (r: Result<CaptureFrame, PeekabooXError>)
    ensures
        match spec_crop_error(*frame, region) {
            Some(m) => r matches Err(e) && e.message@ == m,
            None => r matches Ok(c) && c.width == region.width && c.height == region.height
                && c.stride == region.width * spec_bytes_per_pixel(frame.format) && c.format
                == frame.format && c.data@ == spec_cropped(*frame, region),
        },
{
    validate_frame(frame, "crop source")?;
    validate_region(region)?;
    if region.x as i64 + region.width as i64 > frame.width as i64 || region.y as i64
        + region.height as i64 > frame.height as i64 {
        return Err(PeekabooXError::from_str("capture region exceeds full-frame capture bounds"));
    }
    let bpp = frame.format.bytes_per_pixel();
    let ghost fb = frame_row_bytes(*frame);
    proof {
        lemma_mul_le(region.width as int, frame.width as int, bpp as int);
        lemma_mul_le(region.x as int + region.width as int, frame.width as int, bpp as int);
        assert((region.x + region.width) * bpp == region.x * bpp + region.width * bpp)
            by (nonlinear_arith);
        lemma_mul_le(region.y as int + region.height as int - 1, frame.height as int - 1, frame.stride as int);
        lemma_mul_le(region.y as int, region.y as int + region.height as int - 1, frame.stride as int);
    }
    let row = region.width as usize * bpp;
    let x_off = region.x as usize * bpp;
    let stride = frame.stride as usize;
    let ghost start = region.y * frame.stride + region.x * bpp;
    let mut data: Vec<u8> = Vec::new();
    let data_len = frame.data.len();
    let mut r: u32 = 0;
    while r < region.height
        invariant
            r <= region.height,
            data_len == frame.data@.len(),
            bpp == spec_bytes_per_pixel(frame.format),
            row == region.width * bpp,
            x_off == region.x * bpp,
            stride == frame.stride,
            start == region.y * frame.stride + region.x * bpp,
            region.y + region.height <= frame.height,
            region.y >= 0,
            region.height > 0,
            (region.y + region.height - 1) * frame.stride + region.x * bpp + row
                <= frame_required_len(*frame) <= frame.data@.len(),
            data@ == rows_from(frame.data@, start, stride as int, row as int, r as nat),
        decreases region.height - r,
    {
        proof {
            lemma_mul_le(region.y as int + r as int, region.y as int + region.height as int - 1, frame.stride as int);
            assert((region.y + r) * frame.stride == start - region.x * bpp + r * stride) by (nonlinear_arith)
                requires
                    start == region.y * frame.stride + region.x * bpp,
                    stride == frame.stride,
            ;
            lemma_rows_from_prefix(frame.data@, start, stride as int, row as int, r as nat);
            assert((region.y + r) * stride + x_off + row <= frame.data@.len());
        }
        let off: usize = (region.y as usize + r as usize) * stride + x_off;
        extend_from_range(&mut data, &frame.data, off, off + row);
        r = r + 1;
    }
    Ok(CaptureFrame {
        width: region.width,
        height: region.height,
        stride: row as u32,
        format: frame.format,
        data,
    })
}


/// One pixel converted to RGBA.
pub open spec fn rgba_pixel(format: PixelFormat, px: Seq<u8>) -> Seq<u8> {
    match format {
        PixelFormat::Rgb8 => seq![px[0], px[1], px[2], 255u8],
        PixelFormat::Rgba8 => px,
        PixelFormat::Bgra8 => seq![px[2], px[1], px[0], px[3]],
    }
}

/// The whole pixels of a row converted to RGBA; a trailing partial pixel is dropped.
pub open spec fn rgba_row(format: PixelFormat, row: Seq<u8>) -> Seq<u8>
    decreases row.len(),
{
    let b = spec_bytes_per_pixel(format) as int;
    if row.len() < b {
        Seq::empty()
    } else {
        rgba_pixel(format, row.subrange(0, b)) + rgba_row(format, row.subrange(b, row.len() as int))
    }
}

/// The first `n` rows of a frame converted to RGBA.
pub open spec fn rgba_rows(frame: CaptureFrame, n: nat) -> Seq<u8>
    decreases n,
{
    if n == 0 {
        Seq::empty()
    } else {
        let start = (n - 1) * frame.stride;
        rgba_rows(frame, (n - 1) as nat) + rgba_row(
            frame.format,
            frame.data@.subrange(start, start + frame_row_bytes(frame)),
        )
    }
}

/// Why a frame cannot be converted to RGBA bytes, if it cannot.
pub open spec fn spec_rgba_error(frame: CaptureFrame) -> Option<Seq<char>> {
    match spec_frame_error(frame, "PNG encode source"@) {
        Some(m) => Some(m),
        None => if frame.width * frame.height * 4 > usize::MAX {
            Some("PNG output size overflows usize"@)
        } else {
            None
        },
    }
}

fn push_rgba_pixel(out: &mut Vec<u8>, data: &Vec<u8>, off: usize, format: PixelFormat)
    requires
        off + spec_bytes_per_pixel(format) <= data@.len(),
    ensures
        final(out)@ == old(out)@ + rgba_pixel(
            format,
            data@.subrange(off as int, off + spec_bytes_per_pixel(format)),
        ),
{
    let ghost before = out@;
    let _n = data.len();
    match format {
        PixelFormat::Rgb8 => {
            out.push(data[off]);
            out.push(data[off + 1]);
            out.push(data[off + 2]);
            out.push(255u8);
        },
        PixelFormat::Rgba8 => {
            out.push(data[off]);
            out.push(data[off + 1]);
            out.push(data[off + 2]);
            out.push(data[off + 3]);
        },
        PixelFormat::Bgra8 => {
            out.push(data[off + 2]);
            out.push(data[off + 1]);
            out.push(data[off]);
            out.push(data[off + 3]);
        },
    }
    assert(out@ =~= before + rgba_pixel(
        format,
        data@.subrange(off as int, off + spec_bytes_per_pixel(format)),
    ));
}

fn push_rgba_row(out: &mut Vec<u8>, data: &Vec<u8>, start: usize, end: usize, format: PixelFormat)
    requires
        start <= end <= data@.len(),
    ensures
        final(out)@ == old(out)@ + rgba_row(format, data@.subrange(start as int, end as int)),
{
    let bpp = format.bytes_per_pixel();
    let ghost before = out@;
    let mut off = start;
    while off <= end && end - off >= bpp
        invariant
            start <= off <= end <= data@.len(),
            bpp == spec_bytes_per_pixel(format),
            before + rgba_row(format, data@.subrange(start as int, end as int)) == out@ + rgba_row(
                format,
                data@.subrange(off as int, end as int),
            ),
        decreases end - off,
    {
        let ghost rest = data@.subrange(off as int, end as int);
        assert(rest.subrange(0, bpp as int) =~= data@.subrange(off as int, off + bpp));
        assert(rest.subrange(bpp as int, rest.len() as int) =~= data@.subrange(off + bpp, end as int));
        let ghost mid = out@;
        push_rgba_pixel(out, data, off, format);
        assert(mid + rgba_row(format, rest) =~= out@ + rgba_row(format, data@.subrange(off + bpp, end as int)));
        off = off + bpp;
    }
    assert(rgba_row(format, data@.subrange(off as int, end as int)) =~= Seq::<u8>::empty());
    assert(out@ =~= before + rgba_row(format, data@.subrange(start as int, end as int)));
}

/// Converts a frame to tightly packed RGBA bytes (see [`rgba_rows`]).
pub fn frame_to_rgba_bytes(frame: &CaptureFrame) -> (r: Result<Vec<u8>, PeekabooXError>)
    ensures
        match spec_rgba_error(*frame) {
            Some(m) => r matches Err(e) && e.message@ == m,
            None => r matches Ok(v) && v@ == rgba_rows(*frame, frame.height as nat),
        },
{
    validate_frame(frame, "PNG encode source")?;
    let width = frame.width as u64;
    let height = frame.height as u64;
    proof {
        lemma_mul_le(frame.width as int, 0xffff_ffff, frame.height as int);
        lemma_mul_le(frame.height as int, 0xffff_ffff, 0xffff_ffff);
    }
    let pixels: u64 = width * height;
    if pixels > usize::MAX as u64 / 4 {
        assert(frame.width * frame.height * 4 > usize::MAX);
        return Err(PeekabooXError::from_str("PNG output size overflows usize"));
    }
    let bpp = frame.format.bytes_per_pixel();
    let stride = frame.stride as usize;
    proof {
        lemma_mul_le(bpp as int, 4, frame.width as int);
    }
    let row = frame.width as usize * bpp;
    let data_len = frame.data.len();
    let mut out: Vec<u8> = Vec::new();
    let mut y: u32 = 0;
    while y < frame.height
        invariant
            y <= frame.height,
            frame.height > 0,
            data_len == frame.data@.len(),
            bpp == spec_bytes_per_pixel(frame.format),
            row == frame_row_bytes(*frame),
            stride == frame.stride,
            frame_required_len(*frame) <= frame.data@.len(),
            out@ == rgba_rows(*frame, y as nat),
        decreases frame.height - y,
    {
        proof {
            lemma_mul_le(y as int, frame.height as int - 1, frame.stride as int);
        }
        let start = y as usize * stride;
        push_rgba_row(&mut out, &frame.data, start, start + row, frame.format);
        y = y + 1;
    }
    Ok(out)
}

proof fn lemma_rgba_row_len(format: PixelFormat, row: Seq<u8>, k: nat)
    requires
        row.len() == k * spec_bytes_per_pixel(format),
    ensures
        rgba_row(format, row).len() == k * 4,
    decreases k,
{
    let b = spec_bytes_per_pixel(format) as int;
    if k > 0 {
        assert(k * b == (k - 1) * b + b) by (nonlinear_arith);
        assert((k - 1) * b >= 0) by (nonlinear_arith)
            requires
                k >= 1,
                b >= 0,
        ;
        lemma_rgba_row_len(format, row.subrange(b, row.len() as int), (k - 1) as nat);
        assert(k * 4 == (k - 1) * 4 + 4) by (nonlinear_arith);
    }
}

/// The RGBA bytes of a valid frame hold four bytes for each of its pixels.
pub proof fn lemma_rgba_rows_len(frame: CaptureFrame, n: nat)
    requires
        spec_frame_error(frame, "PNG encode source"@) is None,
        n <= frame.height,
    ensures
        rgba_rows(frame, n).len() == n * frame.width * 4,
    decreases n,
{
    if n > 0 {
        lemma_rgba_rows_len(frame, (n - 1) as nat);
        lemma_mul_le(n - 1, frame.height - 1, frame.stride as int);
        let start = (n - 1) * frame.stride;
        assert(start + frame_row_bytes(frame) <= frame.data@.len());
        assert(start >= 0) by (nonlinear_arith)
            requires
                n >= 1,
                frame.stride >= 0,
                start == (n - 1) * frame.stride,
        ;
        assert(frame_row_bytes(frame) == frame.width * spec_bytes_per_pixel(frame.format));
        lemma_rgba_row_len(
            frame.format,
            frame.data@.subrange(start, start + frame_row_bytes(frame)),
            frame.width as nat,
        );
        let m = (n - 1) as nat;
        assert(rgba_rows(frame, n) == rgba_rows(frame, m) + rgba_row(
            frame.format,
            frame.data@.subrange(start, start + frame_row_bytes(frame)),
        ));
        assert(rgba_rows(frame, m).len() == m * frame.width * 4);
        assert(n * frame.width * 4 == m * frame.width * 4 + frame.width * 4) by (nonlinear_arith)
            requires
                m == n - 1,
        ;
    } else {
        assert(n * frame.width * 4 == 0) by (nonlinear_arith)
            requires
                n == 0,
        ;
    }
}

} // verus!
