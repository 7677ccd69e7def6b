use vstd::prelude::*;

use crate::backends::CaptureBackendCapability;
use crate::capture_requests::{capture_frame_source_label, format_rect, spec_rect_text, spec_source_label};
use crate::fmt::{dec, u64_text};
use crate::frame::CaptureFrameSource;
use crate::lookup::{backend_kind_name, spec_backend_kind_name};
use crate::types::{BackendKind, Rect};

verus! {

/// The outcome of one probe of a backend report.
#[derive(Debug, Clone, PartialEq, Eq)]
pub struct CaptureProbeResult {
    pub probe: String,
    pub ok: bool,
    pub backend_name: Option<String>,
    pub backend_kind: Option<String>,
    pub detail: String,
    pub output_path: Option<String>,
    pub bytes_written: Option<u64>,
    pub width: Option<u32>,
    pub height: Option<u32>,
}

/// A failed probe: its name and what went wrong, nothing else.
pub fn probe_error_result(probe: &str, detail: String) -> (r: CaptureProbeResult)
    ensures
        r.probe@ == probe@,
        !r.ok,
        r.detail@ == detail@,
        r.backend_name is None && r.backend_kind is None && r.output_path is None,
        r.bytes_written is None && r.width is None && r.height is None,
{
    CaptureProbeResult {
        probe: String::from_str(probe),
        ok: false,
        backend_name: None,
        backend_kind: None,
        detail,
        output_path: None,
        bytes_written: None,
        width: None,
        height: None,
    }
}

/// A probe that wrote a screenshot file.
pub fn file_probe_result(
    backend_name: String,
    backend_kind: BackendKind,
    output_path: String,
    bytes_written: u64,
) -> (r: CaptureProbeResult)
    ensures
        r.probe@ == "file"@ && r.ok,
        r.backend_name == Some(backend_name),
        r.backend_kind matches Some(k) && k@ == spec_backend_kind_name(backend_kind),
        r.detail@ == "wrote "@ + dec(bytes_written as nat) + " bytes"@,
        r.output_path == Some(output_path),
        r.bytes_written == Some(bytes_written),
        r.width is None && r.height is None,
{
    let mut detail = String::from_str("wrote ");
    let n = u64_text(bytes_written);
    detail.append(n.as_str());
    detail.append(" bytes");
    CaptureProbeResult {
        probe: String::from_str("file"),
        ok: true,
        backend_name: Some(backend_name),
        backend_kind: Some(backend_kind_name(backend_kind)),
        detail,
        output_path: Some(output_path),
        bytes_written: Some(bytes_written),
        width: None,
        height: None,
    }
}

fn size_text(width: u32, height: u32) -> (s: String)
    ensures
        s@ == dec(width as nat) + "x"@ + dec(height as nat),
{
    let mut s = u64_text(width as u64);
    s.append("x");
    let h = u64_text(height as u64);
    s.append(h.as_str());
    s
}

/// A probe that captured a full frame.
pub fn frame_probe_result(
    backend_name: String,
    backend_kind: BackendKind,
    width: u32,
    height: u32,
    source: CaptureFrameSource,
) -> (r: CaptureProbeResult)
    ensures
        r.probe@ == "frame"@ && r.ok,
        r.backend_name == Some(backend_name),
        r.backend_kind matches Some(k) && k@ == spec_backend_kind_name(backend_kind),
        r.detail@ == "captured "@ + dec(width as nat) + "x"@ + dec(height as nat) + " via "@
            + spec_source_label(source),
        r.output_path is None && r.bytes_written is None,
        r.width == Some(width) && r.height == Some(height),
{
    let mut detail = String::from_str("captured ");
    let size = size_text(width, height);
    detail.append(size.as_str());
    detail.append(" via ");
    detail.append(capture_frame_source_label(source));
    CaptureProbeResult {
        probe: String::from_str("frame"),
        ok: true,
        backend_name: Some(backend_name),
        backend_kind: Some(backend_kind_name(backend_kind)),
        detail,
        output_path: None,
        bytes_written: None,
        width: Some(width),
        height: Some(height),
    }
}

/// A probe that captured a region.
pub fn region_probe_result(
    region: Rect,
    backend_name: String,
    backend_kind: BackendKind,
    width: u32,
    height: u32,
    source: CaptureFrameSource,
) -> (r: CaptureProbeResult)
    ensures
        r.probe@ == "region"@ && r.ok,
        r.backend_name == Some(backend_name),
        r.backend_kind matches Some(k) && k@ == spec_backend_kind_name(backend_kind),
        r.detail@ == "captured "@ + dec(width as nat) + "x"@ + dec(height as nat) + " region "@
            + spec_rect_text(region) + " via "@ + spec_source_label(source),
        r.output_path is None && r.bytes_written is None,
        r.width == Some(width) && r.height == Some(height),
{
    let mut detail = String::from_str("captured ");
    let size = size_text(width, height);
    detail.append(size.as_str());
    detail.append(" region ");
    let rect = format_rect(region);
    detail.append(rect.as_str());
    detail.append(" via ");
    detail.append(capture_frame_source_label(source));
    CaptureProbeResult {
        probe: String::from_str("region"),
        ok: true,
        backend_name: Some(backend_name),
        backend_kind: Some(backend_kind_name(backend_kind)),
        detail,
        output_path: None,
        bytes_written: None,
        width: Some(width),
        height: Some(height),
    }
}

/// The serial as a report writes it: the number, or `-` when unknown.
pub open spec fn serial_text(serial: Option<u64>) -> Seq<char> {
    match serial {
        Some(s) => dec(s as nat),
        None => "-"@,
    }
}

/// A probe that received a DMA-BUF frame through the compute import path.
pub fn dmabuf_capture_probe_result(
    backend_name: String,
    stream_node_id: u32,
    pipewire_serial: Option<u64>,
    width: u32,
    height: u32,
    pixel_format: &str,
    planes: u64,
) -> (r: CaptureProbeResult)
    ensures
        r.probe@ == "dmabuf"@ && r.ok,
        r.backend_name == Some(backend_name),
        r.backend_kind matches Some(k) && k@ == "compute"@,
        r.detail@ == "stream node_id="@ + dec(stream_node_id as nat) + " pipewire_serial="@
            + serial_text(pipewire_serial) + " frame="@ + dec(width as nat) + "x"@ + dec(
            height as nat,
        ) + " format="@ + pixel_format@ + " planes="@ + dec(planes as nat),
        r.output_path is None && r.bytes_written is None,
        r.width == Some(width) && r.height == Some(height),
{
    let mut detail = String::from_str("stream node_id=");
    let node = u64_text(stream_node_id as u64);
    detail.append(node.as_str());
    detail.append(" pipewire_serial=");
    match pipewire_serial {
        Some(s) => {
            let t = u64_text(s);
            detail.append(t.as_str());
        },
        None => detail.append("-"),
    }
    detail.append(" frame=");
    let size = size_text(width, height);
    detail.append(size.as_str());
    detail.append(" format=");
    detail.append(pixel_format);
    detail.append(" planes=");
    let p = u64_text(planes);
    detail.append(p.as_str());
    CaptureProbeResult {
        probe: String::from_str("dmabuf"),
        ok: true,
        backend_name: Some(backend_name),
        backend_kind: Some(String::from_str("compute")),
        detail,
        output_path: None,
        bytes_written: None,
        width: Some(width),
        height: Some(height),
    }
}

/// The region a region probe captures: the requested one, else the top-left
/// 320x180 of the screen.
pub fn probe_region(region: Option<Rect>) -> (r: Rect)
    ensures
        r == match region {
            Some(g) => g,
            None => Rect { x: 0, y: 0, width: 320, height: 180 },
        },
{
    match region {
        Some(g) => g,
        None => Rect::new(0, 0, 320, 180),
    }
}

/// The image backends a report lists: all of them when diagnosing, else only
/// those with nothing against them, in order.
pub open spec fn spec_listed(caps: Seq<CaptureBackendCapability>, diagnose: bool) -> Seq<
    CaptureBackendCapability,
>
    decreases caps.len(),
{
    if caps.len() == 0 {
        caps
    } else {
        let rest = spec_listed(caps.drop_last(), diagnose);
        if diagnose || caps.last().reason is None {
            rest.push(caps.last())
        } else {
            rest
        }
    }
}

/// The image backends a report lists (see [`spec_listed`]).
pub fn listed_image_backends(capabilities: Vec<CaptureBackendCapability>, diagnose: bool) -> (r: Vec<
    CaptureBackendCapability,
>)
    ensures
        r@ == spec_listed(capabilities@, diagnose),
{
    let ghost all = capabilities@;
    let n = capabilities.len();
    let mut rest = capabilities;
    let mut kept: Vec<CaptureBackendCapability> = Vec::new();
    let mut i: usize = 0;
    while rest.len() > 0
        invariant
            all.len() == n,
            i + rest@.len() == n,
            rest@ == all.subrange(i as int, n as int),
            kept@ == spec_listed(all.subrange(0, i as int), diagnose),
        decreases rest@.len(),
    {
        let c = rest.remove(0);
        assert(c == all[i as int]);
        assert(rest@ =~= all.subrange(i + 1, n as int));
        assert(all.subrange(0, i + 1).drop_last() =~= all.subrange(0, i as int));
        if diagnose || c.reason.is_none() {
            kept.push(c);
        }
        i = i + 1;
    }
    assert(all.subrange(0, n as int) =~= all);
    kept
}

} // verus!
