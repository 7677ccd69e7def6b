use vstd::prelude::*;

use crate::backends::{
    candidate_backends, candidate_frame_backends, candidate_region_frame_backends, detected_as,
    first_detected, keep_stdout, select_backend, select_zero_copy_backend,
    spec_availability_debug, spec_candidate_tools, spec_tool_name, spec_zero_copy_availability,
    zero_copy_unavailable_message, CaptureEnvironment, DetectedCaptureBackend,
    DetectedZeroCopyBackend, ZeroCopyAvailability, ZeroCopyTransport,
};
use crate::capture_plan::{
    all_backends_failed, backend_attempt_error, fallback_error, no_screenshot_backend_error,
    spec_join, spec_session_debug, CaptureFallback,
};
use crate::frame::{spec_region_error, validate_region};
use crate::text::texts;
use crate::types::{BackendKind, PeekabooXError, Rect};

verus! {

/// The error when no screenshot tool can capture the session (see
/// [`no_screenshot_backend_error`]).
pub open spec fn msg_no_backend(env: CaptureEnvironment, file_capture: bool) -> Seq<char> {
    "no supported screenshot backend found for "@ + spec_session_debug(env.session_type) + (
    if file_capture {
        "; install xdg-desktop-portal, gdbus, grim, gnome-screenshot, spectacle, scrot, maim, imagemagick import, or use .xwd output with xwd"@
    } else {
        "; install gdbus, grim, gnome-screenshot, spectacle, scrot, maim, imagemagick import, or use .xwd output with xwd"@
    })
}

/// The backends a capture tries, in order, and the errors of those tried so
/// far. A caller asks for the next backend, runs it, and reports a failure
/// before asking again.
#[derive(Debug)]
pub struct CaptureAttempts {
    backends: Vec<DetectedCaptureBackend>,
    tried: usize,
    errors: Vec<String>,
}

impl CaptureAttempts {
    /// The backends, in the order they are tried.
    pub closed spec fn spec_backends(self) -> Seq<DetectedCaptureBackend> {
        self.backends@
    }

    /// How many backends have failed.
    pub closed spec fn spec_tried(self) -> nat {
        self.tried as nat
    }

    /// The errors of the failed backends, in order, each named by its backend.
    pub closed spec fn spec_errors(self) -> Seq<Seq<char>> {
        texts(self.errors@)
    }

    /// Attempts at `backends`, none made yet.
    pub fn new(backends: Vec<DetectedCaptureBackend>) -> (a: Self)
        ensures
            a.spec_backends() == backends@,
            a.spec_tried() == 0,
            a.spec_errors() == Seq::<Seq<char>>::empty(),
    {
        let a = CaptureAttempts { backends, tried: 0, errors: Vec::new() };
        assert(texts(a.errors@) =~= Seq::<Seq<char>>::empty());
        a
    }

    /// The next backend to try; `None` once every backend has failed.
    pub fn next(&self) -> (r: Option<DetectedCaptureBackend>)
        ensures
            self.spec_tried() < self.spec_backends().len() ==> r == Some(
                self.spec_backends()[self.spec_tried() as int],
            ),
            self.spec_tried() >= self.spec_backends().len() ==> r is None,
    {
        if self.tried < self.backends.len() {
            Some(self.backends[self.tried])
        } else {
            None
        }
    }

    /// Records that the next backend failed with `error`; nothing changes
    /// once every backend has failed.
    pub fn failed(&mut self, error: &PeekabooXError)
        ensures
            final(self).spec_backends() == old(self).spec_backends(),
            old(self).spec_tried() < old(self).spec_backends().len() ==> {
                &&& final(self).spec_tried() == old(self).spec_tried() + 1
                &&& final(self).spec_errors() == old(self).spec_errors().push(
                    spec_tool_name(old(self).spec_backends()[old(self).spec_tried() as int].tool)
                        + ": "@ + error.message@,
                )
            },
            old(self).spec_tried() >= old(self).spec_backends().len() ==> {
                &&& final(self).spec_tried() == old(self).spec_tried()
                &&& final(self).spec_errors() == old(self).spec_errors()
            },
    {
        if self.tried < self.backends.len() {
            let backend = self.backends[self.tried];
            let message = backend_attempt_error(backend.name(), error);
            let ghost before = self.errors@;
            self.errors.push(message);
            assert(texts(self.errors@) =~= texts(before).push(message@));
            self.tried = self.tried + 1;
        }
    }

    /// The errors of the failed backends, in order.
    pub fn errors(&self) -> (r: &Vec<String>)
        ensures
            texts(r@) == self.spec_errors(),
    {
        &self.errors
    }

    /// The error when every backend failed: their errors, in order.
    pub fn all_failed(&self) -> (e: PeekabooXError)
        ensures
            e.message@ == "all screenshot backends failed: "@ + spec_join(self.spec_errors(), "; "@),
    {
        all_backends_failed(self.errors.as_slice())
    }

    /// The error when the fallback that follows the direct attempts failed
    /// too: the fallback's own error when no direct attempt failed, else both
    /// stories.
    pub fn fallback_failed(&self, fallback: CaptureFallback, error: PeekabooXError) -> (e:
        PeekabooXError)
        ensures
            self.spec_errors().len() == 0 ==> e == error,
            self.spec_errors().len() > 0 ==> e.message@ == (if fallback == CaptureFallback::File {
                "direct frame capture failed: "@
            } else {
                "direct region capture failed: "@
            }) + spec_join(self.spec_errors(), "; "@) + (if fallback == CaptureFallback::File {
                "; file fallback failed: "@
            } else {
                "; full-frame fallback failed: "@
            }) + error.message@,
    {
        fallback_error(fallback, self.errors.as_slice(), error)
    }
}

/// Screen capture through the session's screenshot commands.
#[derive(Debug, Clone, Copy, PartialEq, Eq, Structural)]
pub struct CommandCaptureBackend;

impl CommandCaptureBackend {
    /// The first backend that can write `output` in the session, or the
    /// error that none can.
    pub fn detect_backend_for(&self, environment: &CaptureEnvironment, output: &str) -> (r: Result<
        DetectedCaptureBackend,
        PeekabooXError,
    >)
        ensures
            match first_detected(spec_candidate_tools(*environment, output@), *environment) {
                Some(b) => r == Ok::<DetectedCaptureBackend, PeekabooXError>(b),
                None => r matches Err(e) && e.message@ == msg_no_backend(*environment, false),
            },
    {
        match select_backend(environment, output) {
            Some(b) => Ok(b),
            None => Err(no_screenshot_backend_error(environment.session_type, false)),
        }
    }

    /// The backends a capture to `output` tries, or the error that the
    /// session has none.
    pub fn file_capture_attempts(&self, environment: &CaptureEnvironment, output: &str) -> (r:
        Result<CaptureAttempts, PeekabooXError>)
        ensures
            spec_candidate_tools(*environment, output@).len() == 0 ==> (r matches Err(e)
                && e.message@ == msg_no_backend(*environment, true)),
            spec_candidate_tools(*environment, output@).len() > 0 ==> (r matches Ok(a) && {
                &&& detected_as(
                    a.spec_backends(),
                    spec_candidate_tools(*environment, output@),
                    *environment,
                )
                &&& a.spec_tried() == 0
                &&& a.spec_errors().len() == 0
            }),
    {
        let backends = candidate_backends(environment, output);
        if backends.len() == 0 {
            return Err(no_screenshot_backend_error(environment.session_type, true));
        }
        Ok(CaptureAttempts::new(backends))
    }

    /// The backends that hand a full frame over on standard output, in order.
    pub fn frame_capture_attempts(&self, environment: &CaptureEnvironment) -> (a: CaptureAttempts)
        ensures
            detected_as(
                a.spec_backends(),
                keep_stdout(spec_candidate_tools(*environment, "screenshot.png"@)),
                *environment,
            ),
            a.spec_tried() == 0,
            a.spec_errors().len() == 0,
    {
        CaptureAttempts::new(candidate_frame_backends(environment))
    }

    /// The backends that hand a region over on standard output, in order,
    /// once the region is valid.
    pub fn region_capture_attempts(&self, environment: &CaptureEnvironment, region: Rect) -> (r:
        Result<CaptureAttempts, PeekabooXError>)
        ensures
            spec_region_error(region) matches Some(m) ==> (r matches Err(e) && e.message@ == m),
            spec_region_error(region) is None ==> (r matches Ok(a) && {
                &&& detected_as(
                    a.spec_backends(),
                    keep_stdout(spec_candidate_tools(*environment, "screenshot.png"@)),
                    *environment,
                )
                &&& a.spec_tried() == 0
                &&& a.spec_errors().len() == 0
            }),
    {
        validate_region(region)?;
        Ok(CaptureAttempts::new(candidate_region_frame_backends(environment)))
    }
}

/// Screen capture through the portal's screen-cast session and PipeWire
/// DMA-BUF buffers.
#[derive(Debug, Clone, Copy, PartialEq, Eq, Structural)]
pub struct DmaBufCaptureBackend;

impl DmaBufCaptureBackend {
    /// The zero-copy transport of the session, or the error that says why
    /// there is none.
    pub fn detect_backend(&self, environment: &CaptureEnvironment) -> (r: Result<
        DetectedZeroCopyBackend,
        PeekabooXError,
    >)
        ensures
            spec_zero_copy_availability(*environment, false) == ZeroCopyAvailability::Available
                ==> r == Ok::<DetectedZeroCopyBackend, PeekabooXError>(
                DetectedZeroCopyBackend {
                    transport: ZeroCopyTransport::XdgDesktopPortalScreenCastPipeWireDmaBuf,
                    backend_kind: BackendKind::Portal,
                },
            ),
            spec_zero_copy_availability(*environment, false) != ZeroCopyAvailability::Available
                ==> (r matches Err(e) && e.message@ == "no DMA-BUF zero-copy capture backend available ("@
                + "xdg-desktop-portal-screencast-pipewire-dmabuf"@ + ": "@ + spec_availability_debug(
                spec_zero_copy_availability(*environment, false),
            ) + ")"@),
    {
        match select_zero_copy_backend(environment) {
            Some(b) => Ok(b),
            None => Err(PeekabooXError::new(zero_copy_unavailable_message(environment))),
        }
    }
}

} // verus!
