use peekaboox::atspi::UnimplementedAccessibilityBackend;
use peekaboox::backends::{CaptureEnvironment, CaptureTool, SessionType};
use peekaboox::capture_plan::CaptureFallback;
use peekaboox::capture_run::{CommandCaptureBackend, DmaBufCaptureBackend};
use peekaboox::query::ElementQuery;
use peekaboox::types::{PeekabooXError, Rect};

fn environment(session_type: SessionType, commands: &[&str]) -> CaptureEnvironment {
    CaptureEnvironment {
        session_type,
        current_desktop: None,
        pipewire_session_available: false,
        commands: commands.iter().map(|command| command.to_string()).collect(),
    }
}

fn error(message: &str) -> PeekabooXError {
    PeekabooXError::new(message.to_owned())
}

#[test]
fn detect_backend_for_picks_the_first_usable_tool() {
    let x11 = environment(SessionType::X11, &["maim", "scrot"]);
    let backend = CommandCaptureBackend.detect_backend_for(&x11, "shot.png").unwrap();
    assert_eq!(backend.tool, CaptureTool::Scrot);

    let bare = environment(SessionType::Unknown, &[]);
    assert_eq!(
        CommandCaptureBackend.detect_backend_for(&bare, "shot.png").unwrap_err().message,
        "no supported screenshot backend found for Unknown; install gdbus, grim, gnome-screenshot, spectacle, scrot, maim, imagemagick import, or use .xwd output with xwd"
    );
}

#[test]
fn file_capture_without_tools_suggests_the_portal() {
    let bare = environment(SessionType::X11, &[]);
    assert_eq!(
        CommandCaptureBackend.file_capture_attempts(&bare, "shot.png").unwrap_err().message,
        "no supported screenshot backend found for X11; install xdg-desktop-portal, gdbus, grim, gnome-screenshot, spectacle, scrot, maim, imagemagick import, or use .xwd output with xwd"
    );
}

#[test]
fn attempts_run_in_order_and_collect_their_errors() {
    let x11 = environment(SessionType::X11, &["scrot", "maim"]);
    let mut attempts = CommandCaptureBackend.file_capture_attempts(&x11, "shot.png").unwrap();
    assert_eq!(attempts.next().unwrap().tool, CaptureTool::Scrot);
    attempts.failed(&error("exit 1"));
    assert_eq!(attempts.next().unwrap().tool, CaptureTool::Maim);
    attempts.failed(&error("no display"));
    assert!(attempts.next().is_none());
    attempts.failed(&error("ignored"));
    assert_eq!(attempts.errors(), &vec!["scrot: exit 1".to_owned(), "maim: no display".to_owned()]);
    assert_eq!(
        attempts.all_failed().message,
        "all screenshot backends failed: scrot: exit 1; maim: no display"
    );
}

#[test]
fn frame_attempts_fall_back_with_both_stories() {
    let x11 = environment(SessionType::X11, &["maim", "scrot"]);
    let mut attempts = CommandCaptureBackend.frame_capture_attempts(&x11);
    let first = attempts.next().unwrap();
    assert_eq!(first.tool, CaptureTool::Maim);
    attempts.failed(&error("produced empty stdout"));
    assert!(attempts.next().is_none());
    assert_eq!(
        attempts.fallback_failed(CaptureFallback::File, error("disk full")).message,
        "direct frame capture failed: maim: produced empty stdout; file fallback failed: disk full"
    );

    let none = CommandCaptureBackend.frame_capture_attempts(&environment(SessionType::X11, &["scrot"]));
    assert!(none.next().is_none());
    assert_eq!(none.fallback_failed(CaptureFallback::File, error("disk full")).message, "disk full");
}

#[test]
fn region_attempts_check_the_region_first() {
    let x11 = environment(SessionType::X11, &["maim"]);
    assert_eq!(
        CommandCaptureBackend
            .region_capture_attempts(&x11, Rect::new(0, 0, 0, 10))
            .unwrap_err()
            .message,
        "capture region dimensions must be greater than zero"
    );
    let mut attempts = CommandCaptureBackend.region_capture_attempts(&x11, Rect::new(0, 0, 10, 10)).unwrap();
    assert_eq!(attempts.next().unwrap().tool, CaptureTool::Maim);
    attempts.failed(&error("bad geometry"));
    assert_eq!(
        attempts.fallback_failed(CaptureFallback::FullFrame, error("no tools")).message,
        "direct region capture failed: maim: bad geometry; full-frame fallback failed: no tools"
    );
}

#[test]
fn dmabuf_backend_says_why_it_is_unavailable() {
    let x11 = environment(SessionType::X11, &[]);
    assert_eq!(
        DmaBufCaptureBackend.detect_backend(&x11).unwrap_err().message,
        "no DMA-BUF zero-copy capture backend available (xdg-desktop-portal-screencast-pipewire-dmabuf: UnsupportedSession)"
    );
    let mut wayland = environment(SessionType::Wayland, &[]);
    wayland.pipewire_session_available = true;
    assert_eq!(
        DmaBufCaptureBackend.detect_backend(&wayland).unwrap_err().message,
        "no DMA-BUF zero-copy capture backend available (xdg-desktop-portal-screencast-pipewire-dmabuf: MissingPipeWireBackend)"
    );
}

#[test]
fn unimplemented_accessibility_backend_refuses_everything() {
    assert_eq!(
        UnimplementedAccessibilityBackend.semantic_tree().unwrap_err().message,
        "accessibility backend is unavailable in this environment"
    );
    let query = ElementQuery::parse("role=button").unwrap();
    assert_eq!(
        UnimplementedAccessibilityBackend.find_elements(&query).unwrap_err().message,
        "accessibility element query is unavailable in this environment"
    );
}
