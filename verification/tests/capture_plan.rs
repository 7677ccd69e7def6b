use peekaboox::backends::{pipewire_runtime_socket, CaptureTool, SessionType};
use peekaboox::capture_plan::{
    all_backends_failed, backend_attempt_error, check_written_file, fallback_error,
    file_capture_command, file_capture_outcome, join_errors, no_screenshot_backend_error,
    stdout_capture_command, stdout_capture_outcome, stdout_region_capture_command,
    CaptureFallback,
};
use peekaboox::dmabuf::{
    fourcc_code, stream_modifier, video_format_descriptor, StreamVideoFormatKind,
    DRM_FORMAT_MOD_INVALID,
};
use peekaboox::types::{PeekabooXError, PixelFormat, Rect};

fn args(values: &[&str]) -> Vec<String> {
    values.iter().map(|value| (*value).to_owned()).collect()
}

#[test]
fn file_capture_commands_write_to_the_output() {
    assert!(file_capture_command(CaptureTool::XdgDesktopPortal, "/tmp/a.png").is_none());
    let grim = file_capture_command(CaptureTool::Grim, "/tmp/a.png").unwrap();
    assert_eq!(grim.program, "grim");
    assert_eq!(grim.args, args(&["/tmp/a.png"]));
    let xwd = file_capture_command(CaptureTool::Xwd, "/tmp/a.xwd").unwrap();
    assert_eq!(xwd.program, "xwd");
    assert_eq!(xwd.args, args(&["-root", "-silent", "-out", "/tmp/a.xwd"]));
    let shell = file_capture_command(CaptureTool::GnomeShellScreenshot, "/tmp/a.png").unwrap();
    assert_eq!(shell.program, "gdbus");
    assert_eq!(shell.args.len(), 11);
    assert_eq!(shell.args[10], "/tmp/a.png");
}

#[test]
fn stdout_commands_print_png() {
    assert_eq!(stdout_capture_command(CaptureTool::Grim).unwrap().args, args(&["-"]));
    assert!(stdout_capture_command(CaptureTool::Maim).unwrap().args.is_empty());
    assert_eq!(
        stdout_capture_command(CaptureTool::Scrot).unwrap_err().message(),
        "screenshot backend scrot does not support stdout frame capture"
    );
    let region = Rect::new(10, 20, 300, 120);
    assert_eq!(
        stdout_region_capture_command(CaptureTool::Grim, region).unwrap().args,
        args(&["-g", "10,20 300x120", "-"])
    );
    assert_eq!(
        stdout_region_capture_command(CaptureTool::ImageMagickImport, region).unwrap().args,
        args(&["-window", "root", "-crop", "300x120+10+20", "png:-"])
    );
    assert!(stdout_region_capture_command(CaptureTool::Grim, Rect::new(0, 0, 0, 5)).is_err());
    assert_eq!(
        stdout_region_capture_command(CaptureTool::Spectacle, region).unwrap_err().message(),
        "screenshot backend spectacle does not support stdout region capture"
    );
}

#[test]
fn tool_outcomes_are_judged() {
    assert_eq!(
        file_capture_outcome(CaptureTool::Grim, false, "exit status: 1", "  no display \n", "")
            .unwrap_err()
            .message(),
        "screenshot backend grim failed with status exit status: 1; stderr: no display"
    );
    assert_eq!(
        file_capture_outcome(CaptureTool::GnomeShellScreenshot, true, "exit status: 0", "", "(false, '')\n")
            .unwrap_err()
            .message(),
        "GNOME Shell screenshot API returned an unsuccessful response: (false, '')"
    );
    assert!(file_capture_outcome(CaptureTool::GnomeShellScreenshot, true, "", "", "(true, '/tmp/a.png')").is_ok());
    assert_eq!(
        stdout_capture_outcome(CaptureTool::Maim, true, true, "exit status: 0", "", true)
            .unwrap_err()
            .message(),
        "screenshot backend maim produced empty region stdout"
    );
    assert_eq!(
        stdout_capture_outcome(CaptureTool::Maim, false, false, "exit status: 2", " oops ", false)
            .unwrap_err()
            .message(),
        "screenshot backend maim stdout capture failed with status exit status: 2; stderr: oops"
    );
    assert!(stdout_capture_outcome(CaptureTool::Grim, false, true, "", "", false).is_ok());
}

#[test]
fn backend_errors_are_collected() {
    let errors = vec![
        backend_attempt_error("grim", &PeekabooXError::new("boom".to_owned())),
        backend_attempt_error("maim", &PeekabooXError::new("bang".to_owned())),
    ];
    assert_eq!(join_errors(&errors), "grim: boom; maim: bang");
    assert_eq!(join_errors(&[]), "");
    assert_eq!(
        all_backends_failed(&errors).message(),
        "all screenshot backends failed: grim: boom; maim: bang"
    );
    let fallback = PeekabooXError::new("no tool".to_owned());
    assert_eq!(fallback_error(CaptureFallback::File, &[], fallback.clone()), fallback);
    assert_eq!(
        fallback_error(CaptureFallback::FullFrame, &errors[..1], fallback).message(),
        "direct region capture failed: grim: boom; full-frame fallback failed: no tool"
    );
    assert_eq!(
        no_screenshot_backend_error(SessionType::X11, false).message(),
        "no supported screenshot backend found for X11; install gdbus, grim, gnome-screenshot, spectacle, scrot, maim, imagemagick import, or use .xwd output with xwd"
    );
    assert!(no_screenshot_backend_error(SessionType::Wayland, true)
        .message()
        .contains("install xdg-desktop-portal"));
    assert_eq!(
        check_written_file("grim", "/tmp/a.png", 0).unwrap_err().message(),
        "screenshot backend grim created an empty file at /tmp/a.png"
    );
    assert_eq!(check_written_file("grim", "/tmp/a.png", 12), Ok(12));
}

#[test]
fn pipewire_sockets_and_formats() {
    assert_eq!(pipewire_runtime_socket(Some("/run/pw"), Some("/run/user/1")).as_deref(), Some("/run/pw/pipewire-0"));
    assert_eq!(pipewire_runtime_socket(None, Some("/run/user/1/")).as_deref(), Some("/run/user/1/pipewire-0"));
    assert_eq!(pipewire_runtime_socket(None, None), None);
    assert_eq!(
        video_format_descriptor(StreamVideoFormatKind::Bgrx).unwrap(),
        (PixelFormat::Bgra8, fourcc_code(b'X', b'R', b'2', b'4'), 1)
    );
    assert_eq!(
        video_format_descriptor(StreamVideoFormatKind::Other("NV12".to_owned())).unwrap_err().message(),
        "unsupported PipeWire DMA-BUF video format NV12"
    );
    assert_eq!(stream_modifier(false, 7), DRM_FORMAT_MOD_INVALID);
    assert_eq!(stream_modifier(true, 7), 7);
}
