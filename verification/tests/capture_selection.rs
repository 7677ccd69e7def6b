use peekaboox::backends::{
    candidate_backends, capture_backend_capabilities, detect_pipewire_session_from,
    select_backend, select_frame_backend, select_region_frame_backend, select_zero_copy_backend,
    select_zero_copy_backend_for, zero_copy_capture_capabilities,
    zero_copy_capture_capabilities_for, CaptureEnvironment, CaptureTool, SessionType,
    ZeroCopyAvailability,
};
use peekaboox::types::BackendKind;

fn environment(
    session_type: SessionType,
    current_desktop: Option<&str>,
    commands: &[&str],
) -> CaptureEnvironment {
    CaptureEnvironment {
        session_type,
        current_desktop: current_desktop.map(str::to_owned),
        pipewire_session_available: false,
        commands: commands.iter().map(|command| command.to_string()).collect(),
    }
}

fn environment_with_pipewire(
    session_type: SessionType,
    current_desktop: Option<&str>,
    commands: &[&str],
) -> CaptureEnvironment {
    let mut environment = environment(session_type, current_desktop, commands);
    environment.pipewire_session_available = true;
    environment
}

#[test]
fn lib_selects_xdg_desktop_portal_first_on_gnome_wayland() {
    let environment = environment(SessionType::Wayland, Some("ubuntu:GNOME"), &["gdbus"]);
    let backend = select_backend(&environment, "screenshot.png").unwrap();
    assert_eq!(backend.tool, CaptureTool::XdgDesktopPortal);
}

#[test]
fn tests_selects_xdg_desktop_portal_first_on_gnome_wayland() {
    let environment = environment(SessionType::Wayland, Some("ubuntu:GNOME"), &["gdbus"]);
    let backend = select_backend(&environment, "screenshot.png").unwrap();
    assert_eq!(backend.tool, CaptureTool::XdgDesktopPortal);
}

#[test]
fn lib_selects_xdg_desktop_portal_first_on_non_gnome_wayland() {
    let environment = environment(SessionType::Wayland, Some("sway"), &["grim"]);
    let backend = select_backend(&environment, "screenshot.png").unwrap();
    assert_eq!(backend.tool, CaptureTool::XdgDesktopPortal);
}

#[test]
fn tests_selects_xdg_desktop_portal_first_on_non_gnome_wayland() {
    let environment = environment(SessionType::Wayland, Some("sway"), &["grim"]);
    let backend = select_backend(&environment, "screenshot.png").unwrap();
    assert_eq!(backend.tool, CaptureTool::XdgDesktopPortal);
}

#[test]
fn lib_rejects_xwd_for_png_output() {
    let environment = environment(SessionType::X11, None, &["xwd"]);
    assert!(select_backend(&environment, "screenshot.png").is_none());
}

#[test]
fn tests_rejects_xwd_for_png_output() {
    let environment = environment(SessionType::X11, None, &["xwd"]);
    assert!(select_backend(&environment, "screenshot.png").is_none());
}

#[test]
fn lib_allows_xwd_for_xwd_output() {
    let environment = environment(SessionType::X11, None, &["xwd"]);
    let backend = select_backend(&environment, "screenshot.xwd").unwrap();
    assert_eq!(backend.tool, CaptureTool::Xwd);
}

#[test]
fn tests_allows_xwd_for_xwd_output() {
    let environment = environment(SessionType::X11, None, &["xwd"]);
    let backend = select_backend(&environment, "screenshot.xwd").unwrap();
    assert_eq!(backend.tool, CaptureTool::Xwd);
}

#[test]
fn selects_xwd_for_xwd_output_when_other_x11_backends_exist() {
    let environment = environment(SessionType::X11, None, &["scrot", "xwd"]);
    let backend = select_backend(&environment, "screenshot.xwd").unwrap();
    let names = candidate_backends(&environment, "screenshot.xwd")
        .iter()
        .map(|backend| backend.name())
        .collect::<Vec<_>>();
    assert_eq!(backend.tool, CaptureTool::Xwd);
    assert_eq!(names, vec!["xwd"]);
}

#[test]
fn does_not_select_portal_for_xwd_output() {
    let environment = environment(SessionType::Wayland, Some("sway"), &["grim"]);
    assert!(select_backend(&environment, "screenshot.xwd").is_none());
}

#[test]
fn x11_candidates_are_not_duplicated() {
    let environment = environment(SessionType::X11, None, &["scrot", "maim"]);
    let names = candidate_backends(&environment, "screenshot.png")
        .iter()
        .map(|backend| backend.name())
        .collect::<Vec<_>>();
    assert_eq!(names, vec!["scrot", "maim"]);
}

#[test]
fn diagnostics_include_missing_and_unsupported_backends() {
    let environment = environment(SessionType::X11, None, &["xwd"]);
    let capabilities = capture_backend_capabilities(&environment, "screenshot.png");
    let xwd = capabilities.iter().find(|capability| capability.name == "xwd").unwrap();
    let grim = capabilities.iter().find(|capability| capability.name == "grim").unwrap();
    assert!(xwd.available);
    assert!(!xwd.supports_output);
    assert_eq!(
        xwd.reason.as_deref(),
        Some("xwd only supports .xwd output for file capture")
    );
    assert_eq!(grim.reason.as_deref(), Some("not considered for current session"));
}

#[test]
fn lib_selects_stdout_frame_backend_when_available() {
    let environment = environment(SessionType::Wayland, Some("sway"), &["grim"]);
    assert_eq!(select_frame_backend(&environment).unwrap().tool, CaptureTool::Grim);
}

#[test]
fn tests_selects_stdout_frame_backend_when_available() {
    let environment = environment(SessionType::Wayland, Some("sway"), &["grim"]);
    assert_eq!(select_frame_backend(&environment).unwrap().tool, CaptureTool::Grim);
}

#[test]
fn lib_skips_file_only_backends_for_stdout_frame_capture() {
    let environment = environment(SessionType::Wayland, Some("GNOME"), &["gdbus"]);
    assert!(select_frame_backend(&environment).is_none());
}

#[test]
fn tests_skips_file_only_backends_for_stdout_frame_capture() {
    let environment = environment(SessionType::Wayland, Some("GNOME"), &["gdbus"]);
    assert!(select_frame_backend(&environment).is_none());
}

#[test]
fn lib_selects_stdout_region_frame_backend_when_available() {
    let environment = environment(SessionType::X11, None, &["maim"]);
    assert_eq!(select_region_frame_backend(&environment).unwrap().tool, CaptureTool::Maim);
}

#[test]
fn tests_selects_stdout_region_frame_backend_when_available() {
    let environment = environment(SessionType::X11, None, &["maim"]);
    assert_eq!(select_region_frame_backend(&environment).unwrap().tool, CaptureTool::Maim);
}

#[test]
fn lib_selects_zero_copy_backend_on_wayland_with_pipewire() {
    let environment = environment_with_pipewire(SessionType::Wayland, Some("GNOME"), &[]);
    let backend = select_zero_copy_backend_for(&environment, true).unwrap();
    assert_eq!(backend.name(), "xdg-desktop-portal-screencast-pipewire-dmabuf");
    assert_eq!(backend.backend_kind, BackendKind::Portal);
}

#[test]
fn tests_selects_zero_copy_backend_on_wayland_with_pipewire() {
    let environment = environment_with_pipewire(SessionType::Wayland, Some("GNOME"), &[]);
    let backend = select_zero_copy_backend_for(&environment, true).unwrap();
    assert_eq!(backend.name(), "xdg-desktop-portal-screencast-pipewire-dmabuf");
    assert_eq!(backend.backend_kind, BackendKind::Portal);
}

#[test]
fn lib_reports_missing_pipewire_for_wayland_zero_copy() {
    let environment = environment(SessionType::Wayland, Some("sway"), &[]);
    let capability = zero_copy_capture_capabilities_for(&environment, true)
        .into_iter()
        .next()
        .unwrap();
    assert_eq!(capability.availability, ZeroCopyAvailability::MissingPipeWireSession);
    assert!(select_zero_copy_backend_for(&environment, true).is_none());
}

#[test]
fn tests_reports_missing_pipewire_for_wayland_zero_copy() {
    let environment = environment(SessionType::Wayland, Some("sway"), &[]);
    let capability = zero_copy_capture_capabilities_for(&environment, true)
        .into_iter()
        .next()
        .unwrap();
    assert_eq!(capability.availability, ZeroCopyAvailability::MissingPipeWireSession);
    assert!(select_zero_copy_backend_for(&environment, true).is_none());
}

#[test]
fn reports_missing_pipewire_backend_when_feature_is_disabled() {
    let environment = environment_with_pipewire(SessionType::Wayland, Some("GNOME"), &[]);
    let capability = zero_copy_capture_capabilities(&environment).into_iter().next().unwrap();
    assert_eq!(capability.availability, ZeroCopyAvailability::MissingPipeWireBackend);
    assert!(select_zero_copy_backend(&environment).is_none());
}

#[test]
fn pipewire_session_detection_ignores_command_presence_only() {
    assert!(!detect_pipewire_session_from(false, false));
    assert!(detect_pipewire_session_from(true, false));
    assert!(detect_pipewire_session_from(false, true));
}

#[test]
fn lib_skips_zero_copy_backend_on_x11() {
    let environment = environment_with_pipewire(SessionType::X11, None, &["pw-cli"]);
    let capability = zero_copy_capture_capabilities(&environment).into_iter().next().unwrap();
    assert_eq!(capability.availability, ZeroCopyAvailability::UnsupportedSession);
    assert!(select_zero_copy_backend(&environment).is_none());
}

#[test]
fn tests_skips_zero_copy_backend_on_x11() {
    let environment = environment_with_pipewire(SessionType::X11, None, &["pw-cli"]);
    let capability = zero_copy_capture_capabilities(&environment).into_iter().next().unwrap();
    assert_eq!(capability.availability, ZeroCopyAvailability::UnsupportedSession);
    assert!(select_zero_copy_backend(&environment).is_none());
}

#[test]
fn frame_backend_is_the_first_stdout_capable_candidate() {
    let cases = [
        environment(SessionType::Wayland, Some("ubuntu:GNOME"), &["gdbus"]),
        environment(SessionType::Wayland, Some("sway"), &["grim", "gnome-screenshot"]),
        environment(SessionType::X11, Some("KDE"), &["spectacle", "scrot", "maim", "import"]),
        environment(SessionType::X11, None, &["xwd", "import"]),
        environment(SessionType::Unknown, None, &[]),
    ];
    for environment in cases {
        let expected = peekaboox::backends::candidate_backends(&environment, "screenshot.png")
            .into_iter()
            .find(|backend| {
                matches!(
                    backend.tool,
                    CaptureTool::Grim | CaptureTool::Maim | CaptureTool::ImageMagickImport
                )
            });
        assert_eq!(select_frame_backend(&environment), expected);
    }
    let gnome = environment(SessionType::Wayland, Some("ubuntu:GNOME"), &["gdbus"]);
    assert_eq!(select_frame_backend(&gnome), None);
}

#[test]
fn empty_selector_matches_every_element() {
    let query = peekaboox::query::ElementQuery::parse("   ").unwrap();
    assert_eq!(query, peekaboox::query::ElementQuery::empty());
    let element = peekaboox::types::UiElement {
        id: "1".to_owned(),
        role: "label".to_owned(),
        label: None,
        bounds: peekaboox::types::Rect::new(0, 0, 1, 1),
        center: None,
        states: Vec::new(),
        window_id: None,
        window_title: None,
        app_id: None,
        parent_id: None,
        child_ids: Vec::new(),
    };
    assert!(query.matches(&element, false));
    let narrower = peekaboox::query::ElementQuery::parse("role=label,state=focused").unwrap();
    assert!(!narrower.matches(&element, true));
    let wider = peekaboox::query::ElementQuery::parse("role=label").unwrap();
    assert!(wider.matches(&element, true));
}
