use vstd::prelude::*;

use crate::backends::{spec_tool_name, CaptureTool, SessionType};
use crate::fmt::{dec, dec_int};
use crate::frame::{grim_region_geometry, spec_region_error, validate_region, x11_region_geometry};
use crate::text::{chars_of, contains_sub, string_from_chars, texts, trim, trim_chars};
use crate::types::{PeekabooXError, Rect};

verus! {

/// A program to run and its arguments.
#[derive(Debug, Clone, PartialEq, Eq)]
pub struct ToolCommand {
    pub program: String,
    pub args: Vec<String>,
}

fn push_arg(args: &mut Vec<String>, arg: &str)
    ensures
        texts(final(args)@) == texts(old(args)@).push(arg@),
{
    let ghost before = args@;
    args.push(String::from_str(arg));
    assert(texts(args@) =~= texts(before).push(arg@));
}

/// The program and arguments that write a screenshot to `output`; the
/// portal runs no program.
pub open spec fn spec_file_command(tool: CaptureTool, output: Seq<char>) -> Option<(Seq<char>, Seq<Seq<char>>)> {
    match tool {
        CaptureTool::XdgDesktopPortal => None,
        CaptureTool::GnomeShellScreenshot => Some(("gdbus"@, seq!["call"@, "--session"@, "--dest"@, "org.gnome.Shell.Screenshot"@, "--object-path"@, "/org/gnome/Shell/Screenshot"@, "--method"@, "org.gnome.Shell.Screenshot.Screenshot"@, "false"@, "false"@, output])),
        CaptureTool::Grim => Some(("grim"@, seq![output])),
        CaptureTool::GnomeScreenshot => Some(("gnome-screenshot"@, seq!["-f"@, output])),
        CaptureTool::Spectacle => Some(("spectacle"@, seq!["-b"@, "-n"@, "-o"@, output])),
        CaptureTool::Scrot => Some(("scrot"@, seq![output])),
        CaptureTool::Maim => Some(("maim"@, seq![output])),
        CaptureTool::ImageMagickImport => Some(("import"@, seq!["-window"@, "root"@, output])),
        CaptureTool::Xwd => Some(("xwd"@, seq!["-root"@, "-silent"@, "-out"@, output])),
    }
}

/// The command that writes a screenshot to `output` (see
/// [`spec_file_command`]).
pub fn file_capture_command(tool: CaptureTool, output: &str) -> (r: Option<ToolCommand>)
    ensures
        match spec_file_command(tool, output@) {
            Some((p, a)) => r matches Some(c) && c.program@ == p && texts(c.args@) == a,
            None => r is None,
        },
{
    let mut args: Vec<String> = Vec::new();
    let program = match tool {
        CaptureTool::XdgDesktopPortal => return None,
        CaptureTool::GnomeShellScreenshot => {
            push_arg(&mut args, "call");
            push_arg(&mut args, "--session");
            push_arg(&mut args, "--dest");
            push_arg(&mut args, "org.gnome.Shell.Screenshot");
            push_arg(&mut args, "--object-path");
            push_arg(&mut args, "/org/gnome/Shell/Screenshot");
            push_arg(&mut args, "--method");
            push_arg(&mut args, "org.gnome.Shell.Screenshot.Screenshot");
            push_arg(&mut args, "false");
            push_arg(&mut args, "false");
            "gdbus"
        },
        CaptureTool::Grim => {
            "grim"
        },
        CaptureTool::GnomeScreenshot => {
            push_arg(&mut args, "-f");
            "gnome-screenshot"
        },
        CaptureTool::Spectacle => {
            push_arg(&mut args, "-b");
            push_arg(&mut args, "-n");
            push_arg(&mut args, "-o");
            "spectacle"
        },
        CaptureTool::Scrot => {
            "scrot"
        },
        CaptureTool::Maim => {
            "maim"
        },
        CaptureTool::ImageMagickImport => {
            push_arg(&mut args, "-window");
            push_arg(&mut args, "root");
            "import"
        },
        CaptureTool::Xwd => {
            push_arg(&mut args, "-root");
            push_arg(&mut args, "-silent");
            push_arg(&mut args, "-out");
            "xwd"
        },
    };
    push_arg(&mut args, output);
    let command = ToolCommand { program: String::from_str(program), args };
    proof {
        let pair = spec_file_command(tool, output@)->0;
        assert(texts(command.args@) =~= pair.1);
    }
    Some(command)
}

/// The program and arguments that print a full screenshot as PNG on
/// standard output, for the tools that can.
pub open spec fn spec_stdout_command(tool: CaptureTool) -> Option<(Seq<char>, Seq<Seq<char>>)> {
    match tool {
        CaptureTool::Grim => Some(("grim"@, seq!["-"@])),
        CaptureTool::Maim => Some(("maim"@, Seq::empty())),
        CaptureTool::ImageMagickImport => Some(("import"@, seq!["-window"@, "root"@, "png:-"@])),
        _ => None,
    }
}

/// The command that prints a full screenshot on standard output (see
/// [`spec_stdout_command`]).
pub fn stdout_capture_command(tool: CaptureTool) -> (r: Result<ToolCommand, PeekabooXError>)
    ensures
        match spec_stdout_command(tool) {
            Some((p, a)) => r matches Ok(c) && c.program@ == p && texts(c.args@) == a,
            None => r matches Err(e) && e.message@ == "screenshot backend "@ + spec_tool_name(tool)
                + " does not support stdout frame capture"@,
        },
{
    let mut args: Vec<String> = Vec::new();
    let program = match tool {
        CaptureTool::Grim => {
            push_arg(&mut args, "-");
            "grim"
        },
        CaptureTool::Maim => "maim",
        CaptureTool::ImageMagickImport => {
            push_arg(&mut args, "-window");
            push_arg(&mut args, "root");
            push_arg(&mut args, "png:-");
            "import"
        },
        _ => {
            let mut m = String::from_str("screenshot backend ");
            m.append(tool.name());
            m.append(" does not support stdout frame capture");
            return Err(PeekabooXError::new(m));
        },
    };
    let command = ToolCommand { program: String::from_str(program), args };
    proof {
        let pair = spec_stdout_command(tool)->0;
        assert(texts(command.args@) =~= pair.1);
    }
    Ok(command)
}

/// The program and arguments that print a screenshot of a region as PNG on
/// standard output, for the tools that can.
pub open spec fn spec_stdout_region_command(tool: CaptureTool, grim_geometry: Seq<char>, x11_geometry: Seq<char>) -> Option<
    (Seq<char>, Seq<Seq<char>>),
> {
    match tool {
        CaptureTool::Grim => Some(("grim"@, seq!["-g"@, grim_geometry, "-"@])),
        CaptureTool::Maim => Some(("maim"@, seq!["-g"@, x11_geometry])),
        CaptureTool::ImageMagickImport => Some(
            ("import"@, seq!["-window"@, "root"@, "-crop"@, x11_geometry, "png:-"@]),
        ),
        _ => None,
    }
}

/// The command that prints a screenshot of `region` on standard output: the
/// region must be valid, and the tool able to (see
/// [`spec_stdout_region_command`]).
pub fn stdout_region_capture_command(tool: CaptureTool, region: Rect) -> (r: Result<
    ToolCommand,
    PeekabooXError,
>)
    ensures
        match spec_region_error(region) {
            Some(m) => r matches Err(e) && e.message@ == m,
            None => match spec_stdout_region_command(
                tool,
                dec_int(region.x as int) + ","@ + dec_int(region.y as int) + " "@ + dec(
                    region.width as nat,
                ) + "x"@ + dec(region.height as nat),
                dec(region.width as nat) + "x"@ + dec(region.height as nat) + "+"@ + dec_int(
                    region.x as int,
                ) + "+"@ + dec_int(region.y as int),
            ) {
                Some((p, a)) => r matches Ok(c) && c.program@ == p && texts(c.args@) == a,
                None => r matches Err(e) && e.message@ == "screenshot backend "@ + spec_tool_name(
                    tool,
                ) + " does not support stdout region capture"@,
            },
        },
{
    validate_region(region)?;
    let grim = grim_region_geometry(region);
    let x11 = x11_region_geometry(region);
    let mut args: Vec<String> = Vec::new();
    let program = match tool {
        CaptureTool::Grim => {
            push_arg(&mut args, "-g");
            push_arg(&mut args, grim.as_str());
            push_arg(&mut args, "-");
            "grim"
        },
        CaptureTool::Maim => {
            push_arg(&mut args, "-g");
            push_arg(&mut args, x11.as_str());
            "maim"
        },
        CaptureTool::ImageMagickImport => {
            push_arg(&mut args, "-window");
            push_arg(&mut args, "root");
            push_arg(&mut args, "-crop");
            push_arg(&mut args, x11.as_str());
            push_arg(&mut args, "png:-");
            "import"
        },
        _ => {
            let mut m = String::from_str("screenshot backend ");
            m.append(tool.name());
            m.append(" does not support stdout region capture");
            return Err(PeekabooXError::new(m));
        },
    };
    let command = ToolCommand { program: String::from_str(program), args };
    proof {
        let pair = spec_stdout_region_command(tool, grim@, x11@)->0;
        assert(texts(command.args@) =~= pair.1);
    }
    Ok(command)
}

fn trimmed(s: &str) -> (r: String)
    ensures
        r@ == trim(s@),
{
    let all = chars_of(s);
    let t = trim_chars(&all);
    string_from_chars(&t)
}

fn status_error(tool: CaptureTool, what: &str, status: &str, stderr: &str) -> (e: PeekabooXError)
    ensures
        e.message@ == "screenshot backend "@ + spec_tool_name(tool) + what@ + " failed with status "@
            + status@ + "; stderr: "@ + trim(stderr@),
{
    let mut m = String::from_str("screenshot backend ");
    m.append(tool.name());
    m.append(what);
    m.append(" failed with status ");
    m.append(status);
    m.append("; stderr: ");
    let t = trimmed(stderr);
    m.append(t.as_str());
    PeekabooXError::new(m)
}

/// Judges a finished file capture from its exit status (`success` and its
/// text) and its output, read as text: a failure is an error, and so is a
/// GNOME Shell answer that does not report success.
pub fn file_capture_outcome(
    tool: CaptureTool,
    success: bool,
    status: &str,
    stderr: &str,
    stdout: &str,
) -> (r: Result<(), PeekabooXError>)
    ensures
        !success ==> (r matches Err(e) && e.message@ == "screenshot backend "@ + spec_tool_name(tool)
            + ""@ + " failed with status "@ + status@ + "; stderr: "@ + trim(stderr@)),
        success && tool == CaptureTool::GnomeShellScreenshot && !contains_sub(stdout@, "(true,"@)
            ==> (r matches Err(e) && e.message@
            == "GNOME Shell screenshot API returned an unsuccessful response: "@ + trim(stdout@)),
        success && !(tool == CaptureTool::GnomeShellScreenshot && !contains_sub(stdout@, "(true,"@))
            ==> r is Ok,
{
    if !success {
        return Err(status_error(tool, "", status, stderr));
    }
    if tool == CaptureTool::GnomeShellScreenshot {
        let hay = chars_of(stdout);
        let needle = chars_of("(true,");
        if !crate::text::chars_contains(&hay, &needle) {
            let mut m = String::from_str("GNOME Shell screenshot API returned an unsuccessful response: ");
            let t = trimmed(stdout);
            m.append(t.as_str());
            return Err(PeekabooXError::new(m));
        }
    }
    Ok(())
}

/// Judges a finished capture to standard output (of a region when
/// `region`): a failure is an error, and so is empty output.
pub fn stdout_capture_outcome(
    tool: CaptureTool,
    region: bool,
    success: bool,
    status: &str,
    stderr: &str,
    stdout_empty: bool,
) -> (r: Result<(), PeekabooXError>)
    ensures
        !success ==> (r matches Err(e) && e.message@ == "screenshot backend "@ + spec_tool_name(tool)
            + (if region {
            " stdout region capture"@
        } else {
            " stdout capture"@
        }) + " failed with status "@ + status@ + "; stderr: "@ + trim(stderr@)),
        success && stdout_empty ==> (r matches Err(e) && e.message@ == "screenshot backend "@
            + spec_tool_name(tool) + (if region {
            " produced empty region stdout"@
        } else {
            " produced empty stdout"@
        })),
        success && !stdout_empty ==> r is Ok,
{
    if !success {
        let what = if region {
            " stdout region capture"
        } else {
            " stdout capture"
        };
        return Err(status_error(tool, what, status, stderr));
    }
    if stdout_empty {
        let mut m = String::from_str("screenshot backend ");
        m.append(tool.name());
        m.append(
            if region {
                " produced empty region stdout"
            } else {
                " produced empty stdout"
            },
        );
        return Err(PeekabooXError::new(m));
    }
    Ok(())
}

/// Texts joined with a separator between them.
pub open spec fn spec_join(parts: Seq<Seq<char>>, sep: Seq<char>) -> Seq<char>
    decreases parts.len(),
{
    if parts.len() == 0 {
        Seq::empty()
    } else if parts.len() == 1 {
        parts[0]
    } else {
        spec_join(parts.drop_last(), sep) + sep + parts.last()
    }
}

/// Joins texts with `; ` between them.
pub fn join_errors(errors: &[String]) -> (r: String)
    ensures
        r@ == spec_join(texts(errors@), "; "@),
{
    let mut r = String::new();
    let mut i: usize = 0;
    while i < errors.len()
        invariant
            i <= errors@.len(),
            r@ == spec_join(texts(errors@.subrange(0, i as int)), "; "@),
        decreases errors@.len() - i,
    {
        let ghost before = texts(errors@.subrange(0, i as int));
        let ghost after = texts(errors@.subrange(0, i + 1));
        assert(after.drop_last() =~= before);
        assert(after.last() == errors@[i as int]@);
        if i > 0 {
            r.append("; ");
        } else {
            assert(before =~= Seq::<Seq<char>>::empty());
        }
        r.append(errors[i].as_str());
        i = i + 1;
    }
    assert(errors@.subrange(0, i as int) =~= errors@);
    r
}

/// The error of one backend's attempt, named by the backend.
pub fn backend_attempt_error(backend_name: &str, error: &PeekabooXError) -> (r: String)
    ensures
        r@ == backend_name@ + ": "@ + error.message@,
{
    let mut r = String::from_str(backend_name);
    r.append(": ");
    r.append(error.message.as_str());
    r
}

/// The error when every backend failed: their errors, in order.
pub fn all_backends_failed(errors: &[String]) -> (e: PeekabooXError)
    ensures
        e.message@ == "all screenshot backends failed: "@ + spec_join(texts(errors@), "; "@),
{
    let mut m = String::from_str("all screenshot backends failed: ");
    let j = join_errors(errors);
    m.append(j.as_str());
    PeekabooXError::new(m)
}

/// Which fallback followed failed direct captures.
#[derive(Debug, Clone, Copy, PartialEq, Eq, Structural)]
pub enum CaptureFallback {
    /// A full screenshot written to a file, after direct frame captures.
    File,
    /// A full frame cropped, after direct region captures.
    FullFrame,
}

/// The error of a failed fallback: the fallback's own error when no direct
/// capture was tried, else both stories.
pub fn fallback_error(fallback: CaptureFallback, direct_errors: &[String], error: PeekabooXError) -> (e:
    PeekabooXError)
    ensures
        direct_errors@.len() == 0 ==> e == error,
        direct_errors@.len() > 0 ==> e.message@ == (if fallback == CaptureFallback::File {
            "direct frame capture failed: "@
        } else {
            "direct region capture failed: "@
        }) + spec_join(texts(direct_errors@), "; "@) + (if fallback == CaptureFallback::File {
            "; file fallback failed: "@
        } else {
            "; full-frame fallback failed: "@
        }) + error.message@,
{
    if direct_errors.len() == 0 {
        return error;
    }
    let mut m = match fallback {
        CaptureFallback::File => String::from_str("direct frame capture failed: "),
        CaptureFallback::FullFrame => String::from_str("direct region capture failed: "),
    };
    let j = join_errors(direct_errors);
    m.append(j.as_str());
    match fallback {
        CaptureFallback::File => m.append("; file fallback failed: "),
        CaptureFallback::FullFrame => m.append("; full-frame fallback failed: "),
    }
    m.append(error.message.as_str());
    PeekabooXError::new(m)
}

/// The name `Debug` prints for a session type.
pub open spec fn spec_session_debug(s: SessionType) -> Seq<char> {
    match s {
        SessionType::Wayland => "Wayland"@,
        SessionType::X11 => "X11"@,
        SessionType::Unknown => "Unknown"@,
    }
}

/// The error when no screenshot tool can capture the session: file capture
/// also suggests the portal; choosing a backend for a path does not.
pub fn no_screenshot_backend_error(session: SessionType, file_capture: bool) -> (e: PeekabooXError)
    ensures
        e.message@ == "no supported screenshot backend found for "@ + spec_session_debug(session)
            + (if file_capture {
            "; install xdg-desktop-portal, gdbus, grim, gnome-screenshot, spectacle, scrot, maim, imagemagick import, or use .xwd output with xwd"@
        } else {
            "; install gdbus, grim, gnome-screenshot, spectacle, scrot, maim, imagemagick import, or use .xwd output with xwd"@
        }),
{
    let mut m = String::from_str("no supported screenshot backend found for ");
    m.append(
        match session {
            SessionType::Wayland => "Wayland",
            SessionType::X11 => "X11",
            SessionType::Unknown => "Unknown",
        },
    );
    if file_capture {
        m.append(
            "; install xdg-desktop-portal, gdbus, grim, gnome-screenshot, spectacle, scrot, maim, imagemagick import, or use .xwd output with xwd",
        );
    } else {
        m.append(
            "; install gdbus, grim, gnome-screenshot, spectacle, scrot, maim, imagemagick import, or use .xwd output with xwd",
        );
    }
    PeekabooXError::new(m)
}

/// A screenshot file must hold something.
pub fn check_written_file(backend_name: &str, output_path: &str, bytes_written: u64) -> (r: Result<
    u64,
    PeekabooXError,
>)
    ensures
        bytes_written == 0 ==> (r matches Err(e) && e.message@ == "screenshot backend "@ + backend_name@
            + " created an empty file at "@ + output_path@),
        bytes_written != 0 ==> r == Ok::<u64, PeekabooXError>(bytes_written),
{
    if bytes_written == 0 {
        let mut m = String::from_str("screenshot backend ");
        m.append(backend_name);
        m.append(" created an empty file at ");
        m.append(output_path);
        return Err(PeekabooXError::new(m));
    }
    Ok(bytes_written)
}


/// A region as grim's `-g` reads it: `X,Y WIDTHxHEIGHT`.
pub open spec fn grim_geometry_text(region: Rect) -> Seq<char> {
    dec_int(region.x as int) + ","@ + dec_int(region.y as int) + " "@ + dec(region.width as nat)
        + "x"@ + dec(region.height as nat)
}

/// A region as X11 tools read it: `WIDTHxHEIGHT+X+Y`.
pub open spec fn x11_geometry_text(region: Rect) -> Seq<char> {
    dec(region.width as nat) + "x"@ + dec(region.height as nat) + "+"@ + dec_int(region.x as int)
        + "+"@ + dec_int(region.y as int)
}

/// For every region, maim captures it with `maim -g WIDTHxHEIGHT+X+Y`: X11
/// geometry, the very text ImageMagick's `import` gets after `-crop`, and grim
/// alone gets `X,Y WIDTHxHEIGHT`.
pub proof fn lemma_region_commands_use_each_tools_geometry(region: Rect)
    ensures
        ({
            let grim = grim_geometry_text(region);
            let x11 = x11_geometry_text(region);
            let maim = spec_stdout_region_command(CaptureTool::Maim, grim, x11);
            let import = spec_stdout_region_command(CaptureTool::ImageMagickImport, grim, x11);
            let grim_command = spec_stdout_region_command(CaptureTool::Grim, grim, x11);
            let (maim_program, maim_args) = maim->0;
            let (import_program, import_args) = import->0;
            let (grim_program, grim_args) = grim_command->0;
            &&& maim == Some(("maim"@, seq!["-g"@, x11]))
            &&& maim_args[1] == import_args[3]
            &&& import_args[2] == "-crop"@
            &&& grim_args[1] == grim
        }),
{
}

} // verus!
