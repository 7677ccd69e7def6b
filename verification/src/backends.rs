use vstd::prelude::*;

use crate::text::{
    chars_eq, chars_eq_ignore_case, chars_of, eq_ignore_case, slice_range, contains_ignore_case, contains_sub, lower_chars, lower_seq,
};


use crate::types::BackendKind;

verus! {

/// The kind of graphical session the process runs in.
#[derive(Debug, Clone, Copy, PartialEq, Eq, Structural)]
pub enum SessionType {
    Wayland,
    X11,
    Unknown,
}

/// Session type named by `XDG_SESSION_TYPE`, compared ASCII case-insensitively.
pub open spec fn spec_session_from(value: Option<Seq<char>>) -> SessionType {
    let v = match value {
        Some(v) => lower_seq(v),
        None => Seq::<char>::empty(),
    };
    if v == "wayland"@ {
        SessionType::Wayland
    } else if v == "x11"@ {
        SessionType::X11
    } else {
        SessionType::Unknown
    }
}

/// The session type's name as `Debug` prints it.
pub open spec fn spec_session_name(session: SessionType) -> Seq<char> {
    match session {
        SessionType::Wayland => "wayland"@,
        SessionType::X11 => "x11"@,
        SessionType::Unknown => "unknown"@,
    }
}

fn opt_str_view(value: Option<&str>) -> (r: Option<Vec<char>>)
    ensures
        match value {
            Some(v) => r matches Some(c) && c@ == v@,
            None => r is None,
        },
{
    match value {
        Some(v) => Some(chars_of(v)),
        None => None,
    }
}

impl SessionType {
    /// Parses the value of `XDG_SESSION_TYPE`.
    pub fn from_value(value: Option<&str>) -> (session: Self)
        ensures
            session == spec_session_from(
                match value {
                    Some(v) => Some(v@),
                    None => None,
                },
            ),
    {
        let lowered = match opt_str_view(value) {
            Some(v) => lower_chars(&v),
            None => Vec::new(),
        };
        assert(lower_seq(Seq::<char>::empty()) =~= Seq::<char>::empty());
        let wayland = chars_of("wayland");
        let x11 = chars_of("x11");
        if chars_eq(&lowered, &wayland) {
            SessionType::Wayland
        } else if chars_eq(&lowered, &x11) {
            SessionType::X11
        } else {
            SessionType::Unknown
        }
    }

    /// Lower-case name of the session type.
    pub fn name(self) -> (name: &'static str)
        ensures
            name@ == spec_session_name(self),
    {
        match self {
            SessionType::Wayland => "wayland",
            SessionType::X11 => "x11",
            SessionType::Unknown => "unknown",
        }
    }
}

/// What is known of the running desktop session.
#[derive(Debug, Clone, PartialEq, Eq)]
pub struct CaptureEnvironment {
    pub session_type: SessionType,
    pub current_desktop: Option<String>,
    pub pipewire_session_available: bool,
    /// Names of the capture-related commands found on `PATH`.
    pub commands: Vec<String>,
}

/// `command` is one of the commands found on `PATH`.
pub open spec fn spec_has_command(env: CaptureEnvironment, command: Seq<char>) -> bool {
    exists|i: int| 0 <= i < env.commands.len() && #[trigger] env.commands[i]@ == command
}

/// The `XDG_CURRENT_DESKTOP` value, empty when unset.
pub open spec fn desktop_text(env: CaptureEnvironment) -> Seq<char> {
    match env.current_desktop {
        Some(d) => d@,
        None => Seq::<char>::empty(),
    }
}

/// `XDG_CURRENT_DESKTOP` mentions GNOME (ASCII case-insensitively).
pub open spec fn spec_is_gnome(env: CaptureEnvironment) -> bool {
    contains_sub(lower_seq(desktop_text(env)), "gnome"@)
}

/// `XDG_CURRENT_DESKTOP` mentions KDE (ASCII case-insensitively).
pub open spec fn spec_is_kde(env: CaptureEnvironment) -> bool {
    contains_sub(lower_seq(desktop_text(env)), "kde"@)
}

impl CaptureEnvironment {
    fn desktop_chars(&self) -> (r: Vec<char>)
        ensures
            r@ == desktop_text(*self),
    {
        match &self.current_desktop {
            Some(d) => chars_of(d.as_str()),
            None => Vec::new(),
        }
    }

    /// Whether `command` was found on `PATH`.
    pub fn has_command(&self, command: &str) -> (r: bool)
        ensures
            r == spec_has_command(*self, command@),
    {
        let wanted = chars_of(command);
        let mut i: usize = 0;
        while i < self.commands.len()
            invariant
                i <= self.commands.len(),
                wanted@ == command@,
                forall|j: int| 0 <= j < i ==> self.commands[j]@ != command@,
            decreases self.commands.len() - i,
        {
            let have = chars_of(self.commands[i].as_str());
            if chars_eq(&have, &wanted) {
                return true;
            }
            i = i + 1;
        }
        false
    }

    /// The desktop names GNOME (ignoring ASCII case).
    pub fn is_gnome(&self) -> (r: bool)
        ensures
            r == spec_is_gnome(*self),
    {
        let d = self.desktop_chars();
        let needle = chars_of("gnome");
        assert(lower_seq("gnome"@) =~= "gnome"@) by {
            reveal_strlit("gnome");
        }
        contains_ignore_case(&d, &needle)
    }

    /// The desktop names KDE (ignoring ASCII case).
    pub fn is_kde(&self) -> (r: bool)
        ensures
            r == spec_is_kde(*self),
    {
        let d = self.desktop_chars();
        let needle = chars_of("kde");
        assert(lower_seq("kde"@) =~= "kde"@) by {
            reveal_strlit("kde");
        }
        contains_ignore_case(&d, &needle)
    }
}


/// A screenshot tool the library knows how to drive.
#[derive(Debug, Clone, Copy, PartialEq, Eq, Structural)]
pub enum CaptureTool {
    XdgDesktopPortal,
    GnomeShellScreenshot,
    Grim,
    GnomeScreenshot,
    Spectacle,
    Scrot,
    Maim,
    ImageMagickImport,
    Xwd,
}

/// The display protocol a tool works through.
pub open spec fn spec_tool_kind(tool: CaptureTool) -> BackendKind {
    match tool {
        CaptureTool::XdgDesktopPortal => BackendKind::Portal,
        CaptureTool::GnomeShellScreenshot => BackendKind::Portal,
        CaptureTool::GnomeScreenshot => BackendKind::Portal,
        CaptureTool::Spectacle => BackendKind::Portal,
        CaptureTool::Grim => BackendKind::Wayland,
        _ => BackendKind::X11,
    }
}

/// The name a tool is reported under.
pub open spec fn spec_tool_name(tool: CaptureTool) -> Seq<char> {
    match tool {
        CaptureTool::XdgDesktopPortal => "xdg-desktop-portal"@,
        CaptureTool::GnomeShellScreenshot => "gnome-shell-screenshot"@,
        CaptureTool::Grim => "grim"@,
        CaptureTool::GnomeScreenshot => "gnome-screenshot"@,
        CaptureTool::Spectacle => "spectacle"@,
        CaptureTool::Scrot => "scrot"@,
        CaptureTool::Maim => "maim"@,
        CaptureTool::ImageMagickImport => "imagemagick-import"@,
        CaptureTool::Xwd => "xwd"@,
    }
}

/// The executable a tool runs; the portal needs none.
pub open spec fn spec_tool_command(tool: CaptureTool) -> Seq<char> {
    match tool {
        CaptureTool::XdgDesktopPortal => ""@,
        CaptureTool::GnomeShellScreenshot => "gdbus"@,
        CaptureTool::Grim => "grim"@,
        CaptureTool::GnomeScreenshot => "gnome-screenshot"@,
        CaptureTool::Spectacle => "spectacle"@,
        CaptureTool::Scrot => "scrot"@,
        CaptureTool::Maim => "maim"@,
        CaptureTool::ImageMagickImport => "import"@,
        CaptureTool::Xwd => "xwd"@,
    }
}

/// The portal is always considered available; other tools need their command.
pub open spec fn spec_tool_available(tool: CaptureTool, env: CaptureEnvironment) -> bool {
    tool == CaptureTool::XdgDesktopPortal || spec_has_command(env, spec_tool_command(tool))
}

/// Tools that can write the image to standard output.
pub open spec fn spec_tool_stdout(tool: CaptureTool) -> bool {
    tool == CaptureTool::Grim || tool == CaptureTool::Maim || tool == CaptureTool::ImageMagickImport
}

/// Index one past the last `/` of a path text (0 when there is none).
pub open spec fn after_last_slash(p: Seq<char>) -> nat
    decreases p.len(),
{
    if p.len() == 0 {
        0
    } else if p.last() == '/' {
        p.len()
    } else {
        after_last_slash(p.drop_last())
    }
}

/// The path text without its trailing `/` separators.
pub open spec fn strip_slashes(p: Seq<char>) -> Seq<char>
    decreases p.len(),
{
    if p.len() > 0 && p.last() == '/' {
        strip_slashes(p.drop_last())
    } else {
        p
    }
}

/// The last component of a path text.
pub open spec fn spec_file_name(p: Seq<char>) -> Seq<char> {
    let q = strip_slashes(p);
    q.subrange(after_last_slash(q) as int, q.len() as int)
}

/// Index of the last `.` of a text, or -1.
pub open spec fn last_dot(f: Seq<char>) -> int
    decreases f.len(),
{
    if f.len() == 0 {
        -1
    } else if f.last() == '.' {
        f.len() - 1
    } else {
        last_dot(f.drop_last())
    }
}

/// `Path::extension`: what follows the last `.` of the file name, unless that
/// dot opens the name; `..` has none.
pub open spec fn spec_extension(p: Seq<char>) -> Option<Seq<char>> {
    let f = spec_file_name(p);
    if f == seq!['.', '.'] || last_dot(f) <= 0 {
        None
    } else {
        Some(f.subrange(last_dot(f) + 1, f.len() as int))
    }
}

/// The output path has the `.xwd` extension (ASCII case-insensitively).
pub open spec fn spec_is_xwd_output(output: Seq<char>) -> bool {
    match spec_extension(output) {
        Some(e) => eq_ignore_case(e, "xwd"@),
        None => false,
    }
}

/// `xwd` writes only `.xwd` files, and only `xwd` writes them.
pub open spec fn spec_supports_output(tool: CaptureTool, output: Seq<char>) -> bool {
    (tool == CaptureTool::Xwd) == spec_is_xwd_output(output)
}

proof fn lemma_after_last_slash_bound(p: Seq<char>)
    ensures
        after_last_slash(p) <= p.len(),
    decreases p.len(),
{
    if p.len() > 0 && p.last() != '/' {
        lemma_after_last_slash_bound(p.drop_last());
    }
}

proof fn lemma_last_dot_bound(f: Seq<char>)
    ensures
        -1 <= last_dot(f) < f.len(),
    decreases f.len(),
{
    if f.len() > 0 && f.last() != '.' {
        lemma_last_dot_bound(f.drop_last());
    }
}

/// The extension of a path text (see [`spec_extension`]).
pub fn path_extension(path: &[char]) -> (r: Option<Vec<char>>)
    ensures
        match spec_extension(path@) {
            Some(e) => r matches Some(v) && v@ == e,
            None => r is None,
        },
{
    let mut end = path.len();
    assert(path@.subrange(0, end as int) =~= path@);
    while end > 0 && path[end - 1] == '/'
        invariant
            end <= path.len(),
            strip_slashes(path@) == strip_slashes(path@.subrange(0, end as int)),
        decreases end,
    {
        assert(path@.subrange(0, end as int).drop_last() =~= path@.subrange(0, end - 1));
        end = end - 1;
    }
    let ghost q = path@.subrange(0, end as int);
    assert(strip_slashes(q) == q);
    let mut start = end;
    while start > 0 && path[start - 1] != '/'
        invariant
            start <= end <= path.len(),
            q == path@.subrange(0, end as int),
            after_last_slash(q) == after_last_slash(path@.subrange(0, start as int)),
        decreases start,
    {
        assert(path@.subrange(0, start as int).drop_last() =~= path@.subrange(0, start - 1));
        start = start - 1;
    }
    assert(after_last_slash(path@.subrange(0, start as int)) == start);
    let name = slice_range(path, start, end);
    assert(name@ == spec_file_name(path@));
    if name.len() == 2 && name[0] == '.' && name[1] == '.' {
        assert(name@ =~= seq!['.', '.']);
        return None;
    }
    let mut dot = name.len();
    assert(name@.subrange(0, dot as int) =~= name@);
    while dot > 0 && name[dot - 1] != '.'
        invariant
            dot <= name.len(),
            last_dot(name@) == last_dot(name@.subrange(0, dot as int)),
        decreases dot,
    {
        assert(name@.subrange(0, dot as int).drop_last() =~= name@.subrange(0, dot - 1));
        dot = dot - 1;
    }
    assert(name@.subrange(0, name.len() as int) =~= name@);
    assert(last_dot(name@) == dot - 1);
    if dot <= 1 {
        return None;
    }
    Some(slice_range(&name, dot, name.len()))
}

/// Whether `output` names an `.xwd` file.
pub fn is_xwd_output(output: &str) -> (r: bool)
    ensures
        r == spec_is_xwd_output(output@),
{
    let path = chars_of(output);
    match path_extension(&path) {
        Some(extension) => {
            let xwd = chars_of("xwd");
            chars_eq_ignore_case(&extension, &xwd)
        },
        None => false,
    }
}

impl CaptureTool {
    /// The display protocol the tool works through.
    pub fn backend_kind(self) -> (kind: BackendKind)
        ensures
            kind == spec_tool_kind(self),
    {
        match self {
            CaptureTool::XdgDesktopPortal => BackendKind::Portal,
            CaptureTool::GnomeShellScreenshot | CaptureTool::GnomeScreenshot
            | CaptureTool::Spectacle => BackendKind::Portal,
            CaptureTool::Grim => BackendKind::Wayland,
            CaptureTool::Scrot | CaptureTool::Maim | CaptureTool::ImageMagickImport
            | CaptureTool::Xwd => BackendKind::X11,
        }
    }

    /// The name the tool is reported under.
    pub fn name(self) -> (name: &'static str)
        ensures
            name@ == spec_tool_name(self),
    {
        match self {
            CaptureTool::XdgDesktopPortal => "xdg-desktop-portal",
            CaptureTool::GnomeShellScreenshot => "gnome-shell-screenshot",
            CaptureTool::Grim => "grim",
            CaptureTool::GnomeScreenshot => "gnome-screenshot",
            CaptureTool::Spectacle => "spectacle",
            CaptureTool::Scrot => "scrot",
            CaptureTool::Maim => "maim",
            CaptureTool::ImageMagickImport => "imagemagick-import",
            CaptureTool::Xwd => "xwd",
        }
    }

    /// The command that must be on `PATH` for the tool.
    pub fn command(self) -> (command: &'static str)
        ensures
            command@ == spec_tool_command(self),
    {
        match self {
            CaptureTool::XdgDesktopPortal => "",
            CaptureTool::GnomeShellScreenshot => "gdbus",
            CaptureTool::Grim => "grim",
            CaptureTool::GnomeScreenshot => "gnome-screenshot",
            CaptureTool::Spectacle => "spectacle",
            CaptureTool::Scrot => "scrot",
            CaptureTool::Maim => "maim",
            CaptureTool::ImageMagickImport => "import",
            CaptureTool::Xwd => "xwd",
        }
    }

    /// Whether the session can run the tool.
    pub fn is_available(self, environment: &CaptureEnvironment) -> (r: bool)
        ensures
            r == spec_tool_available(self, *environment),
    {
        self == CaptureTool::XdgDesktopPortal || environment.has_command(self.command())
    }

    /// Whether the tool can write to `output` (a path).
    pub fn supports_output(self, output: &str) -> (r: bool)
        ensures
            r == spec_supports_output(self, output@),
    {
        (self == CaptureTool::Xwd) == is_xwd_output(output)
    }

    /// Whether the tool can write a full screenshot to standard output.
    pub fn supports_stdout_capture(self) -> (r: bool)
        ensures
            r == spec_tool_stdout(self),
    {
        self == CaptureTool::Grim || self == CaptureTool::Maim || self
            == CaptureTool::ImageMagickImport
    }

    /// Whether the tool can write a region screenshot to standard output.
    pub fn supports_stdout_region_capture(self) -> (r: bool)
        ensures
            r == spec_tool_stdout(self),
    {
        self == CaptureTool::Grim || self == CaptureTool::Maim || self
            == CaptureTool::ImageMagickImport
    }
}

/// A tool chosen for the current session.
#[derive(Debug, Clone, Copy, PartialEq, Eq, Structural)]
pub struct DetectedCaptureBackend {
    pub tool: CaptureTool,
    pub session_type: SessionType,
}

impl DetectedCaptureBackend {
    /// The name of the chosen tool.
    pub fn name(&self) -> (name: &'static str)
        ensures
            name@ == spec_tool_name(self.tool),
    {
        self.tool.name()
    }

    /// The display protocol of the chosen tool.
    pub fn backend_kind(&self) -> (kind: BackendKind)
        ensures
            kind == spec_tool_kind(self.tool),
    {
        self.tool.backend_kind()
    }
}


/// The file-capable tools tried on every session, X11 tools last.
pub open spec fn spec_common_tools() -> Seq<CaptureTool> {
    seq![
        CaptureTool::GnomeScreenshot,
        CaptureTool::Spectacle,
        CaptureTool::Scrot,
        CaptureTool::Maim,
        CaptureTool::ImageMagickImport,
        CaptureTool::Xwd,
    ]
}

/// The order in which tools are considered, before duplicates are dropped:
/// on Wayland the portal, GNOME Shell (on GNOME), grim and Spectacle (on KDE);
/// on X11 the X11 tools; then the common tools for every session.
pub open spec fn spec_candidate_order(env: CaptureEnvironment) -> Seq<CaptureTool> {
    let x11 = if env.session_type == SessionType::X11 {
        spec_common_tools()
    } else {
        Seq::empty()
    };
    spec_wayland_tools(env) + x11 + spec_common_tools()
}

/// The Wayland-only part of [`spec_candidate_order`].
pub open spec fn spec_wayland_tools(env: CaptureEnvironment) -> Seq<CaptureTool> {
    if env.session_type == SessionType::Wayland {
        seq![CaptureTool::XdgDesktopPortal] + (if spec_is_gnome(env) {
            seq![CaptureTool::GnomeShellScreenshot]
        } else {
            Seq::empty()
        }) + seq![CaptureTool::Grim] + (if spec_is_kde(env) {
            seq![CaptureTool::Spectacle]
        } else {
            Seq::empty()
        })
    } else {
        Seq::empty()
    }
}

/// The sequence with every later repetition of an item removed.
pub open spec fn dedup<T>(s: Seq<T>) -> Seq<T>
    decreases s.len(),
{
    if s.len() == 0 {
        s
    } else {
        let d = dedup(s.drop_last());
        if d.contains(s.last()) {
            d
        } else {
            d.push(s.last())
        }
    }
}

/// The tools of `s` that are available and can write `output`, in order.
pub open spec fn keep_usable(s: Seq<CaptureTool>, env: CaptureEnvironment, output: Seq<char>) -> Seq<
    CaptureTool,
>
    decreases s.len(),
{
    if s.len() == 0 {
        s
    } else {
        let k = keep_usable(s.drop_last(), env, output);
        if spec_tool_available(s.last(), env) && spec_supports_output(s.last(), output) {
            k.push(s.last())
        } else {
            k
        }
    }
}

/// The tools that file capture to `output` tries, in order, without repetition.
pub open spec fn spec_candidate_tools(env: CaptureEnvironment, output: Seq<char>) -> Seq<CaptureTool> {
    keep_usable(dedup(spec_candidate_order(env)), env, output)
}

/// The items of `s` that can write to standard output, in order.
pub open spec fn keep_stdout(s: Seq<CaptureTool>) -> Seq<CaptureTool>
    decreases s.len(),
{
    if s.len() == 0 {
        s
    } else {
        let k = keep_stdout(s.drop_last());
        if spec_tool_stdout(s.last()) {
            k.push(s.last())
        } else {
            k
        }
    }
}

/// `backends` are exactly `tools`, each detected for the session of `env`.
pub open spec fn detected_as(
    backends: Seq<DetectedCaptureBackend>,
    tools: Seq<CaptureTool>,
    env: CaptureEnvironment,
) -> bool {
    &&& backends.len() == tools.len()
    &&& forall|i: int|
        0 <= i < tools.len() ==> (#[trigger] backends[i]).tool == tools[i]
            && backends[i].session_type == env.session_type
}

fn push_tool(order: &mut Vec<CaptureTool>, tool: CaptureTool)
    ensures
        final(order)@ == old(order)@.push(tool),
{
    order.push(tool);
}

fn push_common_tools(order: &mut Vec<CaptureTool>)
    ensures
        final(order)@ == old(order)@ + spec_common_tools(),
{
    order.push(CaptureTool::GnomeScreenshot);
    order.push(CaptureTool::Spectacle);
    order.push(CaptureTool::Scrot);
    order.push(CaptureTool::Maim);
    order.push(CaptureTool::ImageMagickImport);
    order.push(CaptureTool::Xwd);
    assert(order@ =~= old(order)@ + spec_common_tools());
}

fn candidate_order(environment: &CaptureEnvironment) -> (order: Vec<CaptureTool>)
    ensures
        order@ == spec_candidate_order(*environment),
{
    let mut order: Vec<CaptureTool> = Vec::new();
    if environment.session_type == SessionType::Wayland {
        push_tool(&mut order, CaptureTool::XdgDesktopPortal);
        if environment.is_gnome() {
            push_tool(&mut order, CaptureTool::GnomeShellScreenshot);
        }
        push_tool(&mut order, CaptureTool::Grim);
        if environment.is_kde() {
            push_tool(&mut order, CaptureTool::Spectacle);
        }
    }
    let ghost wayland = order@;
    assert(wayland =~= spec_wayland_tools(*environment));
    if environment.session_type == SessionType::X11 {
        push_common_tools(&mut order);
    }
    push_common_tools(&mut order);
    assert(order@ =~= spec_candidate_order(*environment));
    order
}

fn tools_contain(tools: &Vec<CaptureTool>, tool: CaptureTool) -> (r: bool)
    ensures
        r == tools@.contains(tool),
{
    let mut i: usize = 0;
    while i < tools.len()
        invariant
            i <= tools.len(),
            forall|j: int| 0 <= j < i ==> tools@[j] != tool,
        decreases tools.len() - i,
    {
        if tools[i] == tool {
            return true;
        }
        i = i + 1;
    }
    false
}

/// File-capture backends usable for `output`, in the order they are tried.
pub fn candidate_backends(environment: &CaptureEnvironment, output: &str) -> (backends: Vec<
    DetectedCaptureBackend,
>)
    ensures
        detected_as(backends@, spec_candidate_tools(*environment, output@), *environment),
{
    let order = candidate_order(environment);
    let mut seen: Vec<CaptureTool> = Vec::new();
    let mut backends: Vec<DetectedCaptureBackend> = Vec::new();
    let ghost mut kept: Seq<CaptureTool> = Seq::empty();
    let mut i: usize = 0;
    while i < order.len()
        invariant
            i <= order.len(),
            seen@ == dedup(order@.subrange(0, i as int)),
            kept == keep_usable(seen@, *environment, output@),
            detected_as(backends@, kept, *environment),
        decreases order.len() - i,
    {
        let tool = order[i];
        assert(order@.subrange(0, i + 1).drop_last() =~= order@.subrange(0, i as int));
        if !tools_contain(&seen, tool) {
            let ghost before = seen@;
            seen.push(tool);
            assert(seen@.drop_last() =~= before);
            if tool.is_available(environment) && tool.supports_output(output) {
                backends.push(DetectedCaptureBackend { tool, session_type: environment.session_type });
                proof {
                    kept = kept.push(tool);
                }
            }
        }
        i = i + 1;
    }
    assert(order@.subrange(0, order.len() as int) =~= order@);
    backends
}

/// Stdout-capable backends, in the order of [`candidate_backends`] for a PNG output.
fn stdout_backends(environment: &CaptureEnvironment) -> (backends: Vec<DetectedCaptureBackend>)
    ensures
        detected_as(
            backends@,
            keep_stdout(spec_candidate_tools(*environment, "screenshot.png"@)),
            *environment,
        ),
{
    let all = candidate_backends(environment, "screenshot.png");
    let mut backends: Vec<DetectedCaptureBackend> = Vec::new();
    let ghost tools = spec_candidate_tools(*environment, "screenshot.png"@);
    let mut i: usize = 0;
    while i < all.len()
        invariant
            i <= all.len(),
            detected_as(all@, tools, *environment),
            detected_as(backends@, keep_stdout(tools.subrange(0, i as int)), *environment),
        decreases all.len() - i,
    {
        assert(tools.subrange(0, i + 1).drop_last() =~= tools.subrange(0, i as int));
        if all[i].tool.supports_stdout_capture() {
            backends.push(all[i]);
        }
        i = i + 1;
    }
    assert(tools.subrange(0, all.len() as int) =~= tools);
    backends
}

/// Backends that can write a full-screen frame to standard output.
pub fn candidate_frame_backends(environment: &CaptureEnvironment) -> (backends: Vec<
    DetectedCaptureBackend,
>)
    ensures
        detected_as(
            backends@,
            keep_stdout(spec_candidate_tools(*environment, "screenshot.png"@)),
            *environment,
        ),
{
    stdout_backends(environment)
}

/// Backends that can write a region of the screen to standard output.
pub fn candidate_region_frame_backends(environment: &CaptureEnvironment) -> (backends: Vec<
    DetectedCaptureBackend,
>)
    ensures
        detected_as(
            backends@,
            keep_stdout(spec_candidate_tools(*environment, "screenshot.png"@)),
            *environment,
        ),
{
    stdout_backends(environment)
}

/// The first candidate of a list, tagged with the session.
pub open spec fn first_detected(tools: Seq<CaptureTool>, env: CaptureEnvironment) -> Option<
    DetectedCaptureBackend,
> {
    if tools.len() == 0 {
        None
    } else {
        Some(DetectedCaptureBackend { tool: tools[0], session_type: env.session_type })
    }
}

fn first_backend(backends: Vec<DetectedCaptureBackend>) -> (r: Option<DetectedCaptureBackend>)
    ensures
        backends@.len() == 0 ==> r is None,
        backends@.len() > 0 ==> r == Some(backends@[0]),
{
    if backends.len() == 0 {
        None
    } else {
        Some(backends[0])
    }
}

/// The backend that file capture to `output` tries first.
pub fn select_backend(environment: &CaptureEnvironment, output: &str) -> (r: Option<
    DetectedCaptureBackend,
>)
    ensures
        r == first_detected(spec_candidate_tools(*environment, output@), *environment),
{
    first_backend(candidate_backends(environment, output))
}

/// The backend that direct full-screen frame capture tries first.
pub fn select_frame_backend(environment: &CaptureEnvironment) -> (r: Option<DetectedCaptureBackend>)
    ensures
        r == first_detected(
            keep_stdout(spec_candidate_tools(*environment, "screenshot.png"@)),
            *environment,
        ),
{
    first_backend(candidate_frame_backends(environment))
}

/// The backend that direct region capture tries first.
pub fn select_region_frame_backend(environment: &CaptureEnvironment) -> (r: Option<
    DetectedCaptureBackend,
>)
    ensures
        r == first_detected(
            keep_stdout(spec_candidate_tools(*environment, "screenshot.png"@)),
            *environment,
        ),
{
    first_backend(candidate_region_frame_backends(environment))
}

proof fn lemma_keep_stdout_first(s: Seq<CaptureTool>)
    ensures
        keep_stdout(s).len() == 0 <==> forall|i: int|
            0 <= i < s.len() ==> !spec_tool_stdout(#[trigger] s[i]),
        keep_stdout(s).len() > 0 ==> exists|i: int|
            0 <= i < s.len() && spec_tool_stdout(#[trigger] s[i]) && keep_stdout(s)[0] == s[i]
                && forall|j: int| 0 <= j < i ==> !spec_tool_stdout(#[trigger] s[j]),
    decreases s.len(),
{
    if s.len() > 0 {
        let p = s.drop_last();
        lemma_keep_stdout_first(p);
        assert(forall|i: int| 0 <= i < p.len() ==> p[i] == s[i]);
        if keep_stdout(p).len() > 0 {
            let i = choose|i: int|
                0 <= i < p.len() && spec_tool_stdout(#[trigger] p[i]) && keep_stdout(p)[0] == p[i]
                    && forall|j: int| 0 <= j < i ==> !spec_tool_stdout(#[trigger] p[j]);
            assert(spec_tool_stdout(s[i]));
        } else if spec_tool_stdout(s.last()) {
            assert(spec_tool_stdout(s[s.len() - 1]));
        }
    }
}

/// Direct frame capture picks the first stdout-capable tool among the
/// candidates for a PNG file, tagged with the session; when no candidate can
/// write to standard output (file-only tools such as the portal, gdbus,
/// gnome-screenshot, spectacle, scrot or xwd), there is none.
pub proof fn lemma_frame_backend_is_first_stdout_candidate(env: CaptureEnvironment)
    ensures
        ({
            let c = spec_candidate_tools(env, "screenshot.png"@);
            let r = first_detected(keep_stdout(c), env);
            &&& r is None <==> forall|i: int| 0 <= i < c.len() ==> !spec_tool_stdout(#[trigger] c[i])
            &&& r matches Some(b) ==> b.session_type == env.session_type && exists|i: int|
                0 <= i < c.len() && b.tool == c[i] && spec_tool_stdout(#[trigger] c[i])
                    && forall|j: int| 0 <= j < i ==> !spec_tool_stdout(#[trigger] c[j])
        }),
{
    lemma_keep_stdout_first(spec_candidate_tools(env, "screenshot.png"@));
}


/// The first backend of a list whose tool can write to standard output.
pub open spec fn find_stdout_backend(bs: Seq<DetectedCaptureBackend>) -> Option<DetectedCaptureBackend>
    decreases bs.len(),
{
    if bs.len() == 0 {
        None
    } else if spec_tool_stdout(bs[0].tool) {
        Some(bs[0])
    } else {
        find_stdout_backend(bs.drop_first())
    }
}

proof fn lemma_find_stdout_first(bs: Seq<DetectedCaptureBackend>)
    ensures
        find_stdout_backend(bs) is None <==> forall|i: int|
            0 <= i < bs.len() ==> !spec_tool_stdout(#[trigger] bs[i].tool),
        find_stdout_backend(bs) matches Some(b) ==> exists|i: int|
            0 <= i < bs.len() && spec_tool_stdout(#[trigger] bs[i].tool) && b == bs[i]
                && forall|j: int| 0 <= j < i ==> !spec_tool_stdout(#[trigger] bs[j].tool),
    decreases bs.len(),
{
    if bs.len() > 0 {
        let rest = bs.drop_first();
        lemma_find_stdout_first(rest);
        assert(forall|i: int| 0 <= i < rest.len() ==> rest[i] == bs[i + 1]);
        if !spec_tool_stdout(bs[0].tool) {
            if find_stdout_backend(rest) is None {
                assert forall|i: int| 0 <= i < bs.len() implies !spec_tool_stdout(
                    #[trigger] bs[i].tool,
                ) by {
                    if i > 0 {
                        assert(bs[i] == rest[i - 1]);
                    }
                }
            } else {
                let k = choose|i: int|
                    0 <= i < rest.len() && spec_tool_stdout(#[trigger] rest[i].tool)
                        && find_stdout_backend(rest) == Some(rest[i]) && forall|j: int|
                        0 <= j < i ==> !spec_tool_stdout(#[trigger] rest[j].tool);
                assert(bs[k + 1] == rest[k]);
                assert forall|j: int| 0 <= j < k + 1 implies !spec_tool_stdout(
                    #[trigger] bs[j].tool,
                ) by {
                    if j > 0 {
                        assert(bs[j] == rest[j - 1]);
                    }
                }
                assert(spec_tool_stdout(bs[k + 1].tool));
            }
        } else {
            assert(spec_tool_stdout(bs[0].tool));
        }
    }
}

/// `select_frame_backend(env)` is
/// `candidate_backends(env, "screenshot.png").into_iter().find(..)` for the
/// first backend that can write to standard output: stated of any list that
/// [`candidate_backends`] returns for the PNG file.
pub proof fn lemma_frame_backend_is_find_over_candidates(
    env: CaptureEnvironment,
    backends: Seq<DetectedCaptureBackend>,
)
    requires
        detected_as(backends, spec_candidate_tools(env, "screenshot.png"@), env),
    ensures
        first_detected(keep_stdout(spec_candidate_tools(env, "screenshot.png"@)), env)
            == find_stdout_backend(backends),
{
    let c = spec_candidate_tools(env, "screenshot.png"@);
    lemma_keep_stdout_first(c);
    lemma_find_stdout_first(backends);
    assert(forall|i: int| 0 <= i < c.len() ==> #[trigger] backends[i].tool == c[i]);
    if keep_stdout(c).len() > 0 {
        let i = choose|i: int|
            0 <= i < c.len() && spec_tool_stdout(#[trigger] c[i]) && keep_stdout(c)[0] == c[i]
                && forall|j: int| 0 <= j < i ==> !spec_tool_stdout(#[trigger] c[j]);
        assert(spec_tool_stdout(backends[i].tool));
        assert(find_stdout_backend(backends) is Some);
        let k = choose|k: int|
            0 <= k < backends.len() && spec_tool_stdout(#[trigger] backends[k].tool)
                && find_stdout_backend(backends) == Some(backends[k]) && forall|j: int|
                0 <= j < k ==> !spec_tool_stdout(#[trigger] backends[j].tool);
        if k < i {
            assert(spec_tool_stdout(c[k]));
        } else if i < k {
            assert(!spec_tool_stdout(backends[i].tool));
        }
        assert(k == i);
    } else {
        assert forall|i: int| 0 <= i < backends.len() implies !spec_tool_stdout(
            #[trigger] backends[i].tool,
        ) by {
            assert(!spec_tool_stdout(c[i]));
        }
    }
}

proof fn lemma_dedup_keeps_first_pair<T>(s: Seq<T>)
    requires
        s.len() >= 2,
        s[0] != s[1],
    ensures
        dedup(s).len() >= 2,
        dedup(s)[0] == s[0],
        dedup(s)[1] == s[1],
    decreases s.len(),
{
    let p = s.drop_last();
    if s.len() == 2 {
        let q = p.drop_last();
        assert(q.len() == 0);
        assert(dedup(q) =~= Seq::<T>::empty());
        assert(dedup(p) =~= seq![s[0]]);
        assert(!dedup(p).contains(s[1]));
        assert(dedup(s) =~= seq![s[0], s[1]]);
    } else {
        lemma_dedup_keeps_first_pair(p);
    }
}

proof fn lemma_keep_usable_keeps_first_pair(s: Seq<CaptureTool>, env: CaptureEnvironment, output: Seq<char>)
    requires
        s.len() >= 2,
        spec_tool_available(s[0], env) && spec_supports_output(s[0], output),
        spec_tool_available(s[1], env) && spec_supports_output(s[1], output),
    ensures
        keep_usable(s, env, output).len() >= 2,
        keep_usable(s, env, output)[0] == s[0],
        keep_usable(s, env, output)[1] == s[1],
    decreases s.len(),
{
    let p = s.drop_last();
    if s.len() == 2 {
        let q = p.drop_last();
        assert(q.len() == 0);
        assert(keep_usable(q, env, output) =~= Seq::<CaptureTool>::empty());
        assert(keep_usable(p, env, output) =~= seq![s[0]]);
        assert(keep_usable(s, env, output) =~= seq![s[0], s[1]]);
    } else {
        lemma_keep_usable_keeps_first_pair(p, env, output);
    }
}

/// On a Wayland session whose desktop mentions GNOME and where `gdbus` is on
/// `PATH`, file capture to any output but an `.xwd` file tries the portal
/// first and GNOME Shell's screenshot call right after it.
pub proof fn lemma_gnome_shell_follows_portal(env: CaptureEnvironment, output: Seq<char>)
    requires
        env.session_type == SessionType::Wayland,
        spec_is_gnome(env),
        spec_has_command(env, "gdbus"@),
        !spec_is_xwd_output(output),
    ensures
        spec_candidate_tools(env, output).len() >= 2,
        spec_candidate_tools(env, output)[0] == CaptureTool::XdgDesktopPortal,
        spec_candidate_tools(env, output)[1] == CaptureTool::GnomeShellScreenshot,
{
    let order = spec_candidate_order(env);
    assert(order[0] == CaptureTool::XdgDesktopPortal);
    assert(order[1] == CaptureTool::GnomeShellScreenshot);
    lemma_dedup_keeps_first_pair(order);
    let d = dedup(order);
    assert(spec_tool_command(CaptureTool::GnomeShellScreenshot) == "gdbus"@);
    lemma_keep_usable_keeps_first_pair(d, env, output);
}

proof fn lemma_keep_usable_subset(s: Seq<CaptureTool>, env: CaptureEnvironment, output: Seq<char>, t: CaptureTool)
    ensures
        keep_usable(s, env, output).contains(t) ==> s.contains(t) && spec_tool_available(t, env)
            && spec_supports_output(t, output),
    decreases s.len(),
{
    if s.len() > 0 {
        let p = s.drop_last();
        lemma_keep_usable_subset(p, env, output, t);
        let k = keep_usable(p, env, output);
        if keep_usable(s, env, output).contains(t) {
            let i = choose|i: int|
                0 <= i < keep_usable(s, env, output).len() && keep_usable(s, env, output)[i] == t;
            if i < k.len() {
                assert(k[i] == t);
                assert(k.contains(t));
                let j = choose|j: int| 0 <= j < p.len() && p[j] == t;
                assert(s[j] == t);
            } else {
                assert(s[s.len() - 1] == t);
            }
        }
    }
}

/// Only Wayland sessions consider the portal, GNOME Shell's screenshot call
/// and grim; an X11 session never tries them, whatever the output.
pub proof fn lemma_x11_skips_wayland_tools(env: CaptureEnvironment, output: Seq<char>)
    requires
        env.session_type == SessionType::X11,
    ensures
        !spec_candidate_tools(env, output).contains(CaptureTool::XdgDesktopPortal),
        !spec_candidate_tools(env, output).contains(CaptureTool::GnomeShellScreenshot),
        !spec_candidate_tools(env, output).contains(CaptureTool::Grim),
{
    let order = spec_candidate_order(env);
    lemma_dedup(order);
    assert(!order.contains(CaptureTool::XdgDesktopPortal));
    assert(!order.contains(CaptureTool::GnomeShellScreenshot));
    assert(!order.contains(CaptureTool::Grim));
    lemma_keep_usable_subset(dedup(order), env, output, CaptureTool::XdgDesktopPortal);
    lemma_keep_usable_subset(dedup(order), env, output, CaptureTool::GnomeShellScreenshot);
    lemma_keep_usable_subset(dedup(order), env, output, CaptureTool::Grim);
}

/// No item occurs twice.
pub open spec fn no_dups<T>(s: Seq<T>) -> bool {
    forall|i: int, j: int| 0 <= i < j < s.len() ==> s[i] != s[j]
}

proof fn lemma_dedup(s: Seq<CaptureTool>)
    ensures
        no_dups(dedup(s)),
        forall|x: CaptureTool| dedup(s).contains(x) <==> s.contains(x),
    decreases s.len(),
{
    if s.len() > 0 {
        lemma_dedup(s.drop_last());
        let d = dedup(s.drop_last());
        assert forall|x: CaptureTool| dedup(s).contains(x) <==> s.contains(x) by {
            if s.contains(x) {
                let k = choose|k: int| 0 <= k < s.len() && s[k] == x;
                if k < s.len() - 1 {
                    assert(s.drop_last()[k] == x);
                }
            }
            if s.drop_last().contains(x) {
                let k = choose|k: int| 0 <= k < s.drop_last().len() && s.drop_last()[k] == x;
                assert(s[k] == x);
            }
            if d.push(s.last()).contains(x) && x != s.last() {
                let k = choose|k: int| 0 <= k < d.push(s.last()).len() && d.push(s.last())[k] == x;
                assert(d[k] == x);
            }
            if d.contains(x) {
                let k = choose|k: int| 0 <= k < d.len() && d[k] == x;
                assert(d.push(s.last())[k] == x);
            }
            assert(d.push(s.last())[d.len() as int] == s.last());
            assert(s[s.len() - 1] == s.last());
        }
    }
}

proof fn lemma_keep_usable(s: Seq<CaptureTool>, env: CaptureEnvironment, output: Seq<char>)
    requires
        no_dups(s),
    ensures
        no_dups(keep_usable(s, env, output)),
        forall|x: CaptureTool|
            keep_usable(s, env, output).contains(x) <==> (s.contains(x) && spec_tool_available(
                x,
                env,
            ) && spec_supports_output(x, output)),
    decreases s.len(),
{
    if s.len() > 0 {
        let t = s.drop_last();
        assert(no_dups(t)) by {
            assert forall|i: int, j: int| 0 <= i < j < t.len() implies t[i] != t[j] by {
                assert(t[i] == s[i] && t[j] == s[j]);
            }
        }
        lemma_keep_usable(t, env, output);
        let k = keep_usable(t, env, output);
        assert(!t.contains(s.last())) by {
            if t.contains(s.last()) {
                let q = choose|q: int| 0 <= q < t.len() && t[q] == s.last();
                assert(s[q] == s[s.len() - 1]);
            }
        }
        assert forall|x: CaptureTool|
            keep_usable(s, env, output).contains(x) <==> (s.contains(x) && spec_tool_available(
                x,
                env,
            ) && spec_supports_output(x, output)) by {
            if s.contains(x) {
                let q = choose|q: int| 0 <= q < s.len() && s[q] == x;
                if q < s.len() - 1 {
                    assert(t[q] == x);
                }
            }
            if t.contains(x) {
                let q = choose|q: int| 0 <= q < t.len() && t[q] == x;
                assert(s[q] == x);
            }
            if k.push(s.last()).contains(x) && x != s.last() {
                let q = choose|q: int| 0 <= q < k.push(s.last()).len() && k.push(s.last())[q] == x;
                assert(k[q] == x);
            }
            if k.contains(x) {
                let q = choose|q: int| 0 <= q < k.len() && k[q] == x;
                assert(k.push(s.last())[q] == x);
            }
            assert(k.push(s.last())[k.len() as int] == s.last());
            assert(s[s.len() - 1] == s.last());
        }
        if spec_tool_available(s.last(), env) && spec_supports_output(s.last(), output) {
            let kp = k.push(s.last());
            assert forall|i: int, j: int| 0 <= i < j < kp.len() implies kp[i] != kp[j] by {
                if j == k.len() {
                    assert(k.contains(kp[i]));
                }
            }
        }
    }
}

/// File capture never tries the same tool twice, and it tries exactly the known
/// tools that are considered for the session, available, and able to write
/// `output`.
pub proof fn lemma_candidate_tools_distinct_and_usable(env: CaptureEnvironment, output: Seq<char>)
    ensures
        no_dups(spec_candidate_tools(env, output)),
        forall|tool: CaptureTool|
            spec_candidate_tools(env, output).contains(tool) <==> (spec_candidate_order(
                env,
            ).contains(tool) && spec_tool_available(tool, env) && spec_supports_output(tool, output)),
{
    lemma_dedup(spec_candidate_order(env));
    lemma_keep_usable(dedup(spec_candidate_order(env)), env, output);
}

/// How a zero-copy frame travels from the compositor to the library.
#[derive(Debug, Clone, Copy, PartialEq, Eq, Structural)]
pub enum ZeroCopyTransport {
    XdgDesktopPortalScreenCastPipeWireDmaBuf,
}

impl ZeroCopyTransport {
    pub fn name(self) -> (name: &'static str)
        ensures
            name@ == "xdg-desktop-portal-screencast-pipewire-dmabuf"@,
    {
        "xdg-desktop-portal-screencast-pipewire-dmabuf"
    }
}

/// Whether zero-copy capture can work in a session, and if not, why.
#[derive(Debug, Clone, Copy, PartialEq, Eq, Structural)]
pub enum ZeroCopyAvailability {
    Available,
    MissingPipeWireSession,
    MissingPipeWireBackend,
    UnsupportedSession,
}

/// The availability's name as `Debug` prints it.
pub open spec fn spec_availability_name(a: ZeroCopyAvailability) -> Seq<char> {
    match a {
        ZeroCopyAvailability::Available => "available"@,
        ZeroCopyAvailability::MissingPipeWireSession => "missing-pipewire-session"@,
        ZeroCopyAvailability::MissingPipeWireBackend => "missing-pipewire-backend"@,
        ZeroCopyAvailability::UnsupportedSession => "unsupported-session"@,
    }
}

/// The variant's name as `Debug` prints it.
pub open spec fn spec_availability_debug(a: ZeroCopyAvailability) -> Seq<char> {
    match a {
        ZeroCopyAvailability::Available => "Available"@,
        ZeroCopyAvailability::MissingPipeWireSession => "MissingPipeWireSession"@,
        ZeroCopyAvailability::MissingPipeWireBackend => "MissingPipeWireBackend"@,
        ZeroCopyAvailability::UnsupportedSession => "UnsupportedSession"@,
    }
}

impl ZeroCopyAvailability {
    /// Whether the transport can be used.
    pub fn is_available(self) -> (r: bool)
        ensures
            r == (self == ZeroCopyAvailability::Available),
    {
        self == ZeroCopyAvailability::Available
    }

    pub fn name(self) -> (name: &'static str)
        ensures
            name@ == spec_availability_name(self),
    {
        match self {
            ZeroCopyAvailability::Available => "available",
            ZeroCopyAvailability::MissingPipeWireSession => "missing-pipewire-session",
            ZeroCopyAvailability::MissingPipeWireBackend => "missing-pipewire-backend",
            ZeroCopyAvailability::UnsupportedSession => "unsupported-session",
        }
    }

    fn debug_name(self) -> (name: &'static str)
        ensures
            name@ == spec_availability_debug(self),
    {
        match self {
            ZeroCopyAvailability::Available => "Available",
            ZeroCopyAvailability::MissingPipeWireSession => "MissingPipeWireSession",
            ZeroCopyAvailability::MissingPipeWireBackend => "MissingPipeWireBackend",
            ZeroCopyAvailability::UnsupportedSession => "UnsupportedSession",
        }
    }
}

/// A zero-copy transport and whether the session can use it.
#[derive(Debug, Clone, PartialEq, Eq)]
pub struct ZeroCopyCaptureCapability {
    pub backend_name: String,
    pub backend_kind: BackendKind,
    pub transport: ZeroCopyTransport,
    pub availability: ZeroCopyAvailability,
}

/// A zero-copy transport selected for the session.
#[derive(Debug, Clone, Copy, PartialEq, Eq, Structural)]
pub struct DetectedZeroCopyBackend {
    pub transport: ZeroCopyTransport,
    pub backend_kind: BackendKind,
}

impl DetectedZeroCopyBackend {
    pub fn name(&self) -> (name: &'static str)
        ensures
            name@ == "xdg-desktop-portal-screencast-pipewire-dmabuf"@,
    {
        self.transport.name()
    }
}

/// Zero-copy capture needs a Wayland session, a running PipeWire session, and
/// a build that can consume PipeWire buffers, checked in that order.
pub open spec fn spec_zero_copy_availability(env: CaptureEnvironment, backend_enabled: bool) -> ZeroCopyAvailability {
    if env.session_type != SessionType::Wayland {
        ZeroCopyAvailability::UnsupportedSession
    } else if !env.pipewire_session_available {
        ZeroCopyAvailability::MissingPipeWireSession
    } else if !backend_enabled {
        ZeroCopyAvailability::MissingPipeWireBackend
    } else {
        ZeroCopyAvailability::Available
    }
}

/// Whether this library can consume PipeWire DMA-BUF buffers itself: it cannot,
/// so a caller that can passes `true` to
/// [`zero_copy_capture_capabilities_for`].
pub fn pipewire_backend_feature_enabled() -> (r: bool)
    ensures
        r == false,
{
    false
}

/// Whether this library can import DMA-BUF frames into EGL itself: it cannot.
pub fn egl_backend_feature_enabled() -> (r: bool)
    ensures
        r == false,
{
    false
}

/// The zero-copy transports and their availability, for a consumer of PipeWire
/// buffers that is (`backend_enabled`) or is not present.
pub fn zero_copy_capture_capabilities_for(
    environment: &CaptureEnvironment,
    backend_enabled: bool,
) -> (caps: Vec<ZeroCopyCaptureCapability>)
    ensures
        caps@.len() == 1,
        caps@[0].backend_name@ == "xdg-desktop-portal-screencast-pipewire-dmabuf"@,
        caps@[0].backend_kind == BackendKind::Portal,
        caps@[0].transport == ZeroCopyTransport::XdgDesktopPortalScreenCastPipeWireDmaBuf,
        caps@[0].availability == spec_zero_copy_availability(*environment, backend_enabled),
{
    let availability = if environment.session_type != SessionType::Wayland {
        ZeroCopyAvailability::UnsupportedSession
    } else if !environment.pipewire_session_available {
        ZeroCopyAvailability::MissingPipeWireSession
    } else if !backend_enabled {
        ZeroCopyAvailability::MissingPipeWireBackend
    } else {
        ZeroCopyAvailability::Available
    };
    let transport = ZeroCopyTransport::XdgDesktopPortalScreenCastPipeWireDmaBuf;
    let mut caps: Vec<ZeroCopyCaptureCapability> = Vec::new();
    caps.push(
        ZeroCopyCaptureCapability {
            backend_name: transport.name().to_owned(),
            backend_kind: BackendKind::Portal,
            transport,
            availability,
        },
    );
    caps
}

/// The zero-copy transports and their availability for this library.
pub fn zero_copy_capture_capabilities(environment: &CaptureEnvironment) -> (caps: Vec<
    ZeroCopyCaptureCapability,
>)
    ensures
        caps@.len() == 1,
        caps@[0].backend_name@ == "xdg-desktop-portal-screencast-pipewire-dmabuf"@,
        caps@[0].backend_kind == BackendKind::Portal,
        caps@[0].transport == ZeroCopyTransport::XdgDesktopPortalScreenCastPipeWireDmaBuf,
        caps@[0].availability == spec_zero_copy_availability(*environment, false),
{
    zero_copy_capture_capabilities_for(environment, pipewire_backend_feature_enabled())
}

/// The first available zero-copy transport, for a consumer that is
/// (`backend_enabled`) or is not present.
pub fn select_zero_copy_backend_for(environment: &CaptureEnvironment, backend_enabled: bool) -> (r:
    Option<DetectedZeroCopyBackend>)
    ensures
        r == (if spec_zero_copy_availability(*environment, backend_enabled)
            == ZeroCopyAvailability::Available {
            Some(
                DetectedZeroCopyBackend {
                    transport: ZeroCopyTransport::XdgDesktopPortalScreenCastPipeWireDmaBuf,
                    backend_kind: BackendKind::Portal,
                },
            )
        } else {
            None
        }),
{
    let caps = zero_copy_capture_capabilities_for(environment, backend_enabled);
    let mut i: usize = 0;
    while i < caps.len()
        invariant
            i <= caps.len() == 1,
            caps@[0].availability == spec_zero_copy_availability(*environment, backend_enabled),
            caps@[0].backend_kind == BackendKind::Portal,
            caps@[0].transport == ZeroCopyTransport::XdgDesktopPortalScreenCastPipeWireDmaBuf,
            i == 1 ==> caps@[0].availability != ZeroCopyAvailability::Available,
        decreases caps.len() - i,
    {
        if caps[i].availability.is_available() {
            return Some(
                DetectedZeroCopyBackend {
                    transport: caps[i].transport,
                    backend_kind: caps[i].backend_kind,
                },
            );
        }
        i = i + 1;
    }
    None
}

/// The first available zero-copy transport for this library.
pub fn select_zero_copy_backend(environment: &CaptureEnvironment) -> (r: Option<
    DetectedZeroCopyBackend,
>)
    ensures
        r == (if spec_zero_copy_availability(*environment, false) == ZeroCopyAvailability::Available {
            Some(
                DetectedZeroCopyBackend {
                    transport: ZeroCopyTransport::XdgDesktopPortalScreenCastPipeWireDmaBuf,
                    backend_kind: BackendKind::Portal,
                },
            )
        } else {
            None
        }),
{
    select_zero_copy_backend_for(environment, pipewire_backend_feature_enabled())
}

/// The error text when no zero-copy transport is available.
pub fn zero_copy_unavailable_message(environment: &CaptureEnvironment) -> (message: String)
    ensures
        message@ == "no DMA-BUF zero-copy capture backend available ("@
            + "xdg-desktop-portal-screencast-pipewire-dmabuf"@ + ": "@ + spec_availability_debug(
            spec_zero_copy_availability(*environment, false),
        ) + ")"@,
{
    let caps = zero_copy_capture_capabilities(environment);
    let mut message = String::from_str("no DMA-BUF zero-copy capture backend available (");
    message.append(caps[0].transport.name());
    message.append(": ");
    message.append(caps[0].availability.debug_name());
    message.append(")");
    message
}


/// The view of an optional string.
pub open spec fn opt_view(o: Option<String>) -> Option<Seq<char>> {
    match o {
        Some(s) => Some(s@),
        None => None,
    }
}

/// Every known tool, in declaration order.
pub open spec fn spec_all_tools() -> Seq<CaptureTool> {
    seq![
        CaptureTool::XdgDesktopPortal,
        CaptureTool::GnomeShellScreenshot,
        CaptureTool::Grim,
        CaptureTool::GnomeScreenshot,
        CaptureTool::Spectacle,
        CaptureTool::Scrot,
        CaptureTool::Maim,
        CaptureTool::ImageMagickImport,
        CaptureTool::Xwd,
    ]
}

/// Why a tool would not be used for file capture to `output`, if it would not.
pub open spec fn spec_capability_reason(
    env: CaptureEnvironment,
    output: Seq<char>,
    tool: CaptureTool,
) -> Option<Seq<char>> {
    if !spec_candidate_order(env).contains(tool) {
        Some("not considered for current session"@)
    } else if !spec_tool_available(tool, env) {
        Some("command "@ + spec_tool_command(tool) + " was not found on PATH"@)
    } else if !spec_supports_output(tool, output) {
        if tool == CaptureTool::Xwd {
            Some("xwd only supports .xwd output for file capture"@)
        } else {
            Some("only xwd writes .xwd output for file capture"@)
        }
    } else {
        None
    }
}

/// The tool selected for file capture is one the diagnostics find nothing
/// against: considered for the session, on `PATH`, and able to write the
/// output; a tool without any such reason is a candidate, so some tool is
/// selected.
pub proof fn lemma_selected_tool_has_no_reason(env: CaptureEnvironment, output: Seq<char>, tool: CaptureTool)
    ensures
        (first_detected(spec_candidate_tools(env, output), env) matches Some(b) && b.tool == tool)
            ==> spec_capability_reason(env, output, tool) is None,
        spec_capability_reason(env, output, tool) is None ==> first_detected(
            spec_candidate_tools(env, output),
            env,
        ) is Some,
{
    let order = spec_candidate_order(env);
    lemma_dedup(order);
    lemma_keep_usable(dedup(order), env, output);
    let c = spec_candidate_tools(env, output);
    if first_detected(c, env) matches Some(b) && b.tool == tool {
        assert(c[0] == tool);
        assert(c.contains(tool));
        assert(dedup(order).contains(tool));
        assert(order.contains(tool));
    }
    if spec_capability_reason(env, output, tool) is None {
        assert(dedup(order).contains(tool));
        assert(c.contains(tool));
    }
}

/// A diagnostic record of one screenshot tool for the current session.
#[derive(Debug, Clone, PartialEq, Eq)]
pub struct CaptureBackendCapability {
    pub name: String,
    pub backend_kind: BackendKind,
    pub command: Option<String>,
    pub available: bool,
    pub supports_output: bool,
    pub supports_file_capture: bool,
    pub supports_stdout_capture: bool,
    pub supports_stdout_region_capture: bool,
    pub selected: bool,
    pub reason: Option<String>,
}

/// `cap` is the diagnostic record of `tool` for file capture to `output`.
pub open spec fn spec_capability(
    cap: CaptureBackendCapability,
    env: CaptureEnvironment,
    output: Seq<char>,
    tool: CaptureTool,
) -> bool {
    &&& cap.name@ == spec_tool_name(tool)
    &&& cap.backend_kind == spec_tool_kind(tool)
    &&& opt_view(cap.command) == (if tool == CaptureTool::XdgDesktopPortal {
        None
    } else {
        Some(spec_tool_command(tool))
    })
    &&& cap.available == spec_tool_available(tool, env)
    &&& cap.supports_output == spec_supports_output(tool, output)
    &&& cap.supports_file_capture
    &&& cap.supports_stdout_capture == spec_tool_stdout(tool)
    &&& cap.supports_stdout_region_capture == spec_tool_stdout(tool)
    &&& cap.selected == (first_detected(spec_candidate_tools(env, output), env) matches Some(b)
        && b.tool == tool)
    &&& opt_view(cap.reason) == spec_capability_reason(env, output, tool)
}

fn all_tools() -> (tools: Vec<CaptureTool>)
    ensures
        tools@ == spec_all_tools(),
{
    let mut tools: Vec<CaptureTool> = Vec::new();
    tools.push(CaptureTool::XdgDesktopPortal);
    tools.push(CaptureTool::GnomeShellScreenshot);
    tools.push(CaptureTool::Grim);
    tools.push(CaptureTool::GnomeScreenshot);
    tools.push(CaptureTool::Spectacle);
    tools.push(CaptureTool::Scrot);
    tools.push(CaptureTool::Maim);
    tools.push(CaptureTool::ImageMagickImport);
    tools.push(CaptureTool::Xwd);
    assert(tools@ =~= spec_all_tools());
    tools
}

fn capability_reason(
    environment: &CaptureEnvironment,
    order: &Vec<CaptureTool>,
    output: &str,
    tool: CaptureTool,
) -> (reason: Option<String>)
    requires
        order@ == spec_candidate_order(*environment),
    ensures
        opt_view(reason) == spec_capability_reason(*environment, output@, tool),
{
    if !tools_contain(order, tool) {
        Some(String::from_str("not considered for current session"))
    } else if !tool.is_available(environment) {
        let mut text = String::from_str("command ");
        text.append(tool.command());
        text.append(" was not found on PATH");
        Some(text)
    } else if !tool.supports_output(output) {
        if tool == CaptureTool::Xwd {
            Some(String::from_str("xwd only supports .xwd output for file capture"))
        } else {
            Some(String::from_str("only xwd writes .xwd output for file capture"))
        }
    } else {
        None
    }
}

/// A diagnostic record for every known tool, in declaration order.
pub fn capture_backend_capabilities(environment: &CaptureEnvironment, output: &str) -> (caps: Vec<
    CaptureBackendCapability,
>)
    ensures
        caps@.len() == spec_all_tools().len(),
        forall|i: int|
            0 <= i < caps@.len() ==> spec_capability(
                #[trigger] caps@[i],
                *environment,
                output@,
                spec_all_tools()[i],
            ),
{
    let tools = all_tools();
    let order = candidate_order(environment);
    let selected = select_backend(environment, output);
    let mut caps: Vec<CaptureBackendCapability> = Vec::new();
    let mut i: usize = 0;
    while i < tools.len()
        invariant
            i <= tools.len(),
            tools@ == spec_all_tools(),
            order@ == spec_candidate_order(*environment),
            selected == first_detected(spec_candidate_tools(*environment, output@), *environment),
            caps@.len() == i,
            forall|j: int|
                0 <= j < i ==> spec_capability(
                    #[trigger] caps@[j],
                    *environment,
                    output@,
                    spec_all_tools()[j],
                ),
        decreases tools.len() - i,
    {
        let tool = tools[i];
        let command = if tool == CaptureTool::XdgDesktopPortal {
            None
        } else {
            Some(tool.command().to_owned())
        };
        let is_selected = match selected {
            Some(b) => b.tool == tool,
            None => false,
        };
        caps.push(
            CaptureBackendCapability {
                name: tool.name().to_owned(),
                backend_kind: tool.backend_kind(),
                command,
                available: tool.is_available(environment),
                supports_output: tool.supports_output(output),
                supports_file_capture: true,
                supports_stdout_capture: tool.supports_stdout_capture(),
                supports_stdout_region_capture: tool.supports_stdout_region_capture(),
                selected: is_selected,
                reason: capability_reason(environment, &order, output, tool),
            },
        );
        i = i + 1;
    }
    caps
}


/// A PipeWire session is running when `PIPEWIRE_REMOTE` is set or the
/// runtime socket exists; installed PipeWire commands alone do not count.
pub fn detect_pipewire_session_from(remote_configured: bool, runtime_socket_exists: bool) -> (r: bool)
    ensures
        r == (remote_configured || runtime_socket_exists),
{
    remote_configured || runtime_socket_exists
}

/// The PipeWire socket in a runtime directory: `PIPEWIRE_RUNTIME_DIR` when
/// set, else `XDG_RUNTIME_DIR`, joined with `pipewire-0` as a path.
pub open spec fn spec_pipewire_socket(
    pipewire_runtime_dir: Option<Seq<char>>,
    xdg_runtime_dir: Option<Seq<char>>,
) -> Option<Seq<char>> {
    let dir = match pipewire_runtime_dir {
        Some(d) => Some(d),
        None => xdg_runtime_dir,
    };
    match dir {
        None => None,
        Some(d) => Some(
            if d.len() == 0 || d.last() == '/' {
                d + "pipewire-0"@
            } else {
                d + "/pipewire-0"@
            },
        ),
    }
}

/// Where the PipeWire socket of the session lives (see
/// [`spec_pipewire_socket`]), given the two runtime directory variables.
pub fn pipewire_runtime_socket(pipewire_runtime_dir: Option<&str>, xdg_runtime_dir: Option<&str>) -> (r:
    Option<String>)
    ensures
        opt_view(r) == spec_pipewire_socket(
            match pipewire_runtime_dir {
                Some(d) => Some(d@),
                None => None,
            },
            match xdg_runtime_dir {
                Some(d) => Some(d@),
                None => None,
            },
        ),
{
    let dir = match pipewire_runtime_dir {
        Some(d) => d,
        None => match xdg_runtime_dir {
            Some(d) => d,
            None => return None,
        },
    };
    let chars = chars_of(dir);
    let mut path = String::from_str(dir);
    if chars.len() == 0 || chars[chars.len() - 1] == '/' {
        path.append("pipewire-0");
    } else {
        path.append("/pipewire-0");
    }
    Some(path)
}

} // verus!
