//! Which system tool reaches the clipboard, and how it is invoked. The text to
//! copy goes to the tool's standard input; pasted text is its output.
use vstd::prelude::*;
use crate::platform::{CurrentPlatform, PlatformError, SessionType};

verus! {

/// A clipboard tool of the system.
#[derive(Clone, Copy, Debug, PartialEq, Eq)]
pub enum ClipboardBackend {
    WlClipboard,
    Xclip,
    Pasteboard,
    WindowsClipboard,
}

/// No clipboard tool is known for the session and platform.
#[derive(Clone, Copy, Debug, PartialEq, Eq)]
pub enum ClipboardError {
    NoBackend,
}

/// A program and its arguments.
pub struct ShellCommand {
    pub program: String,
    pub args: Vec<String>,
}

/// The command's program and arguments as text.
pub open spec fn command_view(c: ShellCommand) -> (Seq<char>, Seq<Seq<char>>) {
    (c.program@, c.args@.map_values(|a: String| a@))
}

/// The tool for a session; without a graphical session, the platform's own.
pub open spec fn backend_of(session: SessionType, platform: Result<CurrentPlatform, PlatformError>) -> Result<
    ClipboardBackend,
    ClipboardError,
> {
    match session {
        SessionType::X11 => Ok(ClipboardBackend::Xclip),
        SessionType::Wayland => Ok(ClipboardBackend::WlClipboard),
        SessionType::NonUnix => match platform {
            Ok(CurrentPlatform::Windows) => Ok(ClipboardBackend::WindowsClipboard),
            Ok(CurrentPlatform::Mac) => Ok(ClipboardBackend::Pasteboard),
            _ => Err(ClipboardError::NoBackend),
        },
    }
}

/// How each tool copies its standard input to the clipboard.
pub open spec fn copy_command_of(b: ClipboardBackend) -> (Seq<char>, Seq<Seq<char>>) {
    match b {
        ClipboardBackend::WlClipboard => ("wl-copy"@, seq![]),
        ClipboardBackend::Xclip => ("xclip"@, seq!["-i"@, "-selection"@, "c"@]),
        ClipboardBackend::Pasteboard => ("pbcopy"@, seq![]),
        ClipboardBackend::WindowsClipboard => ("clip"@, seq![]),
    }
}

/// How each tool writes the clipboard to its standard output.
pub open spec fn paste_command_of(b: ClipboardBackend) -> (Seq<char>, Seq<Seq<char>>) {
    match b {
        ClipboardBackend::WlClipboard => ("wl-paste"@, seq![]),
        ClipboardBackend::Xclip => ("xclip"@, seq!["-o"@, "-selection"@, "c"@, "-rmlastnl"@]),
        ClipboardBackend::Pasteboard => ("pbpaste"@, seq![]),
        ClipboardBackend::WindowsClipboard => ("powershell.exe"@, seq!["get-clipboard"@]),
    }
}

fn command(program: &str, args: &[&str]) -> (r: ShellCommand)
    ensures
        command_view(r) == (program@, args@.map_values(|a: &str| a@)),
{
    let mut out: Vec<String> = Vec::new();
    let mut i: usize = 0;
    while i < args.len()
        invariant
            i <= args@.len(),
            out@.len() == i,
            forall|k: int| 0 <= k < i ==> out@[k]@ == args@[k]@,
        decreases args@.len() - i,
    {
        out.push(String::from_str(args[i]));
        i = i + 1;
    }
    assert(out@.map_values(|a: String| a@) =~= args@.map_values(|a: &str| a@));
    ShellCommand { program: String::from_str(program), args: out }
}

pub struct Clipboard;

impl Clipboard {
    /// The clipboard tool for `session`, falling back on `platform`'s own
    /// when no graphical session is announced.
    pub fn select(session: SessionType, platform: Result<CurrentPlatform, PlatformError>) -> (r:
        Result<ClipboardBackend, ClipboardError>)
        ensures
            r == backend_of(session, platform),
    {
        match session {
            SessionType::X11 => Ok(ClipboardBackend::Xclip),
            SessionType::Wayland => Ok(ClipboardBackend::WlClipboard),
            SessionType::NonUnix => match platform {
                Ok(CurrentPlatform::Windows) => Ok(ClipboardBackend::WindowsClipboard),
                Ok(CurrentPlatform::Mac) => Ok(ClipboardBackend::Pasteboard),
                _ => Err(ClipboardError::NoBackend),
            },
        }
    }

    /// The command that puts its standard input on the clipboard.
    pub fn set_clipboard(backend: ClipboardBackend) -> (r: ShellCommand)
        ensures
            command_view(r) == copy_command_of(backend),
    {
        let r = match backend {
            ClipboardBackend::WlClipboard => command("wl-copy", &[]),
            ClipboardBackend::Xclip => command("xclip", &["-i", "-selection", "c"]),
            ClipboardBackend::Pasteboard => command("pbcopy", &[]),
            ClipboardBackend::WindowsClipboard => command("clip", &[]),
        };
        assert(command_view(r).1 =~= copy_command_of(backend).1);
        r
    }

    /// The command that writes the clipboard to its standard output.
    pub fn get_clipboard(backend: ClipboardBackend) -> (r: ShellCommand)
        ensures
            command_view(r) == paste_command_of(backend),
    {
        let r = match backend {
            ClipboardBackend::WlClipboard => command("wl-paste", &[]),
            ClipboardBackend::Xclip => command("xclip", &["-o", "-selection", "c", "-rmlastnl"]),
            ClipboardBackend::Pasteboard => command("pbpaste", &[]),
            ClipboardBackend::WindowsClipboard => command("powershell.exe", &["get-clipboard"]),
        };
        assert(command_view(r).1 =~= paste_command_of(backend).1);
        r
    }
}

} // verus!
