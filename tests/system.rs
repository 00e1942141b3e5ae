use kamiya::clipboard::{Clipboard, ClipboardBackend, ClipboardError};
use kamiya::config::Config;
use kamiya::manager::Manager;
use kamiya::platform::{CurrentPlatform, Platform, PlatformError, SessionType, TempFile};
use kamiya::term::{answer_of, read_answer, AskDefaultAnswers};

#[test]
fn default_config_values() {
    let config = Config::default();
    assert_eq!(config.get_template(), "Note&i");
    assert_eq!(config.get_editor(), "nano");
    let mut c = Config::new("T&i", "vim");
    c.set_template("U&i");
    c.set_editor("emacs");
    assert_eq!(c.get_template(), "U&i");
    assert_eq!(c.get_editor(), "emacs");
}

#[test]
fn platform_names() {
    assert_eq!(Platform::detect_platform("linux"), Ok(CurrentPlatform::Linux));
    assert_eq!(Platform::detect_platform("macos"), Ok(CurrentPlatform::Mac));
    assert_eq!(Platform::detect_platform("windows"), Ok(CurrentPlatform::Windows));
    assert_eq!(Platform::detect_platform("freebsd"), Err(PlatformError::UnknownPlatform));
}

#[test]
fn session_types() {
    assert_eq!(Platform::get_session_type(None), Ok(SessionType::NonUnix));
    assert_eq!(Platform::get_session_type(Some("x11")), Ok(SessionType::X11));
    assert_eq!(Platform::get_session_type(Some("wayland")), Ok(SessionType::Wayland));
    assert_eq!(Platform::get_session_type(Some("tty")), Err(PlatformError::UnknownSession));
}

#[test]
fn temp_locations() {
    assert_eq!(Platform::get_temp_dir(CurrentPlatform::Linux), Ok("/tmp/".to_string()));
    assert_eq!(Platform::get_temp_dir(CurrentPlatform::Mac), Ok("/tmp/".to_string()));
    assert_eq!(
        Platform::temp_dir_for(CurrentPlatform::Windows, "C:\\Users\\ann"),
        "C:\\Users\\ann\\AppData\\Local\\Temp\\"
    );
    assert_eq!(Platform::temp_dir_for(CurrentPlatform::Linux, "/home/ann"), "/tmp/");
    let t = TempFile::new(CurrentPlatform::Linux, "Note1").ok().unwrap();
    assert_eq!(t.get_path(), "/tmp/Note1");
}

#[test]
fn file_locations() {
    let m = Manager::from_home("/home/ann");
    assert_eq!(m.get_config_dir(), "/home/ann/.config/kamiya");
    assert_eq!(m.get_config_path(), "/home/ann/.config/kamiya/config.toml");
    assert_eq!(m.get_database_path(), "/home/ann/.config/kamiya/database.json");
    assert_eq!(m.get_old_config_path(), "/home/ann/.config/kamiya.yaml");
}

#[test]
fn clipboard_selection() {
    assert_eq!(
        Clipboard::select(SessionType::X11, Ok(CurrentPlatform::Linux)),
        Ok(ClipboardBackend::Xclip)
    );
    assert_eq!(
        Clipboard::select(SessionType::Wayland, Ok(CurrentPlatform::Linux)),
        Ok(ClipboardBackend::WlClipboard)
    );
    assert_eq!(
        Clipboard::select(SessionType::NonUnix, Ok(CurrentPlatform::Mac)),
        Ok(ClipboardBackend::Pasteboard)
    );
    assert_eq!(
        Clipboard::select(SessionType::NonUnix, Ok(CurrentPlatform::Windows)),
        Ok(ClipboardBackend::WindowsClipboard)
    );
    assert_eq!(
        Clipboard::select(SessionType::NonUnix, Ok(CurrentPlatform::Linux)),
        Err(ClipboardError::NoBackend)
    );
    assert_eq!(
        Clipboard::select(SessionType::NonUnix, Err(PlatformError::UnknownPlatform)),
        Err(ClipboardError::NoBackend)
    );
}

#[test]
fn clipboard_commands() {
    let copy = Clipboard::set_clipboard(ClipboardBackend::Xclip);
    assert_eq!(copy.program, "xclip");
    assert_eq!(copy.args, vec!["-i", "-selection", "c"]);
    let paste = Clipboard::get_clipboard(ClipboardBackend::Xclip);
    assert_eq!(paste.args, vec!["-o", "-selection", "c", "-rmlastnl"]);
    let win = Clipboard::get_clipboard(ClipboardBackend::WindowsClipboard);
    assert_eq!(win.program, "powershell.exe");
    assert_eq!(win.args, vec!["get-clipboard"]);
    let wl = Clipboard::set_clipboard(ClipboardBackend::WlClipboard);
    assert_eq!(wl.program, "wl-copy");
    assert!(wl.args.is_empty());
}

#[test]
fn typed_answers() {
    assert_eq!(read_answer("  Y \n", AskDefaultAnswers::No), AskDefaultAnswers::Yes);
    assert_eq!(read_answer("N\n", AskDefaultAnswers::Yes), AskDefaultAnswers::No);
    assert_eq!(read_answer("\n", AskDefaultAnswers::Yes), AskDefaultAnswers::Yes);
    assert_eq!(read_answer("maybe", AskDefaultAnswers::No), AskDefaultAnswers::No);
    assert_eq!(read_answer("yes", AskDefaultAnswers::No), AskDefaultAnswers::No);
    assert_eq!(answer_of("y", AskDefaultAnswers::No), AskDefaultAnswers::Yes);
    assert_eq!(answer_of("Y", AskDefaultAnswers::No), AskDefaultAnswers::No);
}
