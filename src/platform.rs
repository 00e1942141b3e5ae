//! The operating system and desktop session the tool runs in, and the
//! temporary files it hands to the external editor.
use vstd::prelude::*;
use crate::text::same_text;

verus! {

#[derive(Clone, Copy, Debug, PartialEq, Eq)]
pub enum CurrentPlatform {
    Windows,
    Linux,
    Mac,
}

#[derive(Clone, Copy, Debug, PartialEq, Eq)]
pub enum PlatformError {
    UnknownPlatform,
    UnsupportedSystem,
    UnknownSession,
}

/// The kind of graphical session; `NonUnix` when none is announced.
#[derive(Clone, Copy, Debug, PartialEq, Eq)]
pub enum SessionType {
    X11,
    Wayland,
    NonUnix,
}

/// The platform named by an operating system name as Rust reports it.
pub open spec fn platform_of(os: Seq<char>) -> Result<CurrentPlatform, PlatformError> {
    if os == "linux"@ {
        Ok(CurrentPlatform::Linux)
    } else if os == "macos"@ {
        Ok(CurrentPlatform::Mac)
    } else if os == "windows"@ {
        Ok(CurrentPlatform::Windows)
    } else {
        Err(PlatformError::UnknownPlatform)
    }
}

/// The session announced by the value of the session-type variable, if set.
pub open spec fn session_of(value: Option<Seq<char>>) -> Result<SessionType, PlatformError> {
    match value {
        None => Ok(SessionType::NonUnix),
        Some(v) => if v == "x11"@ {
            Ok(SessionType::X11)
        } else if v == "wayland"@ {
            Ok(SessionType::Wayland)
        } else {
            Err(PlatformError::UnknownSession)
        },
    }
}

/// The directory for temporary files on `platform`, for a user whose home
/// directory is `home` (only Windows depends on it).
pub open spec fn temp_dir_of(platform: CurrentPlatform, home: Seq<char>) -> Seq<char> {
    match platform {
        CurrentPlatform::Windows => home + "\\AppData\\Local\\Temp\\"@,
        _ => "/tmp/"@,
    }
}

/// Relies on home::home_dir for the current user's home directory, rendered
/// as text. It reads the environment, so nothing is promised of it.
#[verifier::external_body]
fn user_home() -> (r: Option<String>) {
    home::home_dir().map(|p| p.display().to_string())
}

pub struct Platform;

impl Platform {
    /// The platform named by `os`, the operating system name as Rust reports it.
    pub fn detect_platform(os: &str) -> (r: Result<CurrentPlatform, PlatformError>)
        ensures
            r == platform_of(os@),
    {
        if same_text(os, "linux") {
            Ok(CurrentPlatform::Linux)
        } else if same_text(os, "macos") {
            Ok(CurrentPlatform::Mac)
        } else if same_text(os, "windows") {
            Ok(CurrentPlatform::Windows)
        } else {
            Err(PlatformError::UnknownPlatform)
        }
    }

    /// The current user's home directory.
    pub fn get_user_home() -> (r: Result<String, PlatformError>)
        ensures
            r is Err ==> r == Err::<String, PlatformError>(PlatformError::UnsupportedSystem),
    {
        match user_home() {
            Some(path) => Ok(path),
            None => Err(PlatformError::UnsupportedSystem),
        }
    }

    /// The directory for temporary files on `platform` for a user whose
    /// home directory is `home`.
    pub fn temp_dir_for(platform: CurrentPlatform, home: &str) -> (r: String)
        ensures
            r@ == temp_dir_of(platform, home@),
    {
        match platform {
            CurrentPlatform::Windows => {
                let mut dir = String::from_str(home);
                dir.append("\\AppData\\Local\\Temp\\");
                dir
            },
            _ => String::from_str("/tmp/"),
        }
    }

    /// The directory for temporary files on `platform`; on Windows it lies
    /// under the user's home directory, which must be known.
    pub fn get_temp_dir(platform: CurrentPlatform) -> (r: Result<String, PlatformError>)
        ensures
            platform != CurrentPlatform::Windows ==> (r matches Ok(d) && d@ == temp_dir_of(
                platform,
                Seq::empty(),
            )),
            match r {
                Ok(d) => exists|home: Seq<char>| d@ == temp_dir_of(platform, home),
                Err(e) => e == PlatformError::UnsupportedSystem && platform
                    == CurrentPlatform::Windows,
            },
    {
        match platform {
            CurrentPlatform::Windows => match Platform::get_user_home() {
                Ok(home) => {
                    let d = Platform::temp_dir_for(platform, home.as_str());
                    assert(d@ == temp_dir_of(platform, home@));
                    Ok(d)
                },
                Err(e) => Err(e),
            },
            _ => {
                let d = Platform::temp_dir_for(platform, "");
                assert(d@ == temp_dir_of(platform, ""@));
                Ok(d)
            },
        }
    }

    /// The session announced by `value`, the session-type variable's value
    /// when it is set.
    pub fn get_session_type(value: Option<&str>) -> (r: Result<SessionType, PlatformError>)
        ensures
            r == session_of(
                match value {
                    Some(v) => Some(v@),
                    None => None,
                },
            ),
    {
        match value {
            None => Ok(SessionType::NonUnix),
            Some(v) => if same_text(v, "x11") {
                Ok(SessionType::X11)
            } else if same_text(v, "wayland") {
                Ok(SessionType::Wayland)
            } else {
                Err(PlatformError::UnknownSession)
            },
        }
    }
}

/// The temporary file a note is edited in.
pub struct TempFile {
    path: String,
}

impl View for TempFile {
    type V = Seq<char>;

    closed spec fn view(&self) -> Seq<char> {
        self.path@
    }
}

impl TempFile {
    /// The temporary file called `file_name` in `platform`'s directory for
    /// temporary files.
    pub fn new(platform: CurrentPlatform, file_name: &str) -> (r: Result<TempFile, PlatformError>)
        ensures
            platform != CurrentPlatform::Windows ==> (r matches Ok(t) && t@ == temp_dir_of(
                platform,
                Seq::empty(),
            ) + file_name@),
            match r {
                Ok(t) => exists|home: Seq<char>| t@ == temp_dir_of(platform, home) + file_name@,
                Err(e) => e == PlatformError::UnsupportedSystem && platform
                    == CurrentPlatform::Windows,
            },
    {
        match Platform::get_temp_dir(platform) {
            Ok(dir) => {
                let ghost d = dir@;
                let mut path = dir;
                path.append(file_name);
                let t = TempFile { path };
                assert(t@ == d + file_name@);
                Ok(t)
            },
            Err(e) => Err(e),
        }
    }

    pub fn get_path(&self) -> (r: String)
        ensures
            r@ == self@,
    {
        self.path.clone()
    }
}

} // verus!
