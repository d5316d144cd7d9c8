//! Control plane of a per-monitor live wallpaper: the messages that travel
//! between the request listener, the resource manager and the display
//! registry, and the decisions each of them takes. Beside it, the rules of
//! the two tools that come with it: the one that installs wallpapers from
//! repositories and the one that makes them from templates.
//!
//! Nothing here reads the environment, a file or a socket. Callers hand in
//! what they have read and carry out what they get back.

use vstd::prelude::*;
use vstd::string::*;
use crate::text::{join, joined};

pub mod display;
pub mod event;
pub mod ipc;
pub mod myppm;
pub mod myptmp;
pub mod router;
pub mod text;
pub mod webserver;
pub mod webview;

verus! {

/// The path of the socket that callers write to: `maypaper.sock` in the
/// runtime folder of the session. Without a runtime folder there is none.
pub fn get_default_socket_path(runtime_dir: Option<&str>) -> (path: Option<String>)
    ensures
        match runtime_dir {
            Some(dir) => path.deep_view() == Some(joined(dir@, "maypaper.sock"@)),
            None => path is None,
        },
{
    match runtime_dir {
        Some(dir) => Some(join(dir, "maypaper.sock")),
        None => None,
    }
}

/// Where the wallpapers and their list are kept.
#[derive(Debug, Clone, PartialEq, Eq)]
pub struct Paths {
    /// The folder of all that follows.
    pub base: String,
    /// The list of the wallpapers to install.
    pub config: String,
    /// The folder with one folder for each installed wallpaper.
    pub wallpapers: String,
}

/// The view of [`Paths`]: every text in it as the sequence of its characters.
pub struct PathsView {
    pub base: Seq<char>,
    pub config: Seq<char>,
    pub wallpapers: Seq<char>,
}

impl View for Paths {
    type V = PathsView;

    open spec fn view(&self) -> PathsView {
        PathsView { base: self.base@, config: self.config@, wallpapers: self.wallpapers@ }
    }
}

/// Why the paths are not known.
#[derive(Debug, Clone, Copy, PartialEq, Eq)]
pub enum PathsError {
    /// No folder was given, and the configuration home is not known.
    NoConfigHome,
}

/// The paths below `base`.
pub open spec fn paths_below(base: Seq<char>) -> PathsView {
    PathsView {
        base,
        config: joined(base, "wallpapers.toml"@),
        wallpapers: joined(base, "wallpapers"@),
    }
}

/// The folder that is used: the one given, else `maypaper` in the
/// configuration home.
pub open spec fn base_dir(
    config_dir_override: Option<Seq<char>>,
    config_home: Option<Seq<char>>,
) -> Option<Seq<char>> {
    match (config_dir_override, config_home) {
        (Some(dir), _) => Some(dir),
        (None, Some(home)) => Some(joined(home, "maypaper"@)),
        (None, None) => None,
    }
}

impl Paths {
    /// The paths for a given folder, or for the configuration home where
    /// none is given.
    pub fn get_dirs(config_dir_override: Option<String>, config_home: Option<&str>) -> (paths:
        Result<Paths, PathsError>)
        ensures
            match base_dir(
                config_dir_override.deep_view(),
                match config_home {
                    Some(home) => Some(home@),
                    None => None,
                },
            ) {
                Some(base) => paths matches Ok(p) && p@ == paths_below(base),
                None => paths == Err::<Paths, PathsError>(PathsError::NoConfigHome),
            },
    {
        let base = match config_dir_override {
            Some(dir) => dir,
            None => match config_home {
                Some(home) => join(home, "maypaper"),
                None => {
                    return Err(PathsError::NoConfigHome);
                },
            },
        };
        Ok(
            Paths {
                config: join(base.as_str(), "wallpapers.toml"),
                wallpapers: join(base.as_str(), "wallpapers"),
                base,
            },
        )
    }
}

} // verus!
