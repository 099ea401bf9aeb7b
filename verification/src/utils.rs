//! Settings with the older naming of release archives (`-tiles`,
//! `-curses`, `-msvc`) and the backup choices.
use vstd::prelude::*;
use crate::pattern::CaptureError;
use crate::text::str_eq;
use crate::updater::current_game::{build_in_version_file, recorded_build};
use crate::updater::lastest_build::{announced_build, build_on_page};

verus! {

/// The systems for which the game is released.
#[derive(Debug, Clone, Copy, PartialEq, Eq, Structural)]
pub enum Platform {
    Windows,
    Linux,
    OSx,
    Android,
    Unknown,
}

/// The platform that a target system name (as in `std::env::consts::OS`)
/// stands for.
pub open spec fn platform_of(os: Seq<char>) -> Platform {
    if os == "windows"@ {
        Platform::Windows
    } else if os == "linux"@ {
        Platform::Linux
    } else if os == "macos"@ {
        Platform::OSx
    } else {
        Platform::Unknown
    }
}

impl Platform {
    /// The platform of the system the program was built for, named by
    /// `target_os`.
    pub fn default(target_os: &str) -> (p: Platform)
        ensures
            p == platform_of(target_os@),
    {
        if str_eq(target_os, "windows") {
            Platform::Windows
        } else if str_eq(target_os, "linux") {
            Platform::Linux
        } else if str_eq(target_os, "macos") {
            Platform::OSx
        } else {
            Platform::Unknown
        }
    }
}

/// The installed game.
pub struct CurrentGame {
    pub path: String,
    pub build_number: String,
}

impl CurrentGame {
    /// The game installed in `gamedir`; `version_file` is the text of its
    /// `VERSION.txt`, where there is one (without it the build number is
    /// empty).
    pub fn new(gamedir: &String, version_file: Option<&str>) -> (r: Result<CurrentGame, CaptureError>)
        ensures
            match version_file {
                None => r matches Ok(g) && g.path@ == gamedir@ && g.build_number@ == Seq::<
                    char,
                >::empty(),
                Some(t) => match recorded_build(t@) {
                    Ok(b) => r matches Ok(g) && g.path@ == gamedir@ && g.build_number@ == b,
                    Err(e) => r == Err::<CurrentGame, CaptureError>(e),
                },
            },
    {
        let build_number = match version_file {
            Some(text) => match build_in_version_file(text) {
                Ok(b) => b,
                Err(e) => return Err(e),
            },
            None => String::new(),
        };
        Ok(CurrentGame { path: gamedir.clone(), build_number })
    }
}

/// The newest build.
pub struct LatestBuild {
    pub build_number: String,
}

impl LatestBuild {
    /// A build not known yet: its number is empty.
    pub fn new() -> (r: LatestBuild)
        ensures
            r.build_number@ == Seq::<char>::empty(),
    {
        LatestBuild { build_number: String::new() }
    }

    /// Reads the newest build number off the text of the release page; on
    /// failure nothing changes.
    pub fn pull(&mut self, page: &str) -> (r: Result<(), CaptureError>)
        ensures
            match announced_build(page@) {
                Ok(b) => r is Ok && final(self).build_number@ == b,
                Err(e) => r == Err::<(), CaptureError>(e) && final(self).build_number
                    == old(self).build_number,
            },
    {
        match build_on_page(page) {
            Ok(b) => {
                self.build_number = b;
                Ok(())
            },
            Err(e) => Err(e),
        }
    }
}

/// The settings of one update.
pub struct Config {
    pub platform: Platform,
    pub tiles: bool,
    pub sounds: bool,
    pub backup_configdir: bool,
    pub backup_savedir: bool,
    pub backup_templates: bool,
    pub current_game: CurrentGame,
    pub latestbuild: LatestBuild,
}

/// The name of the release archive for a platform and a choice of graphics
/// and sounds; empty for an unknown platform.
pub open spec fn download_file_name(platform: Platform, tiles: bool, sounds: bool, build: Seq<char>) -> Seq<
    char,
> {
    match platform {
        Platform::Android => "cdda-android-bundle-"@ + build + ".aab"@,
        Platform::Linux => if tiles {
            if sounds {
                "cdda-linux"@ + "-tiles"@ + "-sounds-x64-"@ + build + ".tar.gz"@
            } else {
                "cdda-linux"@ + "-tiles"@ + "-x64-"@ + build + ".tar.gz"@
            }
        } else {
            "cdda-linux"@ + "-curses-x64-"@ + build + ".tar.gz"@
        },
        Platform::OSx => "cdda-osx"@ + (if tiles {
            "-tiles"@
        } else {
            "-curses"@
        }) + "-universal-"@ + build + ".dmg"@,
        Platform::Windows => if sounds {
            "cdda-windows-tiles"@ + "-sounds-x64-msvc-"@ + build + ".zip"@
        } else {
            "cdda-windows-tiles"@ + "-x64-msvc-"@ + build + ".zip"@
        },
        Platform::Unknown => Seq::empty(),
    }
}

impl Config {
    /// The default settings on the system `target_os`: with graphics, without
    /// sounds, keeping configuration, saves and templates; no game and no
    /// build chosen yet.
    pub fn new(target_os: &str) -> (r: Config)
        ensures
            r.platform == platform_of(target_os@),
            r.tiles,
            !r.sounds,
            r.backup_configdir,
            r.backup_savedir,
            r.backup_templates,
            r.current_game.path@ == Seq::<char>::empty(),
            r.current_game.build_number@ == Seq::<char>::empty(),
            r.latestbuild.build_number@ == Seq::<char>::empty(),
    {
        Config {
            platform: Platform::default(target_os),
            tiles: true,
            sounds: false,
            backup_configdir: true,
            backup_savedir: true,
            backup_templates: true,
            current_game: CurrentGame { path: String::new(), build_number: String::new() },
            latestbuild: LatestBuild::new(),
        }
    }

    /// The name of the release archive to download for these settings.
    pub fn get_download_file(&self) -> (r: String)
        ensures
            r@ == download_file_name(
                self.platform,
                self.tiles,
                self.sounds,
                self.latestbuild.build_number@,
            ),
    {
        let build = self.latestbuild.build_number.as_str();
        let mut retval;
        match self.platform {
            Platform::Android => {
                retval = String::from_str("cdda-android-bundle-");
                retval.append(build);
                retval.append(".aab");
            },
            Platform::Linux => {
                retval = String::from_str("cdda-linux");
                if self.tiles {
                    retval.append("-tiles");
                    if self.sounds {
                        retval.append("-sounds-x64-");
                    } else {
                        retval.append("-x64-");
                    }
                } else {
                    retval.append("-curses-x64-");
                }
                retval.append(build);
                retval.append(".tar.gz");
            },
            Platform::OSx => {
                retval = String::from_str("cdda-osx");
                if self.tiles {
                    retval.append("-tiles");
                } else {
                    retval.append("-curses");
                }
                retval.append("-universal-");
                retval.append(build);
                retval.append(".dmg");
            },
            Platform::Windows => {
                retval = String::from_str("cdda-windows-tiles");
                if self.sounds {
                    retval.append("-sounds-x64-msvc-");
                } else {
                    retval.append("-x64-msvc-");
                }
                retval.append(build);
                retval.append(".zip");
            },
            Platform::Unknown => {
                retval = String::new();
            },
        }
        retval
    }
}

} // verus!
