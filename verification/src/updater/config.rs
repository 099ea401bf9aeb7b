//! The settings of one update.
use vstd::prelude::*;
use crate::text::{bool_text, join, joined};
use crate::pattern::CaptureError;
use crate::updater::current_game::{game_outcome, CurrentGame};
use crate::updater::lastest_build::LatestBuild;
use crate::updater::platform::{platform_for_os, Platform};

verus! {

/// The settings of one update.
#[derive(Debug)]
pub struct Config {
    pub platform: Platform,
    pub proxy: String,
    pub tiles: bool,
    pub sounds: bool,
    pub keep_dirs: Vec<String>,
    pub keep_files: Vec<String>,
    pub current_game: CurrentGame,
    pub latestbuild: LatestBuild,
}

/// The name of the release archive for a platform and a choice of graphics
/// and sounds, or the reason why there is none.
pub open spec fn cdda_file_name(platform: Platform, tiles: bool, sounds: bool, build: Seq<char>) -> Result<
    Seq<char>,
    Seq<char>,
> {
    match platform {
        Platform::Android => Ok("cdda-android-bundle-"@ + build + ".aab"@),
        Platform::Linux => if tiles && sounds {
            Ok("cdda-linux-with-graphics-and-sounds-x64-"@ + build + ".tar.gz"@)
        } else if tiles {
            Ok("cdda-linux-with-graphics-x64-"@ + build + ".tar.gz"@)
        } else {
            Err("没有找到合适的Linux版本，请检查配置是否正确"@)
        },
        Platform::OSx => Err("MacOS 暂不支持"@),
        Platform::Windows => if tiles && sounds {
            Ok("cdda-windows-with-graphics-and-sounds-x64-"@ + build + ".zip"@)
        } else if tiles {
            Ok("cdda-windows-with-graphics-x64-"@ + build + ".zip"@)
        } else {
            Err("没有找到合适的windows版本，请检查配置是否正确"@)
        },
        Platform::Unknown => Err("选项错误：没有对应的版本"@),
    }
}

/// A file name or its refusal, by views.
pub open spec fn name_view(r: Result<String, &'static str>) -> Result<Seq<char>, Seq<char>> {
    match r {
        Ok(s) => Ok(s@),
        Err(e) => Err(e@),
    }
}

/// `true` or `false` as text.
pub open spec fn bool_chars(b: bool) -> Seq<char> {
    if b {
        "true"@
    } else {
        "false"@
    }
}

/// The summary of a configuration that is shown before an update.
pub open spec fn display_text(cfg: Config) -> Seq<char> {
    "最新版本："@ + cfg.latestbuild.build_number@ + "\n当前版本："@ + cfg.current_game.build_number@
        + "\n贴图："@ + bool_chars(cfg.tiles) + "\n音乐："@ + bool_chars(cfg.sounds)
        + "\n游戏目录："@ + cfg.current_game.path@ + "\n更新时保留文件夹："@ + joined(
        cfg.keep_dirs.deep_view(),
        ", "@,
    ) + "\n更新时保留文件："@ + joined(cfg.keep_files.deep_view(), ", "@) + "\ngithub加速器："@
        + cfg.proxy@
}

/// What `Config::new` makes of a game directory, a target system and the
/// text of the game's `VERSION.txt`.
pub open spec fn new_config_ok(
    cfg: Config,
    cdda_path: Seq<char>,
    target_os: Seq<char>,
    game: (Seq<char>, Seq<char>),
) -> bool {
    &&& cfg.platform == platform_for_os(target_os)
    &&& cfg.proxy@ == Seq::<char>::empty()
    &&& cfg.tiles
    &&& !cfg.sounds
    &&& cfg.keep_dirs.deep_view() == seq![Seq::<char>::empty()]
    &&& cfg.keep_files.deep_view() == seq![Seq::<char>::empty()]
    &&& cfg.current_game.path@ == game.0
    &&& cfg.current_game.build_number@ == game.1
    &&& cfg.latestbuild.build_number@ == Seq::<char>::empty()
}

fn one_empty_entry() -> (r: Vec<String>)
    ensures
        r.deep_view() == seq![Seq::<char>::empty()],
{
    let mut v: Vec<String> = Vec::new();
    v.push(String::new());
    assert(v.deep_view() =~= seq![Seq::<char>::empty()]);
    v
}

impl Config {
    /// The default settings for the game in `cdda_path` on the system
    /// `target_os`: with graphics, without sounds, no proxy, no build chosen
    /// yet; `version_file` is the text of the game's `VERSION.txt`, where
    /// there is one. Fails where that text names no build.
    pub fn new(cdda_path: &str, target_os: &str, version_file: Option<&str>) -> (r: Result<
        Config,
        CaptureError,
    >)
        ensures
            match game_outcome(
                cdda_path@,
                match version_file {
                    Some(t) => Some(t@),
                    None => None,
                },
            ) {
                Ok(game) => r matches Ok(cfg) && new_config_ok(cfg, cdda_path@, target_os@, game),
                Err(e) => r == Err::<Config, CaptureError>(e),
            },
    {
        let current_game = match CurrentGame::new(cdda_path, version_file) {
            Ok(g) => g,
            Err(e) => return Err(e),
        };
        Ok(
            Config {
                platform: Platform::default(target_os),
                proxy: String::new(),
                tiles: true,
                sounds: false,
                keep_dirs: one_empty_entry(),
                keep_files: one_empty_entry(),
                current_game,
                latestbuild: LatestBuild::new(),
            },
        )
    }

    /// The name of the release archive to download for these settings.
    pub fn generate_cdda_file_name(&self) -> (r: Result<String, &'static str>)
        ensures
            name_view(r) == cdda_file_name(
                self.platform,
                self.tiles,
                self.sounds,
                self.latestbuild.build_number@,
            ),
    {
        let build = self.latestbuild.build_number.as_str();
        match self.platform {
            Platform::Android => {
                let mut s = String::from_str("cdda-android-bundle-");
                s.append(build);
                s.append(".aab");
                Ok(s)
            },
            Platform::Linux => {
                if self.tiles && self.sounds {
                    let mut s = String::from_str("cdda-linux-with-graphics-and-sounds-x64-");
                    s.append(build);
                    s.append(".tar.gz");
                    Ok(s)
                } else if self.tiles && !self.sounds {
                    let mut s = String::from_str("cdda-linux-with-graphics-x64-");
                    s.append(build);
                    s.append(".tar.gz");
                    Ok(s)
                } else {
                    Err("没有找到合适的Linux版本，请检查配置是否正确")
                }
            },
            Platform::OSx => Err("MacOS 暂不支持"),
            Platform::Windows => {
                if self.tiles && self.sounds {
                    let mut s = String::from_str("cdda-windows-with-graphics-and-sounds-x64-");
                    s.append(build);
                    s.append(".zip");
                    Ok(s)
                } else if self.tiles && !self.sounds {
                    let mut s = String::from_str("cdda-windows-with-graphics-x64-");
                    s.append(build);
                    s.append(".zip");
                    Ok(s)
                } else {
                    Err("没有找到合适的windows版本，请检查配置是否正确")
                }
            },
            Platform::Unknown => Err("选项错误：没有对应的版本"),
        }
    }

    /// The summary of these settings that is shown before an update.
    pub fn to_display_string(&self) -> (r: String)
        ensures
            r@ == display_text(*self),
    {
        let mut s = String::from_str("最新版本：");
        s.append(self.latestbuild.build_number.as_str());
        s.append("\n当前版本：");
        s.append(self.current_game.build_number.as_str());
        s.append("\n贴图：");
        s.append(bool_text(self.tiles));
        s.append("\n音乐：");
        s.append(bool_text(self.sounds));
        s.append("\n游戏目录：");
        s.append(self.current_game.path.as_str());
        s.append("\n更新时保留文件夹：");
        let dirs = join(&self.keep_dirs, ", ");
        s.append(dirs.as_str());
        s.append("\n更新时保留文件：");
        let files = join(&self.keep_files, ", ");
        s.append(files.as_str());
        s.append("\ngithub加速器：");
        s.append(self.proxy.as_str());
        s
    }
}

/// Freshly made settings (with graphics, without sounds) name a release
/// archive exactly when the system is Windows or Linux.
pub proof fn lemma_default_settings_name_archive(
    cfg: Config,
    cdda_path: Seq<char>,
    target_os: Seq<char>,
    game: (Seq<char>, Seq<char>),
)
    requires
        new_config_ok(cfg, cdda_path, target_os, game),
    ensures
        cdda_file_name(cfg.platform, cfg.tiles, cfg.sounds, cfg.latestbuild.build_number@) is Ok
            <==> (target_os == "windows"@ || target_os == "linux"@),
{
}

} // verus!
