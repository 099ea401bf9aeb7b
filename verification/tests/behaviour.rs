use update_cdda::pattern::{capture_named, CaptureError};
use update_cdda::settings::{
    build_choice, confirms_update, file_settings, list_setting, resolve_game_path, resolve_proxy,
    BuildChoice, SettingError,
};
use update_cdda::text::{bool_text, ends_with_char, extension, join, split, str_eq};
use update_cdda::updater::config::Config;
use update_cdda::updater::current_game::{build_in_version_file, CurrentGame};
use update_cdda::updater::lastest_build::{build_on_page, LatestBuild};
use update_cdda::updater::platform::Platform;
use update_cdda::updater::utils::{
    archive_format, compare_version, download_outcome, needs_latest_build, proxied_url,
    zip_entry_kind, ArchiveFormat, DownloadError, ZipEntryKind, DOWNLOAD_ERROR_CODE,
};
use update_cdda::paths::{components, join_path, paths_equal};
use update_cdda::updater::{
    download_url, install_step, is_kept, keep_names, InstallStep, TEMP_DIR_NAME,
};

fn strings(v: &[&str]) -> Vec<String> {
    v.iter().map(|s| s.to_string()).collect()
}

#[test]
fn platform_by_target_system() {
    assert_eq!(Platform::default("windows"), Platform::Windows);
    assert_eq!(Platform::default("linux"), Platform::Linux);
    assert_eq!(Platform::default("macos"), Platform::OSx);
    assert_eq!(Platform::default("freebsd"), Platform::Unknown);
    assert_eq!(update_cdda::utils::Platform::default("linux"), update_cdda::utils::Platform::Linux);
}

#[test]
fn version_file_build_number() {
    let text = "cataclysm-dda\nbuild number: 2023-05-16-2259\ncommit sha: 4f0c1a\ncommit url: x\n";
    assert_eq!(build_in_version_file(text), Ok("2023-05-16-2259".to_string()));
    assert_eq!(build_in_version_file("build number: x"), Err(CaptureError::NoMatch));
    let g = CurrentGame::new("/g", Some(text)).unwrap();
    assert_eq!(g.path, "/g");
    assert_eq!(g.build_number, "2023-05-16-2259");
    let g = CurrentGame::new("/g", None).unwrap();
    assert_eq!(g.build_number, "");
    assert!(matches!(CurrentGame::new("/g", Some("")), Err(CaptureError::NoMatch)));
    let g = CurrentGame::from_capture("/h", Ok("b".to_string())).unwrap();
    assert_eq!((g.path.as_str(), g.build_number.as_str()), ("/h", "b"));
    assert!(matches!(CurrentGame::from_capture("/h", Err(CaptureError::PatternRejected)), Err(CaptureError::PatternRejected)));
}

#[test]
fn release_page_build_number() {
    let page = "<html><h2 id=\"cdda\">Experimental 2023-05-16-2259</h2><h3>x</h3></html>";
    assert_eq!(build_on_page(page), Ok("2023-05-16-2259".to_string()));
    let mut b = LatestBuild::new();
    assert_eq!(b.build_number, "");
    assert_eq!(b.pull(page), Ok(()));
    assert_eq!(b.build_number, "2023-05-16-2259");
    assert_eq!(b.pull("<h2 id=x>no build</h2>"), Err(CaptureError::NoMatch));
    assert_eq!(b.build_number, "2023-05-16-2259");
    assert_eq!(b.set_from_capture(Ok("2024-01-01-0000".to_string())), Ok(()));
    assert_eq!(b.build_number, "2024-01-01-0000");
}

#[test]
fn capture_errors() {
    assert_eq!(capture_named("(", "abc", "x"), Err(CaptureError::PatternRejected));
    assert_eq!(capture_named("a(?P<x>b)c", "zabcz", "x"), Ok("b".to_string()));
    assert_eq!(capture_named("a(?P<x>b)?c", "ac", "x"), Err(CaptureError::NoMatch));
}

#[test]
fn text_helpers() {
    assert!(str_eq("abc", "abc"));
    assert!(!str_eq("abc", "abd"));
    assert!(ends_with_char("dir/", '/'));
    assert!(!ends_with_char("", '/'));
    assert_eq!(bool_text(true), "true");
    assert_eq!(bool_text(false), "false");
    assert_eq!(join(&strings(&["a", "b", "c"]), ", "), "a, b, c");
    assert_eq!(join(&strings(&[]), ", "), "");
    assert_eq!(join(&strings(&["x"]), ", "), "x");
    assert_eq!(split("save,config,,templates", ','), strings(&["save", "config", "", "templates"]));
    assert_eq!(split("", ','), strings(&[""]));
    assert_eq!(split(",", ','), strings(&["", ""]));
    assert_eq!(split("存档,配置", ','), strings(&["存档", "配置"]));
}

#[test]
fn split_then_join_gives_back_the_text() {
    for s in ["", ",", "a,b", "save,,config,", "存档,配置"] {
        assert_eq!(join(&split(s, ','), ","), s);
    }
}

#[test]
fn extensions() {
    assert_eq!(extension("a.zip"), Some("zip".to_string()));
    assert_eq!(extension("x.tar.gz"), Some("gz".to_string()));
    assert_eq!(extension("foo."), Some("".to_string()));
    assert_eq!(extension(".bashrc"), None);
    assert_eq!(extension(".."), None);
    assert_eq!(extension("data"), None);
    assert_eq!(extension(""), None);
}

#[test]
fn proxies() {
    let url = "https://github.com/x";
    assert_eq!(proxied_url(url, ""), url);
    assert_eq!(proxied_url(url, "https://p.com/"), "https://p.com/https://github.com/x");
    assert_eq!(proxied_url(url, "https://p.com"), "https://p.com/https://github.com/x");
}

#[test]
fn download_outcomes() {
    assert_eq!(download_outcome(Some(404), false), Err(DownloadError::NotFound));
    assert_eq!(download_outcome(Some(404), true), Err(DownloadError::NotFound));
    assert_eq!(download_outcome(Some(200), true), Err(DownloadError::Empty));
    assert_eq!(download_outcome(None, true), Err(DownloadError::Empty));
    assert_eq!(download_outcome(Some(200), false), Ok(()));
    assert_eq!(download_outcome(None, false), Ok(()));
    assert_eq!(DownloadError::NotFound.message(), "下载链接不存在");
    assert_eq!(DownloadError::Empty.message(), "下载量为0");
    assert_eq!(DOWNLOAD_ERROR_CODE, 56);
}

#[test]
fn version_comparison() {
    let mut cfg = Config::new("/g", "linux", None).unwrap();
    assert!(needs_latest_build(&cfg));
    cfg.latestbuild.build_number = "2023-05-16-2259".to_string();
    assert!(!needs_latest_build(&cfg));
    cfg.current_game.build_number = "2023-05-16-2259".to_string();
    assert_eq!(
        compare_version(&cfg),
        (Ok(()), "当前安装的已经是最新版本2023-05-16-2259，不需要更新。".to_string())
    );
    cfg.current_game.build_number = "2023-05-01-0000".to_string();
    assert_eq!(
        compare_version(&cfg),
        (Err(()), "当前版本2023-05-01-0000\n最新版本2023-05-16-2259".to_string())
    );
}

#[test]
fn archives_and_entries() {
    assert_eq!(archive_format("zip"), ArchiveFormat::Zip);
    assert_eq!(archive_format("gz"), ArchiveFormat::TarGz);
    assert_eq!(archive_format("aab"), ArchiveFormat::Unsupported);
    assert_eq!(zip_entry_kind("data/"), ZipEntryKind::Directory);
    assert_eq!(zip_entry_kind("data/a.json"), ZipEntryKind::File);
    assert_eq!(install_step("cataclysmdda"), InstallStep::CopyDirectory);
    assert_eq!(install_step("cataclysmdda-0.G"), InstallStep::Unpack);
    assert_eq!(install_step("cdda-linux-with-graphics-x64-2023-05-16-2259.tar.gz"), InstallStep::Unpack);
}

#[test]
fn release_archive_is_unpacked() {
    let mut cfg = Config::new("", "windows", None).unwrap();
    cfg.latestbuild.build_number = "2023-05-16-2259".to_string();
    let name = cfg.generate_cdda_file_name().unwrap();
    assert_eq!(install_step(&name), InstallStep::Unpack);
    assert_eq!(archive_format(&extension(&name).unwrap()), ArchiveFormat::Zip);
    cfg.platform = Platform::Linux;
    let name = cfg.generate_cdda_file_name().unwrap();
    assert_eq!(archive_format(&extension(&name).unwrap()), ArchiveFormat::TarGz);
}

#[test]
fn download_address() {
    let mut cfg = Config::new("", "linux", None).unwrap();
    cfg.latestbuild.build_number = "2023-05-16-2259".to_string();
    assert_eq!(
        download_url(&cfg),
        Ok("https://github.com/CleverRaven/Cataclysm-DDA/releases/download/cdda-experimental-2023-05-16-2259/cdda-linux-with-graphics-x64-2023-05-16-2259.tar.gz".to_string())
    );
    cfg.tiles = false;
    assert_eq!(download_url(&cfg), Err("没有找到合适的Linux版本，请检查配置是否正确"));
}

#[test]
fn kept_entries() {
    let mut cfg = Config::new("/g", "linux", None).unwrap();
    cfg.keep_dirs = strings(&["save", "config"]);
    cfg.keep_files = strings(&["notes.txt"]);
    let keep = keep_names(&cfg);
    assert_eq!(keep, strings(&["save", "config", "notes.txt", "cdda_update_temp"]));
    assert_eq!(TEMP_DIR_NAME, "cdda_update_temp");
    for name in ["save", "config", "notes.txt", "cdda_update_temp"] {
        assert!(is_kept("linux", "/g", &keep, name));
    }
    for name in ["data", "gfx", "cataclysm-tiles", "Save"] {
        assert!(!is_kept("linux", "/g", &keep, name));
    }
    let keep = strings(&["save/", "./config", "/abs/sound", "", "a/b", "templates//", "./"]);
    assert!(is_kept("linux", "/g", &keep, "save"));
    assert!(is_kept("linux", "/g", &keep, "config"));
    assert!(is_kept("linux", "/g", &keep, "templates"));
    assert!(!is_kept("linux", "/g", &keep, "sound"));
    assert!(!is_kept("linux", "/g", &keep, "a"));
    assert!(!is_kept("linux", "/g", &keep, "b"));
    assert!(!is_kept("linux", "/g", &keep, "data"));
}

#[test]
fn absolute_kept_path_keeps_its_entry() {
    let mut cfg = Config::new("/g", "linux", None).unwrap();
    cfg.keep_dirs = strings(&["/g/save"]);
    cfg.keep_files = strings(&["/g/./notes.txt", "/other/x"]);
    let keep = keep_names(&cfg);
    assert!(is_kept("linux", "/g", &keep, "save"));
    assert!(is_kept("linux", "/g", &keep, "notes.txt"));
    assert!(!is_kept("linux", "/g", &keep, "x"));
    assert!(!is_kept("linux", "/g", &keep, "data"));
    assert!(is_kept("linux", "/g/", &strings(&["/g/save"]), "save"));
    assert!(!is_kept("linux", "/h", &strings(&["/g/save"]), "save"));
}

#[test]
fn joined_paths_and_components() {
    assert_eq!(join_path("linux", "/g", "save"), "/g/save");
    assert_eq!(join_path("linux", "/g/", "save"), "/g/save");
    assert_eq!(join_path("linux", "", "save"), "save");
    assert_eq!(join_path("linux", "/g", "/abs"), "/abs");
    assert_eq!(join_path("linux", "/g", "save\\"), "/g/save\\");
    assert_eq!(components("linux", "/g//./save/"), strings(&["/", "g", "save"]));
    assert_eq!(components("linux", "./a/../b"), strings(&[".", "a", "..", "b"]));
    assert_eq!(components("linux", "."), strings(&["."]));
    assert_eq!(components("linux", ""), strings(&[]));
    assert_eq!(components("linux", "C:\\g"), strings(&["C:\\g"]));
    for (a, b) in [
        ("/g//./save/", "/g/save"),
        ("./a", "./a/"),
        ("a/./b", "a/b"),
        ("x", "./x"),
        ("/g", "/g/x"),
        ("save\\", "save"),
    ] {
        assert_eq!(paths_equal("linux", a, b), std::path::Path::new(a) == std::path::Path::new(b), "{} {}", a, b);
    }
    for (base, x) in [("/g", "save"), ("/g/", "save"), ("", "x"), ("/g", "/abs"), ("g", "a/b")] {
        assert_eq!(join_path("linux", base, x), std::path::Path::new(base).join(x).to_str().unwrap());
    }
}

#[test]
fn windows_paths() {
    assert_eq!(join_path("windows", "C:\\g", "x"), "C:\\g\\x");
    assert_eq!(join_path("windows", "C:\\g\\", "x"), "C:\\g\\x");
    assert_eq!(join_path("windows", "C:", "x"), "C:x");
    assert_eq!(join_path("windows", "C:\\g", "\\x"), "C:\\x");
    assert_eq!(join_path("windows", "C:\\g", "D:\\x"), "D:\\x");
    assert_eq!(join_path("windows", "C:\\g", "D:x"), "D:x");
    assert_eq!(join_path("windows", "\\\\srv\\sh\\g", "\\x"), "\\\\srv\\sh\\x");
    assert_eq!(components("windows", "C:\\g\\.\\save\\"), strings(&["C:", "\\", "g", "save"]));
    assert_eq!(components("windows", "C:g/h"), strings(&["C:", "g", "h"]));
    assert_eq!(components("windows", "C:."), strings(&["C:", "."]));
    assert_eq!(components("windows", "\\\\srv\\sh\\x"), strings(&["\\\\srv\\sh", "\\", "x"]));
    assert_eq!(components("windows", "//srv/sh"), strings(&["\\\\srv\\sh", "\\"]));
    assert_eq!(components("windows", "\\\\srv"), strings(&["\\", "srv"]));
    assert!(paths_equal("windows", "c:\\g\\save", "C:/g/save/"));
    assert!(!paths_equal("windows", "C:\\g\\save", "C:\\g\\Save"));
    assert!(!paths_equal("windows", "C:\\g", "C:g"));
    assert!(!paths_equal("windows", "\\\\a\\b\\x", "\\\\A\\b\\x"));
}

#[test]
fn windows_kept_entries() {
    let g = "C:\\Games\\cdda";
    let keep = strings(&["save\\", "C:\\Games\\cdda\\config", "c:/Games/cdda/templates", "\\Games\\cdda\\sound"]);
    assert!(is_kept("windows", g, &keep, "save"));
    assert!(is_kept("windows", g, &keep, "config"));
    assert!(is_kept("windows", g, &keep, "templates"));
    assert!(is_kept("windows", g, &keep, "sound"));
    assert!(!is_kept("windows", g, &keep, "data"));
    let keep = strings(&["D:\\Games\\cdda\\save", "C:save", "Save"]);
    assert!(!is_kept("windows", g, &keep, "save"));
    let keep = strings(&["//srv/share/cdda/save"]);
    assert!(is_kept("windows", "\\\\srv\\share\\cdda", &keep, "save"));
    assert!(!is_kept("linux", "/g", &strings(&["save\\"]), "save"));
}

#[test]
fn settings_from_file_and_command_line() {
    assert_eq!(list_setting(None).unwrap(), strings(&[""]));
    assert_eq!(list_setting(Some(None)), Err(SettingError::MissingValue));
    assert_eq!(list_setting(Some(Some("save,config".to_string()))).unwrap(), strings(&["save", "config"]));
    let s = file_settings(
        Some(Some("/g".to_string())),
        Some(None),
        Some(Some("save".to_string())),
        None,
    )
    .unwrap();
    assert_eq!(s.cdda, Some("/g".to_string()));
    assert_eq!(s.proxy, None);
    assert_eq!(s.keep_dirs, strings(&["save"]));
    assert_eq!(s.keep_files, strings(&[""]));
    assert!(file_settings(None, None, Some(None), None).is_err());
    assert_eq!(resolve_game_path(Some("/cli".to_string()), Some("/file".to_string())), Some("/cli".to_string()));
    assert_eq!(resolve_game_path(None, Some("/file".to_string())), Some("/file".to_string()));
    assert_eq!(resolve_game_path(None, None), None);
    assert_eq!(resolve_proxy(Some("p1".to_string()), Some("p2".to_string())), Some("p1".to_string()));
    assert_eq!(resolve_proxy(None, Some("p2".to_string())), Some("p2".to_string()));
    assert_eq!(resolve_proxy(None, None), None);
    assert_eq!(build_choice(None), BuildChoice::Pull);
    assert_eq!(build_choice(Some("2023-05-16-2259".to_string())), BuildChoice::Use("2023-05-16-2259".to_string()));
    assert_eq!(build_choice(Some("abc".to_string())), BuildChoice::Pull);
    assert_eq!(build_choice(Some("abcd".to_string())), BuildChoice::Keep);
    assert!(confirms_update(b'Y'));
    assert!(confirms_update(b'y'));
    assert!(!confirms_update(b'n'));
}
