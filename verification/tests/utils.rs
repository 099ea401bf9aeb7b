use update_cdda::utils::{Config, Platform};

#[test]
fn utils_test_get_download_file() {
    let mut cfg = Config::new("linux");
    cfg.latestbuild.build_number = "2023-05-16-2259".to_string();

    // Windows, tiles false, sounds false
    cfg.platform = Platform::Windows;
    cfg.tiles = false;
    cfg.sounds = false;
    assert_eq!(cfg.get_download_file(), "cdda-windows-tiles-x64-msvc-2023-05-16-2259.zip");

    // Windows, tiles false, sounds true
    cfg.platform = Platform::Windows;
    cfg.tiles = false;
    cfg.sounds = true;
    assert_eq!(cfg.get_download_file(), "cdda-windows-tiles-sounds-x64-msvc-2023-05-16-2259.zip");

    // Windows, tiles true, sounds true
    cfg.platform = Platform::Windows;
    cfg.tiles = true;
    cfg.sounds = true;
    assert_eq!(cfg.get_download_file(), "cdda-windows-tiles-sounds-x64-msvc-2023-05-16-2259.zip");

    // Windows, tiles true, sounds false
    cfg.platform = Platform::Windows;
    cfg.tiles = true;
    cfg.sounds = false;
    assert_eq!(cfg.get_download_file(), "cdda-windows-tiles-x64-msvc-2023-05-16-2259.zip");

    // Linux, tiles false, sounds false
    cfg.platform = Platform::Linux;
    cfg.tiles = false;
    cfg.sounds = false;
    assert_eq!(cfg.get_download_file(), "cdda-linux-curses-x64-2023-05-16-2259.tar.gz");

    // Linux, tiles true, sounds false
    cfg.platform = Platform::Linux;
    cfg.tiles = true;
    cfg.sounds = false;
    assert_eq!(cfg.get_download_file(), "cdda-linux-tiles-x64-2023-05-16-2259.tar.gz");

    // Linux, tiles false, sounds true
    cfg.platform = Platform::Linux;
    cfg.tiles = false;
    cfg.sounds = true;
    assert_eq!(cfg.get_download_file(), "cdda-linux-curses-x64-2023-05-16-2259.tar.gz");

    // Linux, tiles true, sounds true
    cfg.platform = Platform::Linux;
    cfg.tiles = true;
    cfg.sounds = true;
    assert_eq!(cfg.get_download_file(), "cdda-linux-tiles-sounds-x64-2023-05-16-2259.tar.gz");
}

#[test]
fn utils_file_name_osx_android_unknown() {
    let mut cfg = Config::new("macos");
    assert_eq!(cfg.platform, Platform::OSx);
    cfg.latestbuild.build_number = "2023-05-16-2259".to_string();
    assert_eq!(cfg.get_download_file(), "cdda-osx-tiles-universal-2023-05-16-2259.dmg");
    cfg.tiles = false;
    assert_eq!(cfg.get_download_file(), "cdda-osx-curses-universal-2023-05-16-2259.dmg");
    cfg.platform = Platform::Android;
    assert_eq!(cfg.get_download_file(), "cdda-android-bundle-2023-05-16-2259.aab");
    cfg.platform = Platform::Unknown;
    assert_eq!(cfg.get_download_file(), "");
}

#[test]
fn utils_config_new_defaults() {
    let cfg = Config::new("windows");
    assert_eq!(cfg.platform, Platform::Windows);
    assert!(cfg.tiles && !cfg.sounds);
    assert!(cfg.backup_configdir && cfg.backup_savedir && cfg.backup_templates);
    assert_eq!(cfg.current_game.path, "");
    assert_eq!(cfg.current_game.build_number, "");
    assert_eq!(cfg.latestbuild.build_number, "");
}

#[test]
fn utils_current_game_and_latest_build() {
    let dir = "/games/cdda".to_string();
    let g = update_cdda::utils::CurrentGame::new(&dir, Some("build number: 2023-01-02-0304\ncommit sha: ff"))
        .ok()
        .unwrap();
    assert_eq!(g.path, "/games/cdda");
    assert_eq!(g.build_number, "2023-01-02-0304");
    let g = update_cdda::utils::CurrentGame::new(&dir, None).ok().unwrap();
    assert_eq!(g.build_number, "");
    let mut b = update_cdda::utils::LatestBuild::new();
    assert_eq!(b.build_number, "");
    assert!(b.pull("<h2 id=\"latest\">Cataclysm-DDA experimental build 2024-02-03-0405</h2>").is_ok());
    assert_eq!(b.build_number, "2024-02-03-0405");
    assert!(b.pull("nothing").is_err());
    assert_eq!(b.build_number, "2024-02-03-0405");
}
