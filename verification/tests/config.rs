use update_cdda::updater::config::Config;
use update_cdda::updater::platform::Platform;

#[test]
fn config_test_get_download_file() {
    let mut cfg = Config::new("", "linux", None).unwrap();
    cfg.latestbuild.build_number = "2023-05-16-2259".to_string();

    // Windows, tiles false, sounds false
    cfg.platform = Platform::Windows;
    cfg.tiles = false;
    cfg.sounds = false;
    assert_eq!(cfg.generate_cdda_file_name(), Err("没有找到合适的windows版本，请检查配置是否正确"));

    // Windows, tiles false, sounds true
    cfg.platform = Platform::Windows;
    cfg.tiles = false;
    cfg.sounds = true;
    assert_eq!(cfg.generate_cdda_file_name(), Err("没有找到合适的windows版本，请检查配置是否正确"));

    // Windows, tiles true, sounds true
    cfg.platform = Platform::Windows;
    cfg.tiles = true;
    cfg.sounds = true;
    assert_eq!(
        cfg.generate_cdda_file_name(),
        Ok("cdda-windows-with-graphics-and-sounds-x64-2023-05-16-2259.zip".to_string())
    );

    // Windows, tiles true, sounds false
    cfg.platform = Platform::Windows;
    cfg.tiles = true;
    cfg.sounds = false;
    assert_eq!(
        cfg.generate_cdda_file_name(),
        Ok("cdda-windows-with-graphics-x64-2023-05-16-2259.zip".to_string())
    );

    // Linux, tiles false, sounds false
    cfg.platform = Platform::Linux;
    cfg.tiles = false;
    cfg.sounds = false;
    assert_eq!(cfg.generate_cdda_file_name(), Err("没有找到合适的Linux版本，请检查配置是否正确"));

    // Linux, tiles true, sounds false
    cfg.platform = Platform::Linux;
    cfg.tiles = true;
    cfg.sounds = false;
    assert_eq!(
        cfg.generate_cdda_file_name(),
        Ok("cdda-linux-with-graphics-x64-2023-05-16-2259.tar.gz".to_string())
    );

    // Linux, tiles false, sounds true
    cfg.platform = Platform::Linux;
    cfg.tiles = false;
    cfg.sounds = true;
    assert_eq!(cfg.generate_cdda_file_name(), Err("没有找到合适的Linux版本，请检查配置是否正确"));

    // Linux, tiles true, sounds true
    cfg.platform = Platform::Linux;
    cfg.tiles = true;
    cfg.sounds = true;
    assert_eq!(
        cfg.generate_cdda_file_name(),
        Ok("cdda-linux-with-graphics-and-sounds-x64-2023-05-16-2259.tar.gz".to_string())
    );
}

#[test]
fn test_config_display() {
    let cfg = Config::new(r"C:\Users\zyy\Downloads\cdda", "windows", None).unwrap();
    println!("{}", cfg.to_display_string());
}

#[test]
fn config_display_text_exact() {
    let mut cfg = Config::new(r"C:\Users\zyy\Downloads\cdda", "windows", None).unwrap();
    assert_eq!(
        cfg.to_display_string(),
        "最新版本：\n当前版本：\n贴图：true\n音乐：false\n游戏目录：C:\\Users\\zyy\\Downloads\\cdda\n更新时保留文件夹：\n更新时保留文件：\ngithub加速器："
    );
    cfg.latestbuild.build_number = "2023-05-16-2259".to_string();
    cfg.current_game.build_number = "2023-05-01-0001".to_string();
    cfg.keep_dirs = vec!["save".to_string(), "config".to_string()];
    cfg.keep_files = vec!["a.txt".to_string()];
    cfg.proxy = "https://ghproxy.com/".to_string();
    cfg.sounds = true;
    assert_eq!(
        cfg.to_display_string(),
        "最新版本：2023-05-16-2259\n当前版本：2023-05-01-0001\n贴图：true\n音乐：true\n游戏目录：C:\\Users\\zyy\\Downloads\\cdda\n更新时保留文件夹：save, config\n更新时保留文件：a.txt\ngithub加速器：https://ghproxy.com/"
    );
}

#[test]
fn config_new_defaults() {
    let cfg = Config::new("/games/cdda", "linux", None).unwrap();
    assert_eq!(cfg.platform, Platform::Linux);
    assert_eq!(cfg.proxy, "");
    assert!(cfg.tiles);
    assert!(!cfg.sounds);
    assert_eq!(cfg.keep_dirs, vec![String::new()]);
    assert_eq!(cfg.keep_files, vec![String::new()]);
    assert_eq!(cfg.current_game.path, "/games/cdda");
    assert_eq!(cfg.current_game.build_number, "");
    assert_eq!(cfg.latestbuild.build_number, "");
}

#[test]
fn config_new_reads_version_file() {
    let text = "version: 0.G\nbuild number: 2023-05-16-2259\ncommit sha: 0123abc\n";
    let cfg = Config::new("/games/cdda", "windows", Some(text)).unwrap();
    assert_eq!(cfg.platform, Platform::Windows);
    assert_eq!(cfg.current_game.build_number, "2023-05-16-2259");
}

#[test]
fn config_new_fails_on_unreadable_version_file() {
    let r = Config::new("/games/cdda", "windows", Some("no build here"));
    assert!(matches!(r, Err(update_cdda::pattern::CaptureError::NoMatch)));
}

#[test]
fn default_settings_name_archive_on_windows_and_linux() {
    for os in ["windows", "linux"] {
        let mut cfg = Config::new("", os, None).unwrap();
        cfg.latestbuild.build_number = "2023-05-16-2259".to_string();
        assert!(cfg.generate_cdda_file_name().is_ok());
    }
    for os in ["macos", "freebsd"] {
        let cfg = Config::new("", os, None).unwrap();
        assert!(cfg.generate_cdda_file_name().is_err());
    }
}

#[test]
fn file_name_for_other_platforms() {
    let mut cfg = Config::new("", "linux", None).unwrap();
    cfg.latestbuild.build_number = "2023-05-16-2259".to_string();
    cfg.platform = Platform::Android;
    assert_eq!(cfg.generate_cdda_file_name(), Ok("cdda-android-bundle-2023-05-16-2259.aab".to_string()));
    cfg.platform = Platform::OSx;
    assert_eq!(cfg.generate_cdda_file_name(), Err("MacOS 暂不支持"));
    cfg.platform = Platform::Unknown;
    assert_eq!(cfg.generate_cdda_file_name(), Err("选项错误：没有对应的版本"));
}
