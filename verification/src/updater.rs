//! Updating an installation: settings, file names and the steps of an update.

pub mod config;
pub mod current_game;
pub mod lastest_build;
pub mod platform;
pub mod utils;

use vstd::prelude::*;
use crate::paths::{
    is_absolute, is_windows, join_path, joined_path, lemma_same_path_reflexive, paths_equal, same_path,
};
use crate::text::{extension, file_extension, last_index_of};
use crate::updater::config::{cdda_file_name, Config};
use crate::updater::platform::Platform;
use crate::updater::utils::{format_of, ArchiveFormat};

verus! {

/// The directory, inside the game directory, into which a new build is
/// downloaded; it survives the removal of the old build.
pub const TEMP_DIR_NAME: &'static str = "cdda_update_temp";

/// Where a release archive is published.
pub open spec fn release_url(build: Seq<char>, file: Seq<char>) -> Seq<char> {
    "https://github.com/CleverRaven/Cataclysm-DDA/releases/download/cdda-experimental-"@ + build
        + "/"@ + file
}

/// The address of the archive that these settings call for, or the reason
/// why there is none.
pub fn download_url(cfg: &Config) -> (r: Result<String, &'static str>)
    ensures
        match cdda_file_name(
            cfg.platform,
            cfg.tiles,
            cfg.sounds,
            cfg.latestbuild.build_number@,
        ) {
            Ok(f) => r matches Ok(u) && u@ == release_url(cfg.latestbuild.build_number@, f) && u@
                == "https://github.com/CleverRaven/Cataclysm-DDA/releases/download/cdda-experimental-"@ + cfg.latestbuild.build_number@ + "/"@ + f,
            Err(m) => r matches Err(e) && e@ == m,
        },
{
    let file = match cfg.generate_cdda_file_name() {
        Ok(f) => f,
        Err(e) => return Err(e),
    };
    let mut url = String::from_str(
        "https://github.com/CleverRaven/Cataclysm-DDA/releases/download/cdda-experimental-",
    );
    url.append(cfg.latestbuild.build_number.as_str());
    url.append("/");
    url.append(file.as_str());
    Ok(url)
}

/// Every release is published under the tag `cdda-experimental-` followed
/// by its build number, whatever the archive: the address is that tag's
/// download directory followed by the file name.
pub proof fn lemma_release_url_tag(build: Seq<char>, file: Seq<char>)
    ensures
        release_url(build, file) == "https://github.com/CleverRaven/Cataclysm-DDA/releases/download/cdda-experimental-"@ + build + "/"@
            + file,
{
}

/// The names in the game directory that an update keeps: the kept
/// directories, the kept files, and the download directory.
pub open spec fn keep_names_of(cfg: Config) -> Seq<Seq<char>> {
    cfg.keep_dirs.deep_view() + cfg.keep_files.deep_view() + seq![TEMP_DIR_NAME@]
}

/// Whether the kept name `keep` stands for the entry `name` of the game
/// directory `game_dir` on a system (`win`: Windows): joined to the game
/// directory, the two give equal paths.
pub open spec fn names_entry(win: bool, game_dir: Seq<char>, keep: Seq<char>, name: Seq<char>) -> bool {
    same_path(win, joined_path(win, game_dir, keep), joined_path(win, game_dir, name))
}

/// Whether an entry of the game directory `game_dir` survives an update whose
/// kept names are `keep`.
pub open spec fn kept(win: bool, game_dir: Seq<char>, keep: Seq<Seq<char>>, name: Seq<char>) -> bool {
    exists|i: int| 0 <= i < keep.len() && names_entry(win, game_dir, #[trigger] keep[i], name)
}

/// An update never removes the directory that holds the new build, nor an
/// entry named as a kept directory or file.
pub proof fn lemma_update_keeps_names(win: bool, cfg: Config)
    ensures
        kept(win, cfg.current_game.path@, keep_names_of(cfg), TEMP_DIR_NAME@),
        forall|n: Seq<char>|
            cfg.keep_dirs.deep_view().contains(n) || cfg.keep_files.deep_view().contains(n)
                ==> #[trigger] kept(win, cfg.current_game.path@, keep_names_of(cfg), n),
{
    let g = cfg.current_game.path@;
    let keep = keep_names_of(cfg);
    let nd = cfg.keep_dirs.deep_view().len() as int;
    let nf = cfg.keep_files.deep_view().len() as int;
    assert(keep[nd + nf] == TEMP_DIR_NAME@);
    lemma_same_path_reflexive(win, joined_path(win, g, TEMP_DIR_NAME@));
    assert(names_entry(win, g, keep[nd + nf], TEMP_DIR_NAME@));
    assert forall|n: Seq<char>|
        cfg.keep_dirs.deep_view().contains(n) || cfg.keep_files.deep_view().contains(n)
            implies #[trigger] kept(win, g, keep, n) by {
        lemma_same_path_reflexive(win, joined_path(win, g, n));
        if cfg.keep_dirs.deep_view().contains(n) {
            let j = choose|j: int| 0 <= j < nd && cfg.keep_dirs.deep_view()[j] == n;
            assert(keep[j] == n);
            assert(names_entry(win, g, keep[j], n));
        } else {
            let j = choose|j: int| 0 <= j < nf && cfg.keep_files.deep_view()[j] == n;
            assert(keep[nd + j] == n);
            assert(names_entry(win, g, keep[nd + j], n));
        }
    }
}

/// A kept absolute path keeps the entry it points at: where it is equal, as a
/// path, to the game directory joined with the entry's name, the entry
/// survives.
pub proof fn lemma_absolute_keep_names_entry(
    win: bool,
    game_dir: Seq<char>,
    keep: Seq<Seq<char>>,
    i: int,
    name: Seq<char>,
)
    requires
        0 <= i < keep.len(),
        is_absolute(win, keep[i]),
        same_path(win, keep[i], joined_path(win, game_dir, name)),
    ensures
        kept(win, game_dir, keep, name),
{
    assert(joined_path(win, game_dir, keep[i]) == keep[i]);
    assert(names_entry(win, game_dir, keep[i], name));
}

fn push_clones(dst: &mut Vec<String>, src: &Vec<String>)
    ensures
        final(dst).deep_view() == old(dst).deep_view() + src.deep_view(),
{
    let ghost start = dst.deep_view();
    let n = src.len();
    for i in 0..n
        invariant
            n == src.len(),
            dst.deep_view() == start + src.deep_view().take(i as int),
    {
        let ghost before = dst.deep_view();
        dst.push(src[i].clone());
        assert(dst.deep_view() =~= before.push(src[i as int]@));
        assert(src.deep_view().take(i + 1) =~= src.deep_view().take(i as int).push(src[i as int]@));
        assert(dst.deep_view() =~= start + src.deep_view().take(i + 1));
    }
    assert(src.deep_view().take(n as int) =~= src.deep_view());
}

/// The names in the game directory that an update keeps.
pub fn keep_names(cfg: &Config) -> (r: Vec<String>)
    ensures
        r.deep_view() == keep_names_of(*cfg),
{
    let mut names: Vec<String> = Vec::new();
    assert(names.deep_view() =~= Seq::<Seq<char>>::empty());
    push_clones(&mut names, &cfg.keep_dirs);
    push_clones(&mut names, &cfg.keep_files);
    let ghost before = names.deep_view();
    names.push(String::from_str(TEMP_DIR_NAME));
    assert(names.deep_view() =~= before.push(TEMP_DIR_NAME@));
    assert(names.deep_view() =~= keep_names_of(*cfg));
    names
}

/// Whether the entry `name` of the game directory `game_dir` survives an
/// update whose kept names are `keep` (see `keep_names`), on the system
/// `target_os`.
pub fn is_kept(target_os: &str, game_dir: &str, keep: &Vec<String>, name: &str) -> (r: bool)
    ensures
        r == kept(is_windows(target_os@), game_dir@, keep.deep_view(), name@),
{
    let ghost win = is_windows(target_os@);
    let entry_path = join_path(target_os, game_dir, name);
    let n = keep.len();
    for i in 0..n
        invariant
            n == keep.len(),
            win == is_windows(target_os@),
            entry_path@ == joined_path(win, game_dir@, name@),
            forall|j: int|
                0 <= j < i ==> !names_entry(win, game_dir@, #[trigger] keep.deep_view()[j], name@),
    {
        let kept_path = join_path(target_os, game_dir, keep[i].as_str());
        if paths_equal(target_os, kept_path.as_str(), entry_path.as_str()) {
            assert(names_entry(win, game_dir@, keep.deep_view()[i as int], name@));
            return true;
        }
    }
    false
}

/// How a downloaded entry is installed into the game directory.
#[derive(Debug, Clone, Copy, PartialEq, Eq, Structural)]
pub enum InstallStep {
    /// An entry without extension is a directory: it is copied as it is.
    CopyDirectory,
    /// An entry with an extension is an archive: it is unpacked.
    Unpack,
}

/// How the downloaded entry `name` is installed.
pub fn install_step(name: &str) -> (r: InstallStep)
    ensures
        r == (if file_extension(name@) is None {
            InstallStep::CopyDirectory
        } else {
            InstallStep::Unpack
        }),
{
    match extension(name) {
        None => InstallStep::CopyDirectory,
        Some(_) => InstallStep::Unpack,
    }
}

proof fn lemma_last_index_of_append(x: Seq<char>, y: Seq<char>, c: char)
    requires
        last_index_of(y, c) >= 0,
    ensures
        last_index_of(x + y, c) == x.len() + last_index_of(y, c),
    decreases y.len(),
{
    if y.len() > 0 && y.last() != c {
        assert((x + y).drop_last() =~= x + y.drop_last());
        lemma_last_index_of_append(x, y.drop_last(), c);
    }
}

proof fn lemma_extension_after(front: Seq<char>, suffix: Seq<char>, ext: Seq<char>)
    requires
        front.len() > 0,
        suffix == seq!['.'] + ext,
        ext.len() > 0,
        !ext.contains('.'),
    ensures
        file_extension(front + suffix) == Some(ext),
    decreases ext.len(),
{
    let s = front + suffix;
    assert(last_index_of(suffix, '.') == 0) by {
        lemma_last_index_up_to(suffix, ext, ext.len() as int);
        assert(suffix.take(ext.len() as int + 1) =~= suffix);
    }
    lemma_last_index_of_append(front, suffix, '.');
    assert(s.subrange(front.len() as int + 1, s.len() as int) =~= ext);
    assert(s.len() >= 3);
    assert(s != seq!['.', '.']);
}

proof fn lemma_last_index_up_to(suffix: Seq<char>, ext: Seq<char>, k: int)
    requires
        suffix == seq!['.'] + ext,
        !ext.contains('.'),
        0 <= k <= ext.len(),
    ensures
        last_index_of(suffix.take(k + 1), '.') == 0,
    decreases k,
{
    if k == 0 {
        assert(suffix.take(1).drop_last() =~= Seq::<char>::empty());
    } else {
        assert(suffix.take(k + 1).drop_last() =~= suffix.take(k));
        assert(suffix.take(k + 1).last() == ext[k - 1]);
        lemma_last_index_up_to(suffix, ext, k - 1);
    }
}

/// A release archive that the settings name is always installed by
/// unpacking it: a Windows build as a zip archive, a Linux build as a
/// gzipped tarball; an Android bundle is left as it is.
pub proof fn lemma_release_archive_is_unpacked(cfg: Config)
    requires
        cdda_file_name(cfg.platform, cfg.tiles, cfg.sounds, cfg.latestbuild.build_number@) is Ok,
    ensures
        ({
            let f = cdda_file_name(
                cfg.platform,
                cfg.tiles,
                cfg.sounds,
                cfg.latestbuild.build_number@,
            )->Ok_0;
            &&& file_extension(f) is Some
            &&& format_of(file_extension(f)->Some_0) == match cfg.platform {
                Platform::Windows => ArchiveFormat::Zip,
                Platform::Linux => ArchiveFormat::TarGz,
                _ => ArchiveFormat::Unsupported,
            }
        }),
{
    let b = cfg.latestbuild.build_number@;
    reveal_strlit("zip");
    reveal_strlit("gz");
    reveal_strlit(".zip");
    reveal_strlit(".tar.gz");
    reveal_strlit(".aab");
    reveal_strlit("cdda-android-bundle-");
    reveal_strlit("cdda-linux-with-graphics-and-sounds-x64-");
    reveal_strlit("cdda-linux-with-graphics-x64-");
    reveal_strlit("cdda-windows-with-graphics-and-sounds-x64-");
    reveal_strlit("cdda-windows-with-graphics-x64-");
    assert(".zip"@ =~= seq!['.'] + "zip"@);
    assert(".tar.gz"@ =~= seq!['.', 't', 'a', 'r', '.', 'g', 'z']);
    assert(".aab"@ =~= seq!['.'] + seq!['a', 'a', 'b']);
    match cfg.platform {
        Platform::Android => {
            let front = "cdda-android-bundle-"@ + b;
            assert(!seq!['a', 'a', 'b'].contains('.')) by {
                let t = seq!['a', 'a', 'b'];
                assert(t[0] != '.' && t[1] != '.' && t[2] != '.');
            }
            lemma_extension_after(front, ".aab"@, seq!['a', 'a', 'b']);
            assert(front + ".aab"@ =~= "cdda-android-bundle-"@ + b + ".aab"@);
            assert(seq!['a', 'a', 'b'] != "zip"@);
            assert(seq!['a', 'a', 'b'] != "gz"@);
        },
        Platform::Windows => {
            let front = if cfg.sounds {
                "cdda-windows-with-graphics-and-sounds-x64-"@ + b
            } else {
                "cdda-windows-with-graphics-x64-"@ + b
            };
            assert(!"zip"@.contains('.')) by {
                assert("zip"@[0] != '.' && "zip"@[1] != '.' && "zip"@[2] != '.');
            }
            lemma_extension_after(front, ".zip"@, "zip"@);
            assert(front + ".zip"@ =~= (if cfg.sounds {
                "cdda-windows-with-graphics-and-sounds-x64-"@
            } else {
                "cdda-windows-with-graphics-x64-"@
            }) + b + ".zip"@);
        },
        Platform::Linux => {
            let pre = if cfg.sounds {
                "cdda-linux-with-graphics-and-sounds-x64-"@
            } else {
                "cdda-linux-with-graphics-x64-"@
            };
            let front = pre + b + seq!['.', 't', 'a', 'r'];
            assert(seq!['.', 'g', 'z'] =~= seq!['.'] + "gz"@);
            assert(!"gz"@.contains('.')) by {
                assert("gz"@[0] != '.' && "gz"@[1] != '.');
            }
            lemma_extension_after(front, seq!['.', 'g', 'z'], "gz"@);
            assert(front + seq!['.', 'g', 'z'] =~= pre + b + ".tar.gz"@);
        },
        _ => {},
    }
}

} // verus!
