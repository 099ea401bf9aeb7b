//! The decisions around downloading, comparing and unpacking builds.
use vstd::prelude::*;
use crate::text::{ends_with_char, str_eq};
use crate::updater::config::Config;

verus! {

/// The error code (`CURLE_RECV_ERROR`) under which a failed download is
/// reported.
pub const DOWNLOAD_ERROR_CODE: u32 = 56;

/// Why a finished transfer does not count as a download.
#[derive(Debug, Clone, Copy, PartialEq, Eq, Structural)]
pub enum DownloadError {
    /// The server answered 404: the archive does not exist.
    NotFound,
    /// Nothing was received.
    Empty,
}

/// The message that goes with a failed download.
pub open spec fn download_error_text(e: DownloadError) -> Seq<char> {
    match e {
        DownloadError::NotFound => "下载链接不存在"@,
        DownloadError::Empty => "下载量为0"@,
    }
}

impl DownloadError {
    /// The message that goes with this failure.
    pub fn message(&self) -> (r: &'static str)
        ensures
            r@ == download_error_text(*self),
    {
        match self {
            DownloadError::NotFound => "下载链接不存在",
            DownloadError::Empty => "下载量为0",
        }
    }
}

/// The outcome of a finished transfer: a 404 answer first, then an empty
/// download, make it fail.
pub open spec fn transfer_outcome(http_code: Option<u32>, nothing_downloaded: bool) -> Result<
    (),
    DownloadError,
> {
    if http_code == Some(404u32) {
        Err(DownloadError::NotFound)
    } else if nothing_downloaded {
        Err(DownloadError::Empty)
    } else {
        Ok(())
    }
}

/// Only the status 404 makes a download missing; any other status (or none)
/// counts as a download as soon as something was received.
pub proof fn lemma_only_404_is_not_found(http_code: Option<u32>, nothing_downloaded: bool)
    ensures
        (transfer_outcome(http_code, nothing_downloaded) == Err::<(), DownloadError>(
            DownloadError::NotFound,
        )) <==> http_code == Some(404u32),
        transfer_outcome(http_code, nothing_downloaded) is Ok <==> (http_code != Some(404u32)
            && !nothing_downloaded),
        (http_code != Some(404u32) && nothing_downloaded) ==> transfer_outcome(
            http_code,
            nothing_downloaded,
        ) == Err::<(), DownloadError>(DownloadError::Empty),
{
}

/// Judges a finished transfer by the HTTP status it got (if any) and by
/// whether anything was received.
pub fn download_outcome(http_code: Option<u32>, nothing_downloaded: bool) -> (r: Result<
    (),
    DownloadError,
>)
    ensures
        r == transfer_outcome(http_code, nothing_downloaded),
        (r == Err::<(), DownloadError>(DownloadError::NotFound)) <==> http_code == Some(404u32),
        r is Ok <==> (http_code != Some(404u32) && !nothing_downloaded),
{
    if let Some(code) = http_code {
        if code == 404 {
            return Err(DownloadError::NotFound);
        }
    }
    if nothing_downloaded {
        Err(DownloadError::Empty)
    } else {
        Ok(())
    }
}

/// The address to fetch `url` from through the accelerator `proxy`: the
/// accelerator's address is put in front of the URL, with one `/` between
/// them; without an accelerator the URL itself.
pub open spec fn proxied(url: Seq<char>, proxy: Seq<char>) -> Seq<char> {
    if proxy.len() == 0 {
        url
    } else if proxy.last() == '/' {
        proxy + url
    } else {
        proxy + "/"@ + url
    }
}

/// The address to fetch `url` from through the accelerator `proxy`.
pub fn proxied_url(url: &str, proxy: &str) -> (r: String)
    ensures
        r@ == proxied(url@, proxy@),
{
    if proxy.unicode_len() == 0 {
        url.to_owned()
    } else if ends_with_char(proxy, '/') {
        let mut s = proxy.to_owned();
        s.append(url);
        s
    } else {
        let mut s = proxy.to_owned();
        s.append("/");
        s.append(url);
        s
    }
}

/// Whether the newest build number is still to be fetched.
pub fn needs_latest_build(cfg: &Config) -> (r: bool)
    ensures
        r == (cfg.latestbuild.build_number@.len() == 0),
{
    cfg.latestbuild.build_number.as_str().unicode_len() == 0
}

/// The message on comparing the installed build with the newest one.
pub open spec fn comparison_text(current: Seq<char>, latest: Seq<char>) -> Seq<char> {
    if current == latest {
        "当前安装的已经是最新版本"@ + current + "，不需要更新。"@
    } else {
        "当前版本"@ + current + "\n最新版本"@ + latest
    }
}

/// Compares the installed build with the newest: `Ok` when they are the same
/// (nothing to update), `Err` otherwise; with the message to show.
pub fn compare_version(cfg: &Config) -> (r: (Result<(), ()>, String))
    ensures
        r.0 is Ok <==> cfg.current_game.build_number@ == cfg.latestbuild.build_number@,
        r.1@ == comparison_text(cfg.current_game.build_number@, cfg.latestbuild.build_number@),
{
    let current = cfg.current_game.build_number.as_str();
    let latest = cfg.latestbuild.build_number.as_str();
    if str_eq(current, latest) {
        let mut log = String::from_str("当前安装的已经是最新版本");
        log.append(current);
        log.append("，不需要更新。");
        (Ok(()), log)
    } else {
        let mut log = String::from_str("当前版本");
        log.append(current);
        log.append("\n最新版本");
        log.append(latest);
        (Err(()), log)
    }
}

/// How an archive is unpacked.
#[derive(Debug, Clone, Copy, PartialEq, Eq, Structural)]
pub enum ArchiveFormat {
    Zip,
    TarGz,
    /// Left as it is.
    Unsupported,
}

/// The format of an archive with the extension `ext`.
pub open spec fn format_of(ext: Seq<char>) -> ArchiveFormat {
    if ext == "zip"@ {
        ArchiveFormat::Zip
    } else if ext == "gz"@ {
        ArchiveFormat::TarGz
    } else {
        ArchiveFormat::Unsupported
    }
}

/// The format of an archive with the extension `ext`.
pub fn archive_format(ext: &str) -> (r: ArchiveFormat)
    ensures
        r == format_of(ext@),
{
    if str_eq(ext, "zip") {
        ArchiveFormat::Zip
    } else if str_eq(ext, "gz") {
        ArchiveFormat::TarGz
    } else {
        ArchiveFormat::Unsupported
    }
}

/// What a zip entry becomes when it is unpacked.
#[derive(Debug, Clone, Copy, PartialEq, Eq, Structural)]
pub enum ZipEntryKind {
    Directory,
    File,
}

/// A zip entry whose name ends with `/` is a directory; any other is a file.
pub fn zip_entry_kind(name: &str) -> (r: ZipEntryKind)
    ensures
        r == (if name@.len() > 0 && name@.last() == '/' {
            ZipEntryKind::Directory
        } else {
            ZipEntryKind::File
        }),
{
    if ends_with_char(name, '/') {
        ZipEntryKind::Directory
    } else {
        ZipEntryKind::File
    }
}

} // verus!
