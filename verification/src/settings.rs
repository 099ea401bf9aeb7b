//! How the command line and the configuration file combine into the
//! settings of an update.
use vstd::prelude::*;
use vstd::utf8::encode_utf8;
use crate::text::{split, split_on};

verus! {

/// Why the settings cannot be completed.
#[derive(Debug, Clone, Copy, PartialEq, Eq, Structural)]
pub enum SettingError {
    /// A key of the configuration file is present without a value.
    MissingValue,
}

/// What the `default` section of the configuration file sets.
#[derive(Debug, Clone)]
pub struct FileSettings {
    /// The game directory (`cdda`).
    pub cdda: Option<String>,
    /// The download accelerator (`proxy`).
    pub proxy: Option<String>,
    /// The directories kept on update (`keep_dirs`, separated by `,`).
    pub keep_dirs: Vec<String>,
    /// The files kept on update (`keep_files`, separated by `,`).
    pub keep_files: Vec<String>,
}

/// An optional string by its view.
pub open spec fn opt_view(o: Option<String>) -> Option<Seq<char>> {
    match o {
        Some(s) => Some(s@),
        None => None,
    }
}

/// A key's value of the configuration file: none where the key is absent
/// or has no value.
pub open spec fn flattened(entry: Option<Option<String>>) -> Option<Seq<char>> {
    match entry {
        Some(Some(s)) => Some(s@),
        _ => None,
    }
}

/// The list that a key of the configuration file sets: its value split at
/// `,`; one empty name where the key is absent; nothing where it has no
/// value.
pub open spec fn list_of(entry: Option<Option<String>>) -> Option<Seq<Seq<char>>> {
    match entry {
        None => Some(seq![Seq::<char>::empty()]),
        Some(None) => None,
        Some(Some(v)) => Some(split_on(v@, ',')),
    }
}

/// A key of the configuration file gives a value only where it is present
/// with one: an absent key, or one without value, gives none.
pub proof fn lemma_absent_key_gives_no_value(entry: Option<Option<String>>)
    ensures
        entry is None ==> flattened(entry) is None,
        entry == Some(None::<String>) ==> flattened(entry) is None,
        entry matches Some(Some(s)) ==> flattened(entry) == Some(s@),
{
}

fn flatten(entry: Option<Option<String>>) -> (r: Option<String>)
    ensures
        opt_view(r) == flattened(entry),
{
    match entry {
        Some(Some(s)) => Some(s),
        _ => None,
    }
}

/// The list that a key of the configuration file sets, or the error of a key
/// without value.
pub fn list_setting(entry: Option<Option<String>>) -> (r: Result<Vec<String>, SettingError>)
    ensures
        match list_of(entry) {
            Some(l) => r matches Ok(v) && v.deep_view() == l,
            None => r == Err::<Vec<String>, SettingError>(SettingError::MissingValue),
        },
{
    match entry {
        None => {
            let mut v: Vec<String> = Vec::new();
            v.push(String::new());
            assert(v.deep_view() =~= seq![Seq::<char>::empty()]);
            Ok(v)
        },
        Some(None) => Err(SettingError::MissingValue),
        Some(Some(value)) => Ok(split(value.as_str(), ',')),
    }
}

/// The settings of the configuration file, from the values it holds for its
/// keys `cdda`, `proxy`, `keep_dirs` and `keep_files` (the outer `None`: the
/// key, or the section, is absent; the inner: the key has no value).
pub fn file_settings(
    cdda: Option<Option<String>>,
    proxy: Option<Option<String>>,
    keep_dirs: Option<Option<String>>,
    keep_files: Option<Option<String>>,
) -> (r: Result<FileSettings, SettingError>)
    ensures
        (list_of(keep_dirs) is Some && list_of(keep_files) is Some) <==> r is Ok,
        r matches Ok(s) ==> {
            &&& opt_view(s.cdda) == flattened(cdda)
            &&& opt_view(s.proxy) == flattened(proxy)
            &&& (cdda matches Some(Some(c)) ==> s.cdda matches Some(v) && v@ == c@)
            &&& (!(cdda matches Some(Some(_))) ==> s.cdda is None)
            &&& (proxy matches Some(Some(p)) ==> s.proxy matches Some(v) && v@ == p@)
            &&& (!(proxy matches Some(Some(_))) ==> s.proxy is None)
            &&& list_of(keep_dirs) == Some(s.keep_dirs.deep_view())
            &&& list_of(keep_files) == Some(s.keep_files.deep_view())
        },
{
    let dirs = match list_setting(keep_dirs) {
        Ok(v) => v,
        Err(e) => return Err(e),
    };
    let files = match list_setting(keep_files) {
        Ok(v) => v,
        Err(e) => return Err(e),
    };
    Ok(
        FileSettings {
            cdda: flatten(cdda),
            proxy: flatten(proxy),
            keep_dirs: dirs,
            keep_files: files,
        },
    )
}

/// The game directory: the command line's before the configuration file's.
pub fn resolve_game_path(cli: Option<String>, file: Option<String>) -> (r: Option<String>)
    ensures
        opt_view(r) == match cli {
            Some(p) => Some(p@),
            None => opt_view(file),
        },
{
    match cli {
        Some(p) => Some(p),
        None => file,
    }
}

/// The download accelerator: the command line's before the configuration
/// file's.
pub fn resolve_proxy(cli: Option<String>, file: Option<String>) -> (r: Option<String>)
    ensures
        opt_view(r) == match cli {
            Some(p) => Some(p@),
            None => opt_view(file),
        },
{
    match cli {
        Some(p) => Some(p),
        None => file,
    }
}

/// What to do about the newest build number.
#[derive(Debug, Clone, PartialEq, Eq)]
pub enum BuildChoice {
    /// Take this build number, given on the command line.
    Use(String),
    /// Fetch the newest build number from the release page.
    Pull,
    /// Leave the build number as it is.
    Keep,
}

/// What a build given on the command line asks for: one longer than four
/// bytes is taken as it is, a shorter one (or none) means fetching the
/// newest, one of exactly four bytes changes nothing.
pub fn build_choice(cli_build: Option<String>) -> (r: BuildChoice)
    ensures
        match cli_build {
            None => r is Pull,
            Some(n) => if (encode_utf8(n@).len() as usize) > 4 {
                (r matches BuildChoice::Use(b) && b@ == n@)
            } else if (encode_utf8(n@).len() as usize) < 4 {
                r is Pull
            } else {
                r is Keep
            },
        },
{
    match cli_build {
        None => BuildChoice::Pull,
        Some(n) => {
            let len = n.as_str().len();
            if len > 4 {
                BuildChoice::Use(n)
            } else if len < 4 {
                BuildChoice::Pull
            } else {
                BuildChoice::Keep
            }
        },
    }
}

/// Whether the answer byte confirms the update (`Y` or `y`).
pub fn confirms_update(answer: u8) -> (r: bool)
    ensures
        r == (answer == 89u8 || answer == 121u8),
{
    answer == 89u8 || answer == 121u8
}

} // verus!
