//! How paths are joined and compared, as `std::path` does it: with `/` as
//! the only separator on Unix-like systems; on Windows with `\` and `/` as
//! separators and with drive (`C:`) and UNC (`\\server\share`) prefixes.
//! Verbatim (`\\?\`) and device (`\\.\`) prefixes are read by the UNC rule:
//! they stay distinct from the drive and UNC forms, but inside such paths
//! `std::path` takes only `\` as a separator and keeps `.` components,
//! while this rule treats them as in other paths.
use vstd::prelude::*;
use crate::text::str_eq;

verus! {

/// Whether a target system name (as in `std::env::consts::OS`) is Windows.
pub open spec fn is_windows(os: Seq<char>) -> bool {
    os == "windows"@
}

/// Whether `c` separates the components of a path.
pub open spec fn is_sep(win: bool, c: char) -> bool {
    c == '/' || (win && c == '\\')
}

/// The index of the first separator at or after `i`, or the length of `p`.
pub open spec fn next_sep(win: bool, p: Seq<char>, i: int) -> int
    decreases p.len() - i,
{
    if i >= p.len() {
        p.len() as int
    } else if is_sep(win, p[i]) {
        i
    } else {
        next_sep(win, p, i + 1)
    }
}

/// Whether `c` is an ASCII letter.
pub open spec fn is_ascii_letter(c: char) -> bool {
    (65 <= (c as u32) <= 90) || (97 <= (c as u32) <= 122)
}

/// The code of `c` with ASCII lower case letters made upper case.
pub open spec fn upper(c: char) -> u32 {
    if 97 <= (c as u32) <= 122 {
        ((c as u32) - 32) as u32
    } else {
        c as u32
    }
}

/// Whether a Windows path starts with a drive prefix (`C:`).
pub open spec fn is_disk_prefix(p: Seq<char>) -> bool {
    p.len() >= 2 && is_ascii_letter(p[0]) && p[1] == ':'
}

/// Where the server of a UNC prefix (`\\server\share`) ends.
pub open spec fn unc_server_end(p: Seq<char>) -> int {
    next_sep(true, p, 2)
}

/// Where the share of a UNC prefix ends.
pub open spec fn unc_share_end(p: Seq<char>) -> int {
    next_sep(true, p, unc_server_end(p) + 1)
}

/// Whether a Windows path starts with a UNC prefix: two separators, a
/// server, a separator and a share, neither of them empty.
pub open spec fn is_unc_prefix(p: Seq<char>) -> bool {
    &&& p.len() >= 2
    &&& is_sep(true, p[0])
    &&& is_sep(true, p[1])
    &&& 2 < unc_server_end(p) < p.len()
    &&& unc_share_end(p) > unc_server_end(p) + 1
}

/// The length of the prefix of a path (none outside Windows).
pub open spec fn prefix_len(win: bool, p: Seq<char>) -> int {
    if !win {
        0
    } else if is_disk_prefix(p) {
        2
    } else if is_unc_prefix(p) {
        unc_share_end(p)
    } else {
        0
    }
}

/// The prefix as a component: the drive as written, or `\\server\share`.
pub open spec fn prefix_key(p: Seq<char>) -> Seq<char> {
    if is_disk_prefix(p) {
        p.subrange(0, 2)
    } else {
        seq!['\\', '\\'] + p.subrange(2, unc_server_end(p)) + seq!['\\'] + p.subrange(
            unc_server_end(p) + 1,
            unc_share_end(p),
        )
    }
}

/// Whether a separator follows the prefix.
pub open spec fn has_physical_root(win: bool, p: Seq<char>) -> bool {
    prefix_len(win, p) < p.len() && is_sep(win, p[prefix_len(win, p)])
}

/// Whether the path has a root: a separator after the prefix, or a UNC
/// prefix (which implies one).
pub open spec fn has_root(win: bool, p: Seq<char>) -> bool {
    has_physical_root(win, p) || (win && is_unc_prefix(p) && !is_disk_prefix(p))
}

/// Whether the path is absolute: rooted, and on Windows with a prefix too.
pub open spec fn is_absolute(win: bool, p: Seq<char>) -> bool {
    if win {
        prefix_len(win, p) > 0 && has_root(win, p)
    } else {
        has_root(win, p)
    }
}

/// The separator that joining inserts.
pub open spec fn main_sep(win: bool) -> Seq<char> {
    if win {
        seq!['\\']
    } else {
        seq!['/']
    }
}

/// Whether joining to `base` inserts a separator: `base` is not empty, does
/// not end with a separator, and is not a bare drive.
pub open spec fn needs_sep(win: bool, base: Seq<char>) -> bool {
    &&& base.len() > 0
    &&& !is_sep(win, base.last())
    &&& !(win && is_disk_prefix(base) && base.len() == 2)
}

/// The path that `x` names relative to `base`, as `Path::join` forms it: an
/// absolute `x`, or (on Windows) one with a prefix, replaces `base`; a
/// rooted `x` without prefix keeps only the prefix of `base`; any other `x`
/// is appended, with a separator where one is needed.
pub open spec fn joined_path(win: bool, base: Seq<char>, x: Seq<char>) -> Seq<char> {
    if is_absolute(win, x) || prefix_len(win, x) > 0 {
        x
    } else if has_root(win, x) {
        base.subrange(0, prefix_len(win, base)) + x
    } else if needs_sep(win, base) {
        base + main_sep(win) + x
    } else {
        base + x
    }
}

/// Whether the path starts, after its prefix, with the component `.`
/// (which counts only where there is no root).
pub open spec fn has_cur_dir(win: bool, p: Seq<char>) -> bool {
    let k = prefix_len(win, p);
    &&& !has_root(win, p)
    &&& k < p.len()
    &&& p[k] == '.'
    &&& (k + 1 == p.len() || is_sep(win, p[k + 1]))
}

/// The pieces of `s` between separators.
pub open spec fn split_path(win: bool, s: Seq<char>) -> Seq<Seq<char>>
    decreases s.len(),
{
    if s.len() == 0 {
        seq![Seq::<char>::empty()]
    } else {
        let prev = split_path(win, s.drop_last());
        if is_sep(win, s.last()) {
            prev.push(Seq::<char>::empty())
        } else {
            prev.update(prev.len() - 1, prev.last().push(s.last()))
        }
    }
}

/// The pieces that name components: not empty and not `.`.
pub open spec fn normal_pieces(ps: Seq<Seq<char>>) -> Seq<Seq<char>>
    decreases ps.len(),
{
    if ps.len() == 0 {
        Seq::empty()
    } else {
        let prev = normal_pieces(ps.drop_last());
        if ps.last().len() == 0 || ps.last() == seq!['.'] {
            prev
        } else {
            prev.push(ps.last())
        }
    }
}

/// The components of a path, as `Path::components` yields them: the prefix,
/// the root (written as the separator), `.` where the path starts with it
/// and has no root, then the pieces between separators other than empty ones
/// and `.`.
pub open spec fn path_components(win: bool, p: Seq<char>) -> Seq<Seq<char>> {
    let k = prefix_len(win, p);
    (if k > 0 {
        seq![prefix_key(p)]
    } else {
        Seq::empty()
    }) + (if has_root(win, p) {
        seq![main_sep(win)]
    } else {
        Seq::empty()
    }) + (if has_cur_dir(win, p) {
        seq![seq!['.']]
    } else {
        Seq::empty()
    }) + normal_pieces(split_path(win, p.subrange(k, p.len() as int)))
}

/// Whether two prefixes are the same: equal, or the same drive letter in
/// either case.
pub open spec fn same_prefix(a: Seq<char>, b: Seq<char>) -> bool {
    ||| a == b
    ||| {
        &&& is_disk_prefix(a) && a.len() == 2
        &&& is_disk_prefix(b) && b.len() == 2
        &&& upper(a[0]) == upper(b[0])
    }
}

/// Whether two lists of components name the same path (`Path` equality).
pub open spec fn same_components(win: bool, a: Seq<Seq<char>>, b: Seq<Seq<char>>) -> bool {
    &&& a.len() == b.len()
    &&& forall|i: int|
        0 <= i < a.len() ==> (#[trigger] a[i] == b[i] || (win && i == 0 && same_prefix(a[0], b[0])))
}

/// Whether two paths are equal as `Path`s.
pub open spec fn same_path(win: bool, a: Seq<char>, b: Seq<char>) -> bool {
    same_components(win, path_components(win, a), path_components(win, b))
}

pub proof fn lemma_same_path_reflexive(win: bool, a: Seq<char>)
    ensures
        same_path(win, a, a),
{
}

proof fn lemma_split_path_nonempty(win: bool, s: Seq<char>)
    ensures
        split_path(win, s).len() >= 1,
    decreases s.len(),
{
    if s.len() > 0 {
        lemma_split_path_nonempty(win, s.drop_last());
    }
}

/// Whether `target_os` names Windows.
pub fn is_windows_os(target_os: &str) -> (r: bool)
    ensures
        r == is_windows(target_os@),
{
    str_eq(target_os, "windows")
}

fn is_sep_char(win: bool, c: char) -> (r: bool)
    ensures
        r == is_sep(win, c),
{
    c == '/' || (win && c == '\\')
}

fn is_letter(c: char) -> (r: bool)
    ensures
        r == is_ascii_letter(c),
{
    let v = c as u32;
    (65 <= v && v <= 90) || (97 <= v && v <= 122)
}

fn upper_code(c: char) -> (r: u32)
    ensures
        r == upper(c),
{
    let v = c as u32;
    if 97 <= v && v <= 122 {
        v - 32
    } else {
        v
    }
}

fn next_sep_from(win: bool, p: &str, start: usize) -> (r: usize)
    requires
        start <= p@.len(),
    ensures
        r == next_sep(win, p@, start as int),
        start <= r <= p@.len(),
{
    let n = p.unicode_len();
    let mut i = start;
    while i < n
        invariant
            start <= i <= n,
            n == p@.len(),
            next_sep(win, p@, i as int) == next_sep(win, p@, start as int),
        decreases n - i,
    {
        if is_sep_char(win, p.get_char(i)) {
            return i;
        }
        i = i + 1;
    }
    i
}

proof fn lemma_next_sep_bounds(win: bool, p: Seq<char>, i: int)
    requires
        0 <= i <= p.len(),
    ensures
        i <= next_sep(win, p, i) <= p.len(),
    decreases p.len() - i,
{
    if i < p.len() && !is_sep(win, p[i]) {
        lemma_next_sep_bounds(win, p, i + 1);
    }
}

fn disk_prefix(win: bool, p: &str) -> (r: bool)
    ensures
        r == (win && is_disk_prefix(p@)),
{
    win && p.unicode_len() >= 2 && is_letter(p.get_char(0)) && p.get_char(1) == ':'
}

fn unc_prefix(win: bool, p: &str) -> (r: bool)
    ensures
        r == (win && is_unc_prefix(p@)),
{
    if !win {
        return false;
    }
    let n = p.unicode_len();
    if n >= 2 && is_sep_char(true, p.get_char(0)) && is_sep_char(true, p.get_char(1)) {
        let e1 = next_sep_from(true, p, 2);
        if 2 < e1 && e1 < n {
            let e2 = next_sep_from(true, p, e1 + 1);
            e2 > e1 + 1
        } else {
            false
        }
    } else {
        false
    }
}

fn prefix_length(win: bool, p: &str) -> (r: usize)
    ensures
        r == prefix_len(win, p@),
        r <= p@.len(),
{
    if disk_prefix(win, p) {
        2
    } else if unc_prefix(win, p) {
        let n = p.unicode_len();
        let e1 = next_sep_from(true, p, 2);
        assert(e1 < n);
        next_sep_from(true, p, e1 + 1)
    } else {
        0
    }
}

fn prefix_component(win: bool, p: &str) -> (r: String)
    requires
        prefix_len(win, p@) > 0,
    ensures
        r@ == prefix_key(p@),
{
    if disk_prefix(win, p) {
        p.substring_char(0, 2).to_owned()
    } else {
        let n = p.unicode_len();
        let e1 = next_sep_from(true, p, 2);
        assert(e1 < n);
        let e2 = next_sep_from(true, p, e1 + 1);
        proof {
            reveal_strlit("\\\\");
            reveal_strlit("\\");
            assert("\\\\"@ =~= seq!['\\', '\\']);
            assert("\\"@ =~= seq!['\\']);
        }
        let mut r = String::from_str("\\\\");
        r.append(p.substring_char(2, e1));
        r.append("\\");
        r.append(p.substring_char(e1 + 1, e2));
        r
    }
}

fn has_root_exec(win: bool, p: &str) -> (r: bool)
    ensures
        r == has_root(win, p@),
{
    let k = prefix_length(win, p);
    let phys = k < p.unicode_len() && is_sep_char(win, p.get_char(k));
    phys || (unc_prefix(win, p) && !disk_prefix(win, p))
}

fn split_path_pieces(win: bool, s: &str) -> (r: Vec<String>)
    ensures
        r.deep_view() == split_path(win, s@),
{
    let n = s.unicode_len();
    let mut pieces: Vec<String> = Vec::new();
    let mut start: usize = 0;
    assert(s@.take(0) =~= Seq::<char>::empty());
    assert(s@.subrange(0, 0) =~= Seq::<char>::empty());
    assert(pieces.deep_view().push(s@.subrange(0, 0)) =~= split_path(win, s@.take(0)));
    for i in 0..n
        invariant
            n == s@.len(),
            start <= i,
            split_path(win, s@.take(i as int)) == pieces.deep_view().push(
                s@.subrange(start as int, i as int),
            ),
    {
        let c = s.get_char(i);
        let ghost before = pieces.deep_view();
        assert(s@.take(i + 1).drop_last() =~= s@.take(i as int));
        assert(s@.take(i + 1).last() == c);
        if is_sep_char(win, c) {
            let piece = s.substring_char(start, i).to_owned();
            pieces.push(piece);
            start = i + 1;
            assert(pieces.deep_view() =~= before.push(piece@));
            assert(s@.subrange(start as int, (i + 1) as int) =~= Seq::<char>::empty());
            assert(split_path(win, s@.take(i + 1)) =~= pieces.deep_view().push(
                s@.subrange(start as int, (i + 1) as int),
            ));
        } else {
            assert(s@.subrange(start as int, i as int).push(c) =~= s@.subrange(
                start as int,
                (i + 1) as int,
            ));
            assert(split_path(win, s@.take(i + 1)) =~= pieces.deep_view().push(
                s@.subrange(start as int, (i + 1) as int),
            ));
        }
    }
    let last = s.substring_char(start, n).to_owned();
    let ghost before = pieces.deep_view();
    pieces.push(last);
    assert(pieces.deep_view() =~= before.push(last@));
    assert(s@.take(n as int) =~= s@);
    pieces
}

/// The path that `x` names relative to `base` on the system `target_os`
/// (see `joined_path`).
pub fn join_path(target_os: &str, base: &str, x: &str) -> (r: String)
    ensures
        r@ == joined_path(is_windows(target_os@), base@, x@),
{
    let win = is_windows_os(target_os);
    proof {
        reveal_strlit("/");
        reveal_strlit("\\");
        assert("/"@ =~= seq!['/']);
        assert("\\"@ =~= seq!['\\']);
    }
    let xk = prefix_length(win, x);
    let x_root = has_root_exec(win, x);
    let x_absolute = if win {
        xk > 0 && x_root
    } else {
        x_root
    };
    if x_absolute || xk > 0 {
        x.to_owned()
    } else if x_root {
        let bk = prefix_length(win, base);
        let mut r = base.substring_char(0, bk).to_owned();
        r.append(x);
        r
    } else {
        let n = base.unicode_len();
        let sep_needed = n > 0 && !is_sep_char(win, base.get_char(n - 1)) && !(disk_prefix(
            win,
            base,
        ) && n == 2);
        let mut r = base.to_owned();
        if sep_needed {
            if win {
                r.append("\\");
            } else {
                r.append("/");
            }
        }
        r.append(x);
        r
    }
}

/// The components of the path `p` on the system `target_os` (see
/// `path_components`).
pub fn components(target_os: &str, p: &str) -> (r: Vec<String>)
    ensures
        r.deep_view() == path_components(is_windows(target_os@), p@),
{
    let win = is_windows_os(target_os);
    components_of(win, p)
}

fn components_of(win: bool, p: &str) -> (r: Vec<String>)
    ensures
        r.deep_view() == path_components(win, p@),
{
    proof {
        reveal_strlit("/");
        reveal_strlit("\\");
        reveal_strlit(".");
        assert("/"@ =~= seq!['/']);
        assert("\\"@ =~= seq!['\\']);
        assert("."@ =~= seq!['.']);
    }
    let n = p.unicode_len();
    let k = prefix_length(win, p);
    let root = has_root_exec(win, p);
    let cur = !root && k < n && p.get_char(k) == '.' && (k + 1 == n || is_sep_char(
        win,
        p.get_char(k + 1),
    ));
    let mut r: Vec<String> = Vec::new();
    assert(r.deep_view() =~= Seq::<Seq<char>>::empty());
    if k > 0 {
        let key = prefix_component(win, p);
        r.push(key);
        assert(r.deep_view() =~= seq![prefix_key(p@)]);
    }
    let ghost after_prefix = r.deep_view();
    if root {
        let sep = if win {
            String::from_str("\\")
        } else {
            String::from_str("/")
        };
        r.push(sep);
        assert(r.deep_view() =~= after_prefix.push(main_sep(win)));
    }
    let ghost after_root = r.deep_view();
    if cur {
        let dot = String::from_str(".");
        r.push(dot);
        assert(r.deep_view() =~= after_root.push(seq!['.']));
    }
    let ghost front = r.deep_view();
    assert(front =~= (if k > 0 {
        seq![prefix_key(p@)]
    } else {
        Seq::<Seq<char>>::empty()
    }) + (if has_root(win, p@) {
        seq![main_sep(win)]
    } else {
        Seq::<Seq<char>>::empty()
    }) + (if has_cur_dir(win, p@) {
        seq![seq!['.']]
    } else {
        Seq::<Seq<char>>::empty()
    }));
    let rest = p.substring_char(k, n);
    let parts = split_path_pieces(win, rest);
    let ghost ps = parts.deep_view();
    let m = parts.len();
    assert(ps.take(0) =~= Seq::<Seq<char>>::empty());
    assert(r.deep_view() =~= front + normal_pieces(ps.take(0)));
    for i in 0..m
        invariant
            m == parts.len(),
            ps == parts.deep_view(),
            "."@ == seq!['.'],
            r.deep_view() == front + normal_pieces(ps.take(i as int)),
    {
        assert(ps.take(i + 1).drop_last() =~= ps.take(i as int));
        assert(ps.take(i + 1).last() == parts[i as int]@);
        let piece = parts[i].as_str();
        if piece.unicode_len() > 0 && !str_eq(piece, ".") {
            let ghost before = r.deep_view();
            r.push(parts[i].clone());
            assert(r.deep_view() =~= before.push(parts[i as int]@));
            assert(r.deep_view() =~= front + normal_pieces(ps.take(i + 1)));
        }
    }
    assert(ps.take(m as int) =~= ps);
    r
}

fn same_prefix_exec(a: &str, b: &str) -> (r: bool)
    ensures
        r == same_prefix(a@, b@),
{
    if str_eq(a, b) {
        return true;
    }
    disk_prefix(true, a) && a.unicode_len() == 2 && disk_prefix(true, b) && b.unicode_len() == 2
        && upper_code(a.get_char(0)) == upper_code(b.get_char(0))
}

fn same_components_exec(win: bool, a: &Vec<String>, b: &Vec<String>) -> (r: bool)
    ensures
        r == same_components(win, a.deep_view(), b.deep_view()),
{
    if a.len() != b.len() {
        assert(a.deep_view().len() != b.deep_view().len());
        return false;
    }
    let n = a.len();
    for i in 0..n
        invariant
            n == a.len(),
            n == b.len(),
            forall|j: int|
                0 <= j < i ==> (#[trigger] a.deep_view()[j] == b.deep_view()[j] || (win && j == 0
                    && same_prefix(a.deep_view()[0], b.deep_view()[0]))),
    {
        if !str_eq(a[i].as_str(), b[i].as_str()) {
            if !(win && i == 0 && same_prefix_exec(a[0].as_str(), b[0].as_str())) {
                assert(!(a.deep_view()[i as int] == b.deep_view()[i as int] || (win && i == 0
                    && same_prefix(a.deep_view()[0], b.deep_view()[0]))));
                return false;
            }
        }
    }
    true
}

/// Whether the paths `a` and `b` are equal as `Path`s on the system
/// `target_os`.
pub fn paths_equal(target_os: &str, a: &str, b: &str) -> (r: bool)
    ensures
        r == same_path(is_windows(target_os@), a@, b@),
{
    let win = is_windows_os(target_os);
    let ca = components_of(win, a);
    let cb = components_of(win, b);
    same_components_exec(win, &ca, &cb)
}

} // verus!
