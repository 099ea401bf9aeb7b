//! String helpers with exact specifications: concatenation of lists,
//! splitting at a separator, and the extension of a file name.
use vstd::prelude::*;

verus! {

/// The parts, with `sep` between each two neighbours (as `[String]::join`).
pub open spec fn joined(parts: Seq<Seq<char>>, sep: Seq<char>) -> Seq<char>
    decreases parts.len(),
{
    if parts.len() == 0 {
        Seq::empty()
    } else if parts.len() == 1 {
        parts[0]
    } else {
        joined(parts.drop_last(), sep) + sep + parts.last()
    }
}

/// The pieces of `s` between the occurrences of `sep` (as `str::split` with a
/// `char` pattern): one more piece than there are separators.
pub open spec fn split_on(s: Seq<char>, sep: char) -> Seq<Seq<char>>
    decreases s.len(),
{
    if s.len() == 0 {
        seq![Seq::<char>::empty()]
    } else {
        let prev = split_on(s.drop_last(), sep);
        if s.last() == sep {
            prev.push(Seq::<char>::empty())
        } else {
            prev.update(prev.len() - 1, prev.last().push(s.last()))
        }
    }
}

/// Index of the last `c` in `s`, or -1 where there is none.
pub open spec fn last_index_of(s: Seq<char>, c: char) -> int
    decreases s.len(),
{
    if s.len() == 0 {
        -1
    } else if s.last() == c {
        s.len() - 1
    } else {
        last_index_of(s.drop_last(), c)
    }
}

/// The extension of a file name, as `Path::extension` documents it: the part
/// after the last `.`; none where the name has no `.`, where its only `.` is
/// its first character, or where the name is `..`.
pub open spec fn file_extension(name: Seq<char>) -> Option<Seq<char>> {
    let i = last_index_of(name, '.');
    if name == seq!['.', '.'] || i <= 0 {
        None
    } else {
        Some(name.subrange(i + 1, name.len() as int))
    }
}

pub proof fn lemma_split_nonempty(s: Seq<char>, sep: char)
    ensures
        split_on(s, sep).len() >= 1,
    decreases s.len(),
{
    if s.len() > 0 {
        lemma_split_nonempty(s.drop_last(), sep);
    }
}

proof fn lemma_joined_extend_last(ps: Seq<Seq<char>>, sep: Seq<char>, x: char)
    requires
        ps.len() >= 1,
    ensures
        joined(ps.update(ps.len() - 1, ps.last().push(x)), sep) == joined(ps, sep).push(x),
{
    let qs = ps.update(ps.len() - 1, ps.last().push(x));
    if ps.len() >= 2 {
        assert(qs.drop_last() =~= ps.drop_last());
        assert(joined(qs, sep) =~= joined(ps, sep).push(x));
    }
}

/// Splitting at `sep` and joining the pieces with `sep` again gives back the
/// string, and no piece holds the separator.
pub proof fn lemma_split_join_roundtrip(s: Seq<char>, sep: char)
    ensures
        joined(split_on(s, sep), seq![sep]) == s,
        forall|i: int|
            0 <= i < split_on(s, sep).len() ==> !(#[trigger] split_on(s, sep)[i]).contains(sep),
    decreases s.len(),
{
    if s.len() == 0 {
        assert(split_on(s, sep) =~= seq![Seq::<char>::empty()]);
        assert(joined(split_on(s, sep), seq![sep]) =~= s);
        assert forall|i: int| 0 <= i < split_on(s, sep).len() implies !(
        #[trigger] split_on(s, sep)[i]).contains(sep) by {
            assert(split_on(s, sep)[i] =~= Seq::<char>::empty());
        }
    } else {
        let prev = split_on(s.drop_last(), sep);
        lemma_split_nonempty(s.drop_last(), sep);
        lemma_split_join_roundtrip(s.drop_last(), sep);
        if s.last() == sep {
            let cur = prev.push(Seq::<char>::empty());
            assert(cur.drop_last() =~= prev);
            assert(joined(cur, seq![sep]) =~= s);
            assert forall|i: int| 0 <= i < cur.len() implies !(#[trigger] cur[i]).contains(sep) by {
                if i < prev.len() {
                    assert(cur[i] == prev[i]);
                } else {
                    assert(cur[i] =~= Seq::<char>::empty());
                }
            }
        } else {
            let k = prev.len() - 1;
            let cur = prev.update(k, prev.last().push(s.last()));
            lemma_joined_extend_last(prev, seq![sep], s.last());
            assert(joined(cur, seq![sep]) =~= s);
            assert forall|i: int| 0 <= i < cur.len() implies !(#[trigger] cur[i]).contains(sep) by {
                if i < k {
                    assert(cur[i] == prev[i]);
                } else {
                    let p = prev[k];
                    assert(!p.contains(sep));
                    if cur[i].contains(sep) {
                        let j = choose|j: int| 0 <= j < cur[i].len() && cur[i][j] == sep;
                        if j < p.len() {
                            assert(p[j] == sep);
                        }
                    }
                }
            }
        }
    }
}

/// Whether two strings hold the same characters.
pub fn str_eq(a: &str, b: &str) -> (r: bool)
    ensures
        r == (a@ == b@),
{
    let x = a.to_owned();
    let y = b.to_owned();
    x == y
}

/// Whether `s` ends with the character `c`.
pub fn ends_with_char(s: &str, c: char) -> (r: bool)
    ensures
        r == (s@.len() > 0 && s@.last() == c),
{
    let n = s.unicode_len();
    if n == 0 {
        false
    } else {
        s.get_char(n - 1) == c
    }
}

/// `"true"` or `"false"`, as `bool` prints.
pub fn bool_text(b: bool) -> (r: &'static str)
    ensures
        r@ == (if b { "true"@ } else { "false"@ }),
{
    if b {
        "true"
    } else {
        "false"
    }
}

/// The parts joined into one string with `sep` between neighbours.
pub fn join(parts: &Vec<String>, sep: &str) -> (r: String)
    ensures
        r@ == joined(parts.deep_view(), sep@),
{
    let n = parts.len();
    let mut r = String::new();
    let ghost all = parts.deep_view();
    for i in 0..n
        invariant
            n == parts.len(),
            all == parts.deep_view(),
            r@ == joined(all.take(i as int), sep@),
    {
        assert(all.take(i + 1).drop_last() =~= all.take(i as int));
        if i == 0 {
            assert(all.take(1) =~= seq![all[0]]);
            r.append(parts[i].as_str());
        } else {
            r.append(sep);
            r.append(parts[i].as_str());
        }
        assert(all.take(i + 1).last() == parts[i as int]@);
    }
    assert(all.take(n as int) =~= all);
    r
}

/// The pieces of `s` between the occurrences of `sep`.
pub fn split(s: &str, sep: char) -> (r: Vec<String>)
    ensures
        r.deep_view() == split_on(s@, sep),
{
    let n = s.unicode_len();
    let mut pieces: Vec<String> = Vec::new();
    let mut start: usize = 0;
    assert(s@.take(0) =~= Seq::<char>::empty());
    assert(s@.subrange(0, 0) =~= Seq::<char>::empty());
    assert(pieces.deep_view().push(s@.subrange(0, 0)) =~= split_on(s@.take(0), sep));
    for i in 0..n
        invariant
            n == s@.len(),
            start <= i,
            split_on(s@.take(i as int), sep) == pieces.deep_view().push(s@.subrange(start as int, i as int)),
    {
        let c = s.get_char(i);
        let ghost before = pieces.deep_view();
        assert(s@.take(i + 1).drop_last() =~= s@.take(i as int));
        assert(s@.take(i + 1).last() == c);
        if c == sep {
            let piece = s.substring_char(start, i).to_owned();
            pieces.push(piece);
            start = i + 1;
            assert(pieces.deep_view() =~= before.push(piece@));
            assert(s@.subrange(start as int, (i + 1) as int) =~= Seq::<char>::empty());
            assert(split_on(s@.take(i + 1), sep) =~= pieces.deep_view().push(s@.subrange(start as int, (i + 1) as int)));
        } else {
            assert(s@.subrange(start as int, i as int).push(c) =~= s@.subrange(start as int, (i + 1) as int));
            assert(split_on(s@.take(i + 1), sep) =~= pieces.deep_view().push(s@.subrange(start as int, (i + 1) as int)));
        }
    }
    let last = s.substring_char(start, n).to_owned();
    let ghost before = pieces.deep_view();
    pieces.push(last);
    assert(pieces.deep_view() =~= before.push(last@));
    assert(s@.take(n as int) =~= s@);
    pieces
}

/// The extension of a file name (see `file_extension`).
pub fn extension(name: &str) -> (r: Option<String>)
    ensures
        match r {
            Some(e) => file_extension(name@) == Some(e@),
            None => file_extension(name@) is None,
        },
{
    let n = name.unicode_len();
    let mut last: usize = 0;
    let mut found = false;
    for i in 0..n
        invariant
            n == name@.len(),
            found ==> last < i,
            last_index_of(name@.take(i as int), '.') == (if found { last as int } else { -1 }),
    {
        assert(name@.take(i + 1).drop_last() =~= name@.take(i as int));
        if name.get_char(i) == '.' {
            last = i;
            found = true;
        }
    }
    assert(name@.take(n as int) =~= name@);
    let is_dot_dot = n == 2 && name.get_char(0) == '.' && name.get_char(1) == '.';
    assert(is_dot_dot == (name@ == seq!['.', '.'])) by {
        if name@ == seq!['.', '.'] {
            assert(name@[0] == '.' && name@[1] == '.');
        }
        if is_dot_dot {
            assert(name@ =~= seq!['.', '.']);
        }
    }
    if is_dot_dot || !found || last == 0 {
        None
    } else {
        Some(name.substring_char(last + 1, n).to_owned())
    }
}

} // verus!
