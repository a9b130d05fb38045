//! Resolving an icon name to a file after the freedesktop icon-theme
//! specification: the size distance of a theme subdirectory, the key lists
//! of `index.theme`, the active theme's name, the base directories searched,
//! and the lookup itself over a snapshot of the file system.
use vstd::prelude::*;

use crate::text::{
    chars_of, lemma_split_on_nonempty, pieces_view, push_str, slice_starts_with, split_bounds,
    split_on, starts_with, string_of, to_owned_string, trim, trim_bounds,
};

verus! {

/// The icon size looked for.
pub const PREFERRED_SIZE: u32 = 48;

pub open spec fn is_digit(c: char) -> bool {
    '0' <= c && c <= '9'
}

pub open spec fn all_digits(s: Seq<char>) -> bool {
    forall|i: int| 0 <= i < s.len() ==> is_digit(#[trigger] s[i])
}

/// The number that a string of decimal digits denotes.
pub open spec fn digits_value(s: Seq<char>) -> nat
    decreases s.len(),
{
    if s.len() == 0 {
        0
    } else {
        digits_value(s.drop_last()) * 10 + ((s.last() as nat) - 48) as nat
    }
}

/// The digits that `u32::from_str` reads: all but one leading '+'.
pub open spec fn unsigned_digits(s: Seq<char>) -> Seq<char> {
    if s.len() > 1 && s[0] == '+' {
        s.skip(1)
    } else {
        s
    }
}

/// `u32::from_str`: an optional '+', then one or more decimal digits whose
/// value fits in 32 bits.
pub open spec fn parse_u32(s: Seq<char>) -> Option<u32> {
    let d = unsigned_digits(s);
    if d.len() > 0 && all_digits(d) && digits_value(d) <= u32::MAX {
        Some(digits_value(d) as u32)
    } else {
        None
    }
}

/// A prefix of a string of digits denotes no more than the whole string.
pub proof fn lemma_digits_value_prefix(s: Seq<char>, j: int)
    requires
        all_digits(s),
        0 <= j <= s.len(),
    ensures
        digits_value(s.take(j)) <= digits_value(s),
    decreases s.len(),
{
    if j < s.len() {
        assert(s.drop_last().take(j) =~= s.take(j));
        lemma_digits_value_prefix(s.drop_last(), j);
    } else {
        assert(s.take(j) =~= s);
    }
}

/// Reads `v[lo..hi]` as `u32::from_str` does.
fn parse_u32_slice(v: &Vec<char>, lo: usize, hi: usize) -> (r: Option<u32>)
    requires
        lo <= hi <= v@.len(),
    ensures
        r == parse_u32(v@.subrange(lo as int, hi as int)),
{
    let ghost s = v@.subrange(lo as int, hi as int);
    let mut a = lo;
    if hi - lo > 1 && v[lo] == '+' {
        a = lo + 1;
        assert(unsigned_digits(s) =~= v@.subrange(a as int, hi as int));
    } else {
        assert(unsigned_digits(s) =~= v@.subrange(a as int, hi as int));
    }
    let ghost d = v@.subrange(a as int, hi as int);
    if a == hi {
        return None;
    }
    let mut acc: u64 = 0;
    let mut k = a;
    assert(d.take(0) =~= Seq::<char>::empty());
    while k < hi
        invariant
            lo <= a <= k <= hi <= v@.len(),
            d == v@.subrange(a as int, hi as int),
            s == v@.subrange(lo as int, hi as int),
            unsigned_digits(s) == d,
            acc == digits_value(d.take(k - a)),
            acc <= u32::MAX,
            all_digits(d.take(k - a)),
        decreases hi - k,
    {
        let c = v[k];
        if !('0' <= c && c <= '9') {
            assert(!is_digit(d[k - a]));
            assert(!all_digits(d));
            return None;
        }
        let digit: u64 = (c as u32 - 48) as u64;
        assert(d.take(k - a + 1).drop_last() =~= d.take(k - a));
        acc = acc * 10 + digit;
        assert(acc == digits_value(d.take(k - a + 1)));
        if acc > 4294967295u64 {
            proof {
                if all_digits(d) {
                    lemma_digits_value_prefix(d, k - a + 1);
                }
                assert(parse_u32(s) is None);
            }
            return None;
        }
        k = k + 1;
    }
    assert(d.take(k - a) =~= d);
    Some(acc as u32)
}

/// `c` with ASCII upper-case letters mapped to lower case.
pub open spec fn ascii_lower(c: char) -> char {
    if 'A' <= c && c <= 'Z' {
        ((c as nat) + 32) as char
    } else {
        c
    }
}

/// `str::eq_ignore_ascii_case`.
pub open spec fn eq_ignore_ascii_case(a: Seq<char>, b: Seq<char>) -> bool {
    a.len() == b.len() && forall|i: int| 0 <= i < a.len() ==> ascii_lower(#[trigger] a[i])
        == ascii_lower(b[i])
}

pub open spec fn scalable() -> Seq<char> {
    seq!['s', 'c', 'a', 'l', 'a', 'b', 'l', 'e']
}

fn to_ascii_lower(c: char) -> (r: char)
    ensures
        r == ascii_lower(c),
{
    if 'A' <= c && c <= 'Z' {
        let b: u8 = (c as u32 + 32) as u8;
        b as char
    } else {
        c
    }
}

fn is_scalable(v: &Vec<char>, lo: usize, hi: usize) -> (r: bool)
    requires
        lo <= hi <= v@.len(),
    ensures
        r == eq_ignore_ascii_case(v@.subrange(lo as int, hi as int), scalable()),
{
    let t: Vec<char> = vec!['s', 'c', 'a', 'l', 'a', 'b', 'l', 'e'];
    assert(t@ =~= scalable());
    if hi - lo != 8 {
        return false;
    }
    let mut i: usize = 0;
    while i < 8
        invariant
            hi - lo == 8,
            lo <= hi <= v@.len(),
            t@ == scalable(),
            0 <= i <= 8,
            forall|j: int| 0 <= j < i ==> ascii_lower(v@[lo + j]) == ascii_lower(t@[j]),
        decreases 8 - i,
    {
        if to_ascii_lower(v[lo + i]) != to_ascii_lower(t[i]) {
            assert(ascii_lower(v@.subrange(lo as int, hi as int)[i as int]) != ascii_lower(
                scalable()[i as int],
            ));
            return false;
        }
        i = i + 1;
    }
    assert forall|j: int| 0 <= j < 8 implies ascii_lower(
        #[trigger] v@.subrange(lo as int, hi as int)[j],
    ) == ascii_lower(scalable()[j]) by {
        assert(v@.subrange(lo as int, hi as int)[j] == v@[lo + j]);
    }
    true
}

/// `|a - b|`.
pub open spec fn abs_diff(a: u32, b: u32) -> u32 {
    if a >= b {
        (a - b) as u32
    } else {
        (b - a) as u32
    }
}

/// The part of `s` before the first `sep` (`s.split(sep).next()`).
pub open spec fn first_piece(s: Seq<char>, sep: char) -> Seq<char> {
    split_on(s, sep)[0]
}

/// The size part of a theme subdirectory: "48x48/apps" and "48x48@2x" give "48x48".
pub open spec fn size_base(subdir: Seq<char>) -> Seq<char> {
    first_piece(first_piece(subdir, '/'), '@')
}

/// How far a theme subdirectory's icon size is from the preferred size:
/// half the preferred size for scalable icons, the distance of the width
/// for "WxH" sizes, and the largest `u32` for anything else.
pub open spec fn size_dist(subdir: Seq<char>) -> u32 {
    let base = size_base(subdir);
    if eq_ignore_ascii_case(base, scalable()) {
        (PREFERRED_SIZE / 2) as u32
    } else {
        match parse_u32(first_piece(base, 'x')) {
            Some(w) => abs_diff(w, PREFERRED_SIZE),
            None => u32::MAX,
        }
    }
}

/// Distance 0 is an exact match: a subdirectory is at distance 0 exactly
/// when its size part is not "scalable" and its width reads as 48.
pub proof fn law_size_distance_exact(subdir: Seq<char>)
    ensures
        size_dist(subdir) == 0 <==> (!eq_ignore_ascii_case(size_base(subdir), scalable()) && parse_u32(
            first_piece(size_base(subdir), 'x'),
        ) == Some(48u32)),
{
}

fn first_piece_bounds(v: &Vec<char>, lo: usize, hi: usize, sep: char) -> (r: (usize, usize))
    requires
        lo <= hi <= v@.len(),
    ensures
        lo <= r.0 <= r.1 <= hi,
        v@.subrange(r.0 as int, r.1 as int) == first_piece(v@.subrange(lo as int, hi as int), sep),
{
    let b = split_bounds(v, lo, hi, sep);
    proof {
        lemma_split_on_nonempty(v@.subrange(lo as int, hi as int), sep);
    }
    assert(pieces_view(v@, b@)[0] == v@.subrange(b@[0].0 as int, b@[0].1 as int));
    b[0]
}

/// The distance of a theme subdirectory's icon size from the preferred size;
/// lower is better and 0 is an exact match.
pub fn size_distance(subdir: &str) -> (d: u32)
    ensures
        d == size_dist(subdir@),
{
    let v = chars_of(subdir);
    assert(v@.subrange(0, v@.len() as int) =~= subdir@);
    let (a1, b1) = first_piece_bounds(&v, 0, v.len(), '/');
    let (a2, b2) = first_piece_bounds(&v, a1, b1, '@');
    if is_scalable(&v, a2, b2) {
        return PREFERRED_SIZE / 2;
    }
    let (a3, b3) = first_piece_bounds(&v, a2, b2, 'x');
    match parse_u32_slice(&v, a3, b3) {
        Some(w) => if w >= PREFERRED_SIZE {
            w - PREFERRED_SIZE
        } else {
            PREFERRED_SIZE - w
        },
        None => u32::MAX,
    }
}

/// The trimmed, non-empty pieces, in order.
pub open spec fn nonempty_trimmed(ps: Seq<Seq<char>>) -> Seq<Seq<char>>
    decreases ps.len(),
{
    if ps.len() == 0 {
        Seq::empty()
    } else {
        let r = nonempty_trimmed(ps.drop_last());
        if trim(ps.last()).len() > 0 {
            r.push(trim(ps.last()))
        } else {
            r
        }
    }
}

/// The entries of a comma-separated list, trimmed, empty ones left out.
pub open spec fn list_items(s: Seq<char>) -> Seq<Seq<char>> {
    nonempty_trimmed(split_on(s, ','))
}

/// What follows `key` on the first of the lines from `i` on that starts
/// with `key` once trimmed.
pub open spec fn first_key_line(lines: Seq<Seq<char>>, key: Seq<char>, i: nat) -> Option<Seq<char>>
    decreases lines.len() - i,
{
    if i >= lines.len() {
        None
    } else if starts_with(trim(lines[i as int]), key) {
        Some(trim(lines[i as int]).skip(key.len() as int))
    } else {
        first_key_line(lines, key, i + 1)
    }
}

/// The list on the first `key` line of a file: "Directories=a, b" gives a and b.
/// (Splitting at '\n' finds the same first line as `str::lines`, since the
/// lines are trimmed and an empty last piece never starts with a key.)
pub open spec fn key_list(content: Seq<char>, key: Seq<char>) -> Option<Seq<Seq<char>>> {
    match first_key_line(split_on(content, '\n'), key, 0) {
        Some(rest) => Some(list_items(rest)),
        None => None,
    }
}

pub open spec fn strings_view(v: Seq<String>) -> Seq<Seq<char>> {
    v.map_values(|s: String| s@)
}

fn collect_items(v: &Vec<char>, lo: usize, hi: usize) -> (r: Vec<String>)
    requires
        lo <= hi <= v@.len(),
    ensures
        strings_view(r@) == list_items(v@.subrange(lo as int, hi as int)),
{
    let b = split_bounds(v, lo, hi, ',');
    let ghost ps = pieces_view(v@, b@);
    let mut out: Vec<String> = Vec::new();
    let mut j: usize = 0;
    assert(ps.take(0) =~= Seq::<Seq<char>>::empty());
    assert(strings_view(out@) =~= Seq::<Seq<char>>::empty());
    while j < b.len()
        invariant
            lo <= hi <= v@.len(),
            ps == pieces_view(v@, b@),
            ps == split_on(v@.subrange(lo as int, hi as int), ','),
            forall|i: int| 0 <= i < b@.len() ==> lo <= #[trigger] b@[i].0 <= b@[i].1 <= hi,
            0 <= j <= b@.len(),
            strings_view(out@) == nonempty_trimmed(ps.take(j as int)),
        decreases b@.len() - j,
    {
        let (p, q) = b[j];
        let (tp, tq) = trim_bounds(v, p, q);
        assert(ps.take(j + 1).drop_last() =~= ps.take(j as int));
        assert(ps.take(j + 1).last() == v@.subrange(p as int, q as int));
        if tq > tp {
            let ghost old_out = out@;
            out.push(string_of(v, tp, tq));
            assert(strings_view(out@) =~= strings_view(old_out).push(v@.subrange(tp as int, tq as int)));
        }
        j = j + 1;
    }
    assert(ps.take(b@.len() as int) =~= ps);
    out
}

/// The list on the first `key` line of `content`, or `None` when no line has it.
pub fn key_list_of(content: &str, key: &str) -> (r: Option<Vec<String>>)
    ensures
        match r {
            Some(l) => key_list(content@, key@) == Some(strings_view(l@)),
            None => key_list(content@, key@) is None,
        },
{
    let v = chars_of(content);
    let kv = chars_of(key);
    assert(v@.subrange(0, v@.len() as int) =~= content@);
    let lines = split_bounds(&v, 0, v.len(), '\n');
    let ghost ls = pieces_view(v@, lines@);
    let mut i: usize = 0;
    while i < lines.len()
        invariant
            ls == pieces_view(v@, lines@),
            ls == split_on(content@, '\n'),
            kv@ == key@,
            forall|j: int| 0 <= j < lines@.len() ==> 0 <= #[trigger] lines@[j].0 <= lines@[j].1
                <= v@.len(),
            0 <= i <= lines@.len(),
            first_key_line(ls, key@, 0) == first_key_line(ls, key@, i as nat),
        decreases lines@.len() - i,
    {
        let (a, b) = lines[i];
        let (ta, tb) = trim_bounds(&v, a, b);
        assert(ls[i as int] == v@.subrange(a as int, b as int));
        if slice_starts_with(&v, ta, tb, &kv) {
            let items = collect_items(&v, ta + kv.len(), tb);
            assert(trim(ls[i as int]).skip(key@.len() as int) =~= v@.subrange(
                ta + kv@.len(),
                tb as int,
            ));
            return Some(items);
        }
        i = i + 1;
    }
    None
}

/// The icon theme named by the `gsettings` answer: its output trimmed and
/// stripped of surrounding single quotes; "hicolor" when the query failed or
/// named nothing.
pub open spec fn theme_name_spec(success: bool, output: Seq<char>) -> Seq<char> {
    let t = trim(output);
    let name = if t.len() >= 2 && t[0] == '\'' && t.last() == '\'' {
        t.subrange(1, t.len() - 1)
    } else {
        t
    };
    if !success || name.len() == 0 {
        "hicolor"@
    } else {
        name
    }
}

/// The active icon theme from the output of
/// `gsettings get org.gnome.desktop.interface icon-theme`.
pub fn icon_theme_name(success: bool, output: &str) -> (r: String)
    ensures
        r@ == theme_name_spec(success, output@),
{
    if !success {
        return String::from_str("hicolor");
    }
    let v = chars_of(output);
    assert(v@.subrange(0, v@.len() as int) =~= output@);
    let (a, b) = trim_bounds(&v, 0, v.len());
    let (na, nb) = if b - a >= 2 && v[a] == '\'' && v[b - 1] == '\'' {
        assert(v@.subrange(a as int, b as int).subrange(1, b - a - 1) =~= v@.subrange(a + 1, b - 1));
        (a + 1, b - 1)
    } else {
        (a, b)
    };
    if na == nb {
        String::from_str("hicolor")
    } else {
        string_of(&v, na, nb)
    }
}

/// The base directories searched for icon themes, in order: `$HOME/.icons`
/// and `$XDG_DATA_HOME/icons` (default `$HOME/.local/share/icons`) when
/// `$HOME` is set, then `icons` under each entry of `$XDG_DATA_DIRS`
/// (default `/usr/local/share:/usr/share`).
pub open spec fn search_dirs_spec(
    home: Option<Seq<char>>,
    data_home: Option<Seq<char>>,
    data_dirs: Option<Seq<char>>,
) -> Seq<Seq<char>> {
    let head: Seq<Seq<char>> = match home {
        Some(h) => seq![
            h + "/.icons"@,
            match data_home {
                Some(d) => d,
                None => h + "/.local/share"@,
            } + "/icons"@,
        ],
        None => Seq::empty(),
    };
    let dd = match data_dirs {
        Some(d) => d,
        None => "/usr/local/share:/usr/share"@,
    };
    head + split_on(dd, ':').map_values(|d: Seq<char>| d + "/icons"@)
}

pub open spec fn opt_str(o: Option<&str>) -> Option<Seq<char>> {
    match o {
        Some(s) => Some(s@),
        None => None,
    }
}

/// The base icon directories, from the values of `$HOME`, `$XDG_DATA_HOME`
/// and `$XDG_DATA_DIRS` (`None` where a variable is unset).
pub fn build_icon_search_dirs(home: Option<&str>, data_home: Option<&str>, data_dirs: Option<&str>) -> (r:
    Vec<String>)
    ensures
        strings_view(r@) == search_dirs_spec(opt_str(home), opt_str(data_home), opt_str(data_dirs)),
{
    let mut dirs: Vec<String> = Vec::new();
    if let Some(h) = home {
        let mut icons = to_owned_string(h);
        push_str(&mut icons, "/.icons");
        dirs.push(icons);
        let mut share = match data_home {
            Some(d) => to_owned_string(d),
            None => {
                let mut s = to_owned_string(h);
                push_str(&mut s, "/.local/share");
                s
            },
        };
        push_str(&mut share, "/icons");
        dirs.push(share);
    }
    let ghost head = strings_view(dirs@);
    let dd = match data_dirs {
        Some(d) => to_owned_string(d),
        None => String::from_str("/usr/local/share:/usr/share"),
    };
    let v = chars_of(dd.as_str());
    assert(v@.subrange(0, v@.len() as int) =~= dd@);
    let b = split_bounds(&v, 0, v.len(), ':');
    let ghost ps = pieces_view(v@, b@);
    let ghost tail = ps.map_values(|d: Seq<char>| d + "/icons"@);
    let mut j: usize = 0;
    assert(head + tail.take(0) =~= head);
    while j < b.len()
        invariant
            ps == pieces_view(v@, b@),
            tail == ps.map_values(|d: Seq<char>| d + "/icons"@),
            forall|i: int| 0 <= i < b@.len() ==> 0 <= #[trigger] b@[i].0 <= b@[i].1 <= v@.len(),
            0 <= j <= b@.len(),
            strings_view(dirs@) == head + tail.take(j as int),
        decreases b@.len() - j,
    {
        let (p, q) = b[j];
        let mut d = string_of(&v, p, q);
        push_str(&mut d, "/icons");
        let ghost old_dirs = dirs@;
        dirs.push(d);
        assert(strings_view(dirs@) =~= strings_view(old_dirs).push(d@));
        assert(head + tail.take(j + 1) =~= (head + tail.take(j as int)).push(tail[j as int]));
        j = j + 1;
    }
    assert(tail.take(b@.len() as int) =~= tail);
    dirs
}

} // verus!
