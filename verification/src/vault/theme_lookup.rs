//! The icon lookup over a snapshot of the file system: the subdirectories
//! of a theme, the best-sized icon in one theme directory, the walk along a
//! theme's `Inherits=` chain, and the hicolor and pixmaps fallbacks.
use vstd::prelude::*;

use crate::config::{join, join_path};
use crate::text::{chars_of, push_str, slice_starts_with, string_of, to_owned_string};
use super::icons::{key_list, key_list_of, size_dist, size_distance, strings_view};

verus! {

/// What the lookup can see of the file system: the directories and the
/// files that exist, and the text of the files that can be read. Listing a
/// directory gives its subdirectories in the order of `dirs`.
pub struct IconFs {
    pub dirs: Vec<String>,
    pub files: Vec<String>,
    pub texts: Vec<(String, String)>,
}

/// The text of the first readable file at `path`, from entry `i` on.
pub open spec fn first_text(texts: Seq<(String, String)>, path: Seq<char>, i: nat) -> Option<
    Seq<char>,
>
    decreases texts.len() - i,
{
    if i >= texts.len() {
        None
    } else if texts[i as int].0@ == path {
        Some(texts[i as int].1@)
    } else {
        first_text(texts, path, i + 1)
    }
}

impl IconFs {
    /// `Path::is_dir`.
    pub open spec fn is_dir(self, p: Seq<char>) -> bool {
        strings_view(self.dirs@).contains(p)
    }

    /// `Path::exists`.
    pub open spec fn path_exists(self, p: Seq<char>) -> bool {
        self.is_dir(p) || strings_view(self.files@).contains(p)
    }

    /// `fs::read_to_string`.
    pub open spec fn read(self, p: Seq<char>) -> Option<Seq<char>> {
        first_text(self.texts@, p, 0)
    }
}

fn list_has(l: &Vec<String>, p: &String) -> (r: bool)
    ensures
        r == strings_view(l@).contains(p@),
{
    let mut i: usize = 0;
    while i < l.len()
        invariant
            0 <= i <= l@.len(),
            forall|j: int| 0 <= j < i ==> l@[j]@ != p@,
        decreases l@.len() - i,
    {
        if l[i] == *p {
            assert(strings_view(l@)[i as int] == p@);
            return true;
        }
        i = i + 1;
    }
    assert forall|j: int| 0 <= j < strings_view(l@).len() implies strings_view(l@)[j] != p@ by {
        assert(strings_view(l@)[j] == l@[j]@);
    }
    false
}

fn fs_is_dir(fs: &IconFs, p: &String) -> (r: bool)
    ensures
        r == fs.is_dir(p@),
{
    list_has(&fs.dirs, p)
}

fn fs_exists(fs: &IconFs, p: &String) -> (r: bool)
    ensures
        r == fs.path_exists(p@),
{
    list_has(&fs.dirs, p) || list_has(&fs.files, p)
}

fn fs_read(fs: &IconFs, p: &String) -> (r: Option<String>)
    ensures
        match r {
            Some(t) => fs.read(p@) == Some(t@),
            None => fs.read(p@) is None,
        },
{
    let mut i: usize = 0;
    while i < fs.texts.len()
        invariant
            0 <= i <= fs.texts@.len(),
            fs.read(p@) == first_text(fs.texts@, p@, i as nat),
        decreases fs.texts@.len() - i,
    {
        if fs.texts[i].0 == *p {
            return Some(fs.texts[i].1.clone());
        }
        i = i + 1;
    }
    None
}

/// What a path inside `dir` starts with: `dir` and a separating '/'.
pub open spec fn dir_prefix(dir: Seq<char>) -> Seq<char> {
    if dir.len() == 0 || dir.last() == '/' {
        dir
    } else {
        dir + seq!['/']
    }
}

/// The name of `d` as an entry of `dir`, when `d` lies directly in `dir`.
pub open spec fn child_name(dir: Seq<char>, d: Seq<char>) -> Option<Seq<char>> {
    let pre = dir_prefix(dir);
    if d.len() > pre.len() && d.take(pre.len() as int) == pre && !d.skip(pre.len() as int).contains(
        '/',
    ) {
        Some(d.skip(pre.len() as int))
    } else {
        None
    }
}

/// The names of the subdirectories of `dir`, in listing order.
pub open spec fn child_names(dirs: Seq<Seq<char>>, dir: Seq<char>) -> Seq<Seq<char>>
    decreases dirs.len(),
{
    if dirs.len() == 0 {
        Seq::empty()
    } else {
        let r = child_names(dirs.drop_last(), dir);
        match child_name(dir, dirs.last()) {
            Some(n) => r.push(n),
            None => r,
        }
    }
}

fn has_slash_from(v: &Vec<char>, lo: usize) -> (r: bool)
    requires
        lo <= v@.len(),
    ensures
        r == v@.skip(lo as int).contains('/'),
{
    let mut k = lo;
    while k < v.len()
        invariant
            lo <= k <= v@.len(),
            forall|j: int| lo <= j < k ==> v@[j] != '/',
        decreases v@.len() - k,
    {
        if v[k] == '/' {
            assert(v@.skip(lo as int)[k - lo] == '/');
            return true;
        }
        k = k + 1;
    }
    assert forall|j: int| 0 <= j < v@.skip(lo as int).len() implies v@.skip(lo as int)[j] != '/' by {
        assert(v@.skip(lo as int)[j] == v@[lo + j]);
    }
    false
}

fn prefix_of_dir(dir: &String) -> (r: Vec<char>)
    ensures
        r@ == dir_prefix(dir@),
{
    let mut v = chars_of(dir.as_str());
    if v.len() > 0 && v[v.len() - 1] != '/' {
        v.push('/');
    }
    v
}

/// The names of the subdirectories of `dir` in the snapshot, in listing order.
fn list_children(fs: &IconFs, dir: &String) -> (r: Vec<String>)
    ensures
        strings_view(r@) == child_names(strings_view(fs.dirs@), dir@),
{
    let pre = prefix_of_dir(dir);
    let ghost all = strings_view(fs.dirs@);
    let mut out: Vec<String> = Vec::new();
    let mut i: usize = 0;
    assert(all.take(0) =~= Seq::<Seq<char>>::empty());
    while i < fs.dirs.len()
        invariant
            pre@ == dir_prefix(dir@),
            all == strings_view(fs.dirs@),
            0 <= i <= fs.dirs@.len(),
            strings_view(out@) == child_names(all.take(i as int), dir@),
        decreases fs.dirs@.len() - i,
    {
        let d = chars_of(fs.dirs[i].as_str());
        assert(all.take(i + 1).drop_last() =~= all.take(i as int));
        assert(all.take(i + 1).last() == d@);
        if d.len() > pre.len() && slice_starts_with(&d, 0, d.len(), &pre) && !has_slash_from(
            &d,
            pre.len(),
        ) {
            assert(d@.subrange(0, d@.len() as int) =~= d@);
            let ghost old_out = out@;
            out.push(string_of(&d, pre.len(), d.len()));
            assert(d@.subrange(pre@.len() as int, d@.len() as int) =~= d@.skip(pre@.len() as int));
            assert(strings_view(out@) =~= strings_view(old_out).push(d@.skip(pre@.len() as int)));
        } else {
            assert(d@.subrange(0, d@.len() as int) =~= d@);
        }
        i = i + 1;
    }
    assert(all.take(fs.dirs@.len() as int) =~= all);
    out
}

/// The entries below the level-one names of a theme, each followed by its
/// own subdirectories as "name/sub".
pub open spec fn scan_level(dirs: Seq<Seq<char>>, theme: Seq<char>, names: Seq<Seq<char>>) -> Seq<
    Seq<char>,
>
    decreases names.len(),
{
    if names.len() == 0 {
        Seq::empty()
    } else {
        let n = names.last();
        scan_level(dirs, theme, names.drop_last()) + seq![n] + child_names(
            dirs,
            join_path(theme, n),
        ).map_values(|g: Seq<char>| n + seq!['/'] + g)
    }
}

/// The subdirectories of a theme two levels deep, relative to the theme
/// directory, in listing order.
pub open spec fn scanned_subdirs(fs: IconFs, theme: Seq<char>) -> Seq<Seq<char>> {
    let dirs = strings_view(fs.dirs@);
    scan_level(dirs, theme, child_names(dirs, theme))
}

/// Collects the subdirectories of a theme two levels deep, as paths relative
/// to the theme directory ("48x48", then "48x48/apps").
pub fn scan_theme_subdirs_recursive(fs: &IconFs, theme_path: &String) -> (r: Vec<String>)
    ensures
        strings_view(r@) == scanned_subdirs(*fs, theme_path@),
{
    let names = list_children(fs, theme_path);
    let ghost dirs = strings_view(fs.dirs@);
    let ghost nv = strings_view(names@);
    let mut out: Vec<String> = Vec::new();
    let mut i: usize = 0;
    assert(nv.take(0) =~= Seq::<Seq<char>>::empty());
    while i < names.len()
        invariant
            dirs == strings_view(fs.dirs@),
            nv == strings_view(names@),
            nv == child_names(dirs, theme_path@),
            0 <= i <= names@.len(),
            strings_view(out@) == scan_level(dirs, theme_path@, nv.take(i as int)),
        decreases names@.len() - i,
    {
        let n = &names[i];
        assert(nv.take(i + 1).drop_last() =~= nv.take(i as int));
        assert(nv.take(i + 1).last() == n@);
        let ghost before = strings_view(out@);
        out.push(n.clone());
        let sub = join(theme_path.as_str(), n.as_str());
        let grand = list_children(fs, &sub);
        let ghost gv = strings_view(grand@);
        let ghost mapped = gv.map_values(|g: Seq<char>| n@ + seq!['/'] + g);
        let mut j: usize = 0;
        assert(strings_view(out@) =~= before + seq![n@] + mapped.take(0));
        while j < grand.len()
            invariant
                gv == strings_view(grand@),
                mapped == gv.map_values(|g: Seq<char>| n@ + seq!['/'] + g),
                0 <= j <= grand@.len(),
                strings_view(out@) == before + seq![n@] + mapped.take(j as int),
            decreases grand@.len() - j,
        {
            let mut p = n.clone();
            crate::text::push_char(&mut p, '/');
            push_str(&mut p, grand[j].as_str());
            let ghost prev = out@;
            assert(mapped[j as int] == n@ + seq!['/'] + grand@[j as int]@);
            assert(p@ =~= mapped[j as int]);
            out.push(p);
            assert(strings_view(out@) =~= strings_view(prev).push(mapped[j as int]));
            assert(mapped.take(j + 1) =~= mapped.take(j as int).push(mapped[j as int]));
            j = j + 1;
        }
        assert(mapped.take(grand@.len() as int) =~= mapped);
        i = i + 1;
    }
    assert(nv.take(names@.len() as int) =~= nv);
    out
}

/// The subdirectories of a theme: the `Directories=` list of its
/// `index.theme`, or the scanned subdirectories when the file cannot be read
/// or has no such line.
pub open spec fn theme_dirs(fs: IconFs, theme: Seq<char>) -> Seq<Seq<char>> {
    match fs.read(join_path(theme, "index.theme"@)) {
        Some(c) => match key_list(c, "Directories="@) {
            Some(l) => l,
            None => scanned_subdirs(fs, theme),
        },
        None => scanned_subdirs(fs, theme),
    }
}

/// The subdirectories of a theme that may hold icons.
pub fn read_theme_directories(fs: &IconFs, theme_path: &String) -> (r: Vec<String>)
    ensures
        strings_view(r@) == theme_dirs(*fs, theme_path@),
{
    let index = join(theme_path.as_str(), "index.theme");
    match fs_read(fs, &index) {
        Some(content) => match key_list_of(content.as_str(), "Directories=") {
            Some(l) => l,
            None => scan_theme_subdirs_recursive(fs, theme_path),
        },
        None => scan_theme_subdirs_recursive(fs, theme_path),
    }
}

/// The icon file extensions, in order of preference.
pub open spec fn icon_ext(k: int) -> Seq<char> {
    if k == 0 {
        "png"@
    } else if k == 1 {
        "svg"@
    } else {
        "xpm"@
    }
}

/// The file name of an icon with an extension.
pub open spec fn icon_file(icon: Seq<char>, ext: Seq<char>) -> Seq<char> {
    icon + seq!['.'] + ext
}

/// The existing icon files among the first `n` extensions in `dir`, each
/// paired with the distance `d`.
pub open spec fn ext_candidates(fs: IconFs, dir: Seq<char>, icon: Seq<char>, d: u32, n: nat) -> Seq<
    (u32, Seq<char>),
>
    decreases n,
{
    if n == 0 {
        Seq::empty()
    } else {
        let r = ext_candidates(fs, dir, icon, d, (n - 1) as nat);
        let c = join_path(dir, icon_file(icon, icon_ext(n - 1)));
        if fs.path_exists(c) {
            r.push((d, c))
        } else {
            r
        }
    }
}

/// The existing icon files of one theme subdirectory.
pub open spec fn subdir_candidates(fs: IconFs, theme: Seq<char>, subdir: Seq<char>, icon: Seq<char>) -> Seq<
    (u32, Seq<char>),
> {
    let sp = join_path(theme, subdir);
    if fs.is_dir(sp) {
        ext_candidates(fs, sp, icon, size_dist(subdir), 3)
    } else {
        Seq::empty()
    }
}

/// The existing icon files of a theme's subdirectories, in search order.
pub open spec fn theme_candidates(
    fs: IconFs,
    theme: Seq<char>,
    subdirs: Seq<Seq<char>>,
    icon: Seq<char>,
) -> Seq<(u32, Seq<char>)>
    decreases subdirs.len(),
{
    if subdirs.len() == 0 {
        Seq::empty()
    } else {
        theme_candidates(fs, theme, subdirs.drop_last(), icon) + subdir_candidates(
            fs,
            theme,
            subdirs.last(),
            icon,
        )
    }
}

/// The first candidate of least distance.
pub open spec fn best_of(cs: Seq<(u32, Seq<char>)>) -> Option<(u32, Seq<char>)>
    decreases cs.len(),
{
    if cs.len() == 0 {
        None
    } else {
        let c = cs.last();
        match best_of(cs.drop_last()) {
            None => Some(c),
            Some(p) => if c.0 < p.0 {
                Some(c)
            } else {
                Some(p)
            },
        }
    }
}

/// The icon found in one theme directory: of the existing files over the
/// theme's subdirectories and the extensions, the first of those whose
/// subdirectory's size is closest to the preferred size.
pub open spec fn icon_in_theme(fs: IconFs, theme: Seq<char>, icon: Seq<char>) -> Option<Seq<char>> {
    match best_of(theme_candidates(fs, theme, theme_dirs(fs, theme), icon)) {
        Some(p) => Some(p.1),
        None => None,
    }
}

proof fn lemma_best_of_exact(a: Seq<(u32, Seq<char>)>, b: Seq<(u32, Seq<char>)>, p: Seq<char>)
    requires
        best_of(a) == Some((0u32, p)),
    ensures
        best_of(a + b) == Some((0u32, p)),
    decreases b.len(),
{
    if b.len() == 0 {
        assert(a + b =~= a);
    } else {
        lemma_best_of_exact(a, b.drop_last(), p);
        assert((a + b).drop_last() =~= a + b.drop_last());
    }
}

proof fn lemma_ext_candidates_prefix(
    fs: IconFs,
    dir: Seq<char>,
    icon: Seq<char>,
    d: u32,
    n1: nat,
    n2: nat,
)
    requires
        n1 <= n2,
    ensures
        ext_candidates(fs, dir, icon, d, n1).is_prefix_of(ext_candidates(fs, dir, icon, d, n2)),
    decreases n2,
{
    if n1 < n2 {
        lemma_ext_candidates_prefix(fs, dir, icon, d, n1, (n2 - 1) as nat);
    }
}

proof fn lemma_theme_candidates_prefix(
    fs: IconFs,
    theme: Seq<char>,
    s: Seq<Seq<char>>,
    icon: Seq<char>,
    j: int,
)
    requires
        0 <= j <= s.len(),
    ensures
        theme_candidates(fs, theme, s.take(j), icon).is_prefix_of(
            theme_candidates(fs, theme, s, icon),
        ),
    decreases s.len(),
{
    if j < s.len() {
        lemma_theme_candidates_prefix(fs, theme, s.drop_last(), icon, j);
        assert(s.drop_last().take(j) =~= s.take(j));
    } else {
        assert(s.take(j) =~= s);
    }
}

pub open spec fn opt_view(o: Option<String>) -> Option<Seq<char>> {
    match o {
        Some(s) => Some(s@),
        None => None,
    }
}

/// Scans a theme directory for `icon_name` and returns the file whose
/// subdirectory's size is closest to the preferred size, stopping at the
/// first exact match.
pub fn find_icon_in_theme_dir(fs: &IconFs, theme_path: &String, icon_name: &str) -> (r: Option<String>)
    ensures
        opt_view(r) == icon_in_theme(*fs, theme_path@, icon_name@),
{
    let subdirs = read_theme_directories(fs, theme_path);
    let ghost sv = strings_view(subdirs@);
    let ghost all = theme_candidates(*fs, theme_path@, sv, icon_name@);
    let mut best: Option<(u32, String)> = None;
    let mut i: usize = 0;
    assert(sv.take(0) =~= Seq::<Seq<char>>::empty());
    while i < subdirs.len()
        invariant
            sv == strings_view(subdirs@),
            sv == theme_dirs(*fs, theme_path@),
            all == theme_candidates(*fs, theme_path@, sv, icon_name@),
            0 <= i <= subdirs@.len(),
            match best {
                Some((d, p)) => best_of(theme_candidates(*fs, theme_path@, sv.take(i as int), icon_name@))
                    == Some((d, p@)) && d != 0,
                None => best_of(theme_candidates(*fs, theme_path@, sv.take(i as int), icon_name@))
                    is None,
            },
        decreases subdirs@.len() - i,
    {
        let subdir = &subdirs[i];
        let ghost done = theme_candidates(*fs, theme_path@, sv.take(i as int), icon_name@);
        assert(sv.take(i + 1).drop_last() =~= sv.take(i as int));
        assert(sv.take(i + 1).last() == subdir@);
        let dist = size_distance(subdir.as_str());
        let subdir_path = join(theme_path.as_str(), subdir.as_str());
        if fs_is_dir(fs, &subdir_path) {
            let mut k: usize = 0;
            assert(done + ext_candidates(*fs, subdir_path@, icon_name@, dist, 0) =~= done);
            while k < 3
                invariant
                    0 <= k <= 3,
                    0 <= i < subdirs@.len(),
                    sv == strings_view(subdirs@),
                    sv == theme_dirs(*fs, theme_path@),
                    all == theme_candidates(*fs, theme_path@, sv, icon_name@),
                    sv[i as int] == subdir@,
                    subdir_path@ == join_path(theme_path@, subdir@),
                    dist == size_dist(subdir@),
                    fs.is_dir(subdir_path@),
                    done == theme_candidates(*fs, theme_path@, sv.take(i as int), icon_name@),
                    match best {
                        Some((d, p)) => best_of(
                            done + ext_candidates(*fs, subdir_path@, icon_name@, dist, k as nat),
                        ) == Some((d, p@)) && d != 0,
                        None => best_of(done + ext_candidates(*fs, subdir_path@, icon_name@, dist, k as nat))
                            is None,
                    },
                decreases 3 - k,
            {
                let ext = if k == 0 {
                    "png"
                } else if k == 1 {
                    "svg"
                } else {
                    "xpm"
                };
                let mut file = to_owned_string(icon_name);
                crate::text::push_char(&mut file, '.');
                push_str(&mut file, ext);
                let candidate = join(subdir_path.as_str(), file.as_str());
                let ghost prev = done + ext_candidates(*fs, subdir_path@, icon_name@, dist, k as nat);
                assert(file@ == icon_file(icon_name@, icon_ext(k as int)));
                if fs_exists(fs, &candidate) {
                    assert(done + ext_candidates(*fs, subdir_path@, icon_name@, dist, (k + 1) as nat)
                        =~= prev.push((dist, candidate@)));
                    let ghost cand_v = candidate@;
                    let is_better = match &best {
                        None => true,
                        Some((d, _)) => dist < *d,
                    };
                    assert(prev.push((dist, cand_v)).drop_last() =~= prev);
                    if is_better {
                        best = Some((dist, candidate));
                    }
                    if dist == 0 {
                        proof {
                            let upto = done + ext_candidates(*fs, subdir_path@, icon_name@, dist, (k + 1) as nat);
                            let whole = done + ext_candidates(*fs, subdir_path@, icon_name@, dist, 3);
                            lemma_ext_candidates_prefix(*fs, subdir_path@, icon_name@, dist, (k + 1) as nat, 3);
                            lemma_theme_candidates_prefix(*fs, theme_path@, sv, icon_name@, i + 1);
                            assert(sv.take(i + 1).drop_last() =~= sv.take(i as int));
                            assert(sv.take(i + 1).last() == subdir@);
                            assert(subdir_candidates(*fs, theme_path@, subdir@, icon_name@)
                                == ext_candidates(*fs, subdir_path@, icon_name@, dist, 3));
                            assert(theme_candidates(*fs, theme_path@, sv.take(i + 1), icon_name@) == whole);
                            assert(upto.is_prefix_of(whole));
                            assert(upto.is_prefix_of(all));
                            assert(all =~= upto + all.skip(upto.len() as int));
                            lemma_best_of_exact(upto, all.skip(upto.len() as int), cand_v);
                            assert(best matches Some((dd, pp)) && dd == 0 && pp@ == cand_v);
                        }
                        return match best {
                            Some((_, p)) => Some(p),
                            None => None,
                        };
                    }
                } else {
                    assert(done + ext_candidates(*fs, subdir_path@, icon_name@, dist, (k + 1) as nat)
                        =~= prev);
                }
                k = k + 1;
            }
            assert(subdir_candidates(*fs, theme_path@, subdir@, icon_name@) == ext_candidates(
                *fs,
                subdir_path@,
                icon_name@,
                dist,
                3,
            ));
        } else {
            assert(subdir_candidates(*fs, theme_path@, subdir@, icon_name@) =~= Seq::empty());
            assert(done + Seq::<(u32, Seq<char>)>::empty() =~= done);
        }
        i = i + 1;
    }
    assert(sv.take(subdirs@.len() as int) =~= sv);
    match best {
        Some((_, p)) => Some(p),
        None => None,
    }
}

/// The icon found under the first base directory in which the theme is a
/// directory that has it.
pub open spec fn icon_in_bases(
    fs: IconFs,
    bases: Seq<Seq<char>>,
    theme: Seq<char>,
    icon: Seq<char>,
    i: nat,
) -> Option<Seq<char>>
    decreases bases.len() - i,
{
    if i >= bases.len() {
        None
    } else {
        let tp = join_path(bases[i as int], theme);
        if fs.is_dir(tp) && icon_in_theme(fs, tp, icon) is Some {
            icon_in_theme(fs, tp, icon)
        } else {
            icon_in_bases(fs, bases, theme, icon, i + 1)
        }
    }
}

/// The themes a theme inherits from: the `Inherits=` list of the first of
/// its `index.theme` files, over the base directories, that can be read and
/// has such a line; none when there is no such file.
pub open spec fn inherits_of(fs: IconFs, bases: Seq<Seq<char>>, theme: Seq<char>, i: nat) -> Seq<
    Seq<char>,
>
    decreases bases.len() - i,
{
    if i >= bases.len() {
        Seq::empty()
    } else {
        match fs.read(join_path(join_path(bases[i as int], theme), "index.theme"@)) {
            Some(c) => match key_list(c, "Inherits="@) {
                Some(l) => l,
                None => inherits_of(fs, bases, theme, i + 1),
            },
            None => inherits_of(fs, bases, theme, i + 1),
        }
    }
}

/// The search along a theme's inheritance chain, depth first and skipping
/// themes already visited: the icon found and the themes visited after the
/// search. `fuel` bounds the depth; any fuel above the number of themes not
/// yet visited gives the same answer (see `lemma_chain_fuel`).
pub open spec fn chain(
    fs: IconFs,
    bases: Seq<Seq<char>>,
    icon: Seq<char>,
    theme: Seq<char>,
    visited: Seq<Seq<char>>,
    fuel: nat,
) -> (Option<Seq<char>>, Seq<Seq<char>>)
    decreases fuel, 0nat,
{
    if visited.contains(theme) {
        (None, visited)
    } else if fuel == 0 {
        (None, visited.push(theme))
    } else {
        let v1 = visited.push(theme);
        match icon_in_bases(fs, bases, theme, icon, 0) {
            Some(p) => (Some(p), v1),
            None => chain_list(
                fs,
                bases,
                icon,
                inherits_of(fs, bases, theme, 0),
                0,
                v1,
                (fuel - 1) as nat,
            ),
        }
    }
}

/// The search along the parents `ps[i..]` in order, each with the themes
/// visited by the searches before it.
pub open spec fn chain_list(
    fs: IconFs,
    bases: Seq<Seq<char>>,
    icon: Seq<char>,
    ps: Seq<Seq<char>>,
    i: nat,
    visited: Seq<Seq<char>>,
    fuel: nat,
) -> (Option<Seq<char>>, Seq<Seq<char>>)
    decreases fuel, (ps.len() + 1 - i) as nat,
{
    if i >= ps.len() {
        (None, visited)
    } else {
        let (r, v2) = chain(fs, bases, icon, ps[i as int], visited, fuel);
        if r is Some {
            (r, v2)
        } else {
            chain_list(fs, bases, icon, ps, i + 1, v2, fuel)
        }
    }
}

/// All the theme names that `Inherits=` lines of readable files name.
pub open spec fn inherit_names(texts: Seq<(String, String)>) -> Seq<Seq<char>>
    decreases texts.len(),
{
    if texts.len() == 0 {
        Seq::empty()
    } else {
        inherit_names(texts.drop_last()) + match key_list(texts.last().1@, "Inherits="@) {
            Some(l) => l,
            None => Seq::empty(),
        }
    }
}

/// Every theme a lookup that starts at `root` can visit.
pub open spec fn theme_universe(fs: IconFs, root: Seq<char>) -> Set<Seq<char>> {
    (seq![root, "hicolor"@] + inherit_names(fs.texts@)).to_set()
}

/// The number of themes of `u` not visited yet.
pub open spec fn unvisited(u: Set<Seq<char>>, visited: Seq<Seq<char>>) -> nat {
    u.difference(visited.to_set()).len()
}

/// Enough fuel for any search that starts at `root`.
pub open spec fn lookup_fuel(fs: IconFs, root: Seq<char>) -> nat {
    theme_universe(fs, root).len() + 1
}

pub open spec fn all_in(s: Seq<Seq<char>>, u: Set<Seq<char>>) -> bool {
    forall|j: int| 0 <= j < s.len() ==> u.contains(#[trigger] s[j])
}

proof fn lemma_universe_finite(fs: IconFs, root: Seq<char>)
    ensures
        theme_universe(fs, root).finite(),
{
    vstd::seq_lib::seq_to_set_is_finite(seq![root, "hicolor"@] + inherit_names(fs.texts@));
}

proof fn lemma_unvisited_push(u: Set<Seq<char>>, v: Seq<Seq<char>>, t: Seq<char>)
    requires
        u.finite(),
        u.contains(t),
        !v.contains(t),
    ensures
        unvisited(u, v.push(t)) + 1 == unvisited(u, v),
{
    let d = u.difference(v.to_set());
    assert(u.difference(v.push(t).to_set()) =~= d.remove(t)) by {
        assert forall|x: Seq<char>| v.push(t).contains(x) <==> (v.contains(x) || x == t) by {
            if v.push(t).contains(x) {
                let j = choose|j: int| 0 <= j < v.push(t).len() && v.push(t)[j] == x;
                if j < v.len() {
                    assert(v[j] == x);
                }
            }
            if v.contains(x) {
                let j = choose|j: int| 0 <= j < v.len() && v[j] == x;
                assert(v.push(t)[j] == x);
            }
            if x == t {
                assert(v.push(t)[v.len() as int] == x);
            }
        }
    }
    vstd::set::axiom_set_difference_finite(u, v.to_set());
    vstd::set::axiom_set_remove_len(d, t);
    assert(d.contains(t));
}

proof fn lemma_unvisited_mono(u: Set<Seq<char>>, v: Seq<Seq<char>>, w: Seq<Seq<char>>)
    requires
        u.finite(),
        v.is_prefix_of(w),
    ensures
        unvisited(u, w) <= unvisited(u, v),
{
    assert forall|x: Seq<char>| u.difference(w.to_set()).contains(x) implies u.difference(
        v.to_set(),
    ).contains(x) by {
        if v.contains(x) {
            let j = choose|j: int| 0 <= j < v.len() && v[j] == x;
            assert(w[j] == x);
        }
    }
    vstd::set::axiom_set_difference_finite(u, v.to_set());
    vstd::set_lib::lemma_len_subset(u.difference(w.to_set()), u.difference(v.to_set()));
}

proof fn lemma_unvisited_bound(u: Set<Seq<char>>, v: Seq<Seq<char>>)
    requires
        u.finite(),
    ensures
        unvisited(u, v) <= u.len(),
        v.len() == 0 ==> unvisited(u, v) == u.len(),
{
    vstd::set_lib::lemma_len_subset(u.difference(v.to_set()), u);
    if v.len() == 0 {
        assert(u.difference(v.to_set()) =~= u);
    }
}

proof fn lemma_inherit_names_has(texts: Seq<(String, String)>, k: int, l: Seq<Seq<char>>, j: int)
    requires
        0 <= k < texts.len(),
        key_list(texts[k].1@, "Inherits="@) == Some(l),
        0 <= j < l.len(),
    ensures
        inherit_names(texts).contains(l[j]),
    decreases texts.len(),
{
    let prefix = inherit_names(texts.drop_last());
    if k == texts.len() - 1 {
        assert(inherit_names(texts)[prefix.len() + j] == l[j]);
    } else {
        assert(texts.drop_last()[k] == texts[k]);
        lemma_inherit_names_has(texts.drop_last(), k, l, j);
        let i = choose|i: int| 0 <= i < prefix.len() && prefix[i] == l[j];
        assert(inherit_names(texts)[i] == l[j]);
    }
}

proof fn lemma_first_text_source(texts: Seq<(String, String)>, p: Seq<char>, i: nat)
    ensures
        first_text(texts, p, i) matches Some(c) ==> exists|k: int|
            0 <= k < texts.len() && #[trigger] texts[k].1@ == c,
    decreases texts.len() - i,
{
    if i < texts.len() && texts[i as int].0@ != p {
        lemma_first_text_source(texts, p, i + 1);
    }
}

proof fn lemma_inherits_in_universe(
    fs: IconFs,
    bases: Seq<Seq<char>>,
    theme: Seq<char>,
    root: Seq<char>,
    i: nat,
)
    ensures
        all_in(inherits_of(fs, bases, theme, i), theme_universe(fs, root)),
    decreases bases.len() - i,
{
    if i < bases.len() {
        let path = join_path(join_path(bases[i as int], theme), "index.theme"@);
        lemma_inherits_in_universe(fs, bases, theme, root, i + 1);
        lemma_first_text_source(fs.texts@, path, 0);
        match fs.read(path) {
            Some(c) => match key_list(c, "Inherits="@) {
                Some(l) => {
                    let k = choose|k: int| 0 <= k < fs.texts@.len() && #[trigger] fs.texts@[k].1@ == c;
                    let all = seq![root, "hicolor"@] + inherit_names(fs.texts@);
                    assert forall|j: int| 0 <= j < l.len() implies theme_universe(fs, root).contains(
                        #[trigger] l[j],
                    ) by {
                        lemma_inherit_names_has(fs.texts@, k, l, j);
                        let m = choose|m: int|
                            0 <= m < inherit_names(fs.texts@).len() && inherit_names(fs.texts@)[m]
                                == l[j];
                        assert(all[m + 2] == l[j]);
                    }
                },
                None => {},
            },
            None => {},
        }
    }
}

proof fn lemma_chain_grows(
    fs: IconFs,
    bases: Seq<Seq<char>>,
    icon: Seq<char>,
    root: Seq<char>,
    t: Seq<char>,
    v: Seq<Seq<char>>,
    f: nat,
)
    requires
        theme_universe(fs, root).contains(t),
        all_in(v, theme_universe(fs, root)),
    ensures
        v.is_prefix_of(chain(fs, bases, icon, t, v, f).1),
        all_in(chain(fs, bases, icon, t, v, f).1, theme_universe(fs, root)),
    decreases f, 0nat,
{
    if !v.contains(t) {
        let v1 = v.push(t);
        assert(v.is_prefix_of(v1));
        assert(all_in(v1, theme_universe(fs, root)));
        if f > 0 && icon_in_bases(fs, bases, t, icon, 0) is None {
            lemma_inherits_in_universe(fs, bases, t, root, 0);
            lemma_chain_list_grows(fs, bases, icon, root, inherits_of(fs, bases, t, 0), 0, v1, (f - 1) as nat);
        }
    } else {
        assert(v.is_prefix_of(v));
    }
}

proof fn lemma_chain_list_grows(
    fs: IconFs,
    bases: Seq<Seq<char>>,
    icon: Seq<char>,
    root: Seq<char>,
    ps: Seq<Seq<char>>,
    i: nat,
    v: Seq<Seq<char>>,
    f: nat,
)
    requires
        all_in(ps, theme_universe(fs, root)),
        all_in(v, theme_universe(fs, root)),
    ensures
        v.is_prefix_of(chain_list(fs, bases, icon, ps, i, v, f).1),
        all_in(chain_list(fs, bases, icon, ps, i, v, f).1, theme_universe(fs, root)),
    decreases f, (ps.len() + 1 - i) as nat,
{
    if i < ps.len() {
        lemma_chain_grows(fs, bases, icon, root, ps[i as int], v, f);
        let (r, v2) = chain(fs, bases, icon, ps[i as int], v, f);
        if r is None {
            lemma_chain_list_grows(fs, bases, icon, root, ps, i + 1, v2, f);
        }
    } else {
        assert(v.is_prefix_of(v));
    }
}

/// The fuel of a search only bounds it: any two amounts above the number of
/// themes not yet visited give the same result.
pub proof fn lemma_chain_fuel(
    fs: IconFs,
    bases: Seq<Seq<char>>,
    icon: Seq<char>,
    root: Seq<char>,
    t: Seq<char>,
    v: Seq<Seq<char>>,
    f1: nat,
    f2: nat,
)
    requires
        theme_universe(fs, root).contains(t),
        all_in(v, theme_universe(fs, root)),
        f1 > unvisited(theme_universe(fs, root), v),
        f2 > unvisited(theme_universe(fs, root), v),
    ensures
        chain(fs, bases, icon, t, v, f1) == chain(fs, bases, icon, t, v, f2),
    decreases unvisited(theme_universe(fs, root), v), 0nat,
{
    let u = theme_universe(fs, root);
    lemma_universe_finite(fs, root);
    if !v.contains(t) {
        let v1 = v.push(t);
        lemma_unvisited_push(u, v, t);
        assert(all_in(v1, u));
        lemma_inherits_in_universe(fs, bases, t, root, 0);
        lemma_chain_list_fuel(
            fs,
            bases,
            icon,
            root,
            inherits_of(fs, bases, t, 0),
            0,
            v1,
            (f1 - 1) as nat,
            (f2 - 1) as nat,
        );
    }
}

proof fn lemma_chain_list_fuel(
    fs: IconFs,
    bases: Seq<Seq<char>>,
    icon: Seq<char>,
    root: Seq<char>,
    ps: Seq<Seq<char>>,
    i: nat,
    v: Seq<Seq<char>>,
    f1: nat,
    f2: nat,
)
    requires
        all_in(ps, theme_universe(fs, root)),
        all_in(v, theme_universe(fs, root)),
        f1 > unvisited(theme_universe(fs, root), v),
        f2 > unvisited(theme_universe(fs, root), v),
    ensures
        chain_list(fs, bases, icon, ps, i, v, f1) == chain_list(fs, bases, icon, ps, i, v, f2),
    decreases unvisited(theme_universe(fs, root), v), (ps.len() + 1 - i) as nat,
{
    let u = theme_universe(fs, root);
    lemma_universe_finite(fs, root);
    if i < ps.len() {
        lemma_chain_fuel(fs, bases, icon, root, ps[i as int], v, f1, f2);
        let (r, v2) = chain(fs, bases, icon, ps[i as int], v, f1);
        if r is None {
            lemma_chain_grows(fs, bases, icon, root, ps[i as int], v, f1);
            lemma_unvisited_mono(u, v, v2);
            lemma_chain_list_fuel(fs, bases, icon, root, ps, i + 1, v2, f1, f2);
        }
    }
}

/// Reads `Inherits=` from a theme's `index.theme`, over the base
/// directories (a theme may be split across several of them).
pub fn parse_theme_inherits(fs: &IconFs, theme_name: &String, search_dirs: &Vec<String>) -> (r: Vec<
    String,
>)
    ensures
        strings_view(r@) == inherits_of(*fs, strings_view(search_dirs@), theme_name@, 0),
{
    let ghost bases = strings_view(search_dirs@);
    let mut i: usize = 0;
    while i < search_dirs.len()
        invariant
            bases == strings_view(search_dirs@),
            0 <= i <= search_dirs@.len(),
            inherits_of(*fs, bases, theme_name@, 0) == inherits_of(*fs, bases, theme_name@, i as nat),
        decreases search_dirs@.len() - i,
    {
        let theme_path = join(search_dirs[i].as_str(), theme_name.as_str());
        let index = join(theme_path.as_str(), "index.theme");
        assert(bases[i as int] == search_dirs@[i as int]@);
        if let Some(content) = fs_read(fs, &index) {
            if let Some(l) = key_list_of(content.as_str(), "Inherits=") {
                return l;
            }
        }
        i = i + 1;
    }
    Vec::new()
}

/// Searches `theme_name` across all base directories, then follows each
/// theme of its `Inherits=` line in turn; themes in `visited` are skipped,
/// and every theme searched is added to it.
fn lookup_in_theme_chain(
    fs: &IconFs,
    icon_name: &str,
    theme_name: &String,
    search_dirs: &Vec<String>,
    visited: &mut Vec<String>,
    Ghost(root): Ghost<Seq<char>>,
) -> (r: Option<String>)
    requires
        theme_universe(*fs, root).contains(theme_name@),
        all_in(strings_view(old(visited)@), theme_universe(*fs, root)),
    ensures
        (opt_view(r), strings_view(final(visited)@)) == chain(
            *fs,
            strings_view(search_dirs@),
            icon_name@,
            theme_name@,
            strings_view(old(visited)@),
            unvisited(theme_universe(*fs, root), strings_view(old(visited)@)) + 1,
        ),
    decreases unvisited(theme_universe(*fs, root), strings_view(old(visited)@)),
{
    let ghost u = theme_universe(*fs, root);
    let ghost bases = strings_view(search_dirs@);
    let ghost v0 = strings_view(visited@);
    let ghost fuel = unvisited(u, v0) + 1;
    proof {
        lemma_universe_finite(*fs, root);
    }
    if list_has(visited, theme_name) {
        return None;
    }
    visited.push(theme_name.clone());
    let ghost v1 = strings_view(visited@);
    assert(v1 =~= v0.push(theme_name@));
    proof {
        lemma_unvisited_push(u, v0, theme_name@);
    }
    let mut b: usize = 0;
    while b < search_dirs.len()
        invariant
            bases == strings_view(search_dirs@),
            0 <= b <= search_dirs@.len(),
            v0 == strings_view(old(visited)@),
            !v0.contains(theme_name@),
            v1 == v0.push(theme_name@),
            strings_view(visited@) == v1,
            fuel == unvisited(u, v0) + 1,
            icon_in_bases(*fs, bases, theme_name@, icon_name@, 0) == icon_in_bases(
                *fs,
                bases,
                theme_name@,
                icon_name@,
                b as nat,
            ),
        decreases search_dirs@.len() - b,
    {
        let theme_path = join(search_dirs[b].as_str(), theme_name.as_str());
        assert(bases[b as int] == search_dirs@[b as int]@);
        assert(theme_path@ == join_path(bases[b as int], theme_name@));
        if fs_is_dir(fs, &theme_path) {
            if let Some(path) = find_icon_in_theme_dir(fs, &theme_path, icon_name) {
                return Some(path);
            }
        }
        b = b + 1;
    }
    assert(icon_in_bases(*fs, bases, theme_name@, icon_name@, 0) is None);
    let parents = parse_theme_inherits(fs, theme_name, search_dirs);
    let ghost ps = strings_view(parents@);
    proof {
        lemma_inherits_in_universe(*fs, bases, theme_name@, root, 0);
    }
    let mut i: usize = 0;
    while i < parents.len()
        invariant
            u == theme_universe(*fs, root),
            u.finite(),
            bases == strings_view(search_dirs@),
            ps == strings_view(parents@),
            ps == inherits_of(*fs, bases, theme_name@, 0),
            all_in(ps, u),
            0 <= i <= parents@.len(),
            v0 == strings_view(old(visited)@),
            !v0.contains(theme_name@),
            icon_in_bases(*fs, bases, theme_name@, icon_name@, 0) is None,
            v1 == v0.push(theme_name@),
            unvisited(u, v1) + 1 == unvisited(u, v0),
            v1.is_prefix_of(strings_view(visited@)),
            all_in(strings_view(visited@), u),
            chain_list(*fs, bases, icon_name@, ps, 0, v1, (fuel - 1) as nat) == chain_list(
                *fs,
                bases,
                icon_name@,
                ps,
                i as nat,
                strings_view(visited@),
                (fuel - 1) as nat,
            ),
            fuel == unvisited(u, v0) + 1,
        decreases parents@.len() - i,
    {
        let ghost cur = strings_view(visited@);
        proof {
            lemma_unvisited_mono(u, v1, cur);
        }
        assert(unvisited(theme_universe(*fs, root), cur) < unvisited(theme_universe(*fs, root), v0));
        assert(ps[i as int] == parents@[i as int]@);
        let found = lookup_in_theme_chain(fs, icon_name, &parents[i], search_dirs, visited, Ghost(root));
        proof {
            lemma_chain_fuel(
                *fs,
                bases,
                icon_name@,
                root,
                ps[i as int],
                cur,
                unvisited(u, cur) + 1,
                (fuel - 1) as nat,
            );
            lemma_chain_grows(*fs, bases, icon_name@, root, ps[i as int], cur, (fuel - 1) as nat);
            assert(v1.is_prefix_of(strings_view(visited@)));
        }
        if found.is_some() {
            return found;
        }
        i = i + 1;
    }
    None
}

/// Where the pixmaps fallback looks for an icon with the `k`-th extension.
pub open spec fn pixmap_path(icon: Seq<char>, k: int) -> Seq<char> {
    "/usr/share/pixmaps/"@ + icon_file(icon, icon_ext(k))
}

/// The first existing file of the icon among the pixmaps, in extension order.
pub open spec fn pixmap_icon(fs: IconFs, icon: Seq<char>) -> Option<Seq<char>> {
    if fs.path_exists(pixmap_path(icon, 0)) {
        Some(pixmap_path(icon, 0))
    } else if fs.path_exists(pixmap_path(icon, 1)) {
        Some(pixmap_path(icon, 1))
    } else if fs.path_exists(pixmap_path(icon, 2)) {
        Some(pixmap_path(icon, 2))
    } else {
        None
    }
}

/// The full lookup: the theme's inheritance chain, then hicolor unless the
/// chain already visited it, then the pixmaps directory.
pub open spec fn icon_lookup(fs: IconFs, bases: Seq<Seq<char>>, icon: Seq<char>, theme: Seq<char>) -> Option<
    Seq<char>,
> {
    let f = lookup_fuel(fs, theme);
    let first = chain(fs, bases, icon, theme, Seq::empty(), f);
    if first.0 is Some {
        first.0
    } else {
        let second = if first.1.contains("hicolor"@) {
            None
        } else {
            chain(fs, bases, icon, "hicolor"@, first.1, f).0
        };
        if second is Some {
            second
        } else {
            pixmap_icon(fs, icon)
        }
    }
}

/// Performs the full icon lookup: active theme chain, then hicolor, then
/// the pixmaps directory.
pub fn lookup_icon(fs: &IconFs, icon_name: &str, theme_name: &str, search_dirs: &Vec<String>) -> (r:
    Option<String>)
    ensures
        opt_view(r) == icon_lookup(*fs, strings_view(search_dirs@), icon_name@, theme_name@),
{
    let ghost u = theme_universe(*fs, theme_name@);
    let ghost bases = strings_view(search_dirs@);
    let ghost f = lookup_fuel(*fs, theme_name@);
    proof {
        lemma_universe_finite(*fs, theme_name@);
        lemma_unvisited_bound(u, Seq::empty());
        assert((seq![theme_name@, "hicolor"@] + inherit_names(fs.texts@))[0] == theme_name@);
        assert((seq![theme_name@, "hicolor"@] + inherit_names(fs.texts@))[1] == "hicolor"@);
    }
    let mut visited: Vec<String> = Vec::new();
    assert(strings_view(visited@) =~= Seq::<Seq<char>>::empty());
    let theme = to_owned_string(theme_name);
    let first = lookup_in_theme_chain(fs, icon_name, &theme, search_dirs, &mut visited, Ghost(theme_name@));
    let ghost first_spec = chain(*fs, bases, icon_name@, theme_name@, Seq::empty(), f);
    assert(unvisited(u, Seq::<Seq<char>>::empty()) + 1 == f);
    assert(opt_view(first) == first_spec.0);
    assert(strings_view(visited@) == first_spec.1);
    if first.is_some() {
        return first;
    }
    proof {
        lemma_chain_grows(*fs, bases, icon_name@, theme_name@, theme_name@, Seq::empty(), f);
    }
    let hicolor = String::from_str("hicolor");
    if !list_has(&visited, &hicolor) {
        let ghost v1 = strings_view(visited@);
        let second = lookup_in_theme_chain(fs, icon_name, &hicolor, search_dirs, &mut visited, Ghost(theme_name@));
        proof {
            lemma_unvisited_bound(u, v1);
            lemma_chain_fuel(*fs, bases, icon_name@, theme_name@, "hicolor"@, v1, unvisited(u, v1) + 1, f);
        }
        assert(opt_view(second) == chain(*fs, bases, icon_name@, "hicolor"@, first_spec.1, f).0);
        if second.is_some() {
            return second;
        }
        assert(icon_lookup(*fs, bases, icon_name@, theme_name@) == pixmap_icon(*fs, icon_name@));
    } else {
        assert(icon_lookup(*fs, bases, icon_name@, theme_name@) == pixmap_icon(*fs, icon_name@));
    }
    let mut k: usize = 0;
    while k < 3
        invariant
            0 <= k <= 3,
            icon_lookup(*fs, strings_view(search_dirs@), icon_name@, theme_name@) == pixmap_icon(*fs, icon_name@),
            pixmap_icon(*fs, icon_name@) == if k == 0 {
                pixmap_icon(*fs, icon_name@)
            } else if k == 1 {
                if fs.path_exists(pixmap_path(icon_name@, 1)) {
                    Some(pixmap_path(icon_name@, 1))
                } else if fs.path_exists(pixmap_path(icon_name@, 2)) {
                    Some(pixmap_path(icon_name@, 2))
                } else {
                    None
                }
            } else if k == 2 {
                if fs.path_exists(pixmap_path(icon_name@, 2)) {
                    Some(pixmap_path(icon_name@, 2))
                } else {
                    None
                }
            } else {
                None
            },
        decreases 3 - k,
    {
        let ext = if k == 0 {
            "png"
        } else if k == 1 {
            "svg"
        } else {
            "xpm"
        };
        let mut path = String::from_str("/usr/share/pixmaps/");
        push_str(&mut path, icon_name);
        crate::text::push_char(&mut path, '.');
        push_str(&mut path, ext);
        assert(path@ =~= pixmap_path(icon_name@, k as int));
        if fs_exists(fs, &path) {
            return Some(path);
        }
        k = k + 1;
    }
    None
}

/// Resolves an icon name to a file path: the lookup over the snapshot `fs`,
/// starting at the active theme `theme_name`, across the base directories
/// `search_dirs`. `None` when no icon is found anywhere.
pub fn get_image_path(val: &str, theme_name: &str, search_dirs: &Vec<String>, fs: &IconFs) -> (r:
    Option<String>)
    ensures
        opt_view(r) == icon_lookup(*fs, strings_view(search_dirs@), val@, theme_name@),
{
    lookup_icon(fs, val, theme_name, search_dirs)
}

proof fn lemma_best_of_member(cs: Seq<(u32, Seq<char>)>)
    ensures
        best_of(cs) matches Some(b) ==> cs.contains(b),
    decreases cs.len(),
{
    if cs.len() > 0 {
        lemma_best_of_member(cs.drop_last());
        if let Some(b) = best_of(cs.drop_last()) {
            if best_of(cs) == Some(b) {
                let k = choose|k: int| 0 <= k < cs.drop_last().len() && cs.drop_last()[k] == b;
                assert(cs[k] == b);
            }
        }
        assert(cs[cs.len() - 1] == cs.last());
    }
}

proof fn lemma_ext_candidates_exist(fs: IconFs, dir: Seq<char>, icon: Seq<char>, d: u32, n: nat)
    ensures
        forall|k: int| 0 <= k < ext_candidates(fs, dir, icon, d, n).len() ==> fs.path_exists(
            #[trigger] ext_candidates(fs, dir, icon, d, n)[k].1,
        ),
    decreases n,
{
    if n > 0 {
        lemma_ext_candidates_exist(fs, dir, icon, d, (n - 1) as nat);
        let r = ext_candidates(fs, dir, icon, d, (n - 1) as nat);
        let c = join_path(dir, icon_file(icon, icon_ext(n - 1)));
        if fs.path_exists(c) {
            assert forall|k: int| 0 <= k < r.push((d, c)).len() implies fs.path_exists(
                #[trigger] r.push((d, c))[k].1,
            ) by {
                if k < r.len() {
                    assert(r.push((d, c))[k] == r[k]);
                }
            }
        }
    }
}

proof fn lemma_theme_candidates_exist(fs: IconFs, theme: Seq<char>, subdirs: Seq<Seq<char>>, icon: Seq<char>)
    ensures
        forall|k: int| 0 <= k < theme_candidates(fs, theme, subdirs, icon).len() ==> fs.path_exists(
            #[trigger] theme_candidates(fs, theme, subdirs, icon)[k].1,
        ),
    decreases subdirs.len(),
{
    if subdirs.len() > 0 {
        lemma_theme_candidates_exist(fs, theme, subdirs.drop_last(), icon);
        let sp = join_path(theme, subdirs.last());
        lemma_ext_candidates_exist(fs, sp, icon, size_dist(subdirs.last()), 3);
        let a = theme_candidates(fs, theme, subdirs.drop_last(), icon);
        let b = subdir_candidates(fs, theme, subdirs.last(), icon);
        assert forall|k: int| 0 <= k < (a + b).len() implies fs.path_exists(#[trigger] (a + b)[k].1) by {
            if k >= a.len() {
                assert((a + b)[k] == b[k - a.len()]);
            } else {
                assert((a + b)[k] == a[k]);
            }
        }
    }
}

proof fn lemma_icon_in_theme_exists(fs: IconFs, theme: Seq<char>, icon: Seq<char>)
    ensures
        icon_in_theme(fs, theme, icon) matches Some(p) ==> fs.path_exists(p),
{
    let cs = theme_candidates(fs, theme, theme_dirs(fs, theme), icon);
    lemma_best_of_member(cs);
    lemma_theme_candidates_exist(fs, theme, theme_dirs(fs, theme), icon);
}

proof fn lemma_icon_in_bases_exists(fs: IconFs, bases: Seq<Seq<char>>, theme: Seq<char>, icon: Seq<char>, i: nat)
    ensures
        icon_in_bases(fs, bases, theme, icon, i) matches Some(p) ==> fs.path_exists(p),
    decreases bases.len() - i,
{
    if i < bases.len() {
        lemma_icon_in_theme_exists(fs, join_path(bases[i as int], theme), icon);
        lemma_icon_in_bases_exists(fs, bases, theme, icon, i + 1);
    }
}

proof fn lemma_chain_exists(
    fs: IconFs,
    bases: Seq<Seq<char>>,
    icon: Seq<char>,
    t: Seq<char>,
    v: Seq<Seq<char>>,
    f: nat,
)
    ensures
        chain(fs, bases, icon, t, v, f).0 matches Some(p) ==> fs.path_exists(p),
    decreases f, 0nat,
{
    if !v.contains(t) && f > 0 {
        lemma_icon_in_bases_exists(fs, bases, t, icon, 0);
        lemma_chain_list_exists(fs, bases, icon, inherits_of(fs, bases, t, 0), 0, v.push(t), (f - 1) as nat);
    }
}

proof fn lemma_chain_list_exists(
    fs: IconFs,
    bases: Seq<Seq<char>>,
    icon: Seq<char>,
    ps: Seq<Seq<char>>,
    i: nat,
    v: Seq<Seq<char>>,
    f: nat,
)
    ensures
        chain_list(fs, bases, icon, ps, i, v, f).0 matches Some(p) ==> fs.path_exists(p),
    decreases f, (ps.len() + 1 - i) as nat,
{
    if i < ps.len() {
        lemma_chain_exists(fs, bases, icon, ps[i as int], v, f);
        let (r, v2) = chain(fs, bases, icon, ps[i as int], v, f);
        if r is None {
            lemma_chain_list_exists(fs, bases, icon, ps, i + 1, v2, f);
        }
    }
}

/// The lookup only ever answers with a file that exists: whichever step
/// finds it (the theme chain, hicolor or the pixmaps directory), the path
/// it returns is an existing file or directory of the snapshot.
pub proof fn law_lookup_finds_existing(fs: IconFs, bases: Seq<Seq<char>>, icon: Seq<char>, theme: Seq<char>)
    ensures
        icon_lookup(fs, bases, icon, theme) matches Some(p) ==> fs.path_exists(p),
{
    let f = lookup_fuel(fs, theme);
    lemma_chain_exists(fs, bases, icon, theme, Seq::empty(), f);
    let first = chain(fs, bases, icon, theme, Seq::empty(), f);
    lemma_chain_exists(fs, bases, icon, "hicolor"@, first.1, f);
}

/// hicolor is the fallback theme: when the search along the active theme's
/// inheritance chain finds nothing, an icon that the search in hicolor (from
/// the themes visited so far) finds is the answer; and when that search finds
/// nothing either, the answer is the one of the pixmaps directory.
pub proof fn law_hicolor_fallback(fs: IconFs, bases: Seq<Seq<char>>, icon: Seq<char>, theme: Seq<char>)
    ensures
        ({
            let f = lookup_fuel(fs, theme);
            let first = chain(fs, bases, icon, theme, Seq::empty(), f);
            let second = chain(fs, bases, icon, "hicolor"@, first.1, f).0;
            &&& first.0 matches Some(p) ==> icon_lookup(fs, bases, icon, theme) == Some(p)
            &&& first.0 is None ==> (second matches Some(p) ==> icon_lookup(fs, bases, icon, theme) == Some(p))
            &&& (first.0 is None && second is None) ==> icon_lookup(fs, bases, icon, theme) == pixmap_icon(fs, icon)
        }),
{
}

/// An icon that hicolor holds is found whatever the active theme: when the
/// active theme's chain finds nothing and did not pass through hicolor, the
/// file hicolor holds for the icon is the answer.
pub proof fn law_hicolor_icon_found(fs: IconFs, bases: Seq<Seq<char>>, icon: Seq<char>, theme: Seq<char>)
    ensures
        ({
            let first = chain(fs, bases, icon, theme, Seq::empty(), lookup_fuel(fs, theme));
            (first.0 is None && !first.1.contains("hicolor"@)) ==> (icon_in_bases(fs, bases, "hicolor"@, icon, 0)
                matches Some(p) ==> icon_lookup(fs, bases, icon, theme) == Some(p))
        }),
{
    law_hicolor_fallback(fs, bases, icon, theme);
}

/// A theme directory holding the icon at the preferred size answers with
/// such a file: when some existing candidate has distance 0, the file found
/// in that theme directory has distance 0 too.
pub proof fn law_exact_size_preferred(fs: IconFs, theme: Seq<char>, icon: Seq<char>)
    ensures
        (exists|k: int|
            0 <= k < theme_candidates(fs, theme, theme_dirs(fs, theme), icon).len()
                && #[trigger] theme_candidates(fs, theme, theme_dirs(fs, theme), icon)[k].0 == 0)
            ==> (best_of(theme_candidates(fs, theme, theme_dirs(fs, theme), icon)) matches Some(b) && b.0 == 0),
{
    let cs = theme_candidates(fs, theme, theme_dirs(fs, theme), icon);
    lemma_best_of_minimal(cs);
}

proof fn lemma_best_of_minimal(cs: Seq<(u32, Seq<char>)>)
    ensures
        cs.len() > 0 ==> (best_of(cs) matches Some(b) && forall|k: int| 0 <= k < cs.len() ==> b.0 <= #[trigger] cs[k].0),
    decreases cs.len(),
{
    if cs.len() > 0 {
        lemma_best_of_minimal(cs.drop_last());
        assert forall|k: int| 0 <= k < cs.len() - 1 implies #[trigger] cs[k] == cs.drop_last()[k] by {}
    }
}

/// No theme is searched twice: starting from themes visited once each, the
/// search along an inheritance chain (cycles included) leaves every theme
/// visited once, the ones visited before it first and in their order.
pub proof fn law_chain_visits_once(
    fs: IconFs,
    bases: Seq<Seq<char>>,
    icon: Seq<char>,
    t: Seq<char>,
    v: Seq<Seq<char>>,
    f: nat,
)
    requires
        v.no_duplicates(),
    ensures
        chain(fs, bases, icon, t, v, f).1.no_duplicates(),
        v.is_prefix_of(chain(fs, bases, icon, t, v, f).1),
    decreases f, 0nat,
{
    if !v.contains(t) {
        let v1 = v.push(t);
        assert(v1.no_duplicates()) by {
            assert forall|i: int, j: int| 0 <= i < v1.len() && 0 <= j < v1.len() && i != j implies v1[i]
                != v1[j] by {
                if i < v.len() && j < v.len() {
                } else if i < v.len() {
                    assert(v1[j] == t);
                    assert(v1[i] == v[i]);
                } else {
                    assert(v1[i] == t);
                    assert(v1[j] == v[j]);
                }
            }
        }
        assert(v.is_prefix_of(v1));
        if f > 0 && icon_in_bases(fs, bases, t, icon, 0) is None {
            lemma_chain_list_visits_once(fs, bases, icon, inherits_of(fs, bases, t, 0), 0, v1, (f - 1) as nat);
        }
    } else {
        assert(v.is_prefix_of(v));
    }
}

proof fn lemma_chain_list_visits_once(
    fs: IconFs,
    bases: Seq<Seq<char>>,
    icon: Seq<char>,
    ps: Seq<Seq<char>>,
    i: nat,
    v: Seq<Seq<char>>,
    f: nat,
)
    requires
        v.no_duplicates(),
    ensures
        chain_list(fs, bases, icon, ps, i, v, f).1.no_duplicates(),
        v.is_prefix_of(chain_list(fs, bases, icon, ps, i, v, f).1),
    decreases f, (ps.len() + 1 - i) as nat,
{
    if i < ps.len() {
        law_chain_visits_once(fs, bases, icon, ps[i as int], v, f);
        let (r, v2) = chain(fs, bases, icon, ps[i as int], v, f);
        if r is None {
            lemma_chain_list_visits_once(fs, bases, icon, ps, i + 1, v2, f);
        }
    } else {
        assert(v.is_prefix_of(v));
    }
}

} // verus!
