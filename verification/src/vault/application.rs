//! Desktop entries: the desktop-file id of an entry's path, the command line
//! of its `Exec` key, and the entries (the application and its actions) that
//! a desktop file describes.
use vstd::prelude::*;

use crate::text::{
    chars_of, ends_with, push_char, slice_ends_with, slice_starts_with, starts_with, string_of,
    trim, trim_bounds, to_owned_string,
};

verus! {

/// `s` with the field codes of an `Exec` value removed: `%%` stands for `%`,
/// `%` and the character after it are dropped, and double quotes are dropped.
pub open spec fn strip_field_codes(s: Seq<char>) -> Seq<char>
    decreases s.len(),
{
    if s.len() == 0 {
        s
    } else if s[0] == '%' {
        if s.len() >= 2 && s[1] == '%' {
            seq!['%'] + strip_field_codes(s.skip(2))
        } else if s.len() >= 2 {
            strip_field_codes(s.skip(2))
        } else {
            Seq::<char>::empty()
        }
    } else if s[0] == '"' {
        strip_field_codes(s.skip(1))
    } else {
        seq![s[0]] + strip_field_codes(s.skip(1))
    }
}

/// Drops the seven-character file argument ("@@u %u @@"-style) that flatpak
/// exports leave at the end of a command ending in '@'.
pub open spec fn drop_flatpak_tail(r: Seq<char>) -> Seq<char> {
    if r.len() > 0 && r.last() == '@' {
        r.take(r.len() - 7)
    } else {
        r
    }
}

/// Whether the command of an `Exec` value is defined: a command that ends in
/// '@' after the field codes are removed must be at least seven characters long.
pub open spec fn exec_command_defined(s: Seq<char>) -> bool {
    let r = strip_field_codes(s);
    !(r.len() > 0 && r.last() == '@' && r.len() < 7)
}

/// The command line an `Exec` value runs.
pub open spec fn exec_command(s: Seq<char>) -> Seq<char> {
    trim(drop_flatpak_tail(strip_field_codes(s)))
}

fn stripped(input: &str) -> (out: Vec<char>)
    ensures
        out@ == strip_field_codes(input@),
{
    let v = chars_of(input);
    let n = v.len();
    let mut out: Vec<char> = Vec::new();
    let mut i: usize = 0;
    assert(v@.skip(0) =~= v@);
    while i < n
        invariant
            n == v@.len(),
            v@ == input@,
            0 <= i <= n,
            strip_field_codes(v@) == out@ + strip_field_codes(v@.skip(i as int)),
        decreases n - i,
    {
        let c = v[i];
        let ghost rest = v@.skip(i as int);
        assert(rest[0] == c);
        if c == '%' {
            if i + 1 < n && v[i + 1] == '%' {
                out.push('%');
                assert(rest.skip(2) =~= v@.skip(i + 2));
                i = i + 2;
            } else if i + 1 < n {
                assert(rest.skip(2) =~= v@.skip(i + 2));
                i = i + 2;
            } else {
                assert(v@.skip(i + 1) =~= Seq::<char>::empty());
                i = i + 1;
            }
        } else if c == '"' {
            assert(rest.skip(1) =~= v@.skip(i + 1));
            i = i + 1;
        } else {
            out.push(c);
            assert(rest.skip(1) =~= v@.skip(i + 1));
            i = i + 1;
        }
        assert(strip_field_codes(v@) =~= out@ + strip_field_codes(v@.skip(i as int)));
    }
    assert(v@.skip(n as int) =~= Seq::<char>::empty());
    assert(out@ =~= strip_field_codes(v@));
    out
}

/// Whether the command of an `Exec` value can be cut out (see `exec_command_defined`).
pub fn exec_command_is_defined(input: &str) -> (r: bool)
    ensures
        r == exec_command_defined(input@),
{
    let out = stripped(input);
    !(out.len() > 0 && out[out.len() - 1] == '@' && out.len() < 7)
}

/// The command line of an `Exec` value: field codes and double quotes removed,
/// a flatpak file-argument tail dropped, surrounding white space trimmed.
pub fn get_exec_command(input: &str) -> (out: String)
    requires
        exec_command_defined(input@),
    ensures
        out@ == exec_command(input@),
{
    let out = stripped(input);
    let mut end = out.len();
    if end > 0 && out[end - 1] == '@' {
        end = end - 7;
    }
    assert(out@.subrange(0, end as int) =~= drop_flatpak_tail(out@));
    let (a, b) = trim_bounds(&out, 0, end);
    string_of(&out, a, b)
}

/// A component of a file path: a normal name, or a root, prefix, `.` or `..`.
pub enum PathPart {
    Normal(String),
    Other,
}

pub open spec fn is_applications(p: PathPart) -> bool {
    p matches PathPart::Normal(s) && s@ == "applications"@
}

/// Whether an `applications` directory comes before position `k`.
pub open spec fn applications_before(parts: Seq<PathPart>, k: int) -> bool {
    exists|j: int| 0 <= j < k && #[trigger] is_applications(parts[j])
}

/// What component `k` adds to the desktop-file id: components after an
/// `applications` directory (other than another one), each followed by '-'
/// unless it ends in ".desktop".
pub open spec fn id_piece(parts: Seq<PathPart>, k: int) -> Seq<char> {
    match parts[k] {
        PathPart::Normal(s) => if !is_applications(parts[k]) && applications_before(parts, k) {
            if ends_with(s@, ".desktop"@) {
                s@
            } else {
                s@.push('-')
            }
        } else {
            Seq::<char>::empty()
        },
        PathPart::Other => Seq::<char>::empty(),
    }
}

/// The desktop-file id of the first `n` components.
pub open spec fn desktop_id_upto(parts: Seq<PathPart>, n: nat) -> Seq<char>
    decreases n,
{
    if n == 0 {
        Seq::<char>::empty()
    } else {
        desktop_id_upto(parts, (n - 1) as nat) + id_piece(parts, n - 1)
    }
}

/// The desktop-file id of a path: its components below the `applications`
/// directory joined by '-', such as "org.gnome.Nautilus.desktop" or
/// "kde-kate.desktop".
pub fn get_desktop_id(parts: &Vec<PathPart>) -> (id: String)
    requires
        parts@.len() <= i32::MAX,
    ensures
        id@ == desktop_id_upto(parts@, parts@.len()),
{
    let apps = to_owned_string("applications");
    let desktop = chars_of(".desktop");
    let mut id = String::new();
    let mut seen = false;
    let mut index: usize = 0;
    while index < parts.len()
        invariant
            0 <= index <= parts@.len(),
            apps@ == "applications"@,
            desktop@ == ".desktop"@,
            seen == applications_before(parts@, index as int),
            id@ == desktop_id_upto(parts@, index as nat),
        decreases parts@.len() - index,
    {
        let ghost before = id@;
        match &parts[index] {
            PathPart::Normal(s) => {
                let is_apps = *s == apps;
                assert(is_apps == is_applications(parts@[index as int]));
                if !is_apps && seen {
                    let sv = chars_of(s.as_str());
                    let n = sv.len();
                    let is_desktop = slice_ends_with(&sv, 0, n, &desktop);
                    assert(sv@.subrange(0, n as int) =~= s@);
                    id.append(s.as_str());
                    if !is_desktop {
                        push_char(&mut id, '-');
                    }
                }
                if is_apps {
                    seen = true;
                }
            },
            PathPart::Other => {},
        }
        assert(id@ =~= before + id_piece(parts@, index as int));
        proof {
            if is_applications(parts@[index as int]) {
                assert(applications_before(parts@, index + 1));
            } else if applications_before(parts@, index + 1) {
                let j = choose|j: int| 0 <= j < index + 1 && #[trigger] is_applications(parts@[j]);
                assert(j < index);
            }
        }
        index = index + 1;
    }
    id
}

/// The first `=` of a line splits it into key and value.
pub open spec fn split_key(line: Seq<char>) -> Option<(Seq<char>, Seq<char>)> {
    if exists|k: int| 0 <= k < line.len() && #[trigger] line[k] == '=' {
        let k = choose|k: int|
            0 <= k < line.len() && #[trigger] line[k] == '=' && forall|j: int|
                0 <= j < k ==> line[j] != '=';
        Some((line.take(k), line.skip(k + 1)))
    } else {
        None
    }
}

/// An entry of a desktop file as parsed: the raw `Icon` value is kept.
pub struct EntrySpec {
    pub is_primary: bool,
    pub icon: Option<Seq<char>>,
    pub name: Seq<char>,
    pub command: Option<Seq<char>>,
}

/// What the parser has seen so far.
pub struct ParseState {
    pub main_found: bool,
    pub main_pushed: bool,
    pub icon: Option<Seq<char>>,
    pub name: Seq<char>,
    pub command: Option<Seq<char>>,
    pub entries: Seq<EntrySpec>,
}

/// Why a desktop file is rejected.
#[derive(PartialEq, Eq, Structural, Clone, Copy, Debug)]
pub enum DesktopFileError {
    /// A line other than a comment comes before the `[Desktop Entry]` header.
    MainEntryNotFound,
    /// A key line holds no '='.
    MissingEquals,
    /// An `Exec` value whose command cannot be cut out of it.
    BadExec,
    /// The last section has no name.
    MissingName,
}

/// Where a desktop file leads: its entries, no entry (a hidden entry or one
/// that is not an application), or a malformed file the parser rejects.
pub enum ParseOutcome {
    Entries(Seq<EntrySpec>),
    Skip,
    Malformed(DesktopFileError),
}

pub enum LineOutcome {
    Continue(ParseState),
    Skip,
    Malformed(DesktopFileError),
}

pub open spec fn initial_state() -> ParseState {
    ParseState {
        main_found: false,
        main_pushed: false,
        icon: None,
        name: Seq::<char>::empty(),
        command: None,
        entries: Seq::<EntrySpec>::empty(),
    }
}

/// The entry the current section describes: the application itself for the
/// first section, else an action named after the application.
pub open spec fn section_entry(st: ParseState) -> EntrySpec {
    if !st.main_pushed {
        EntrySpec { is_primary: true, icon: st.icon, name: st.name, command: st.command }
    } else {
        EntrySpec {
            is_primary: false,
            icon: st.icon,
            name: st.entries[0].name + " - "@ + st.name,
            command: st.command,
        }
    }
}

/// One line of a desktop file.
pub open spec fn parse_line(st: ParseState, line: Seq<char>) -> LineOutcome {
    if line.len() == 0 || line[0] == '#' {
        LineOutcome::Continue(st)
    } else if starts_with(line, "[Desktop Entry]"@) {
        LineOutcome::Continue(ParseState { main_found: true, ..st })
    } else if !st.main_found {
        LineOutcome::Malformed(DesktopFileError::MainEntryNotFound)
    } else if line[0] == '[' {
        LineOutcome::Continue(
            ParseState { main_pushed: true, entries: st.entries.push(section_entry(st)), ..st },
        )
    } else {
        match split_key(line) {
            None => LineOutcome::Malformed(DesktopFileError::MissingEquals),
            Some(kv) => {
                let key = kv.0;
                let val = kv.1;
                if key == "Type"@ {
                    if val == "Application"@ {
                        LineOutcome::Continue(st)
                    } else {
                        LineOutcome::Skip
                    }
                } else if key == "Name"@ {
                    LineOutcome::Continue(ParseState { name: val, ..st })
                } else if key == "Icon"@ {
                    LineOutcome::Continue(ParseState { icon: Some(val), ..st })
                } else if key == "Exec"@ {
                    if exec_command_defined(val) {
                        LineOutcome::Continue(ParseState { command: Some(exec_command(val)), ..st })
                    } else {
                        LineOutcome::Malformed(DesktopFileError::BadExec)
                    }
                } else if key == "NoDisplay"@ || key == "Hidden"@ {
                    if val == "true"@ {
                        LineOutcome::Skip
                    } else {
                        LineOutcome::Continue(st)
                    }
                } else {
                    LineOutcome::Continue(st)
                }
            },
        }
    }
}

/// The end of the file: the last section's entry is added; an application
/// without a name is rejected.
pub open spec fn finish(st: ParseState) -> ParseOutcome {
    if st.name.len() == 0 {
        ParseOutcome::Malformed(DesktopFileError::MissingName)
    } else {
        ParseOutcome::Entries(st.entries.push(section_entry(st)))
    }
}

/// Parsing lines `i..` from state `st`.
pub open spec fn parse_from(lines: Seq<Seq<char>>, i: int, st: ParseState) -> ParseOutcome
    decreases lines.len() - i,
{
    if i >= lines.len() || i < 0 {
        finish(st)
    } else {
        match parse_line(st, lines[i]) {
            LineOutcome::Continue(next) => parse_from(lines, i + 1, next),
            LineOutcome::Skip => ParseOutcome::Skip,
            LineOutcome::Malformed(e) => ParseOutcome::Malformed(e),
        }
    }
}

/// The views of a sequence of lines.
pub open spec fn line_views(lines: Seq<String>) -> Seq<Seq<char>> {
    lines.map_values(|l: String| l@)
}

pub open spec fn parse_desktop_lines(lines: Seq<String>) -> ParseOutcome {
    parse_from(line_views(lines), 0, initial_state())
}

proof fn lemma_split_key_at(key: Seq<char>, val: Seq<char>)
    requires
        forall|j: int| 0 <= j < key.len() ==> key[j] != '=',
    ensures
        split_key(key + seq!['='] + val) == Some((key, val)),
{
    let line = key + seq!['='] + val;
    let n = key.len() as int;
    assert(line[n] == '=');
    let k = choose|k: int|
        0 <= k < line.len() && #[trigger] line[k] == '=' && forall|j: int| 0 <= j < k ==> line[j] != '=';
    if k < n {
        assert(line[k] == key[k]);
    }
    if k > n {
        assert(line[n] != '=');
    }
    assert(line.take(n) =~= key);
    assert(line.skip(n + 1) =~= val);
}

/// A hidden entry is never listed: once the `[Desktop Entry]` header has
/// been read, a line `Hidden=true` or `NoDisplay=true` ends the parse with
/// no entry, whatever came before it and whatever follows.
pub proof fn law_hidden_entries_skipped(lines: Seq<Seq<char>>, i: int, st: ParseState)
    requires
        st.main_found,
        0 <= i < lines.len(),
        lines[i] == "Hidden=true"@ || lines[i] == "NoDisplay=true"@,
    ensures
        parse_line(st, lines[i]) is Skip,
        parse_from(lines, i, st) is Skip,
{
    reveal_strlit("Hidden=true");
    reveal_strlit("NoDisplay=true");
    reveal_strlit("Hidden");
    reveal_strlit("NoDisplay");
    reveal_strlit("true");
    reveal_strlit("[Desktop Entry]");
    reveal_strlit("Type");
    reveal_strlit("Name");
    reveal_strlit("Icon");
    reveal_strlit("Exec");
    let line = lines[i];
    if line == "Hidden=true"@ {
        assert(line =~= "Hidden"@ + seq!['='] + "true"@);
        lemma_split_key_at("Hidden"@, "true"@);
        assert("Hidden"@ != "Type"@);
        assert("Hidden"@ != "Name"@);
        assert("Hidden"@ != "Icon"@);
        assert("Hidden"@ != "Exec"@);
    } else {
        assert(line =~= "NoDisplay"@ + seq!['='] + "true"@);
        lemma_split_key_at("NoDisplay"@, "true"@);
        assert("NoDisplay"@ != "Type"@);
        assert("NoDisplay"@ != "Name"@);
        assert("NoDisplay"@ != "Icon"@);
        assert("NoDisplay"@ != "Exec"@);
    }
    assert(!starts_with(line, "[Desktop Entry]"@));
}

pub open spec fn opt_view(o: Option<String>) -> Option<Seq<char>> {
    match o {
        Some(s) => Some(s@),
        None => None,
    }
}

/// An entry of a desktop file: the application itself or one of its actions.
pub struct DesktopEntry {
    pub is_primary: bool,
    /// The raw `Icon` value: a path when it holds '/', else an icon name.
    pub icon: Option<String>,
    pub name: String,
    pub exec_comm: Option<String>,
}

impl DesktopEntry {
    pub open spec fn spec_view(self) -> EntrySpec {
        EntrySpec {
            is_primary: self.is_primary,
            icon: opt_view(self.icon),
            name: self.name@,
            command: opt_view(self.exec_comm),
        }
    }
}

pub open spec fn entries_view(v: Seq<DesktopEntry>) -> Seq<EntrySpec> {
    v.map_values(|e: DesktopEntry| e.spec_view())
}

fn clone_opt(o: &Option<String>) -> (r: Option<String>)
    ensures
        r == *o,
{
    match o {
        Some(s) => Some(s.clone()),
        None => None,
    }
}

/// The exec-side state of the parser.
struct Parser {
    main_found: bool,
    main_pushed: bool,
    icon: Option<String>,
    name: String,
    command: Option<String>,
    entries: Vec<DesktopEntry>,
}

impl Parser {
    spec fn view_state(self) -> ParseState {
        ParseState {
            main_found: self.main_found,
            main_pushed: self.main_pushed,
            icon: opt_view(self.icon),
            name: self.name@,
            command: opt_view(self.command),
            entries: entries_view(self.entries@),
        }
    }

    fn section_entry(&self) -> (e: DesktopEntry)
        requires
            self.main_pushed ==> self.entries@.len() > 0,
        ensures
            e.spec_view() == section_entry(self.view_state()),
    {
        if !self.main_pushed {
            DesktopEntry {
                is_primary: true,
                icon: clone_opt(&self.icon),
                name: self.name.clone(),
                exec_comm: clone_opt(&self.command),
            }
        } else {
            let mut name = self.entries[0].name.clone();
            name.append(" - ");
            name.append(self.name.as_str());
            DesktopEntry {
                is_primary: false,
                icon: clone_opt(&self.icon),
                name,
                exec_comm: clone_opt(&self.command),
            }
        }
    }

    fn push_section(&mut self)
        requires
            old(self).main_pushed ==> old(self).entries@.len() > 0,
        ensures
            final(self).view_state() == (ParseState {
                main_pushed: true,
                entries: old(self).view_state().entries.push(section_entry(old(self).view_state())),
                ..old(self).view_state()
            }),
            final(self).entries@.len() > 0,
    {
        let e = self.section_entry();
        self.entries.push(e);
        self.main_pushed = true;
        assert(entries_view(self.entries@) =~= entries_view(old(self).entries@).push(e.spec_view()));
    }
}

/// Finds the first '=' of `v`.
fn find_equals(v: &Vec<char>) -> (r: Option<usize>)
    ensures
        match r {
            Some(k) => k < v@.len() && v@[k as int] == '=' && forall|j: int| 0 <= j < k ==> v@[j] != '=',
            None => forall|j: int| 0 <= j < v@.len() ==> v@[j] != '=',
        },
{
    let mut k: usize = 0;
    while k < v.len()
        invariant
            0 <= k <= v@.len(),
            forall|j: int| 0 <= j < k ==> v@[j] != '=',
        decreases v@.len() - k,
    {
        if v[k] == '=' {
            return Some(k);
        }
        k = k + 1;
    }
    None
}

/// Parses the lines of a desktop file into its entries, as
/// `desktop_entry_extracter` does; a malformed file (a line before the
/// `[Desktop Entry]` header, a line without '=', an `Exec` value whose
/// command cannot be cut, or no name) gives the error that stops it.
pub fn parse_desktop_entries(lines: &Vec<String>) -> (res: Result<Option<Vec<DesktopEntry>>, DesktopFileError>)
    ensures
        match parse_desktop_lines(lines@) {
            ParseOutcome::Entries(es) => res matches Ok(Some(v)) && entries_view(v@) == es,
            ParseOutcome::Skip => res matches Ok(None),
            ParseOutcome::Malformed(e) => res == Err::<Option<Vec<DesktopEntry>>, DesktopFileError>(e),
        },
{
    let ghost views = line_views(lines@);
    let header = chars_of("[Desktop Entry]");
    let type_key = to_owned_string("Type");
    let name_key = to_owned_string("Name");
    let icon_key = to_owned_string("Icon");
    let exec_key = to_owned_string("Exec");
    let nodisplay_key = to_owned_string("NoDisplay");
    let hidden_key = to_owned_string("Hidden");
    let application = to_owned_string("Application");
    let true_val = to_owned_string("true");
    let mut p = Parser {
        main_found: false,
        main_pushed: false,
        icon: None,
        name: String::new(),
        command: None,
        entries: Vec::new(),
    };
    assert(p.view_state().entries =~= Seq::<EntrySpec>::empty());
    assert(p.view_state() == initial_state());
    let mut i: usize = 0;
    while i < lines.len()
        invariant
            0 <= i <= lines@.len(),
            views == line_views(lines@),
            header@ == "[Desktop Entry]"@,
            type_key@ == "Type"@,
            name_key@ == "Name"@,
            icon_key@ == "Icon"@,
            exec_key@ == "Exec"@,
            nodisplay_key@ == "NoDisplay"@,
            hidden_key@ == "Hidden"@,
            application@ == "Application"@,
            true_val@ == "true"@,
            p.main_pushed ==> p.entries@.len() > 0,
            parse_from(views, i as int, p.view_state()) == parse_desktop_lines(lines@),
        decreases lines@.len() - i,
    {
        let line = chars_of(lines[i].as_str());
        let n = line.len();
        assert(line@ == views[i as int]);
        assert(line@.subrange(0, n as int) =~= line@);
        let ghost st = p.view_state();
        if n == 0 || line[0] == '#' {
        } else if slice_starts_with(&line, 0, n, &header) {
            p.main_found = true;
        } else if !p.main_found {
            assert(parse_line(st, views[i as int]) == LineOutcome::Malformed(DesktopFileError::MainEntryNotFound));
            return Err(DesktopFileError::MainEntryNotFound);
        } else if line[0] == '[' {
            p.push_section();
        } else {
            match find_equals(&line) {
                None => {
                    assert(split_key(line@) is None);
                    return Err(DesktopFileError::MissingEquals);
                },
                Some(k) => {
                    proof {
                        let kk = choose|kk: int|
                            0 <= kk < line@.len() && #[trigger] line@[kk] == '=' && forall|j: int|
                                0 <= j < kk ==> line@[j] != '=';
                        assert(line@[k as int] == '=');
                        if kk < k {
                            assert(line@[kk] != '=');
                        }
                        if k < kk {
                            assert(line@[k as int] != '=');
                        }
                        assert(kk == k);
                    }
                    let key = string_of(&line, 0, k);
                    let val = string_of(&line, k + 1, n);
                    assert(key@ =~= line@.take(k as int));
                    assert(val@ =~= line@.skip(k + 1));
                    if key == type_key {
                        if val == application {
                        } else {
                            return Ok(None);
                        }
                    } else if key == name_key {
                        p.name = val;
                    } else if key == icon_key {
                        p.icon = Some(val);
                    } else if key == exec_key {
                        if !exec_command_is_defined(val.as_str()) {
                            return Err(DesktopFileError::BadExec);
                        }
                        let cmd = get_exec_command(val.as_str());
                        p.command = Some(cmd);
                    } else if key == nodisplay_key || key == hidden_key {
                        if val == true_val {
                            return Ok(None);
                        }
                    }
                },
            }
        }
        assert(parse_line(st, views[i as int]) == LineOutcome::Continue(p.view_state()));
        i = i + 1;
    }
    if p.name.as_str().is_empty() {
        assert(p.name@.len() == 0);
        return Err(DesktopFileError::MissingName);
    }
    p.push_section();
    Ok(Some(p.entries))
}

/// Parses the lines of a desktop file into its entries: the application
/// (from the `[Desktop Entry]` section) followed by one entry per action
/// section. `None` when the file hides the entry (`NoDisplay=true`,
/// `Hidden=true`) or describes something other than an application.
pub fn desktop_entry_extracter(lines: &Vec<String>) -> (res: Option<Vec<DesktopEntry>>)
    requires
        !(parse_desktop_lines(lines@) is Malformed),
    ensures
        match parse_desktop_lines(lines@) {
            ParseOutcome::Entries(es) => res matches Some(v) && entries_view(v@) == es,
            ParseOutcome::Skip => res is None,
            ParseOutcome::Malformed(_) => false,
        },
{
    match parse_desktop_entries(lines) {
        Ok(r) => r,
        Err(_) => None,
    }
}

/// The app data of an entry of the desktop file `desktop_file_id`: an `Icon`
/// value holding '/' is the image path itself, any other is an icon name whose
/// lookup gave `resolved`.
pub open spec fn image_path_of(icon: Option<Seq<char>>, resolved: Option<Seq<char>>) -> Option<
    Seq<char>,
> {
    match icon {
        None => None,
        Some(v) => if v.contains('/') {
            Some(v)
        } else {
            resolved
        },
    }
}

/// Whether `s` holds the character `c`.
pub fn str_contains_char(s: &str, c: char) -> (r: bool)
    ensures
        r == s@.contains(c),
{
    let v = chars_of(s);
    let mut k: usize = 0;
    while k < v.len()
        invariant
            v@ == s@,
            0 <= k <= v@.len(),
            forall|j: int| 0 <= j < k ==> v@[j] != c,
        decreases v@.len() - k,
    {
        if v[k] == c {
            assert(s@[k as int] == c);
            return true;
        }
        k = k + 1;
    }
    false
}

impl DesktopEntry {
    /// The application data of this entry of the desktop file
    /// `desktop_file_id`; `resolved` is the icon lookup's result for an `Icon`
    /// value that is a name (it is not used for a path).
    pub fn to_app_data(&self, desktop_file_id: &str, resolved: Option<String>) -> (a: super::AppData)
        ensures
            a.desktop_file_id@ == desktop_file_id@,
            a.is_primary == self.is_primary,
            opt_view(a.image_path) == image_path_of(opt_view(self.icon), opt_view(resolved)),
            a.name@ == self.name@,
            a.exec_comm == self.exec_comm,
    {
        let image_path = match &self.icon {
            None => None,
            Some(v) => {
                if str_contains_char(v.as_str(), '/') {
                    Some(v.clone())
                } else {
                    resolved
                }
            },
        };
        super::AppData {
            desktop_file_id: to_owned_string(desktop_file_id),
            is_primary: self.is_primary,
            image_path,
            name: self.name.clone(),
            exec_comm: clone_opt(&self.exec_comm),
        }
    }

    /// The icon name to look up for this entry: its `Icon` value when that is a
    /// name rather than a path.
    pub fn icon_name(&self) -> (r: Option<&String>)
        ensures
            match r {
                Some(n) => self.icon == Some(*n) && !n@.contains('/'),
                None => self.icon is None || opt_view(self.icon).unwrap().contains('/'),
            },
    {
        match &self.icon {
            None => None,
            Some(v) => {
                if str_contains_char(v.as_str(), '/') {
                    None
                } else {
                    Some(v)
                }
            },
        }
    }
}

} // verus!
