//! Utilities of the shell framework: the applications found in desktop files
//! with their queries, and the types of desktop notifications.
pub mod application;
pub mod icons;
pub mod theme_lookup;

use vstd::prelude::*;

use crate::text::to_owned_string;

verus! {

/// Reason given when a notification closes.
#[derive(PartialEq, Eq, Structural, Clone, Copy, Debug)]
pub enum CloseReason {
    /// The notification expired.
    Expired,
    /// The user dismissed it.
    Dismissed,
    /// It was closed by a call to CloseNotification.
    ByCall,
    /// Undefined or reserved reasons.
    Undefined,
}

impl CloseReason {
    /// The reason's code in the NotificationClosed signal.
    pub fn code(&self) -> (c: u32)
        ensures
            c == (match *self {
                CloseReason::Expired => 1u32,
                CloseReason::Dismissed => 2u32,
                CloseReason::ByCall => 3u32,
                CloseReason::Undefined => 4u32,
            }),
    {
        match self {
            CloseReason::Expired => 1,
            CloseReason::Dismissed => 2,
            CloseReason::ByCall => 3,
            CloseReason::Undefined => 4,
        }
    }
}

/// Errors of a notification manager.
#[derive(PartialEq, Eq, Structural, Clone, Copy, Debug)]
pub enum NotiError {
    /// A new notification could not be handled.
    MessageUnprocessed,
    /// A close request failed and the notification stays open.
    MessageCloseFailed,
}

/// Urgency level proposed by a notification.
#[derive(PartialEq, Eq, Structural, Clone, Copy, Debug)]
pub enum Urgency {
    Low,
    Normal,
    Critical,
}

impl Urgency {
    /// The level's byte in the "urgency" hint.
    pub fn level(&self) -> (l: u8)
        ensures
            l == (match *self {
                Urgency::Low => 0u8,
                Urgency::Normal => 1u8,
                Urgency::Critical => 2u8,
            }),
    {
        match self {
            Urgency::Low => 0,
            Urgency::Normal => 1,
            Urgency::Critical => 2,
        }
    }
}

/// How long a notification stays.
#[derive(PartialEq, Eq, Structural, Clone, Copy, Debug)]
pub enum Timeout {
    /// The server's default.
    Default,
    /// Until the user closes it.
    Never,
    /// This many milliseconds.
    Milliseconds(i32),
}

/// Hints a notification may carry.
pub enum Hint {
    ActionIcons(bool),
    Category(String),
    DesktopEntry(String),
    ImagePath(String),
    Resident(bool),
    SoundFile(String),
    SoundName(String),
    SuppressSound(bool),
    Transient(bool),
    X(i32),
    Y(i32),
    Urgency(Urgency),
    Invalid,
}

/// A desktop notification.
pub struct Notification {
    pub id: u32,
    pub appname: String,
    pub summary: String,
    pub subtitle: Option<String>,
    pub body: String,
    pub icon: String,
    pub hints: Vec<Hint>,
    pub actions: Vec<String>,
    pub timeout: Timeout,
}

/// Implemented by a window that shows notifications.
pub trait NotificationManager {
    /// Called with each new notification.
    fn new_notification(&self, notification: Notification) -> Result<(), NotiError>;

    /// Called when the notification `id` is to be closed.
    fn close_notification(&self, id: u32) -> Result<(), NotiError>;
}

/// Asks the notification server to announce closed notifications.
pub struct BlockingNotification;

/// An application entry (the application itself or one of its actions).
pub struct AppData {
    /// The desktop-file id of the file the entry comes from.
    pub desktop_file_id: String,
    /// Whether this is the application rather than one of its actions.
    pub is_primary: bool,
    /// The image path of the entry's icon, when one was found.
    pub image_path: Option<String>,
    pub name: String,
    /// The command line the entry runs.
    pub exec_comm: Option<String>,
}

/// The applications found in desktop files.
pub struct AppSelector {
    pub app_list: Vec<AppData>,
}

pub open spec fn derefs(v: Seq<&AppData>) -> Seq<AppData> {
    v.map_values(|r: &AppData| *r)
}

/// Whether an entry of the list already comes from the desktop file `id`.
pub open spec fn has_file_id(list: Seq<AppData>, id: Seq<char>) -> bool {
    exists|j: int| 0 <= j < list.len() && #[trigger] list[j].desktop_file_id@ == id
}

impl AppSelector {
    /// An empty selection.
    pub fn new() -> (s: AppSelector)
        ensures
            s.app_list@.len() == 0,
    {
        AppSelector { app_list: Vec::new() }
    }

    /// The entries that are applications rather than actions, in order.
    pub fn get_primary(&self) -> (r: Vec<&AppData>)
        ensures
            derefs(r@) == self.app_list@.filter(|a: AppData| a.is_primary),
    {
        let ghost p = |a: AppData| a.is_primary;
        let mut r: Vec<&AppData> = Vec::new();
        let mut k: usize = 0;
        while k < self.app_list.len()
            invariant
                0 <= k <= self.app_list@.len(),
                p == (|a: AppData| a.is_primary),
                derefs(r@) == self.app_list@.take(k as int).filter(p),
            decreases self.app_list@.len() - k,
        {
            let a = &self.app_list[k];
            proof {
                assert(self.app_list@.take(k + 1) =~= self.app_list@.take(k as int).push(*a));
                self.app_list@.take(k as int).lemma_filter_push(*a, p);
            }
            if a.is_primary {
                r.push(a);
            }
            assert(derefs(r@) =~= self.app_list@.take(k + 1).filter(p));
            k = k + 1;
        }
        assert(self.app_list@.take(k as int) =~= self.app_list@);
        r
    }

    /// All entries, in order.
    pub fn get_all(&self) -> (r: Vec<&AppData>)
        ensures
            derefs(r@) == self.app_list@,
    {
        let mut r: Vec<&AppData> = Vec::new();
        let mut k: usize = 0;
        while k < self.app_list.len()
            invariant
                0 <= k <= self.app_list@.len(),
                derefs(r@) == self.app_list@.take(k as int),
            decreases self.app_list@.len() - k,
        {
            let a = &self.app_list[k];
            let ghost before = r@;
            r.push(a);
            assert(r@ == before.push(a));
            assert(*a == self.app_list@[k as int]);
            assert(derefs(r@) =~= derefs(before).push(*a));
            assert(derefs(r@) =~= self.app_list@.take(k + 1));
            k = k + 1;
        }
        assert(self.app_list@.take(k as int) =~= self.app_list@);
        r
    }

    /// Adds the entries of one desktop file, except when an entry from a file
    /// of the same desktop-file id is already listed (the first file found wins).
    pub fn add_entries(&mut self, new_entries: Vec<AppData>)
        ensures
            final(self).app_list@ == old(self).app_list@ + new_entries@.filter(
                |a: AppData| !has_file_id(old(self).app_list@, a.desktop_file_id@),
            ),
    {
        let ghost before = self.app_list@;
        let ghost p = |a: AppData| !has_file_id(before, a.desktop_file_id@);
        let mut kept: Vec<AppData> = Vec::new();
        let mut new_entries = new_entries;
        let ghost all_new = new_entries@;
        while new_entries.len() > 0
            invariant
                self.app_list@ == before,
                p == (|a: AppData| !has_file_id(before, a.desktop_file_id@)),
                new_entries@.len() <= all_new.len(),
                kept@ == all_new.take(all_new.len() - new_entries@.len()).filter(p),
                new_entries@ == all_new.skip(all_new.len() - new_entries@.len()),
            decreases new_entries@.len(),
        {
            let ghost done = all_new.len() - new_entries@.len();
            assert(new_entries@[0] == all_new[done]);
            let a = new_entries.remove(0);
            proof {
                assert(all_new.take(done + 1) =~= all_new.take(done).push(a));
                all_new.take(done).lemma_filter_push(a, p);
                assert(new_entries@ =~= all_new.skip(done + 1));
            }
            let mut dup = false;
            let mut j: usize = 0;
            while j < self.app_list.len()
                invariant
                    self.app_list@ == before,
                    0 <= j <= before.len(),
                    dup == exists|i: int| 0 <= i < j && #[trigger] before[i].desktop_file_id@ == a.desktop_file_id@,
                decreases before.len() - j,
            {
                if self.app_list[j].desktop_file_id == a.desktop_file_id {
                    dup = true;
                }
                j = j + 1;
            }
            assert(dup == has_file_id(before, a.desktop_file_id@));
            if !dup {
                kept.push(a);
            }
        }
        assert(all_new.take(all_new.len() as int) =~= all_new);
        self.app_list.append(&mut kept);
    }
}

/// The lower-case form of a string under Unicode case mapping.
pub uninterp spec fn lowercase(s: Seq<char>) -> Seq<char>;

/// `str::to_lowercase`: the contract names its result `lowercase` of the
/// argument; Unicode's case mapping itself is not stated.
#[verifier::external_body]
fn to_lowercase(s: &str) -> (r: String)
    ensures
        r@ == lowercase(s@),
{
    s.to_lowercase()
}

/// The views of a sequence of strings.
pub open spec fn views(v: Seq<String>) -> Seq<Seq<char>> {
    v.map_values(|s: String| s@)
}

/// The `n` strings of `list` that match `query` best by trigram similarity,
/// best first.
pub uninterp spec fn fuzzy_best_n(query: Seq<char>, list: Seq<Seq<char>>, n: nat) -> Seq<Seq<char>>;

/// `rust_fuzzy_search::fuzzy_search_best_n`, keeping the words and dropping
/// their scores. Its source scores every word of the list, sorts the list by
/// score and takes the first `n`, so the contract states that the result is
/// the name `fuzzy_best_n` of the arguments, has `min(n, list.len())` words and
/// holds only words of the list; which words the scores pick is not stated.
#[verifier::external_body]
fn fuzzy_search_best_n(query: &str, list: &Vec<String>, n: usize) -> (r: Vec<String>)
    ensures
        views(r@) == fuzzy_best_n(query@, views(list@), n as nat),
        r@.len() == (if n < list@.len() { n as int } else { list@.len() as int }),
        forall|k: int|
            0 <= k < r@.len() ==> exists|j: int|
                0 <= j < list@.len() && #[trigger] list@[j]@ == #[trigger] r@[k]@,
{
    let words: Vec<&str> = list.iter().map(|s| s.as_str()).collect();
    rust_fuzzy_search::fuzzy_search_best_n(query, &words, n).into_iter().map(|(w, _)| w.to_string()).collect()
}

/// The lower-case names of the entries.
pub open spec fn lowered_names(s: Seq<AppData>) -> Seq<Seq<char>> {
    s.map_values(|a: AppData| lowercase(a.name@))
}

/// Whether some entry's lower-case name is `w`.
pub open spec fn named_in(list: Seq<AppData>, w: Seq<char>) -> bool {
    exists|j: int| 0 <= j < list.len() && #[trigger] lowercase(list[j].name@) == w
}

/// The first entry whose lower-case name is `w`.
pub open spec fn first_named(list: Seq<AppData>, w: Seq<char>) -> int {
    choose|j: int|
        0 <= j < list.len() && lowercase(#[trigger] list[j].name@) == w && forall|i: int|
            0 <= i < j ==> lowercase(list[i].name@) != w
}

/// The entries a query ranks: the applications alone (no actions), or every
/// entry, in list order.
pub open spec fn query_candidates(list: Seq<AppData>, primary_only: bool) -> Seq<AppData> {
    if primary_only {
        list.filter(|a: AppData| a.is_primary)
    } else {
        list
    }
}

/// The answer to a query over the candidates `cands`: for each of the
/// best-matching lower-case names, the first candidate bearing it.
pub open spec fn query_answer(cands: Seq<AppData>, query: Seq<char>, size: nat) -> Seq<AppData> {
    let best = fuzzy_best_n(lowercase(query), lowered_names(cands), size);
    best.map_values(|w: Seq<char>| cands[first_named(cands, w)])
}

/// How many entries a query over `n` candidates returns.
pub open spec fn answer_len(n: nat, size: nat) -> nat {
    if size < n {
        size
    } else {
        n
    }
}

/// The lower-case names of the entries behind `c`, in order.
fn lowered_names_of(c: &Vec<&AppData>) -> (names: Vec<String>)
    ensures
        views(names@) == lowered_names(derefs(c@)),
{
    let mut names: Vec<String> = Vec::new();
    let mut k: usize = 0;
    while k < c.len()
        invariant
            0 <= k <= c@.len(),
            views(names@) == lowered_names(derefs(c@).take(k as int)),
        decreases c@.len() - k,
    {
        let lower = to_lowercase(c[k].name.as_str());
        let ghost before = names@;
        names.push(lower);
        proof {
            assert(derefs(c@).take(k + 1) =~= derefs(c@).take(k as int).push(*c@[k as int]));
            assert(views(names@) =~= views(before).push(lower@));
            assert(views(names@) =~= lowered_names(derefs(c@).take(k + 1)));
        }
        k = k + 1;
    }
    assert(derefs(c@).take(k as int) =~= derefs(c@));
    names
}

impl AppSelector {
    fn candidate_entries(&self, primary_only: bool) -> (c: Vec<&AppData>)
        ensures
            derefs(c@) == query_candidates(self.app_list@, primary_only),
    {
        let ghost p = |a: AppData| a.is_primary;
        let ghost t = |a: AppData| true;
        let ghost f = if primary_only { p } else { t };
        let mut c: Vec<&AppData> = Vec::new();
        let mut k: usize = 0;
        while k < self.app_list.len()
            invariant
                0 <= k <= self.app_list@.len(),
                p == (|a: AppData| a.is_primary),
                t == (|a: AppData| true),
                f == (if primary_only { p } else { t }),
                derefs(c@) == self.app_list@.take(k as int).filter(f),
            decreases self.app_list@.len() - k,
        {
            let a = &self.app_list[k];
            proof {
                assert(self.app_list@.take(k + 1) =~= self.app_list@.take(k as int).push(*a));
                self.app_list@.take(k as int).lemma_filter_push(*a, f);
            }
            if !primary_only || a.is_primary {
                let ghost before = c@;
                c.push(a);
                assert(derefs(c@) =~= derefs(before).push(*a));
            }
            k = k + 1;
        }
        proof {
            assert(self.app_list@.take(k as int) =~= self.app_list@);
            assert(self.app_list@.filter(t) =~= self.app_list@) by {
                lemma_filter_all_true(self.app_list@, t);
            }
        }
        c
    }

    fn query_entries(&self, query_val: &str, size: usize, primary_only: bool) -> (r: Vec<&AppData>)
        ensures
            derefs(r@) == query_answer(
                query_candidates(self.app_list@, primary_only),
                query_val@,
                size as nat,
            ),
            r@.len() == answer_len(query_candidates(self.app_list@, primary_only).len(), size as nat),
            forall|k: int|
                0 <= k < r@.len() ==> query_candidates(self.app_list@, primary_only).contains(
                    #[trigger] derefs(r@)[k],
                ),
    {
        let query = to_lowercase(query_val);
        let cands = self.candidate_entries(primary_only);
        let names = lowered_names_of(&cands);
        let best = fuzzy_search_best_n(query.as_str(), &names, size);
        let ghost cs = derefs(cands@);
        let ghost answer = query_answer(cs, query_val@, size as nat);
        proof {
            assert forall|m: int| 0 <= m < best@.len() implies named_in(cs, #[trigger] best@[m]@) by {
                let j = choose|j: int| 0 <= j < names@.len() && #[trigger] names@[j]@ == best@[m]@;
                assert(0 <= j < names@.len());
                assert(views(names@).len() == names@.len());
                assert(lowered_names(cs).len() == cs.len());
                assert(views(names@)[j] == names@[j]@);
                assert(lowered_names(cs)[j] == lowercase(cs[j].name@));
                assert(lowercase(cs[j].name@) == names@[j]@);
            }
            assert forall|m: int| 0 <= m < best@.len() implies answer[m] == cs[first_named(
                cs,
                #[trigger] best@[m]@,
            )] by {
                assert(views(best@)[m] == best@[m]@);
            }
        }
        let mut r: Vec<&AppData> = Vec::new();
        let mut k: usize = 0;
        while k < best.len()
            invariant
                0 <= k <= best@.len(),
                cs == derefs(cands@),
                answer.len() == best@.len(),
                forall|m: int| 0 <= m < best@.len() ==> named_in(cs, #[trigger] best@[m]@),
                forall|m: int|
                    0 <= m < best@.len() ==> answer[m] == cs[first_named(cs, #[trigger] best@[m]@)],
                derefs(r@) == answer.take(k as int),
                forall|m: int| 0 <= m < r@.len() ==> cs.contains(#[trigger] derefs(r@)[m]),
            decreases best@.len() - k,
        {
            let w = &best[k];
            let mut j: usize = 0;
            let mut found = false;
            while j < cands.len() && !found
                invariant
                    0 <= j <= cands@.len(),
                    cs == derefs(cands@),
                    found ==> j >= 1 && lowercase(cs[j - 1].name@) == w@,
                    forall|i: int|
                        0 <= i < (if found { j - 1 } else { j as int }) ==> lowercase(
                            #[trigger] cs[i].name@,
                        ) != w@,
                decreases cands@.len() - j + (if found { 0int } else { 1int }),
            {
                let lower = to_lowercase(cands[j].name.as_str());
                if lower == *w {
                    found = true;
                }
                j = j + 1;
            }
            if !found {
                assert(named_in(cs, best@[k as int]@));
                assert(false);
            }
            let idx = j - 1;
            proof {
                let fj = first_named(cs, w@);
                assert(lowercase(cs[idx as int].name@) == w@);
                assert(0 <= fj < cs.len() && lowercase(cs[fj].name@) == w@);
                if fj < idx {
                    assert(lowercase(cs[fj].name@) != w@);
                }
                if idx < fj {
                    assert(lowercase(cs[idx as int].name@) != w@);
                }
            }
            let a: &AppData = cands[idx];
            let ghost before = r@;
            r.push(a);
            assert(derefs(r@) =~= derefs(before).push(*a));
            assert(cs[idx as int] == *a);
            assert forall|m: int| 0 <= m < r@.len() implies cs.contains(#[trigger] derefs(r@)[m]) by {
                if m < r@.len() - 1 {
                    assert(derefs(r@)[m] == derefs(before)[m]);
                } else {
                    assert(derefs(r@)[m] == cs[idx as int]);
                }
            }
            assert(derefs(r@) =~= answer.take(k + 1));
            k = k + 1;
        }
        assert(answer.take(k as int) =~= answer);
        proof {
            assert(views(names@).len() == names@.len());
            assert(lowered_names(cs).len() == cs.len());
            assert(derefs(r@).len() == r@.len());
        }
        r
    }

    /// The application entries (no actions) that best match `query_val`,
    /// best first: `size` of them, or all applications where there are fewer.
    /// Matching ignores case, and each best name is looked up among the
    /// applications.
    pub fn query_primary(&self, query_val: &str, size: usize) -> (r: Vec<&AppData>)
        ensures
            derefs(r@) == query_answer(
                self.app_list@.filter(|a: AppData| a.is_primary),
                query_val@,
                size as nat,
            ),
            r@.len() == answer_len(self.app_list@.filter(|a: AppData| a.is_primary).len(), size as nat),
            r@.len() <= size,
            forall|k: int|
                0 <= k < r@.len() ==> (#[trigger] derefs(r@)[k]).is_primary && self.app_list@.contains(
                    derefs(r@)[k],
                ),
    {
        let r = self.query_entries(query_val, size, true);
        proof {
            let p = |a: AppData| a.is_primary;
            let f = self.app_list@.filter(p);
            self.app_list@.filter_lemma(p);
            assert forall|k: int| 0 <= k < r@.len() implies (#[trigger] derefs(r@)[k]).is_primary
                && self.app_list@.contains(derefs(r@)[k]) by {
                let x = derefs(r@)[k];
                assert(f.contains(x));
                let i = choose|i: int| 0 <= i < f.len() && f[i] == x;
                assert(p(f[i]));
                self.app_list@.lemma_filter_contains_rev(p, x);
            }
        }
        r
    }

    /// The entries (applications and actions) that best match `query_val`,
    /// best first: `size` of them, or all entries where there are fewer.
    /// Matching ignores case.
    pub fn query_all(&self, query_val: &str, size: usize) -> (r: Vec<&AppData>)
        ensures
            derefs(r@) == query_answer(self.app_list@, query_val@, size as nat),
            r@.len() == answer_len(self.app_list@.len(), size as nat),
            r@.len() <= size,
            forall|k: int| 0 <= k < r@.len() ==> self.app_list@.contains(#[trigger] derefs(r@)[k]),
    {
        self.query_entries(query_val, size, false)
    }
}

proof fn lemma_filter_all_true(s: Seq<AppData>, t: spec_fn(AppData) -> bool)
    requires
        forall|a: AppData| #[trigger] t(a),
    ensures
        s.filter(t) == s,
    decreases s.len(),
{
    reveal(Seq::filter);
    if s.len() > 0 {
        lemma_filter_all_true(s.drop_last(), t);
        assert(s.drop_last().push(s.last()) =~= s);
    }
}

} // verus!
