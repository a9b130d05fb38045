//! The Hyprland workspace widget: the window count of each workspace, the
//! active workspace, the labels, and how each compositor event changes them.
use vstd::prelude::*;

use crate::text::{chars_of, decimal, push_decimal};
use crate::vault::icons::{
    all_digits, digits_value, is_digit, lemma_digits_value_prefix, strings_view, unsigned_digits,
};

pub mod data;
pub mod komorebi;
pub mod types;

verus! {

/// `i32::from_str`: an optional sign, then one or more decimal digits whose
/// value fits in 32 signed bits.
pub open spec fn parse_i32(s: Seq<char>) -> Option<i32> {
    if s.len() > 1 && s[0] == '-' {
        let d = s.skip(1);
        if all_digits(d) && digits_value(d) <= 2147483648 {
            Some((0 - digits_value(d)) as i32)
        } else {
            None
        }
    } else {
        let d = unsigned_digits(s);
        if d.len() > 0 && all_digits(d) && digits_value(d) <= 2147483647 {
            Some(digits_value(d) as i32)
        } else {
            None
        }
    }
}

/// Reads a string as `i32::from_str` does.
pub fn parse_i32_str(text: &str) -> (r: Option<i32>)
    ensures
        r == parse_i32(text@),
{
    let v = chars_of(text);
    let n = v.len();
    let negative = n > 1 && v[0] == '-';
    let a: usize = if n > 1 && (v[0] == '-' || v[0] == '+') {
        1
    } else {
        0
    };
    let limit: u64 = if negative {
        2147483648
    } else {
        2147483647
    };
    let ghost d = v@.skip(a as int);
    assert(negative ==> d =~= text@.skip(1));
    assert(!negative ==> d =~= unsigned_digits(text@));
    if a == n {
        return None;
    }
    let mut acc: u64 = 0;
    let mut k = a;
    assert(d.take(0) =~= Seq::<char>::empty());
    while k < n
        invariant
            n == v@.len(),
            v@ == text@,
            a <= k <= n,
            d == v@.skip(a as int),
            negative == (n > 1 && v@[0] == '-'),
            negative ==> d == text@.skip(1),
            !negative ==> d == unsigned_digits(text@),
            limit == if negative {
                2147483648u64
            } else {
                2147483647u64
            },
            acc == digits_value(d.take(k - a)),
            acc <= limit,
            all_digits(d.take(k - a)),
        decreases n - k,
    {
        let c = v[k];
        if !('0' <= c && c <= '9') {
            assert(!is_digit(d[k - a]));
            return None;
        }
        let digit: u64 = (c as u32 - 48) as u64;
        assert(d.take(k - a + 1).drop_last() =~= d.take(k - a));
        acc = acc * 10 + digit;
        if acc > limit {
            proof {
                if all_digits(d) {
                    lemma_digits_value_prefix(d, k - a + 1);
                }
            }
            return None;
        }
        k = k + 1;
    }
    assert(d.take(k - a) =~= d);
    if negative {
        if acc == 2147483648 {
            Some(i32::MIN)
        } else {
            Some(0 - (acc as i32))
        }
    } else {
        Some(acc as i32)
    }
}

/// One workspace as the compositor lists it.
pub struct HyprWorkspace {
    pub id: i32,
    pub windows: u16,
    pub name: String,
}

/// The window counts indexed by workspace id, for ids 0 to `total`: each
/// listed workspace in range sets its count, a later listing of an id
/// overriding an earlier one.
pub open spec fn initial_counts(total: int, ws: Seq<HyprWorkspace>) -> Seq<i32>
    decreases ws.len(),
{
    if ws.len() == 0 {
        Seq::new((total + 1) as nat, |i: int| 0i32)
    } else {
        let r = initial_counts(total, ws.drop_last());
        let w = ws.last();
        if 0 <= w.id && w.id < total + 1 {
            r.update(w.id as int, w.windows as i32)
        } else {
            r
        }
    }
}

/// The index of the first listed workspace with id `id`, if any.
pub open spec fn first_with_id(ws: Seq<HyprWorkspace>, id: int) -> Option<int> {
    if exists|k: int| 0 <= k < ws.len() && ws[k].id == id {
        Some(choose|k: int| 0 <= k < ws.len() && ws[k].id == id && forall|j: int| 0 <= j < k ==> ws[j].id != id)
    } else {
        None
    }
}

/// The label of workspace `id`: the name of the first listed workspace with
/// that id, or the id in decimal.
pub open spec fn workspace_label(ws: Option<Seq<HyprWorkspace>>, id: int) -> Seq<char> {
    match ws {
        Some(l) => match first_with_id(l, id) {
            Some(k) => l[k].name@,
            None => decimal(id as nat),
        },
        None => decimal(id as nat),
    }
}

/// The state the widget starts from.
pub struct InitialState {
    pub counts: Vec<i32>,
    pub active: i32,
    pub labels: Vec<String>,
}

fn first_index_with_id(ws: &Vec<HyprWorkspace>, id: i32) -> (r: Option<usize>)
    ensures
        match r {
            Some(k) => k < ws@.len() && ws@[k as int].id == id && forall|j: int|
                0 <= j < k ==> ws@[j].id != id,
            None => forall|j: int| 0 <= j < ws@.len() ==> ws@[j].id != id,
        },
{
    let mut k: usize = 0;
    while k < ws.len()
        invariant
            0 <= k <= ws@.len(),
            forall|j: int| 0 <= j < k ==> ws@[j].id != id,
        decreases ws@.len() - k,
    {
        if ws[k].id == id {
            return Some(k);
        }
        k = k + 1;
    }
    None
}

proof fn lemma_first_with_id(ws: Seq<HyprWorkspace>, id: int, k: int)
    requires
        0 <= k < ws.len(),
        ws[k].id == id,
        forall|j: int| 0 <= j < k ==> ws[j].id != id,
    ensures
        first_with_id(ws, id) == Some(k),
{
    let c = choose|c: int| 0 <= c < ws.len() && ws[c].id == id && forall|j: int| 0 <= j < c ==> ws[j].id != id;
    assert(c == k) by {
        if c < k {
            assert(ws[c].id != id);
        }
        if c > k {
            assert(ws[k].id != id);
        }
    }
}

/// The counts, active workspace and labels the widget starts from, given
/// the configured number of workspaces, the configured labels if any, the
/// compositor's workspace list (`None` when it could not be read) and its
/// active workspace (`None` when unknown, then 1). Configured labels are
/// used as they are; otherwise workspace `i` of 1 to `total` is labelled by
/// the name the compositor gives it, or by `i`.
pub fn fetch_initial_state(
    total: i32,
    fmt: &Option<Vec<String>>,
    workspaces: Option<&Vec<HyprWorkspace>>,
    active: Option<i32>,
) -> (s: InitialState)
    requires
        0 <= total < i32::MAX,
    ensures
        s.counts@ == initial_counts(
            total as int,
            match workspaces {
                Some(w) => w@,
                None => Seq::empty(),
            },
        ),
        s.active == match active {
            Some(a) => a,
            None => 1,
        },
        match fmt {
            Some(l) => strings_view(s.labels@) == strings_view(l@),
            None => s.labels@.len() == total && forall|i: int|
                0 <= i < total ==> #[trigger] s.labels@[i]@ == workspace_label(
                    match workspaces {
                        Some(w) => Some(w@),
                        None => None,
                    },
                    i + 1,
                ),
        },
{
    let size: usize = total as usize + 1;
    let mut counts: Vec<i32> = Vec::new();
    let mut i: usize = 0;
    while i < size
        invariant
            0 <= i <= size,
            size == total + 1,
            counts@ =~= Seq::new(i as nat, |j: int| 0i32),
        decreases size - i,
    {
        counts.push(0);
        i = i + 1;
    }
    assert(counts@ == initial_counts(total as int, Seq::<HyprWorkspace>::empty()));
    if let Some(ws) = workspaces {
        let mut k: usize = 0;
        while k < ws.len()
            invariant
                0 <= k <= ws@.len(),
                size == total + 1,
                0 <= total < i32::MAX,
                counts@ == initial_counts(total as int, ws@.take(k as int)),
                counts@.len() == size,
            decreases ws@.len() - k,
        {
            assert(ws@.take(k + 1).drop_last() =~= ws@.take(k as int));
            let id = ws[k].id;
            if 0 <= id && (id as usize) < size {
                counts.set(id as usize, ws[k].windows as i32);
            }
            k = k + 1;
        }
        assert(ws@.take(ws@.len() as int) =~= ws@);
    }
    let labels: Vec<String> = match fmt {
        Some(l) => {
            let mut out: Vec<String> = Vec::new();
            let mut j: usize = 0;
            assert(strings_view(out@) =~= strings_view(l@.take(0)));
            while j < l.len()
                invariant
                    0 <= j <= l@.len(),
                    strings_view(out@) == strings_view(l@.take(j as int)),
                decreases l@.len() - j,
            {
                let ghost before = out@;
                out.push(l[j].clone());
                assert(strings_view(out@) =~= strings_view(before).push(l@[j as int]@));
                assert(strings_view(l@.take(j + 1)) =~= strings_view(l@.take(j as int)).push(l@[j as int]@));
                j = j + 1;
            }
            assert(l@.take(l@.len() as int) =~= l@);
            out
        },
        None => {
            let mut out: Vec<String> = Vec::new();
            let mut id: i32 = 1;
            while id <= total
                invariant
                    1 <= id <= total + 1,
                    0 <= total < i32::MAX,
                    out@.len() == id - 1,
                    forall|i: int| 0 <= i < id - 1 ==> #[trigger] out@[i]@ == workspace_label(
                        match workspaces {
                            Some(w) => Some(w@),
                            None => None,
                        },
                        i + 1,
                    ),
                decreases total + 1 - id,
            {
                let label = match workspaces {
                    Some(ws) => match first_index_with_id(ws, id) {
                        Some(k) => {
                            proof {
                                lemma_first_with_id(ws@, id as int, k as int);
                            }
                            ws[k].name.clone()
                        },
                        None => {
                            let mut t = String::new();
                            push_decimal(&mut t, id as u64);
                            t
                        },
                    },
                    None => {
                        let mut t = String::new();
                        push_decimal(&mut t, id as u64);
                        t
                    },
                };
                out.push(label);
                id = id + 1;
            }
            out
        },
    };
    let active = match active {
        Some(a) => a,
        None => 1,
    };
    InitialState { counts, active, labels }
}

/// Per workspace from 1 on, whether it holds windows.
pub open spec fn occupied_from(counts: Seq<i32>) -> Seq<bool> {
    if counts.len() == 0 {
        Seq::empty()
    } else {
        counts.skip(1).map_values(|c: i32| c > 0)
    }
}

/// Whether each workspace after workspace 0 holds windows.
pub fn apply_occupied(counts: &Vec<i32>) -> (r: Vec<bool>)
    ensures
        r@ == occupied_from(counts@),
{
    let mut r: Vec<bool> = Vec::new();
    if counts.len() == 0 {
        assert(occupied_from(counts@) =~= Seq::<bool>::empty());
        return r;
    }
    let mut i: usize = 1;
    while i < counts.len()
        invariant
            1 <= i <= counts@.len(),
            r@ =~= occupied_from(counts@).take(i - 1),
        decreases counts@.len() - i,
    {
        r.push(counts[i] > 0);
        i = i + 1;
    }
    assert(occupied_from(counts@).take(counts@.len() - 1) =~= occupied_from(counts@));
    r
}

/// The window counts and the active workspace, as the compositor's events
/// change them.
pub struct WorkspaceCounts {
    counts: Vec<i32>,
    active: i32,
}

impl WorkspaceCounts {
    pub closed spec fn counts_view(self) -> Seq<i32> {
        self.counts@
    }

    pub closed spec fn active_view(self) -> i32 {
        self.active
    }

    /// The counts and active workspace the widget starts from.
    pub fn new(counts: Vec<i32>, active: i32) -> (w: Self)
        ensures
            w.counts_view() == counts@,
            w.active_view() == active,
    {
        WorkspaceCounts { counts, active }
    }

    /// The active workspace.
    pub fn active(&self) -> (a: i32)
        ensures
            a == self.active_view(),
    {
        self.active
    }

    /// Per workspace from 1 on, whether it holds windows.
    pub fn occupied(&self) -> (r: Vec<bool>)
        ensures
            r@ == occupied_from(self.counts_view()),
    {
        apply_occupied(&self.counts)
    }

    /// Another workspace became active; only regular (not special) workspaces count.
    pub fn on_workspace_changed(&mut self, regular: bool, id: i32)
        ensures
            final(self).active_view() == if regular {
                id
            } else {
                old(self).active_view()
            },
            final(self).counts_view() == old(self).counts_view(),
    {
        if regular {
            self.active = id;
        }
    }

    /// A window opened on the workspace named `workspace_name`: when the name
    /// is a workspace id in range, that workspace counts one more window.
    pub fn on_window_opened(&mut self, workspace_name: &str)
        requires
            forall|i: int| 0 <= i < old(self).counts_view().len() ==> #[trigger] old(self).counts_view()[i] < i32::MAX,
        ensures
            final(self).active_view() == old(self).active_view(),
            final(self).counts_view() == match parse_i32(workspace_name@) {
                Some(id) => if 0 <= id < old(self).counts_view().len() {
                    old(self).counts_view().update(id as int, (old(self).counts_view()[id as int] + 1) as i32)
                } else {
                    old(self).counts_view()
                },
                None => old(self).counts_view(),
            },
    {
        if let Some(id) = parse_i32_str(workspace_name) {
            if 0 <= id && (id as usize) < self.counts.len() {
                let idx = id as usize;
                let c = self.counts[idx];
                assert(old(self).counts_view()[idx as int] < i32::MAX);
                self.counts.set(idx, c + 1);
            }
        }
    }

    /// A window moved to workspace `id`: that workspace, when in range,
    /// counts one more window (the workspace it left keeps its count).
    pub fn on_window_moved(&mut self, id: i32)
        requires
            forall|i: int| 0 <= i < old(self).counts_view().len() ==> #[trigger] old(self).counts_view()[i] < i32::MAX,
        ensures
            final(self).active_view() == old(self).active_view(),
            final(self).counts_view() == if 0 <= id < old(self).counts_view().len() {
                old(self).counts_view().update(id as int, (old(self).counts_view()[id as int] + 1) as i32)
            } else {
                old(self).counts_view()
            },
    {
        if 0 <= id && (id as usize) < self.counts.len() {
            let idx = id as usize;
            let c = self.counts[idx];
            assert(old(self).counts_view()[idx as int] < i32::MAX);
            self.counts.set(idx, c + 1);
        }
    }

    /// Workspace `id` was deleted: when in range it counts no windows.
    pub fn on_workspace_deleted(&mut self, id: i32)
        ensures
            final(self).active_view() == old(self).active_view(),
            final(self).counts_view() == if 0 <= id < old(self).counts_view().len() {
                old(self).counts_view().update(id as int, 0)
            } else {
                old(self).counts_view()
            },
    {
        if 0 <= id && (id as usize) < self.counts.len() {
            self.counts.set(id as usize, 0);
        }
    }
}

/// A compositor event the widget follows.
pub enum WorkspaceEvent {
    /// A window opened on the workspace of this name.
    WindowOpened(String),
    /// A window moved to the workspace of this id.
    WindowMoved(i32),
    /// The workspace of this id was deleted.
    WorkspaceDeleted(i32),
    /// The workspace of this id became active; `regular` is false for a
    /// special workspace.
    WorkspaceChanged { regular: bool, id: i32 },
}

/// The counts with workspace `id`, when in range, counting one more window.
pub open spec fn bump(counts: Seq<i32>, id: int) -> Seq<i32> {
    if 0 <= id < counts.len() {
        counts.update(id, (counts[id] + 1) as i32)
    } else {
        counts
    }
}

/// The window counts after one event.
pub open spec fn counts_step(counts: Seq<i32>, ev: WorkspaceEvent) -> Seq<i32> {
    match ev {
        WorkspaceEvent::WindowOpened(name) => match parse_i32(name@) {
            Some(id) => bump(counts, id as int),
            None => counts,
        },
        WorkspaceEvent::WindowMoved(id) => bump(counts, id as int),
        WorkspaceEvent::WorkspaceDeleted(id) => if 0 <= id < counts.len() {
            counts.update(id as int, 0)
        } else {
            counts
        },
        WorkspaceEvent::WorkspaceChanged { .. } => counts,
    }
}

/// The active workspace after one event.
pub open spec fn active_step(active: i32, ev: WorkspaceEvent) -> i32 {
    match ev {
        WorkspaceEvent::WorkspaceChanged { regular, id } => if regular {
            id
        } else {
            active
        },
        _ => active,
    }
}

/// Whether an event is about workspace `i`: it opens or moves a window to
/// it, or deletes it.
pub open spec fn touches(ev: WorkspaceEvent, i: int) -> bool {
    match ev {
        WorkspaceEvent::WindowOpened(name) => parse_i32(name@) matches Some(id) && id == i,
        WorkspaceEvent::WindowMoved(id) => id == i,
        WorkspaceEvent::WorkspaceDeleted(id) => id == i,
        WorkspaceEvent::WorkspaceChanged { .. } => false,
    }
}

/// The window counts after a sequence of events, in order.
pub open spec fn counts_after(counts: Seq<i32>, evs: Seq<WorkspaceEvent>) -> Seq<i32>
    decreases evs.len(),
{
    if evs.len() == 0 {
        counts
    } else {
        counts_step(counts_after(counts, evs.drop_last()), evs.last())
    }
}

/// The active workspace after a sequence of events, in order.
pub open spec fn active_after(active: i32, evs: Seq<WorkspaceEvent>) -> i32
    decreases evs.len(),
{
    if evs.len() == 0 {
        active
    } else {
        active_step(active_after(active, evs.drop_last()), evs.last())
    }
}

/// The id of the latest change to a regular workspace, if any.
pub open spec fn last_regular_change(evs: Seq<WorkspaceEvent>) -> Option<i32>
    decreases evs.len(),
{
    if evs.len() == 0 {
        None
    } else {
        match evs.last() {
            WorkspaceEvent::WorkspaceChanged { regular, id } if regular => Some(id),
            _ => last_regular_change(evs.drop_last()),
        }
    }
}

/// Over any sequence of compositor events: the number of workspaces
/// counted never changes; a workspace that no event opens or moves a window
/// to, or deletes, keeps its count; and the active workspace is the one of
/// the latest change to a regular workspace, or the starting one when there
/// was none.
pub proof fn law_workspace_events(counts: Seq<i32>, active: i32, evs: Seq<WorkspaceEvent>)
    ensures
        counts_after(counts, evs).len() == counts.len(),
        forall|i: int|
            0 <= i < counts.len() && (forall|k: int| 0 <= k < evs.len() ==> !touches(#[trigger] evs[k], i))
                ==> #[trigger] counts_after(counts, evs)[i] == counts[i],
        active_after(active, evs) == match last_regular_change(evs) {
            Some(id) => id,
            None => active,
        },
    decreases evs.len(),
{
    if evs.len() > 0 {
        let init = evs.drop_last();
        law_workspace_events(counts, active, init);
        assert forall|i: int|
            0 <= i < counts.len() && (forall|k: int| 0 <= k < evs.len() ==> !touches(#[trigger] evs[k], i))
                implies #[trigger] counts_after(counts, evs)[i] == counts[i] by {
            assert forall|k: int| 0 <= k < init.len() implies !touches(#[trigger] init[k], i) by {
                assert(init[k] == evs[k]);
            }
            assert(!touches(evs[evs.len() - 1], i));
        }
    }
}

impl WorkspaceCounts {
    /// Follows one compositor event, as the event's own method does.
    pub fn on_event(&mut self, ev: &WorkspaceEvent)
        requires
            forall|i: int| 0 <= i < old(self).counts_view().len() ==> #[trigger] old(self).counts_view()[i] < i32::MAX,
        ensures
            final(self).counts_view() == counts_step(old(self).counts_view(), *ev),
            final(self).active_view() == active_step(old(self).active_view(), *ev),
    {
        match ev {
            WorkspaceEvent::WindowOpened(name) => self.on_window_opened(name.as_str()),
            WorkspaceEvent::WindowMoved(id) => self.on_window_moved(*id),
            WorkspaceEvent::WorkspaceDeleted(id) => self.on_workspace_deleted(*id),
            WorkspaceEvent::WorkspaceChanged { regular, id } => self.on_workspace_changed(*regular, *id),
        }
    }
}

/// Coalesces redraw requests: one is scheduled only while none is pending.
pub struct UpdateScheduler {
    pending: bool,
}

impl UpdateScheduler {
    pub closed spec fn is_pending(self) -> bool {
        self.pending
    }

    /// No redraw pending.
    pub fn new() -> (s: Self)
        ensures
            !s.is_pending(),
    {
        UpdateScheduler { pending: false }
    }

    /// Marks a redraw pending; tells whether one has to be scheduled, which
    /// is when none was pending already.
    pub fn try_schedule_update(&mut self) -> (schedule: bool)
        ensures
            schedule == !old(self).is_pending(),
            final(self).is_pending(),
    {
        let was = self.pending;
        self.pending = true;
        !was
    }

    /// The scheduled redraw ran.
    pub fn finished(&mut self)
        ensures
            !final(self).is_pending(),
    {
        self.pending = false;
    }
}

} // verus!
