//! The komorebi workspace events: which events describe the workspaces, the
//! workspace state they carry, and the suppression of repeated states.
use vstd::prelude::*;

verus! {

/// The active workspace (1-based) and which workspaces hold windows.
pub struct WorkspaceInfo {
    pub active_workspace: i32,
    pub workspace_occupied: Vec<bool>,
}

/// The workspaces of one monitor as komorebi reports them: the focused
/// workspace (0-based) and the number of containers on each workspace.
pub struct MonitorWorkspaces {
    pub focused: i32,
    pub containers: Vec<usize>,
}

/// The part of a komorebi event that the bar reads: the event's type and,
/// when the event carries a state, for each monitor its workspaces if reported.
pub struct KomorebiEvent {
    pub event_type: String,
    pub monitors: Option<Vec<Option<MonitorWorkspaces>>>,
}

/// Whether an event type announces a change of the workspaces shown.
pub open spec fn is_workspace_event(t: Seq<char>) -> bool {
    t == "FocusChange"@ || t == "WorkAreaChanged"@
}

pub open spec fn occupied_of(containers: Seq<usize>) -> Seq<bool> {
    containers.map_values(|c: usize| c > 0)
}

/// The workspaces of the first monitor of an event's state, when reported.
pub open spec fn first_monitor(e: KomorebiEvent) -> Option<MonitorWorkspaces> {
    match e.monitors {
        Some(ms) => if ms@.len() > 0 {
            ms@[0]
        } else {
            None
        },
        None => None,
    }
}

/// The workspace state of an event: for a focus or work-area change that
/// carries a state whose first monitor reports its workspaces, the focused
/// workspace counted from 1 and, per workspace, whether it holds containers.
pub open spec fn event_workspaces(e: KomorebiEvent) -> Option<(int, Seq<bool>)> {
    if !is_workspace_event(e.event_type@) {
        None
    } else {
        match e.monitors {
            Some(ms) => if ms@.len() > 0 {
                match ms@[0] {
                    Some(w) => Some((w.focused + 1, occupied_of(w.containers@))),
                    None => None,
                }
            } else {
                None
            },
            None => None,
        }
    }
}

fn occupied_flags(containers: &Vec<usize>) -> (r: Vec<bool>)
    ensures
        r@ == occupied_of(containers@),
{
    let mut r: Vec<bool> = Vec::new();
    let mut i: usize = 0;
    while i < containers.len()
        invariant
            0 <= i <= containers@.len(),
            r@ == occupied_of(containers@).take(i as int),
        decreases containers@.len() - i,
    {
        r.push(containers[i] > 0);
        assert(occupied_of(containers@).take(i + 1) =~= occupied_of(containers@).take(i as int).push(
            containers@[i as int] > 0,
        ));
        i = i + 1;
    }
    assert(occupied_of(containers@).take(containers@.len() as int) =~= occupied_of(containers@));
    r
}

/// The workspace state of a komorebi event, or `None` when the event does
/// not describe the workspaces.
pub fn parse_workspace_event(e: &KomorebiEvent) -> (r: Option<WorkspaceInfo>)
    requires
        first_monitor(*e) matches Some(w) ==> w.focused < i32::MAX,
    ensures
        match r {
            Some(info) => event_workspaces(*e) == Some(
                (info.active_workspace as int, info.workspace_occupied@),
            ),
            None => event_workspaces(*e) is None,
        },
{
    let focus = String::from_str("FocusChange");
    let area = String::from_str("WorkAreaChanged");
    if !(e.event_type == focus) && !(e.event_type == area) {
        return None;
    }
    match &e.monitors {
        Some(ms) => {
            if ms.len() == 0 {
                return None;
            }
            match &ms[0] {
                Some(w) => Some(
                    WorkspaceInfo {
                        active_workspace: w.focused + 1,
                        workspace_occupied: occupied_flags(&w.containers),
                    },
                ),
                None => None,
            }
        },
        None => None,
    }
}

fn same_flags(a: &Vec<bool>, b: &Vec<bool>) -> (r: bool)
    ensures
        r == (a@ == b@),
{
    if a.len() != b.len() {
        return false;
    }
    let mut i: usize = 0;
    while i < a.len()
        invariant
            a@.len() == b@.len(),
            0 <= i <= a@.len(),
            forall|j: int| 0 <= j < i ==> a@[j] == b@[j],
        decreases a@.len() - i,
    {
        if a[i] != b[i] {
            return false;
        }
        i = i + 1;
    }
    assert(a@ =~= b@);
    true
}

fn copy_flags(a: &Vec<bool>) -> (r: Vec<bool>)
    ensures
        r@ == a@,
{
    let mut r: Vec<bool> = Vec::new();
    let mut i: usize = 0;
    while i < a.len()
        invariant
            0 <= i <= a@.len(),
            r@ == a@.take(i as int),
        decreases a@.len() - i,
    {
        r.push(a[i]);
        assert(a@.take(i + 1) =~= a@.take(i as int).push(a@[i as int]));
        i = i + 1;
    }
    assert(a@.take(a@.len() as int) =~= a@);
    r
}

/// Remembers the last workspace state passed on, so that repeated states are not.
pub struct WorkspaceTracker {
    last: Option<(i32, Vec<bool>)>,
}

impl WorkspaceTracker {
    pub closed spec fn last_shown(self) -> Option<(i32, Seq<bool>)> {
        match self.last {
            Some((a, o)) => Some((a, o@)),
            None => None,
        }
    }

    /// A tracker that has passed nothing on yet.
    pub fn new() -> (t: Self)
        ensures
            t.last_shown() is None,
    {
        WorkspaceTracker { last: None }
    }

    /// Whether `info` differs from the last state passed on; when it does it
    /// becomes the last state.
    pub fn observe(&mut self, info: &WorkspaceInfo) -> (changed: bool)
        ensures
            changed == (old(self).last_shown() != Some(
                (info.active_workspace, info.workspace_occupied@),
            )),
            final(self).last_shown() == Some((info.active_workspace, info.workspace_occupied@)),
    {
        let same = match &self.last {
            Some((a, o)) => *a == info.active_workspace && same_flags(o, &info.workspace_occupied),
            None => false,
        };
        if !same {
            self.last = Some((info.active_workspace, copy_flags(&info.workspace_occupied)));
        }
        !same
    }
}

/// A focus change and a work-area change both report the workspaces of the
/// first monitor: when it reports them, the state is its focused workspace
/// counted from 1 and, for each workspace in order, whether it holds any
/// container; when it does not, there is none. Any other event carries no
/// workspace state.
pub proof fn law_workspace_events_read_first_monitor(e: KomorebiEvent)
    ensures
        (e.event_type@ == "FocusChange"@ || e.event_type@ == "WorkAreaChanged"@) ==> match first_monitor(e) {
            Some(w) => event_workspaces(e) matches Some((active, occupied)) && active == w.focused + 1
                && occupied.len() == w.containers@.len() && forall|i: int|
                0 <= i < occupied.len() ==> #[trigger] occupied[i] == (w.containers@[i] > 0),
            None => event_workspaces(e) is None,
        },
        !(e.event_type@ == "FocusChange"@ || e.event_type@ == "WorkAreaChanged"@) ==> event_workspaces(e) is None,
{
}

} // verus!
