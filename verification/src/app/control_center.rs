//! The control center's opening and closing: its open flag and the two
//! single-shot timers that show and hide its surface.
use vstd::prelude::*;

verus! {

/// After closing, the surface is hidden this many milliseconds later, once
/// the closing animation has run.
pub const HIDE_DELAY_MS: u64 = 210;

/// After opening, the surface is shown this many milliseconds later, once
/// the content is placed.
pub const OPEN_DELAY_MS: u64 = 16;

/// The timer a press of the control-center button starts; the other
/// pending timer is cancelled.
#[derive(PartialEq, Eq, Structural, Clone, Copy, Debug)]
pub enum ControlCenterTimer {
    Hide(u64),
    Open(u64),
}

/// What happens to the control center.
#[derive(PartialEq, Eq, Structural, Clone, Copy, Debug)]
pub enum ControlCenterEvent {
    /// The button was pressed.
    Toggle,
    /// The hiding timer fired.
    HideFired,
    /// The opening timer fired.
    OpenFired,
    /// The surface was shown.
    Shown,
}

/// The control center's state as plain values: whether it shows as open,
/// whether the hiding timer is pending, whether the opening timer is.
pub type CenterView = (bool, bool, bool);

/// The state after one event.
pub open spec fn center_step(s: CenterView, ev: ControlCenterEvent) -> CenterView {
    match ev {
        ControlCenterEvent::Toggle => if s.0 {
            (false, true, false)
        } else {
            (false, false, true)
        },
        ControlCenterEvent::HideFired => (s.0, false, s.2),
        ControlCenterEvent::OpenFired => (s.0, s.1, false),
        ControlCenterEvent::Shown => (true, s.1, s.2),
    }
}

/// The state after a sequence of events, in order.
pub open spec fn center_after(s: CenterView, evs: Seq<ControlCenterEvent>) -> CenterView
    decreases evs.len(),
{
    if evs.len() == 0 {
        s
    } else {
        center_step(center_after(s, evs.drop_last()), evs.last())
    }
}

/// Whether the surface was shown after the last press of the button: some
/// `Shown` comes after every `Toggle`.
pub open spec fn shown_since_toggle(evs: Seq<ControlCenterEvent>) -> bool {
    exists|k: int|
        0 <= k < evs.len() && #[trigger] evs[k] == ControlCenterEvent::Shown && forall|j: int|
            k < j < evs.len() ==> evs[j] != ControlCenterEvent::Toggle
}

/// From the closed control center with no timer pending, over any sequence
/// of presses, timer firings and showings: the hiding and opening timers are
/// never pending together, and the control center shows as open exactly
/// when the surface was shown after the last press.
pub proof fn law_control_center(evs: Seq<ControlCenterEvent>)
    ensures
        !(center_after((false, false, false), evs).1 && center_after((false, false, false), evs).2),
        center_after((false, false, false), evs).0 <==> shown_since_toggle(evs),
    decreases evs.len(),
{
    if evs.len() > 0 {
        let init = evs.drop_last();
        law_control_center(init);
        let last = evs.last();
        if shown_since_toggle(init) && last != ControlCenterEvent::Toggle {
            let k = choose|k: int|
                0 <= k < init.len() && #[trigger] init[k] == ControlCenterEvent::Shown && forall|j: int|
                    k < j < init.len() ==> init[j] != ControlCenterEvent::Toggle;
            assert(evs[k] == ControlCenterEvent::Shown);
            assert forall|j: int| k < j < evs.len() implies evs[j] != ControlCenterEvent::Toggle by {
                if j < init.len() {
                    assert(init[j] == evs[j]);
                }
            }
        }
        if last == ControlCenterEvent::Shown {
            assert(evs[evs.len() - 1] == ControlCenterEvent::Shown);
        }
        if shown_since_toggle(evs) && last != ControlCenterEvent::Shown {
            let k = choose|k: int|
                0 <= k < evs.len() && #[trigger] evs[k] == ControlCenterEvent::Shown && forall|j: int|
                    k < j < evs.len() ==> evs[j] != ControlCenterEvent::Toggle;
            assert(k < evs.len() - 1);
            assert(init[k] == ControlCenterEvent::Shown);
            assert forall|j: int| k < j < init.len() implies init[j] != ControlCenterEvent::Toggle by {
                assert(init[j] == evs[j]);
            }
        }
    }
}

/// The control center's state: whether it shows as open, and which timers are pending.
pub struct ControlCenterController {
    is_open: bool,
    hide_pending: bool,
    open_pending: bool,
}

impl ControlCenterController {
    pub closed spec fn open(self) -> bool {
        self.is_open
    }

    pub closed spec fn hide_timer(self) -> bool {
        self.hide_pending
    }

    pub closed spec fn open_timer(self) -> bool {
        self.open_pending
    }

    /// The state as plain values.
    pub closed spec fn center_view(self) -> CenterView {
        (self.is_open, self.hide_pending, self.open_pending)
    }

    /// Closed, with no timer pending.
    pub fn new() -> (c: Self)
        ensures
            !c.open() && !c.hide_timer() && !c.open_timer(),
            c.center_view() == (false, false, false),
    {
        ControlCenterController { is_open: false, hide_pending: false, open_pending: false }
    }

    /// Whether the control center shows as open.
    pub fn is_open(&self) -> (r: bool)
        ensures
            r == self.open(),
    {
        self.is_open
    }

    /// The button was pressed. An open control center closes: its opening
    /// timer is cancelled and the surface is hidden after `HIDE_DELAY_MS`.
    /// Otherwise it opens: its hiding timer is cancelled and the surface is
    /// shown after `OPEN_DELAY_MS`. Either way it shows as closed until the
    /// surface is shown.
    pub fn toggle(&mut self) -> (t: ControlCenterTimer)
        ensures
            final(self).center_view() == center_step(old(self).center_view(), ControlCenterEvent::Toggle),
            !final(self).open(),
            old(self).open() ==> t == ControlCenterTimer::Hide(HIDE_DELAY_MS) && final(self).hide_timer()
                && !final(self).open_timer(),
            !old(self).open() ==> t == ControlCenterTimer::Open(OPEN_DELAY_MS) && final(self).open_timer()
                && !final(self).hide_timer(),
    {
        if self.is_open {
            self.open_pending = false;
            self.is_open = false;
            self.hide_pending = true;
            ControlCenterTimer::Hide(HIDE_DELAY_MS)
        } else {
            self.hide_pending = false;
            self.is_open = false;
            self.open_pending = true;
            ControlCenterTimer::Open(OPEN_DELAY_MS)
        }
    }

    /// The hiding timer fired; tells whether to hide the surface (it was not cancelled).
    pub fn hide_timer_fired(&mut self) -> (fired: bool)
        ensures
            final(self).center_view() == center_step(old(self).center_view(), ControlCenterEvent::HideFired),
            fired == old(self).hide_timer(),
            !final(self).hide_timer(),
            final(self).open() == old(self).open(),
            final(self).open_timer() == old(self).open_timer(),
    {
        let fired = self.hide_pending;
        self.hide_pending = false;
        fired
    }

    /// The opening timer fired; tells whether to show the surface (it was not cancelled).
    pub fn open_timer_fired(&mut self) -> (show: bool)
        ensures
            final(self).center_view() == center_step(old(self).center_view(), ControlCenterEvent::OpenFired),
            show == old(self).open_timer(),
            !final(self).open_timer(),
            final(self).open() == old(self).open(),
            final(self).hide_timer() == old(self).hide_timer(),
    {
        let show = self.open_pending;
        self.open_pending = false;
        show
    }

    /// The surface was shown; the control center now shows as open.
    pub fn shown(&mut self)
        ensures
            final(self).center_view() == center_step(old(self).center_view(), ControlCenterEvent::Shown),
            final(self).open(),
            final(self).hide_timer() == old(self).hide_timer(),
            final(self).open_timer() == old(self).open_timer(),
    {
        self.is_open = true;
    }
}

} // verus!
