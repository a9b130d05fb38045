//! The media popup below the bar: whether it is open, and where it opens.
use vstd::prelude::*;

verus! {

/// What the caller has to do with the popup window.
#[derive(PartialEq, Eq, Structural, Clone, Copy, Debug)]
pub enum PopupAction {
    /// Close the open popup.
    Hide,
    /// Open a new popup with its top-left corner at (`x`, `y`).
    Show { x: i32, y: i32 },
    /// Nothing to do: the bar window is gone.
    Nothing,
}

/// The popup's top edge: right under a bar at `y` that is `height` pixels tall.
pub open spec fn popup_top(y: i32, height: u32) -> int {
    y + (height as i32)
}

/// Whether the popup is open after the button was pressed, and what the
/// caller has to do, given whether it was open and where the bar is.
pub open spec fn toggled(open: bool, bar: Option<(i32, i32, u32)>) -> (bool, PopupAction) {
    if open {
        (false, PopupAction::Hide)
    } else {
        match bar {
            Some((x, y, h)) => (true, PopupAction::Show { x: x, y: popup_top(y, h) as i32 }),
            None => (false, PopupAction::Nothing),
        }
    }
}

/// Pressing the button twice while the bar is there leaves the popup as it
/// was: from closed, the first press shows it under the bar and the second
/// hides it.
pub proof fn law_toggle_twice(open: bool, bar: (i32, i32, u32))
    ensures
        toggled(toggled(open, Some(bar)).0, Some(bar)).0 == open,
        !open ==> toggled(open, Some(bar)).1 is Show && toggled(toggled(open, Some(bar)).0, Some(bar)).1
            == PopupAction::Hide,
{
}

/// Toggles the media popup between open and closed.
pub struct PopupController {
    visible: bool,
}

impl PopupController {
    pub closed spec fn is_open(self) -> bool {
        self.visible
    }

    /// A controller with the popup closed.
    pub fn new() -> (c: Self)
        ensures
            !c.is_open(),
    {
        PopupController { visible: false }
    }

    /// Whether the popup is open.
    pub fn visible(&self) -> (r: bool)
        ensures
            r == self.is_open(),
    {
        self.visible
    }

    /// Closes the popup; tells whether one was open to be closed.
    pub fn hide_popup(&mut self) -> (was_open: bool)
        ensures
            was_open == old(self).is_open(),
            !final(self).is_open(),
    {
        let was_open = self.visible;
        self.visible = false;
        was_open
    }

    /// Opens the popup under the bar whose window is at (`x`, `y`) and is
    /// `height` tall.
    pub fn show(&mut self, x: i32, y: i32, height: u32) -> (a: PopupAction)
        requires
            i32::MIN <= popup_top(y, height) <= i32::MAX,
        ensures
            a == (PopupAction::Show { x: x, y: popup_top(y, height) as i32 }),
            final(self).is_open(),
    {
        let top = y + height as i32;
        self.visible = true;
        PopupAction::Show { x: x, y: top }
    }

    /// The popup button was pressed. An open popup is closed. A closed one
    /// is opened under the bar, given as its window's position and height,
    /// unless the bar window is gone, in which case nothing happens.
    pub fn toggle(&mut self, bar: Option<(i32, i32, u32)>) -> (a: PopupAction)
        requires
            bar matches Some((x, y, h)) ==> i32::MIN <= popup_top(y, h) <= i32::MAX,
        ensures
            (final(self).is_open(), a) == toggled(old(self).is_open(), bar),
            old(self).is_open() ==> a == PopupAction::Hide && !final(self).is_open(),
            !old(self).is_open() ==> match bar {
                Some((x, y, h)) => a == (PopupAction::Show { x: x, y: popup_top(y, h) as i32 })
                    && final(self).is_open(),
                None => a == PopupAction::Nothing && !final(self).is_open(),
            },
    {
        if self.visible {
            self.hide_popup();
            PopupAction::Hide
        } else {
            match bar {
                Some((x, y, h)) => self.show(x, y, h),
                None => PopupAction::Nothing,
            }
        }
    }
}

} // verus!
