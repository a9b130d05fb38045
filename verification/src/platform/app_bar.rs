//! The shell app-bar registration of the status bar: what is asked of the
//! shell, the rectangle the bar claims on each edge, the window style it
//! gets, and how the bar answers the shell's notifications.
use vstd::prelude::*;

use super::config::{abe_code, AppBarEdge};

verus! {

pub const GWL_EXSTYLE: i32 = -20;

pub const WS_EX_NOACTIVATE: u32 = 0x08000000;

pub const WS_EX_TOPMOST: u32 = 0x00000008;

pub const ABM_NEW: u32 = 0;

pub const ABM_REMOVE: u32 = 1;

pub const ABM_QUERYPOS: u32 = 2;

pub const ABM_SETPOS: u32 = 3;

pub const ABM_GETTASKBARPOS: u32 = 5;

pub const ABM_WINDOWPOSCHANGED: u32 = 9;

pub const ABE_LEFT: u32 = 0;

pub const ABE_TOP: u32 = 1;

pub const ABE_RIGHT: u32 = 2;

pub const ABE_BOTTOM: u32 = 3;

pub const WM_USER: u32 = 0x0400;

/// The message the shell sends the bar its app-bar notifications with.
pub const APPBAR_CALLBACK_MESSAGE: u32 = 0x0464;

pub const ABN_POSCHANGED: i32 = 0;

pub const ABN_STATECHANGE: i32 = 1;

pub const ABN_FULLSCREENAPP: i32 = 2;

pub const ABN_WINDOWARRANGE: i32 = 3;

/// Width of the bar when it is put back in place.
pub const BAR_WIDTH: i32 = 1366;

/// A screen rectangle.
#[derive(PartialEq, Eq, Structural, Clone, Copy, Debug)]
pub struct Rect {
    pub left: i32,
    pub top: i32,
    pub right: i32,
    pub bottom: i32,
}

/// The fields of an APPBARDATA message to the shell.
#[derive(PartialEq, Eq, Structural, Clone, Copy, Debug)]
pub struct AppBarData {
    pub hwnd: isize,
    pub callback_message: u32,
    pub edge: u32,
    pub rc: Rect,
}

/// The rectangle a bar of thickness `height` claims on `edge` of a screen of
/// the given size; `None` for an unknown edge code.
pub open spec fn claimed_rect(edge: u32, height: i32, screen_width: i32, screen_height: i32) -> Option<
    Rect,
> {
    if edge == ABE_TOP {
        Some(Rect { left: 0, top: 0, right: screen_width, bottom: height })
    } else if edge == ABE_BOTTOM {
        Some(
            Rect {
                left: 0,
                top: (screen_height - height) as i32,
                right: screen_width,
                bottom: screen_height,
            },
        )
    } else if edge == ABE_LEFT {
        Some(Rect { left: 0, top: 0, right: height, bottom: screen_height })
    } else if edge == ABE_RIGHT {
        Some(
            Rect {
                left: (screen_width - height) as i32,
                top: 0,
                right: screen_width,
                bottom: screen_height,
            },
        )
    } else {
        None
    }
}

/// The extended window style of the bar: the current one, never activated,
/// and topmost when asked.
pub open spec fn bar_ex_style(current: isize, always_on_top: bool) -> isize {
    (if always_on_top {
        (current as u32) | WS_EX_NOACTIVATE | WS_EX_TOPMOST
    } else {
        (current as u32) | WS_EX_NOACTIVATE
    }) as isize
}

/// Computes the extended window style of the bar from its current one.
pub fn bar_window_style(current: isize, always_on_top: bool) -> (style: isize)
    ensures
        style == bar_ex_style(current, always_on_top),
{
    let mut updated = (current as u32) | WS_EX_NOACTIVATE;
    if always_on_top {
        updated = updated | WS_EX_TOPMOST;
    }
    updated as isize
}

/// The bar's registration with the shell.
#[derive(Clone, Copy)]
pub struct AppBar {
    registered: bool,
    hwnd: isize,
    edge: u32,
    height: i32,
}

impl AppBar {
    pub closed spec fn is_registered(self) -> bool {
        self.registered
    }

    pub closed spec fn window(self) -> isize {
        self.hwnd
    }

    pub closed spec fn edge_code(self) -> u32 {
        self.edge
    }

    pub closed spec fn thickness(self) -> i32 {
        self.height
    }

    /// An unregistered 34-pixel bar on the top edge.
    pub fn new() -> (bar: AppBar)
        ensures
            !bar.is_registered(),
            bar.window() == 0,
            bar.edge_code() == ABE_TOP,
            bar.thickness() == 34,
    {
        AppBar { registered: false, hwnd: 0, edge: ABE_TOP, height: 34 }
    }

    /// The bar's thickness in pixels.
    pub fn height(&self) -> (h: i32)
        ensures
            h == self.thickness(),
    {
        self.height
    }

    /// Whether the shell accepted the bar.
    pub fn registered(&self) -> (r: bool)
        ensures
            r == self.is_registered(),
    {
        self.registered
    }

    /// Records the window, edge and thickness of the bar and returns the ABM_NEW
    /// request that asks the shell to accept it, with the bar's callback message.
    pub fn register(&mut self, hwnd: isize, edge: AppBarEdge, height: i32) -> (request: AppBarData)
        ensures
            final(self).is_registered() == old(self).is_registered(),
            final(self).window() == hwnd,
            final(self).edge_code() == abe_code(edge),
            final(self).thickness() == height,
            request == (AppBarData {
                hwnd: hwnd,
                callback_message: APPBAR_CALLBACK_MESSAGE,
                edge: abe_code(edge),
                rc: Rect { left: 0, top: 0, right: 0, bottom: 0 },
            }),
    {
        let edge_code = edge.to_abe();
        self.hwnd = hwnd;
        self.edge = edge_code;
        self.height = height;
        AppBarData {
            hwnd,
            callback_message: APPBAR_CALLBACK_MESSAGE,
            edge: edge_code,
            rc: Rect { left: 0, top: 0, right: 0, bottom: 0 },
        }
    }

    /// Takes the shell's answer to ABM_NEW: an accepted bar is registered (a
    /// refused one keeps its former state). Returns whether it was accepted.
    pub fn confirm_registration(&mut self, accepted: bool) -> (r: bool)
        ensures
            r == accepted,
            final(self).is_registered() == (accepted || old(self).is_registered()),
            final(self).window() == old(self).window(),
            final(self).edge_code() == old(self).edge_code(),
            final(self).thickness() == old(self).thickness(),
    {
        if accepted {
            self.registered = true;
        }
        accepted
    }

    /// The ABM_QUERYPOS/ABM_SETPOS request claiming the bar's rectangle on a
    /// screen of the given size; `None` when the bar is not registered.
    pub fn position_request(&self, screen_width: i32, screen_height: i32) -> (request: Option<AppBarData>)
        requires
            self.is_registered() && self.edge_code() == ABE_BOTTOM ==> i32::MIN <= screen_height
                - self.thickness() <= i32::MAX,
            self.is_registered() && self.edge_code() == ABE_RIGHT ==> i32::MIN <= screen_width
                - self.thickness() <= i32::MAX,
        ensures
            request == (if !self.is_registered() {
                None::<AppBarData>
            } else {
                match claimed_rect(self.edge_code(), self.thickness(), screen_width, screen_height) {
                    Some(rc) => Some(
                        AppBarData {
                            hwnd: self.window(),
                            callback_message: 0,
                            edge: self.edge_code(),
                            rc: rc,
                        },
                    ),
                    None => None::<AppBarData>,
                }
            }),
    {
        if !self.registered {
            return None;
        }
        let rc = if self.edge == ABE_TOP {
            Rect { left: 0, top: 0, right: screen_width, bottom: self.height }
        } else if self.edge == ABE_BOTTOM {
            Rect { left: 0, top: screen_height - self.height, right: screen_width, bottom: screen_height }
        } else if self.edge == ABE_LEFT {
            Rect { left: 0, top: 0, right: self.height, bottom: screen_height }
        } else if self.edge == ABE_RIGHT {
            Rect { left: screen_width - self.height, top: 0, right: screen_width, bottom: screen_height }
        } else {
            return None;
        };
        Some(AppBarData { hwnd: self.hwnd, callback_message: 0, edge: self.edge, rc })
    }

    /// Withdraws the bar: returns the ABM_REMOVE request when it was registered.
    pub fn unregister(&mut self) -> (request: Option<AppBarData>)
        ensures
            !final(self).is_registered(),
            final(self).window() == old(self).window(),
            final(self).edge_code() == old(self).edge_code(),
            final(self).thickness() == old(self).thickness(),
            request == (if old(self).is_registered() {
                Some(
                    AppBarData {
                        hwnd: old(self).window(),
                        callback_message: 0,
                        edge: old(self).edge_code(),
                        rc: Rect { left: 0, top: 0, right: 0, bottom: 0 },
                    },
                )
            } else {
                None::<AppBarData>
            }),
    {
        if self.registered {
            self.registered = false;
            Some(
                AppBarData {
                    hwnd: self.hwnd,
                    callback_message: 0,
                    edge: self.edge,
                    rc: Rect { left: 0, top: 0, right: 0, bottom: 0 },
                },
            )
        } else {
            None
        }
    }

    /// The ABM_WINDOWPOSCHANGED request when the bar is registered.
    pub fn notify_pos_changed(&self) -> (request: Option<AppBarData>)
        ensures
            request == (if self.is_registered() {
                Some(
                    AppBarData {
                        hwnd: self.window(),
                        callback_message: 0,
                        edge: self.edge_code(),
                        rc: Rect { left: 0, top: 0, right: 0, bottom: 0 },
                    },
                )
            } else {
                None::<AppBarData>
            }),
    {
        if self.registered {
            Some(
                AppBarData {
                    hwnd: self.hwnd,
                    callback_message: 0,
                    edge: self.edge,
                    rc: Rect { left: 0, top: 0, right: 0, bottom: 0 },
                },
            )
        } else {
            None
        }
    }
}

/// How the bar's window procedure answers a message.
#[derive(PartialEq, Eq, Structural, Clone, Copy, Debug)]
pub enum WndProcAction {
    /// The shell moved app bars: register the bar again (top edge, 34 pixels).
    Reregister,
    /// A full-screen application started: hide the bar.
    Hide,
    /// The full-screen application ended: show the bar and put it back at (0, 0).
    ShowAndReposition,
    /// An app-bar notification that needs nothing.
    Ignore,
    /// Any other message goes to the previous window procedure.
    Forward,
}

/// The answer to a message: app-bar notifications are recognised by the
/// callback message and their code in the low 32 bits of `wparam`.
pub open spec fn wndproc_action_spec(msg: u32, wparam: isize, lparam: isize) -> WndProcAction {
    if msg == APPBAR_CALLBACK_MESSAGE {
        let code = wparam as i32;
        if code == ABN_POSCHANGED {
            WndProcAction::Reregister
        } else if code == ABN_FULLSCREENAPP {
            if lparam != 0 {
                WndProcAction::Hide
            } else {
                WndProcAction::ShowAndReposition
            }
        } else {
            WndProcAction::Ignore
        }
    } else {
        WndProcAction::Forward
    }
}

/// Decides how the bar's window procedure answers a message.
pub fn appbar_message_action(msg: u32, wparam: isize, lparam: isize) -> (action: WndProcAction)
    ensures
        action == wndproc_action_spec(msg, wparam, lparam),
{
    if msg == WM_USER + 100 {
        let notify_code = wparam as i32;
        if notify_code == ABN_POSCHANGED {
            WndProcAction::Reregister
        } else if notify_code == ABN_FULLSCREENAPP {
            if lparam != 0 {
                WndProcAction::Hide
            } else {
                WndProcAction::ShowAndReposition
            }
        } else {
            WndProcAction::Ignore
        }
    } else {
        WndProcAction::Forward
    }
}

/// A docked bar lies against its edge, spans that whole edge of the screen
/// and is as thick as asked: on the top or bottom edge it runs from x = 0 to
/// the screen's width, on the left or right edge from y = 0 to the screen's
/// height, and its other side is `height` away from the edge.
pub proof fn law_claimed_rect_spans_edge(edge: u32, height: i32, screen_width: i32, screen_height: i32)
    requires
        edge == ABE_TOP || edge == ABE_BOTTOM || edge == ABE_LEFT || edge == ABE_RIGHT,
        edge == ABE_BOTTOM ==> i32::MIN <= screen_height - height <= i32::MAX,
        edge == ABE_RIGHT ==> i32::MIN <= screen_width - height <= i32::MAX,
    ensures
        claimed_rect(edge, height, screen_width, screen_height) matches Some(r) && {
            &&& (edge == ABE_TOP || edge == ABE_BOTTOM) ==> r.left == 0 && r.right == screen_width
                && r.bottom - r.top == height
            &&& (edge == ABE_LEFT || edge == ABE_RIGHT) ==> r.top == 0 && r.bottom == screen_height
                && r.right - r.left == height
            &&& edge == ABE_TOP ==> r.top == 0
            &&& edge == ABE_BOTTOM ==> r.bottom == screen_height
            &&& edge == ABE_LEFT ==> r.left == 0
            &&& edge == ABE_RIGHT ==> r.right == screen_width
        },
{
}

} // verus!
