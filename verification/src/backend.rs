//! Layer-shell window configuration: anchors, layers, keyboard focus, the
//! builder that checks a configuration, and the bar's own windows.
use vstd::prelude::*;

verus! {

/// Edges a layer surface is anchored to, as a set of bits.
#[derive(PartialEq, Eq, Structural, Clone, Copy, Debug)]
pub struct LayerAnchor {
    pub bits: u32,
}

impl LayerAnchor {
    /// The top edge.
    pub fn top() -> (a: LayerAnchor)
        ensures
            a.bits == 1,
    {
        LayerAnchor { bits: 1 }
    }

    /// The bottom edge.
    pub fn bottom() -> (a: LayerAnchor)
        ensures
            a.bits == 2,
    {
        LayerAnchor { bits: 2 }
    }

    /// The left edge.
    pub fn left() -> (a: LayerAnchor)
        ensures
            a.bits == 4,
    {
        LayerAnchor { bits: 4 }
    }

    /// The right edge.
    pub fn right() -> (a: LayerAnchor)
        ensures
            a.bits == 8,
    {
        LayerAnchor { bits: 8 }
    }

    /// The edges of both anchors.
    pub fn union(self, other: LayerAnchor) -> (r: LayerAnchor)
        ensures
            r.bits == self.bits | other.bits,
    {
        LayerAnchor { bits: self.bits | other.bits }
    }
}

/// The layer a surface is stacked in.
#[derive(PartialEq, Eq, Structural, Clone, Copy, Debug)]
pub enum LayerType {
    Background,
    Bottom,
    Top,
    Overlay,
}

/// Whether and how a surface takes keyboard focus.
#[derive(PartialEq, Eq, Structural, Clone, Copy, Debug)]
pub enum BoardType {
    NoFocus,
    Exclusive,
    OnDemand,
}

/// A checked window configuration.
pub struct WindowConf {
    pub width: u32,
    pub height: u32,
    pub anchor: [Option<LayerAnchor>; 4],
    pub margin: (i32, i32, i32, i32),
    pub layer_type: LayerType,
    pub board_interactivity: BoardType,
    pub exclusive_zone: Option<i32>,
    pub monitor_name: Option<String>,
    pub natural_scroll: bool,
}

impl WindowConf {
    /// A builder with nothing set.
    pub fn builder() -> (b: WindowConfBuilder)
        ensures
            b.is_empty(),
    {
        WindowConfBuilder {
            max_width: 0,
            max_height: 0,
            anchor: [None, None, None, None],
            margin: (0, 0, 0, 0),
            layer_type: None,
            board_interactivity: BoardType::NoFocus,
            exclusive_zone: None,
            monitor_name: None,
            natural_scroll: false,
        }
    }
}

/// Collects a window configuration; `build` checks it.
pub struct WindowConfBuilder {
    pub max_width: u32,
    pub max_height: u32,
    pub anchor: [Option<LayerAnchor>; 4],
    pub margin: (i32, i32, i32, i32),
    pub layer_type: Option<LayerType>,
    pub board_interactivity: BoardType,
    pub exclusive_zone: Option<i32>,
    pub monitor_name: Option<String>,
    pub natural_scroll: bool,
}

/// Why a configuration without a width was refused.
pub open spec fn width_error() -> Seq<char> {
    "width is either not defined or set to zero"@
}

/// Why a configuration without a height was refused.
pub open spec fn height_error() -> Seq<char> {
    "height is either not defined or set to zero"@
}

impl WindowConfBuilder {
    /// Nothing set: no size, no anchors, no margins, no layer, no keyboard
    /// focus, no exclusive zone, no monitor, no natural scrolling.
    pub open spec fn is_empty(self) -> bool {
        &&& self.max_width == 0
        &&& self.max_height == 0
        &&& self.anchor@ == seq![None::<LayerAnchor>, None, None, None]
        &&& self.margin == (0i32, 0i32, 0i32, 0i32)
        &&& self.layer_type is None
        &&& self.board_interactivity == BoardType::NoFocus
        &&& self.exclusive_zone is None
        &&& self.monitor_name is None
        &&& !self.natural_scroll
    }

    /// Sets the width; 0 leaves it undefined.
    pub fn width(&mut self, width: u32) -> (r: &mut Self)
        ensures
            r.max_width == width,
            r.max_height == old(self).max_height,
            r.anchor == old(self).anchor,
            r.margin == old(self).margin,
            r.layer_type == old(self).layer_type,
            r.board_interactivity == old(self).board_interactivity,
            r.exclusive_zone == old(self).exclusive_zone,
            r.monitor_name == old(self).monitor_name,
            r.natural_scroll == old(self).natural_scroll,
            *final(self) == *final(r),
    {
        self.max_width = width;
        self
    }

    /// Sets the height; 0 leaves it undefined.
    pub fn height(&mut self, height: u32) -> (r: &mut Self)
        ensures
            r.max_width == old(self).max_width,
            r.max_height == height,
            r.anchor == old(self).anchor,
            r.margin == old(self).margin,
            r.layer_type == old(self).layer_type,
            r.board_interactivity == old(self).board_interactivity,
            r.exclusive_zone == old(self).exclusive_zone,
            r.monitor_name == old(self).monitor_name,
            r.natural_scroll == old(self).natural_scroll,
            *final(self) == *final(r),
    {
        self.max_height = height;
        self
    }

    /// Sets the first anchor slot.
    pub fn anchor_1(&mut self, anchor: LayerAnchor) -> (r: &mut Self)
        ensures
            r.anchor@ == old(self).anchor@.update(0, Some(anchor)),
            r.max_width == old(self).max_width,
            r.max_height == old(self).max_height,
            r.margin == old(self).margin,
            r.layer_type == old(self).layer_type,
            r.board_interactivity == old(self).board_interactivity,
            r.exclusive_zone == old(self).exclusive_zone,
            r.monitor_name == old(self).monitor_name,
            r.natural_scroll == old(self).natural_scroll,
            *final(self) == *final(r),
    {
        self.anchor.set(0, Some(anchor));
        self
    }

    /// Sets the anchor slot 2.
    pub fn anchor_2(&mut self, anchor: LayerAnchor) -> (r: &mut Self)
        ensures
            r.anchor@ == old(self).anchor@.update(1, Some(anchor)),
            r.max_width == old(self).max_width,
            r.max_height == old(self).max_height,
            r.margin == old(self).margin,
            r.layer_type == old(self).layer_type,
            r.board_interactivity == old(self).board_interactivity,
            r.exclusive_zone == old(self).exclusive_zone,
            r.monitor_name == old(self).monitor_name,
            r.natural_scroll == old(self).natural_scroll,
            *final(self) == *final(r),
    {
        self.anchor.set(1, Some(anchor));
        self
    }

    /// Sets the anchor slot 3.
    pub fn anchor_3(&mut self, anchor: LayerAnchor) -> (r: &mut Self)
        ensures
            r.anchor@ == old(self).anchor@.update(2, Some(anchor)),
            r.max_width == old(self).max_width,
            r.max_height == old(self).max_height,
            r.margin == old(self).margin,
            r.layer_type == old(self).layer_type,
            r.board_interactivity == old(self).board_interactivity,
            r.exclusive_zone == old(self).exclusive_zone,
            r.monitor_name == old(self).monitor_name,
            r.natural_scroll == old(self).natural_scroll,
            *final(self) == *final(r),
    {
        self.anchor.set(2, Some(anchor));
        self
    }

    /// Sets the anchor slot 4.
    pub fn anchor_4(&mut self, anchor: LayerAnchor) -> (r: &mut Self)
        ensures
            r.anchor@ == old(self).anchor@.update(3, Some(anchor)),
            r.max_width == old(self).max_width,
            r.max_height == old(self).max_height,
            r.margin == old(self).margin,
            r.layer_type == old(self).layer_type,
            r.board_interactivity == old(self).board_interactivity,
            r.exclusive_zone == old(self).exclusive_zone,
            r.monitor_name == old(self).monitor_name,
            r.natural_scroll == old(self).natural_scroll,
            *final(self) == *final(r),
    {
        self.anchor.set(3, Some(anchor));
        self
    }

    /// Sets the top, right, bottom and left margins.
    pub fn margins(&mut self, top: i32, right: i32, bottom: i32, left: i32) -> (r: &mut Self)
        ensures
            r.margin == (top, right, bottom, left),
            r.max_width == old(self).max_width,
            r.max_height == old(self).max_height,
            r.anchor == old(self).anchor,
            r.layer_type == old(self).layer_type,
            r.board_interactivity == old(self).board_interactivity,
            r.exclusive_zone == old(self).exclusive_zone,
            r.monitor_name == old(self).monitor_name,
            r.natural_scroll == old(self).natural_scroll,
            *final(self) == *final(r),
    {
        self.margin = (top, right, bottom, left);
        self
    }

    /// Sets the layer.
    pub fn layer_type(&mut self, layer: LayerType) -> (r: &mut Self)
        ensures
            r.layer_type == Some(layer),
            r.max_width == old(self).max_width,
            r.max_height == old(self).max_height,
            r.anchor == old(self).anchor,
            r.margin == old(self).margin,
            r.board_interactivity == old(self).board_interactivity,
            r.exclusive_zone == old(self).exclusive_zone,
            r.monitor_name == old(self).monitor_name,
            r.natural_scroll == old(self).natural_scroll,
            *final(self) == *final(r),
    {
        self.layer_type = Some(layer);
        self
    }

    /// Sets the exclusive zone: the pixels reserved along the anchored edge
    /// (-1 to ignore other surfaces' zones).
    pub fn exclusive_zone(&mut self, dimention: i32) -> (r: &mut Self)
        ensures
            r.exclusive_zone == Some(dimention),
            r.max_width == old(self).max_width,
            r.max_height == old(self).max_height,
            r.anchor == old(self).anchor,
            r.margin == old(self).margin,
            r.layer_type == old(self).layer_type,
            r.board_interactivity == old(self).board_interactivity,
            r.monitor_name == old(self).monitor_name,
            r.natural_scroll == old(self).natural_scroll,
            *final(self) == *final(r),
    {
        self.exclusive_zone = Some(dimention);
        self
    }

    /// Sets how the surface takes keyboard focus.
    pub fn board_interactivity(&mut self, board: BoardType) -> (r: &mut Self)
        ensures
            r.board_interactivity == board,
            r.max_width == old(self).max_width,
            r.max_height == old(self).max_height,
            r.anchor == old(self).anchor,
            r.margin == old(self).margin,
            r.layer_type == old(self).layer_type,
            r.exclusive_zone == old(self).exclusive_zone,
            r.monitor_name == old(self).monitor_name,
            r.natural_scroll == old(self).natural_scroll,
            *final(self) == *final(r),
    {
        self.board_interactivity = board;
        self
    }

    /// Puts the surface on the output of that name.
    pub fn monitor(&mut self, name: String) -> (r: &mut Self)
        ensures
            r.monitor_name == Some(name),
            r.max_width == old(self).max_width,
            r.max_height == old(self).max_height,
            r.anchor == old(self).anchor,
            r.margin == old(self).margin,
            r.layer_type == old(self).layer_type,
            r.board_interactivity == old(self).board_interactivity,
            r.exclusive_zone == old(self).exclusive_zone,
            r.natural_scroll == old(self).natural_scroll,
            *final(self) == *final(r),
    {
        self.monitor_name = Some(name);
        self
    }

    /// Sets whether scrolling follows the content (natural scrolling).
    pub fn natural_scroll(&mut self, scroll: bool) -> (r: &mut Self)
        ensures
            r.natural_scroll == scroll,
            r.max_width == old(self).max_width,
            r.max_height == old(self).max_height,
            r.anchor == old(self).anchor,
            r.margin == old(self).margin,
            r.layer_type == old(self).layer_type,
            r.board_interactivity == old(self).board_interactivity,
            r.exclusive_zone == old(self).exclusive_zone,
            r.monitor_name == old(self).monitor_name,
            *final(self) == *final(r),
    {
        self.natural_scroll = scroll;
        self
    }

    /// The configuration: refused when the width or (then) the height is
    /// zero; the layer defaults to the top layer; the rest as set.
    pub fn build(&self) -> (r: Result<WindowConf, String>)
        ensures
            self.max_width == 0 ==> (r matches Err(e) && e@ == width_error()),
            self.max_width != 0 && self.max_height == 0 ==> (r matches Err(e) && e@ == height_error()),
            self.max_width != 0 && self.max_height != 0 ==> (r matches Ok(c) && c.width == self.max_width
                && c.height == self.max_height && c.anchor == self.anchor && c.margin == self.margin
                && c.layer_type == (match self.layer_type {
                Some(l) => l,
                None => LayerType::Top,
            }) && c.board_interactivity == self.board_interactivity && c.exclusive_zone
                == self.exclusive_zone && c.monitor_name == self.monitor_name && c.natural_scroll
                == self.natural_scroll),
    {
        if self.max_width == 0 {
            return Err(String::from_str("width is either not defined or set to zero"));
        }
        if self.max_height == 0 {
            return Err(String::from_str("height is either not defined or set to zero"));
        }
        Ok(
            WindowConf {
                width: self.max_width,
                height: self.max_height,
                anchor: self.anchor,
                margin: self.margin,
                layer_type: match self.layer_type {
                    Some(l) => l,
                    None => LayerType::Top,
                },
                board_interactivity: self.board_interactivity,
                exclusive_zone: self.exclusive_zone,
                monitor_name: self.monitor_name.clone(),
                natural_scroll: self.natural_scroll,
            },
        )
    }
}

/// The union of the anchors set in the four slots; `None` when no slot is set.
pub open spec fn combined_anchor_spec(anchors: Seq<Option<LayerAnchor>>, n: int) -> Option<u32>
    decreases n,
{
    if n <= 0 {
        None
    } else {
        let prev = combined_anchor_spec(anchors, n - 1);
        match anchors[n - 1] {
            Some(a) => match prev {
                Some(b) => Some(b | a.bits),
                None => Some(a.bits),
            },
            None => prev,
        }
    }
}

/// The anchor a surface gets: the union of the anchors set in the
/// configuration's slots, or none when no slot is set.
pub fn combined_anchor(anchor: &[Option<LayerAnchor>; 4]) -> (r: Option<LayerAnchor>)
    ensures
        match r {
            Some(a) => combined_anchor_spec(anchor@, 4) == Some(a.bits),
            None => combined_anchor_spec(anchor@, 4) is None,
        },
{
    let mut combined: Option<LayerAnchor> = None;
    let mut i: usize = 0;
    while i < 4
        invariant
            0 <= i <= 4,
            match combined {
                Some(a) => combined_anchor_spec(anchor@, i as int) == Some(a.bits),
                None => combined_anchor_spec(anchor@, i as int) is None,
            },
        decreases 4 - i,
    {
        match anchor[i] {
            Some(a) => {
                combined = match combined {
                    Some(b) => Some(b.union(a)),
                    None => Some(a),
                };
            },
            None => {},
        }
        i = i + 1;
    }
    combined
}

/// A length in surface pixels at a preferred scale given in 120ths
/// (fractional scaling), rounded to the nearest pixel.
pub open spec fn scaled_length(len: u32, scale: u32) -> int {
    (len * scale + 60) / 120
}

/// The surface size for a preferred scale given in 120ths of the logical size.
pub fn scaled_size(width: u32, height: u32, scale: u32) -> (r: (u32, u32))
    requires
        width * scale + 60 <= u32::MAX,
        height * scale + 60 <= u32::MAX,
    ensures
        r.0 == scaled_length(width, scale),
        r.1 == scaled_length(height, scale),
{
    let w: u32 = (width * scale + 60) / 120;
    let h: u32 = (height * scale + 60) / 120;
    (w, h)
}

/// Linux input codes of the left, right and middle mouse buttons.
pub const BTN_LEFT: u32 = 0x110;
pub const BTN_RIGHT: u32 = 0x111;
pub const BTN_MIDDLE: u32 = 0x112;

/// A mouse button as the toolkit knows it.
#[derive(PartialEq, Eq, Structural, Clone, Copy, Debug)]
pub enum PointerButton {
    Left,
    Right,
    Other,
}

/// The toolkit's button for an input code: left and right as such, every
/// other button (the middle one too) as other.
pub fn pointer_button(code: u32) -> (b: PointerButton)
    ensures
        b == if code == BTN_LEFT {
            PointerButton::Left
        } else if code == BTN_RIGHT {
            PointerButton::Right
        } else {
            PointerButton::Other
        },
{
    if code == BTN_LEFT {
        PointerButton::Left
    } else if code == BTN_RIGHT {
        PointerButton::Right
    } else {
        PointerButton::Other
    }
}

/// The pointer entering the window (with the serial of the enter event) or
/// leaving it.
#[derive(PartialEq, Eq, Structural, Clone, Copy, Debug)]
pub enum PointerCrossing {
    Enter(u32),
    Leave,
}

/// The enter serial the window keeps after a crossing, whatever it kept
/// before: an enter event's serial, or none once the pointer left. The
/// cursor can only be set while a serial is kept.
pub fn enter_serial_after(crossing: PointerCrossing) -> (r: Option<u32>)
    ensures
        r == match crossing {
            PointerCrossing::Enter(serial) => Some(serial),
            PointerCrossing::Leave => None::<u32>,
        },
{
    match crossing {
        PointerCrossing::Enter(serial) => Some(serial),
        PointerCrossing::Leave => None,
    }
}

/// The platform of the bar's windows; it hands out the most recently
/// created adapter.
pub struct SlintPlatform;

impl Default for SlintPlatform {
    fn default() -> (p: Self) {
        SlintPlatform
    }
}

/// The bar's configuration: 1366 by 36, anchored to the top, left and
/// right edges, reserving 36 pixels, in the top layer.
pub open spec fn is_bar_conf(c: WindowConf) -> bool {
    &&& c.width == 1366 && c.height == 36
    &&& c.anchor@ == seq![Some(LayerAnchor { bits: (1u32 | 4u32) | 8u32 }), None, None, None]
    &&& c.margin == (0i32, 0i32, 0i32, 0i32)
    &&& c.exclusive_zone == Some(36i32)
    &&& c.layer_type == LayerType::Top
    &&& c.board_interactivity == BoardType::NoFocus
    &&& c.monitor_name is None && !c.natural_scroll
}

/// The control center's configuration: 800 by 450, anchored to the top
/// edge, no margins, reserving nothing, in the top layer.
pub open spec fn is_control_center_conf(c: WindowConf) -> bool {
    &&& c.width == 800 && c.height == 450
    &&& c.anchor@ == seq![Some(LayerAnchor { bits: 1u32 }), None, None, None]
    &&& c.margin == (0i32, 0i32, 0i32, 0i32)
    &&& c.exclusive_zone == Some(-1i32)
    &&& c.layer_type == LayerType::Top
    &&& c.board_interactivity == BoardType::NoFocus
    &&& c.monitor_name is None && !c.natural_scroll
}

/// The tray popup's configuration: 200 by 200, anchored to the top and
/// right edges, with a top margin of 36 and a left margin of 4, reserving
/// nothing, in the top layer.
pub open spec fn is_tray_popup_conf(c: WindowConf) -> bool {
    &&& c.width == 200 && c.height == 200
    &&& c.anchor@ == seq![Some(LayerAnchor { bits: 1u32 | 8u32 }), None, None, None]
    &&& c.margin == (36i32, 0i32, 0i32, 4i32)
    &&& c.exclusive_zone == Some(-1i32)
    &&& c.layer_type == LayerType::Top
    &&& c.board_interactivity == BoardType::NoFocus
    &&& c.monitor_name is None && !c.natural_scroll
}

/// The three windows the bar opens: the bar, the control center and the
/// tray popup. Every one of them is accepted.
pub fn window_confs() -> (r: Result<(WindowConf, WindowConf, WindowConf), String>)
    ensures
        r matches Ok(c) && is_bar_conf(c.0) && is_control_center_conf(c.1) && is_tray_popup_conf(c.2),
{
    let mut bar = WindowConf::builder();
    bar.width(1366);
    bar.height(36);
    bar.anchor_1(LayerAnchor::top().union(LayerAnchor::left()).union(LayerAnchor::right()));
    bar.exclusive_zone(36);
    bar.layer_type(LayerType::Top);
    let bar_conf = match bar.build() {
        Ok(c) => c,
        Err(e) => return Err(e),
    };
    let mut ctrl = WindowConf::builder();
    ctrl.width(800);
    ctrl.height(450);
    ctrl.anchor_1(LayerAnchor::top());
    ctrl.margins(0, 0, 0, 0);
    ctrl.exclusive_zone(-1);
    ctrl.layer_type(LayerType::Top);
    let ctrl_conf = match ctrl.build() {
        Ok(c) => c,
        Err(e) => return Err(e),
    };
    let mut popup = WindowConf::builder();
    popup.width(200);
    popup.height(200);
    popup.anchor_1(LayerAnchor::top().union(LayerAnchor::right()));
    popup.margins(36, 0, 0, 4);
    popup.exclusive_zone(-1);
    popup.layer_type(LayerType::Top);
    let popup_conf = match popup.build() {
        Ok(c) => c,
        Err(e) => return Err(e),
    };
    assert(bar_conf.anchor@ =~= seq![Some(LayerAnchor { bits: (1u32 | 4u32) | 8u32 }), None, None, None]);
    assert(ctrl_conf.anchor@ =~= seq![Some(LayerAnchor { bits: 1u32 }), None, None, None]);
    assert(popup_conf.anchor@ =~= seq![Some(LayerAnchor { bits: 1u32 | 8u32 }), None, None, None]);
    Ok((bar_conf, ctrl_conf, popup_conf))
}

/// What a window's surface has to do after a change of its visibility.
#[derive(PartialEq, Eq, Structural, Clone, Copy, Debug)]
pub enum SurfaceChange {
    /// Nothing: the surface already was in that state.
    Unchanged,
    /// Detach the buffer so that the compositor stops showing the surface.
    Detach,
    /// Apply the configuration again and commit; the next frame attaches the buffer.
    Reconfigure,
}

/// Whether a window is hidden, whether its next frame must attach its
/// buffer, and how it takes keyboard focus.
pub struct SurfaceState {
    hidden: bool,
    first_configure: bool,
    board: BoardType,
}

impl SurfaceState {
    pub closed spec fn is_hidden(self) -> bool {
        self.hidden
    }

    pub closed spec fn needs_attach(self) -> bool {
        self.first_configure
    }

    pub closed spec fn focus(self) -> BoardType {
        self.board
    }

    /// A new window: shown, its first frame to be attached, focus as configured.
    pub fn new(board: BoardType) -> (s: Self)
        ensures
            !s.is_hidden(),
            s.needs_attach(),
            s.focus() == board,
    {
        SurfaceState { hidden: false, first_configure: true, board }
    }

    /// Hides the window; the buffer is detached only when it was shown.
    pub fn hide_surface(&mut self) -> (c: SurfaceChange)
        ensures
            final(self).is_hidden(),
            c == if old(self).is_hidden() {
                SurfaceChange::Unchanged
            } else {
                SurfaceChange::Detach
            },
            final(self).needs_attach() == old(self).needs_attach(),
            final(self).focus() == old(self).focus(),
    {
        let was_hidden = self.hidden;
        self.hidden = true;
        if was_hidden {
            SurfaceChange::Unchanged
        } else {
            SurfaceChange::Detach
        }
    }

    /// Shows the window again; a hidden one is reconfigured and its next
    /// frame attaches the buffer.
    pub fn show_again(&mut self) -> (c: SurfaceChange)
        ensures
            !final(self).is_hidden(),
            old(self).is_hidden() ==> c == SurfaceChange::Reconfigure && final(self).needs_attach(),
            !old(self).is_hidden() ==> c == SurfaceChange::Unchanged && final(self).needs_attach()
                == old(self).needs_attach(),
            final(self).focus() == old(self).focus(),
    {
        if self.hidden {
            self.hidden = false;
            self.first_configure = true;
            SurfaceChange::Reconfigure
        } else {
            SurfaceChange::Unchanged
        }
    }

    /// Shows a hidden window, hides a shown one.
    pub fn toggle(&mut self) -> (c: SurfaceChange)
        ensures
            final(self).is_hidden() == !old(self).is_hidden(),
            c == if old(self).is_hidden() {
                SurfaceChange::Reconfigure
            } else {
                SurfaceChange::Detach
            },
            final(self).focus() == old(self).focus(),
    {
        if self.hidden {
            self.show_again()
        } else {
            self.hide_surface()
        }
    }

    /// Whether a frame of a shown window attaches its buffer: on the first
    /// frame after (re)configuration, or when the content was redrawn.
    pub fn frame(&mut self, redrawn: bool) -> (attach: bool)
        ensures
            attach == (!old(self).is_hidden() && (old(self).needs_attach() || redrawn)),
            !old(self).is_hidden() ==> !final(self).needs_attach(),
            old(self).is_hidden() ==> final(self).needs_attach() == old(self).needs_attach(),
            final(self).is_hidden() == old(self).is_hidden(),
            final(self).focus() == old(self).focus(),
    {
        if self.hidden {
            return false;
        }
        let attach = self.first_configure || redrawn;
        self.first_configure = false;
        attach
    }

    /// Takes keyboard focus exclusively; tells whether the focus changed
    /// (only a shown window that did not have it changes).
    pub fn grab_focus(&mut self) -> (changed: bool)
        ensures
            changed == (!old(self).is_hidden() && old(self).focus() != BoardType::Exclusive),
            final(self).focus() == if changed {
                BoardType::Exclusive
            } else {
                old(self).focus()
            },
            final(self).is_hidden() == old(self).is_hidden(),
            final(self).needs_attach() == old(self).needs_attach(),
    {
        if !self.hidden && self.board != BoardType::Exclusive {
            self.board = BoardType::Exclusive;
            true
        } else {
            false
        }
    }

    /// Gives up keyboard focus; tells whether the focus changed (only a
    /// shown window that had some changes).
    pub fn remove_focus(&mut self) -> (changed: bool)
        ensures
            changed == (!old(self).is_hidden() && old(self).focus() != BoardType::NoFocus),
            final(self).focus() == if changed {
                BoardType::NoFocus
            } else {
                old(self).focus()
            },
            final(self).is_hidden() == old(self).is_hidden(),
            final(self).needs_attach() == old(self).needs_attach(),
    {
        if !self.hidden && self.board != BoardType::NoFocus {
            self.board = BoardType::NoFocus;
            true
        } else {
            false
        }
    }
}

} // verus!
