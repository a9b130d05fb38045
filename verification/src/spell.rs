//! The lock-screen side of the window backend: the stand-in rendering
//! adapter, the per-monitor lock surfaces, and the platform that hands one
//! adapter to each lock surface in turn.
use vstd::prelude::*;

use std::rc::Rc;

verus! {

/// How a surface is laid out; a lock surface covers an output of the given size.
#[derive(PartialEq, Eq, Structural, Clone, Copy, Debug)]
pub enum LayerConf {
    Lock(u32, u32),
}

/// Stands in for the rendering adapter where the renderer is not built (as
/// in documentation builds). It keeps the adapter's redraw protocol: a new
/// adapter has a redraw pending, and drawing reports whether one was pending.
pub struct SpellSkiaWinAdapterDummy {
    window: bool,
    size: bool,
    renderer: bool,
    needs_redraw: bool,
}

impl SpellSkiaWinAdapterDummy {
    pub closed spec fn redraw_pending(self) -> bool {
        self.needs_redraw
    }

    /// A new adapter, with its first redraw pending.
    pub fn new(shared_core: bool, width: u32, height: u32) -> (a: Rc<Self>)
        ensures
            a.redraw_pending(),
    {
        Rc::new(SpellSkiaWinAdapterDummy { window: false, size: false, renderer: false, needs_redraw: true })
    }

    /// Whether a redraw was pending and so a frame was drawn.
    pub fn draw(&self) -> (drawn: bool)
        ensures
            drawn == self.redraw_pending(),
    {
        self.needs_redraw
    }
}

/// The lock surfaces, one per output, and the adapters handed out to them.
pub struct SpellMultiWinHandler {
    windows: Vec<(String, LayerConf)>,
    adapter: Vec<Rc<SpellSkiaWinAdapterDummy>>,
    value_given: u32,
}

/// A lock surface per output, named after the output and sized as it.
pub open spec fn lock_windows(outputs: Seq<(String, (u32, u32))>) -> Seq<(Seq<char>, LayerConf)> {
    outputs.map_values(|o: (String, (u32, u32))| (o.0@, LayerConf::Lock(o.1.0, o.1.1)))
}

impl SpellMultiWinHandler {
    pub closed spec fn windows_view(self) -> Seq<(Seq<char>, LayerConf)> {
        self.windows@.map_values(|w: (String, LayerConf)| (w.0@, w.1))
    }

    pub closed spec fn adapters(self) -> Seq<Rc<SpellSkiaWinAdapterDummy>> {
        self.adapter@
    }

    /// How many adapters were handed out.
    pub closed spec fn given(self) -> u32 {
        self.value_given
    }

    /// The handler for the outputs to lock, given by name and size: one lock
    /// surface each, no adapter yet, none handed out.
    pub fn new_lock(lock_outputs: Vec<(String, (u32, u32))>) -> (h: Self)
        ensures
            h.windows_view() == lock_windows(lock_outputs@),
            h.adapters().len() == 0,
            h.given() == 0,
    {
        let mut windows: Vec<(String, LayerConf)> = Vec::new();
        let mut i: usize = 0;
        while i < lock_outputs.len()
            invariant
                0 <= i <= lock_outputs@.len(),
                windows@.map_values(|w: (String, LayerConf)| (w.0@, w.1)) =~= lock_windows(
                    lock_outputs@.take(i as int),
                ),
            decreases lock_outputs@.len() - i,
        {
            let (name, (w, h)) = (&lock_outputs[i].0, lock_outputs[i].1);
            let ghost before = windows@;
            windows.push((name.clone(), LayerConf::Lock(w, h)));
            assert(windows@.map_values(|w: (String, LayerConf)| (w.0@, w.1)) =~= before.map_values(
                |w: (String, LayerConf)| (w.0@, w.1),
            ).push((name@, LayerConf::Lock(w, h))));
            assert(lock_outputs@.take(i + 1) =~= lock_outputs@.take(i as int).push(lock_outputs@[i as int]));
            assert(lock_windows(lock_outputs@.take(i + 1)) =~= lock_windows(lock_outputs@.take(i as int)).push(
                (name@, LayerConf::Lock(w, h)),
            ));
            i = i + 1;
        }
        assert(lock_outputs@.take(lock_outputs@.len() as int) =~= lock_outputs@);
        SpellMultiWinHandler { windows, adapter: Vec::new(), value_given: 0 }
    }

    /// Registers the adapter of the next lock surface.
    pub fn add_adapter(&mut self, a: Rc<SpellSkiaWinAdapterDummy>)
        ensures
            final(self).adapters() == old(self).adapters().push(a),
            final(self).windows_view() == old(self).windows_view(),
            final(self).given() == old(self).given(),
    {
        self.adapter.push(a);
    }

    /// Hands out the next adapter, in the order they were registered.
    pub fn request_new_lock(&mut self) -> (a: Rc<SpellSkiaWinAdapterDummy>)
        requires
            old(self).given() < old(self).adapters().len(),
            old(self).given() < u32::MAX,
        ensures
            a == old(self).adapters()[old(self).given() as int],
            final(self).given() == old(self).given() + 1,
            final(self).adapters() == old(self).adapters(),
            final(self).windows_view() == old(self).windows_view(),
    {
        self.value_given = self.value_given + 1;
        let index = self.value_given - 1;
        self.adapter[index as usize].clone()
    }
}

/// The platform of lock screens: each new window gets the next adapter.
pub struct SpellLockShell {
    pub window_manager: SpellMultiWinHandler,
}

impl SpellLockShell {
    /// The platform over the given lock surfaces.
    pub fn new(window_manager: SpellMultiWinHandler) -> (s: Self)
        ensures
            s.window_manager == window_manager,
    {
        SpellLockShell { window_manager }
    }

    /// The adapter for the next window the toolkit creates.
    pub fn create_window_adapter(&mut self) -> (a: Rc<SpellSkiaWinAdapterDummy>)
        requires
            old(self).window_manager.given() < old(self).window_manager.adapters().len(),
            old(self).window_manager.given() < u32::MAX,
        ensures
            a == old(self).window_manager.adapters()[old(self).window_manager.given() as int],
            final(self).window_manager.given() == old(self).window_manager.given() + 1,
    {
        self.window_manager.request_new_lock()
    }
}

/// The platform of layer-shell windows; it hands out the most recently
/// created adapter.
pub struct SpellLayerShell {}

impl Default for SpellLayerShell {
    fn default() -> (s: Self) {
        SpellLayerShell {  }
    }
}

} // verus!
