//! The album-art thumbnail of the media widget: how often it is refreshed,
//! which art is decoded, and which decoded images are shown.
use vstd::prelude::*;

use crate::imaging::{decode_rgba, decoded_rgba};

verus! {

/// The largest side, exclusive, of a thumbnail that is shown.
pub const MAX_THUMBNAIL_SIDE: u32 = 500;

/// Art shorter than this many bytes is not decoded.
pub const MIN_ART_BYTES: usize = 100;

/// Whether a decoded thumbnail is shown: both sides positive and under 500.
pub open spec fn thumbnail_shown(w: u32, h: u32) -> bool {
    0 < w < MAX_THUMBNAIL_SIDE && 0 < h < MAX_THUMBNAIL_SIDE
}

/// Counts the refresh ticks and remembers the art last shown.
pub struct ThumbnailCache {
    counter: u32,
    last_bytes: Vec<u8>,
}

impl ThumbnailCache {
    pub closed spec fn ticks(self) -> u32 {
        self.counter
    }

    pub closed spec fn last_shown(self) -> Seq<u8> {
        self.last_bytes@
    }

    /// No tick counted, nothing shown yet.
    pub fn new() -> (c: Self)
        ensures
            c.ticks() == 0,
            c.last_shown().len() == 0,
    {
        ThumbnailCache { counter: 0, last_bytes: Vec::new() }
    }

    fn same_as_last(&self, art: &[u8]) -> (r: bool)
        ensures
            r == (art@ == self.last_shown()),
    {
        if art.len() != self.last_bytes.len() {
            return false;
        }
        let mut i: usize = 0;
        while i < art.len()
            invariant
                art@.len() == self.last_bytes@.len(),
                0 <= i <= art@.len(),
                forall|j: int| 0 <= j < i ==> art@[j] == self.last_bytes@[j],
            decreases art@.len() - i,
        {
            if art[i] != self.last_bytes[i] {
                return false;
            }
            i = i + 1;
        }
        assert(art@ =~= self.last_bytes@);
        true
    }

    /// One refresh tick with the current album art. Every second tick, art
    /// of at least 100 bytes that differs from the art shown is decoded;
    /// when it decodes to an image with both sides positive and under 500,
    /// it becomes the art shown and its RGBA image (width, height, pixels)
    /// comes back to be displayed.
    pub fn update_thumbnail(&mut self, album_art: &[u8]) -> (r: Option<(u32, u32, Vec<u8>)>)
        requires
            old(self).ticks() < u32::MAX,
        ensures
            final(self).ticks() == old(self).ticks() + 1,
            ({
                let attempt = final(self).ticks() % 2 == 0 && album_art@.len() >= MIN_ART_BYTES
                    && album_art@ != old(self).last_shown();
                match r {
                    Some((w, h, px)) => {
                        &&& attempt
                        &&& decoded_rgba(album_art@) == Some((w, h, px@))
                        &&& thumbnail_shown(w, h)
                        &&& final(self).last_shown() == album_art@
                    },
                    None => {
                        &&& final(self).last_shown() == old(self).last_shown()
                        &&& attempt ==> match decoded_rgba(album_art@) {
                            Some((w, h, _)) => !thumbnail_shown(w, h),
                            None => true,
                        }
                    },
                }
            }),
    {
        self.counter = self.counter + 1;
        let should_update = self.counter % 2 == 0;
        if !should_update || album_art.len() < MIN_ART_BYTES {
            return None;
        }
        if self.same_as_last(album_art) {
            return None;
        }
        match decode_rgba(album_art) {
            Some((w, h, px)) => {
                if w > 0 && h > 0 && w < MAX_THUMBNAIL_SIDE && h < MAX_THUMBNAIL_SIDE {
                    let mut copy: Vec<u8> = Vec::new();
                    let mut i: usize = 0;
                    while i < album_art.len()
                        invariant
                            0 <= i <= album_art@.len(),
                            copy@ == album_art@.take(i as int),
                        decreases album_art@.len() - i,
                    {
                        copy.push(album_art[i]);
                        assert(album_art@.take(i + 1) =~= album_art@.take(i as int).push(album_art@[i as int]));
                        i = i + 1;
                    }
                    assert(album_art@.take(album_art@.len() as int) =~= album_art@);
                    self.last_bytes = copy;
                    Some((w, h, px))
                } else {
                    None
                }
            },
            None => None,
        }
    }
}

} // verus!
