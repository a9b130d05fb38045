//! The media listener's state: what the bar last showed of the current
//! session, and which session events produce an update.
use vstd::prelude::*;

use crate::media::windows::{no_music_title, SessionPlayback};

verus! {

/// An update handed to the bar when the shown media changes.
pub enum MediaUpdate {
    /// Only the playback state changed.
    PlaybackStatus(String),
    /// The track, its state or its thumbnail changed.
    MediaInfo {
        title: String,
        artist: String,
        status: String,
        has_player: bool,
        thumbnail: Option<Vec<u8>>,
    },
}

/// What the bar currently shows of the media session.
pub struct MediaState {
    pub status: String,
    pub title: String,
    pub artist: String,
    pub has_player: bool,
    pub thumbnail: Vec<u8>,
}

impl MediaState {
    /// Nothing playing: "stopped", titled "Sin música", no artist, no player, no thumbnail.
    pub open spec fn is_initial(self) -> bool {
        &&& self.status@ == "stopped"@
        &&& self.title@ == no_music_title()
        &&& self.artist@.len() == 0
        &&& !self.has_player
        &&& self.thumbnail@.len() == 0
    }
}

impl Default for MediaState {
    fn default() -> (s: Self)
        ensures
            s.is_initial(),
    {
        MediaState {
            status: String::from_str("stopped"),
            title: String::from_str("Sin música"),
            artist: String::new(),
            has_player: false,
            thumbnail: Vec::new(),
        }
    }
}

/// The status shown for a session: playing, else paused when a track is
/// known, else stopped.
pub open spec fn shown_status(is_playing: bool, has_player: bool) -> Seq<char> {
    if is_playing {
        "playing"@
    } else if has_player {
        "paused"@
    } else {
        "stopped"@
    }
}

/// The thumbnail kept after a read: the new one, or none when the session has none.
pub open spec fn kept_thumbnail(thumbnail: Option<Seq<u8>>) -> Seq<u8> {
    match thumbnail {
        Some(t) => t,
        None => Seq::empty(),
    }
}

pub open spec fn opt_bytes(o: Option<Vec<u8>>) -> Option<Seq<u8>> {
    match o {
        Some(v) => Some(v@),
        None => None,
    }
}

fn same_bytes(a: &Vec<u8>, b: &Vec<u8>) -> (r: bool)
    ensures
        r == (a@ == b@),
{
    if a.len() != b.len() {
        return false;
    }
    let mut i: usize = 0;
    while i < a.len()
        invariant
            a@.len() == b@.len(),
            0 <= i <= a@.len(),
            forall|j: int| 0 <= j < i ==> a@[j] == b@[j],
        decreases a@.len() - i,
    {
        if a[i] != b[i] {
            return false;
        }
        i = i + 1;
    }
    assert(a@ =~= b@);
    true
}

fn copy_bytes(a: &Vec<u8>) -> (r: Vec<u8>)
    ensures
        r@ == a@,
{
    let mut r: Vec<u8> = Vec::new();
    let mut i: usize = 0;
    while i < a.len()
        invariant
            0 <= i <= a@.len(),
            r@ == a@.take(i as int),
        decreases a@.len() - i,
    {
        r.push(a[i]);
        assert(a@.take(i + 1) =~= a@.take(i as int).push(a@[i as int]));
        i = i + 1;
    }
    assert(a@.take(a@.len() as int) =~= a@);
    r
}

/// What the bar shows, as plain values: title, artist, status, whether a
/// player is there, and the thumbnail.
pub open spec fn shown_view(s: MediaState) -> (Seq<char>, Seq<char>, Seq<char>, bool, Seq<u8>) {
    (s.title@, s.artist@, s.status@, s.has_player, s.thumbnail@)
}

/// What the bar shows after reading the session's properties.
pub open spec fn shown_after(title: Seq<char>, artist: Seq<char>, is_playing: bool, thumbnail: Option<
    Seq<u8>,
>) -> (Seq<char>, Seq<char>, Seq<char>, bool, Seq<u8>) {
    let has_player = title != no_music_title();
    (title, artist, shown_status(is_playing, has_player), has_player, kept_thumbnail(thumbnail))
}

/// What the bar shows, as plain values: title, artist, status, whether a
/// player is there, and the thumbnail.
pub type ShownMedia = (Seq<char>, Seq<char>, Seq<char>, bool, Seq<u8>);

/// A session event the listener follows.
pub enum MediaEvent {
    /// The session's properties were read.
    PropertiesRead { title: String, artist: String, is_playing: bool, thumbnail: Option<Vec<u8>> },
    /// The session's playback state changed.
    PlaybackChanged(bool),
}

/// The status a playback change shows.
pub open spec fn playback_status(is_playing: bool) -> Seq<char> {
    if is_playing {
        "playing"@
    } else {
        "paused"@
    }
}

/// What the bar shows after one event.
pub open spec fn shown_step(v: ShownMedia, ev: MediaEvent) -> ShownMedia {
    match ev {
        MediaEvent::PropertiesRead { title, artist, is_playing, thumbnail } => shown_after(
            title@,
            artist@,
            is_playing,
            opt_bytes(thumbnail),
        ),
        MediaEvent::PlaybackChanged(p) => (v.0, v.1, playback_status(p), v.3, v.4),
    }
}

/// What the bar shows after a sequence of events, in order.
pub open spec fn shown_after_all(v: ShownMedia, evs: Seq<MediaEvent>) -> ShownMedia
    decreases evs.len(),
{
    if evs.len() == 0 {
        v
    } else {
        shown_step(shown_after_all(v, evs.drop_last()), evs.last())
    }
}

/// The status an event shows.
pub open spec fn status_set_by(ev: MediaEvent) -> Seq<char> {
    match ev {
        MediaEvent::PropertiesRead { title, is_playing, .. } => shown_status(
            is_playing,
            title@ != no_music_title(),
        ),
        MediaEvent::PlaybackChanged(p) => playback_status(p),
    }
}

/// The latest properties read, if any: title, artist and thumbnail.
pub open spec fn latest_properties(evs: Seq<MediaEvent>) -> Option<(Seq<char>, Seq<char>, Seq<u8>)>
    decreases evs.len(),
{
    if evs.len() == 0 {
        None
    } else {
        match evs.last() {
            MediaEvent::PropertiesRead { title, artist, thumbnail, .. } => Some(
                (title@, artist@, kept_thumbnail(opt_bytes(thumbnail))),
            ),
            MediaEvent::PlaybackChanged(_) => latest_properties(evs.drop_last()),
        }
    }
}

/// Over any sequence of session events: the bar shows the status set by the
/// latest event, and the title, artist and thumbnail of the latest
/// properties read (the starting ones before any); before each event, an
/// update is due exactly when the event changes what is shown; and an event
/// repeated right after itself is due no update.
pub proof fn law_media_events(v: ShownMedia, evs: Seq<MediaEvent>)
    ensures
        evs.len() > 0 ==> shown_after_all(v, evs).2 == status_set_by(evs.last()),
        ({
            let w = shown_after_all(v, evs);
            match latest_properties(evs) {
                Some((t, a, th)) => w.0 == t && w.1 == a && w.4 == th,
                None => w.0 == v.0 && w.1 == v.1 && w.4 == v.4,
            }
        }),
        forall|k: int|
            0 <= k < evs.len() ==> (shown_step(#[trigger] shown_after_all(v, evs.take(k)), evs[k])
                != shown_after_all(v, evs.take(k)) <==> shown_after_all(v, evs.take(k + 1))
                != shown_after_all(v, evs.take(k))),
        forall|e: MediaEvent| #[trigger] shown_step(shown_step(v, e), e) == shown_step(v, e),
    decreases evs.len(),
{
    if evs.len() > 0 {
        law_media_events(v, evs.drop_last());
        match evs.last() {
            MediaEvent::PropertiesRead { title, is_playing, .. } => {},
            MediaEvent::PlaybackChanged(_) => {},
        }
    }
    assert forall|k: int| 0 <= k < evs.len() implies (shown_step(
        #[trigger] shown_after_all(v, evs.take(k)),
        evs[k],
    ) != shown_after_all(v, evs.take(k)) <==> shown_after_all(v, evs.take(k + 1)) != shown_after_all(
        v,
        evs.take(k),
    )) by {
        assert(evs.take(k + 1).drop_last() =~= evs.take(k));
        assert(evs.take(k + 1).last() == evs[k]);
    }
}

/// Listens to the current media session and keeps what the bar shows of it.
pub struct MediaListener {
    state: MediaState,
}

impl MediaListener {
    pub closed spec fn shown(self) -> MediaState {
        self.state
    }

    /// A listener that shows nothing playing yet.
    pub fn new() -> (l: Self)
        ensures
            l.shown().is_initial(),
    {
        MediaListener { state: MediaState::default() }
    }

    /// Follows one session event: what is shown becomes what the event
    /// shows, and an update comes back exactly when that changed.
    pub fn on_event(&mut self, ev: MediaEvent) -> (u: Option<MediaUpdate>)
        ensures
            shown_view(final(self).shown()) == shown_step(shown_view(old(self).shown()), ev),
            u is Some <==> shown_step(shown_view(old(self).shown()), ev) != shown_view(old(self).shown()),
    {
        match ev {
            MediaEvent::PropertiesRead { title, artist, is_playing, thumbnail } => self.on_media_properties(
                title,
                artist,
                is_playing,
                thumbnail,
            ),
            MediaEvent::PlaybackChanged(p) => {
                let u = self.on_playback_changed(p);
                assert(shown_view(self.shown()) =~= shown_step(shown_view(old(self).shown()), ev));
                u
            },
        }
    }

    /// What the bar currently shows.
    pub fn state(&self) -> (s: &MediaState)
        ensures
            *s == self.shown(),
    {
        &self.state
    }

    /// The session's properties were read: `title` ("Sin música" when there
    /// is no track), `artist`, whether it plays, and its thumbnail. The shown
    /// state takes them over; an update carrying all of them comes back
    /// exactly when any shown field changed.
    pub fn on_media_properties(
        &mut self,
        title: String,
        artist: String,
        is_playing: bool,
        thumbnail: Option<Vec<u8>>,
    ) -> (u: Option<MediaUpdate>)
        ensures
            ({
                let old_s = old(self).shown();
                let new_s = final(self).shown();
                let has_player = title@ != no_music_title();
                let status = shown_status(is_playing, has_player);
                let changed = old_s.title@ != title@ || old_s.artist@ != artist@ || old_s.status@
                    != status || old_s.has_player != has_player || old_s.thumbnail@
                    != kept_thumbnail(opt_bytes(thumbnail));
                &&& new_s.title@ == title@
                &&& new_s.artist@ == artist@
                &&& new_s.status@ == status
                &&& new_s.has_player == has_player
                &&& new_s.thumbnail@ == kept_thumbnail(opt_bytes(thumbnail))
                &&& shown_view(new_s) == shown_after(title@, artist@, is_playing, opt_bytes(thumbnail))
                &&& (u is Some <==> shown_view(old_s) != shown_after(title@, artist@, is_playing, opt_bytes(thumbnail)))
                &&& match u {
                    Some(MediaUpdate::MediaInfo { title: t, artist: a, status: s, has_player: h, thumbnail: th }) => {
                        &&& changed
                        &&& t@ == title@
                        &&& a@ == artist@
                        &&& s@ == status
                        &&& h == has_player
                        &&& opt_bytes(th) == opt_bytes(thumbnail)
                    },
                    Some(MediaUpdate::PlaybackStatus(_)) => false,
                    None => !changed,
                }
            }),
    {
        let no_music = String::from_str("Sin música");
        let has_player = !(title == no_music);
        let status = if is_playing {
            String::from_str("playing")
        } else if has_player {
            String::from_str("paused")
        } else {
            String::from_str("stopped")
        };
        let mut changed = false;
        if !(self.state.title == title) {
            self.state.title = title.clone();
            changed = true;
        }
        if !(self.state.artist == artist) {
            self.state.artist = artist.clone();
            changed = true;
        }
        if !(self.state.status == status) {
            self.state.status = status.clone();
            changed = true;
        }
        if self.state.has_player != has_player {
            self.state.has_player = has_player;
            changed = true;
        }
        match &thumbnail {
            Some(new_thumb) => {
                if !same_bytes(&self.state.thumbnail, new_thumb) {
                    self.state.thumbnail = copy_bytes(new_thumb);
                    changed = true;
                }
            },
            None => {
                if self.state.thumbnail.len() > 0 {
                    self.state.thumbnail = Vec::new();
                    changed = true;
                } else {
                    assert(self.state.thumbnail@ =~= Seq::<u8>::empty());
                }
            },
        }
        if changed {
            Some(MediaUpdate::MediaInfo { title, artist, status, has_player, thumbnail })
        } else {
            None
        }
    }

    /// The session's playback state changed: the shown status becomes
    /// "playing" or "paused", and an update carrying it comes back exactly
    /// when it differs from the shown one. Nothing else shown changes.
    pub fn on_playback_changed(&mut self, is_playing: bool) -> (u: Option<MediaUpdate>)
        ensures
            ({
                let status: Seq<char> = if is_playing {
                    "playing"@
                } else {
                    "paused"@
                };
                let old_s = old(self).shown();
                let new_s = final(self).shown();
                &&& new_s.status@ == status
                &&& new_s.title == old_s.title
                &&& new_s.artist == old_s.artist
                &&& new_s.has_player == old_s.has_player
                &&& new_s.thumbnail == old_s.thumbnail
                &&& (old_s.status@ != status <==> u is Some)
                &&& (u matches Some(upd) ==> upd matches MediaUpdate::PlaybackStatus(s) && s@ == status)
            }),
    {
        let new_status = if is_playing {
            String::from_str("playing")
        } else {
            String::from_str("paused")
        };
        if !(self.state.status == new_status) {
            self.state.status = new_status.clone();
            Some(MediaUpdate::PlaybackStatus(new_status))
        } else {
            None
        }
    }
}

/// Whether the current session plays: false without a session, else whether
/// its playback state is "playing".
pub fn playback_is_playing(session: Option<SessionPlayback>) -> (r: bool)
    ensures
        r == (session == Some(SessionPlayback::Playing)),
{
    match session {
        Some(SessionPlayback::Playing) => true,
        _ => false,
    }
}

/// Whether a thumbnail stream of `size` bytes is read: non-empty and under ten million bytes.
pub fn session_thumbnail_readable(size: u64) -> (r: bool)
    ensures
        r == (0 < size && size < 10_000_000),
{
    size > 0 && size < 10_000_000
}

/// The properties read from the media session manager: with no current
/// session, "Sin música" with no artist, not playing and no thumbnail;
/// otherwise the session's own, its empty title shown as "Sin música" and an
/// empty thumbnail dropped.
pub fn session_properties(
    session: Option<(String, String, bool, Vec<u8>)>,
) -> (r: (String, String, bool, Option<Vec<u8>>))
    ensures
        match session {
            None => r.0@ == no_music_title() && r.1@.len() == 0 && !r.2 && r.3 is None,
            Some((t, a, p, th)) => {
                &&& r.0@ == crate::media::windows::shown_session_title(t@)
                &&& r.1@ == a@
                &&& r.2 == p
                &&& opt_bytes(r.3) == if th@.len() > 0 {
                    Some(th@)
                } else {
                    None
                }
            },
        },
{
    match session {
        None => (String::from_str("Sin música"), String::new(), false, None),
        Some((t, a, p, th)) => {
            let title = crate::media::windows::session_title(t);
            let thumb = if th.len() > 0 {
                Some(th)
            } else {
                None
            };
            (title, a, p, thumb)
        },
    }
}

} // verus!
