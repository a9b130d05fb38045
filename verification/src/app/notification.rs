//! The toast queue behind the notification popup: identifiers, the bound on
//! the number of toasts shown, expiry timers, and dismissal by id or by tag.
use vstd::prelude::*;

verus! {

pub const SEVERITY_INFO: i32 = 0;

pub const SEVERITY_WARNING: i32 = 1;

pub const SEVERITY_ERROR: i32 = 2;

/// Width of the popup surface; its input region spans this width.
pub const WINDOW_W: i32 = 300;

/// Height of the popup surface.
pub const WINDOW_H: i32 = 500;

/// At most this many toasts are shown at once; pushing one more evicts the oldest.
pub const MAX_TOASTS: usize = 5;

/// Duration used when a toast asks for a non-positive one.
pub const DEFAULT_DURATION_MS: i32 = 5000;

/// The input region of the popup for its content height (whole pixels; none
/// when the popup is gone): the popup's full width, two pixels taller than
/// the content, or no region when that height is not positive.
pub fn input_region(content_height: Option<i32>) -> (r: Option<(i32, i32, i32, i32)>)
    requires
        content_height matches Some(h) ==> h <= i32::MAX - 2,
    ensures
        r == match content_height {
            Some(h) => if h + 2 > 0 {
                Some((0i32, 0i32, WINDOW_W, (h + 2) as i32))
            } else {
                None
            },
            None => None,
        },
{
    let height = match content_height {
        Some(h) => h + 2,
        None => 0,
    };
    if height > 0 {
        Some((0, 0, WINDOW_W, height))
    } else {
        None
    }
}

/// One toast as the popup shows it.
pub struct ToastData {
    pub id: i32,
    pub title: String,
    pub message: String,
    pub icon: String,
    pub severity: i32,
    pub duration_ms: i32,
    pub tag: String,
}

/// What the caller has to do after a toast was queued: start a single-shot
/// timer of `duration_ms` for `id`, and stop the timer of `evicted` if any.
pub struct PushOutcome {
    pub id: i32,
    pub duration_ms: i32,
    pub evicted: Option<i32>,
}

/// The ids of a sequence of toasts.
pub open spec fn toast_ids(s: Seq<ToastData>) -> Seq<i32> {
    s.map_values(|t: ToastData| t.id)
}

/// A toast with its id replaced.
pub open spec fn with_id(t: ToastData, id: i32) -> ToastData {
    ToastData { id: id, ..t }
}

/// The duration a toast is shown for.
pub open spec fn effective_duration(requested: i32) -> i32 {
    if requested <= 0 {
        DEFAULT_DURATION_MS
    } else {
        requested
    }
}

/// The toasts after `t` was appended, with the oldest dropped when the bound is exceeded.
pub open spec fn bounded_push(s: Seq<ToastData>, t: ToastData) -> Seq<ToastData> {
    if s.len() + 1 > MAX_TOASTS {
        s.push(t).drop_first()
    } else {
        s.push(t)
    }
}

/// Queue of shown toasts together with the ids of their running expiry timers.
pub struct ToastQueue {
    next_id: i32,
    toasts: Vec<ToastData>,
    timers: Vec<i32>,
}

proof fn lemma_filter_remove_unique(s: Seq<i32>, i: int, x: i32)
    requires
        s.no_duplicates(),
        0 <= i < s.len(),
        s[i] == x,
    ensures
        s.filter(|y: i32| y != x) == s.remove(i),
    decreases s.len(),
{
    reveal(Seq::filter);
    let p = |y: i32| y != x;
    if i == s.len() - 1 {
        assert(s.drop_last().no_duplicates());
        lemma_filter_none(s.drop_last(), x);
        assert(s.remove(i) =~= s.drop_last());
    } else {
        let d = s.drop_last();
        assert(d.no_duplicates());
        assert(d[i] == x);
        lemma_filter_remove_unique(d, i, x);
        assert(s.last() != x);
        assert(s.remove(i) =~= d.remove(i).push(s.last()));
    }
}

proof fn lemma_filter_none(s: Seq<i32>, x: i32)
    requires
        forall|k: int| 0 <= k < s.len() ==> s[k] != x,
    ensures
        s.filter(|y: i32| y != x) == s,
    decreases s.len(),
{
    reveal(Seq::filter);
    if s.len() > 0 {
        lemma_filter_none(s.drop_last(), x);
        assert(s.drop_last().push(s.last()) =~= s);
    }
}

proof fn lemma_increasing_no_duplicates(s: Seq<i32>)
    requires
        forall|a: int, b: int| 0 <= a < b < s.len() ==> s[a] < s[b],
    ensures
        s.no_duplicates(),
{
}

impl ToastQueue {
    /// The toasts currently shown, oldest first.
    pub closed spec fn toasts(self) -> Seq<ToastData> {
        self.toasts@
    }

    /// Ids of the toasts whose expiry timer is running.
    pub closed spec fn timers(self) -> Seq<i32> {
        self.timers@
    }

    /// The last id handed out (0 before the first).
    pub closed spec fn last_id(self) -> i32 {
        self.next_id
    }

    /// The queue's invariant: at most `MAX_TOASTS` toasts, one running timer per
    /// shown toast (in the same order), ids strictly increasing and positive,
    /// none beyond the last id handed out.
    pub open spec fn wf(self) -> bool {
        &&& self.toasts().len() <= MAX_TOASTS
        &&& self.timers() == toast_ids(self.toasts())
        &&& forall|a: int, b: int|
            0 <= a < b < self.toasts().len() ==> #[trigger] self.toasts()[a].id
                < #[trigger] self.toasts()[b].id
        &&& forall|a: int|
            0 <= a < self.toasts().len() ==> 0 < #[trigger] self.toasts()[a].id
                <= self.last_id()
        &&& self.last_id() >= 0
    }

    /// An empty queue.
    pub fn new() -> (q: ToastQueue)
        ensures
            q.wf(),
            q.toasts() == Seq::<ToastData>::empty(),
            q.last_id() == 0,
    {
        let q = ToastQueue { next_id: 0, toasts: Vec::new(), timers: Vec::new() };
        assert(toast_ids(q.toasts@) =~= q.timers@);
        q
    }

    /// Number of toasts shown.
    pub fn row_count(&self) -> (n: usize)
        ensures
            n == self.toasts().len(),
    {
        self.toasts.len()
    }

    /// Hands out the next id: one more than the last.
    pub fn next_id(&mut self) -> (id: i32)
        requires
            old(self).wf(),
            old(self).last_id() < i32::MAX,
        ensures
            final(self).wf(),
            id == old(self).last_id() + 1,
            final(self).last_id() == id,
            final(self).toasts() == old(self).toasts(),
    {
        let id = self.next_id + 1;
        self.next_id = id;
        id
    }

    /// Stops (forgets) the timer of the toast `id`.
    fn forget_timer(&mut self, id: i32)
        ensures
            final(self).timers() == old(self).timers().filter(|y: i32| y != id),
            final(self).toasts() == old(self).toasts(),
            final(self).last_id() == old(self).last_id(),
    {
        let ghost p = |y: i32| y != id;
        let mut kept: Vec<i32> = Vec::new();
        let mut k: usize = 0;
        while k < self.timers.len()
            invariant
                0 <= k <= self.timers@.len(),
                self.timers@ == old(self).timers@,
                self.toasts@ == old(self).toasts@,
                self.next_id == old(self).next_id,
                p == (|y: i32| y != id),
                kept@ == self.timers@.take(k as int).filter(p),
            decreases self.timers@.len() - k,
        {
            let t = self.timers[k];
            proof {
                assert(self.timers@.take(k as int + 1) =~= self.timers@.take(k as int).push(t));
                self.timers@.take(k as int).lemma_filter_push(t, p);
            }
            if t != id {
                kept.push(t);
            }
            k = k + 1;
        }
        assert(self.timers@.take(k as int) =~= self.timers@);
        self.timers = kept;
    }

    /// Queues `toast` under a fresh id; evicts the oldest toast when more than
    /// `MAX_TOASTS` would be shown, and starts the new toast's timer.
    pub fn push_toast(&mut self, toast: ToastData) -> (out: PushOutcome)
        requires
            old(self).wf(),
            old(self).last_id() < i32::MAX,
        ensures
            final(self).wf(),
            out.id == old(self).last_id() + 1,
            final(self).last_id() == out.id,
            out.duration_ms == effective_duration(toast.duration_ms),
            final(self).toasts() == bounded_push(old(self).toasts(), with_id(toast, out.id)),
            out.evicted == (if old(self).toasts().len() + 1 > MAX_TOASTS {
                Some(old(self).toasts()[0].id)
            } else {
                None::<i32>
            }),
    {
        let ghost old_toasts = self.toasts@;
        let id = self.next_id();
        let mut toast = toast;
        toast.id = id;
        let duration = if toast.duration_ms <= 0 {
            DEFAULT_DURATION_MS
        } else {
            toast.duration_ms
        };
        self.toasts.push(toast);
        let mut evicted: Option<i32> = None;
        proof {
            lemma_increasing_no_duplicates(self.timers@);
        }
        if self.toasts.len() > MAX_TOASTS {
            let gone = self.toasts.remove(0);
            proof {
                assert(self.timers@[0] == gone.id);
                lemma_filter_remove_unique(self.timers@, 0, gone.id);
            }
            self.forget_timer(gone.id);
            evicted = Some(gone.id);
            assert(self.toasts@ =~= old_toasts.push(with_id(toast, id)).drop_first());
        } else {
            assert(self.toasts@ =~= old_toasts.push(with_id(toast, id)));
        }
        self.timers.push(id);
        assert(self.timers@ =~= toast_ids(self.toasts@));
        PushOutcome { id, duration_ms: duration, evicted }
    }

    /// Removes the toast `id` (when its timer fired or it was dismissed) and
    /// stops its timer. Returns whether no toast is left, so that the popup hides.
    pub fn remove_toast(&mut self, id: i32) -> (now_empty: bool)
        requires
            old(self).wf(),
        ensures
            final(self).wf(),
            final(self).last_id() == old(self).last_id(),
            final(self).toasts() == old(self).toasts().filter(|t: ToastData| t.id != id),
            now_empty == (final(self).toasts().len() == 0),
    {
        let ghost pt = |t: ToastData| t.id != id;
        let ghost old_toasts = self.toasts@;
        proof {
            lemma_increasing_no_duplicates(self.timers@);
        }
        let mut row: usize = 0;
        while row < self.toasts.len() && self.toasts[row].id != id
            invariant
                0 <= row <= self.toasts@.len(),
                self.toasts@ == old_toasts,
                old(self).wf(),
                *self == *old(self),
                forall|k: int| 0 <= k < row ==> #[trigger] self.toasts@[k].id != id,
            decreases self.toasts@.len() - row,
        {
            row = row + 1;
        }
        if row < self.toasts.len() {
            proof {
                lemma_filter_remove_unique(old(self).timers@, row as int, id);
                lemma_toasts_filter_remove(old_toasts, row as int, id);
            }
            self.forget_timer(id);
            self.toasts.remove(row);
        } else {
            proof {
                assert forall|k: int| 0 <= k < self.timers@.len() implies self.timers@[k] != id by {
                    assert(self.timers@[k] == self.toasts@[k].id);
                }
                lemma_filter_none(self.timers@, id);
                lemma_toasts_filter_none(old_toasts, id);
            }
            self.forget_timer(id);
        }
        assert(self.timers@ =~= toast_ids(self.toasts@));
        self.toasts.len() == 0
    }

    /// Removes every toast whose tag is `tag`, stopping their timers. Returns
    /// whether no toast is left, so that the popup hides.
    pub fn dismiss_tagged(&mut self, tag: &str) -> (now_empty: bool)
        requires
            old(self).wf(),
        ensures
            final(self).wf(),
            final(self).last_id() == old(self).last_id(),
            final(self).toasts() == old(self).toasts().filter(|t: ToastData| t.tag@ != tag@),
            now_empty == (final(self).toasts().len() == 0),
    {
        let ghost p = |t: ToastData| t.tag@ != tag@;
        let ghost old_toasts = self.toasts@;
        let tag_s = String::from_str(tag);
        let mut i: usize = 0;
        let ghost mut j: int = 0;
        while i < self.toasts.len()
            invariant
                self.wf(),
                self.last_id() == old(self).last_id(),
                p == (|t: ToastData| t.tag@ != tag@),
                tag_s@ == tag@,
                0 <= j <= old_toasts.len(),
                self.toasts@ == old_toasts.take(j).filter(p) + old_toasts.skip(j),
                i == old_toasts.take(j).filter(p).len(),
            decreases old_toasts.len() - j,
        {
            proof {
                old_toasts.take(j).lemma_filter_len(p);
                assert(old_toasts.take(j + 1) =~= old_toasts.take(j).push(old_toasts[j]));
                old_toasts.take(j).lemma_filter_push(old_toasts[j], p);
                assert(self.toasts@[i as int] == old_toasts[j]);
            }
            if self.toasts[i].tag == tag_s {
                let gone_id = self.toasts[i].id;
                proof {
                    lemma_increasing_no_duplicates(self.timers@);
                    assert(self.timers@[i as int] == gone_id);
                    lemma_filter_remove_unique(self.timers@, i as int, gone_id);
                }
                self.forget_timer(gone_id);
                self.toasts.remove(i);
                proof {
                    assert(self.toasts@ =~= old_toasts.take(j + 1).filter(p) + old_toasts.skip(j + 1));
                    assert(self.timers@ =~= toast_ids(self.toasts@));
                }
            } else {
                i = i + 1;
                proof {
                    assert(self.toasts@ =~= old_toasts.take(j + 1).filter(p) + old_toasts.skip(j + 1));
                }
            }
            proof {
                j = j + 1;
            }
        }
        proof {
            old_toasts.take(j).lemma_filter_len(p);
            assert(old_toasts.take(j) =~= old_toasts);
            assert(self.toasts@ =~= old_toasts.filter(p));
        }
        self.toasts.len() == 0
    }
}

/// A toast as requested by a widget; the queue gives it its id.
pub open spec fn requested_toast(t: ToastData, title: Seq<char>, message: Seq<char>, icon: Seq<char>,
    severity: i32, duration_ms: i32, tag: Seq<char>) -> bool {
    &&& t.title@ == title
    &&& t.message@ == message
    &&& t.icon@ == icon
    &&& t.severity == severity
    &&& t.duration_ms == duration_ms
    &&& t.tag@ == tag
}

/// Shows a toast: queues it under a fresh id (evicting the oldest when the
/// popup is full). The caller starts the returned timer and shows the popup.
pub fn push(
    queue: &mut ToastQueue,
    title: &str,
    message: &str,
    icon: &str,
    severity: i32,
    duration_ms: i32,
    tag: &str,
) -> (out: PushOutcome)
    requires
        old(queue).wf(),
        old(queue).last_id() < i32::MAX,
    ensures
        final(queue).wf(),
        out.id == old(queue).last_id() + 1,
        final(queue).last_id() == out.id,
        out.duration_ms == effective_duration(duration_ms),
        exists|t: ToastData|
            #![trigger with_id(t, out.id)]
            requested_toast(t, title@, message@, icon@, severity, duration_ms, tag@)
                && final(queue).toasts() == bounded_push(old(queue).toasts(), with_id(t, out.id)),
        out.evicted == (if old(queue).toasts().len() + 1 > MAX_TOASTS {
            Some(old(queue).toasts()[0].id)
        } else {
            None::<i32>
        }),
{
    let toast = ToastData {
        id: 0,
        title: String::from_str(title),
        message: String::from_str(message),
        icon: String::from_str(icon),
        severity,
        duration_ms,
        tag: String::from_str(tag),
    };
    let ghost t = toast;
    let out = queue.push_toast(toast);
    assert(requested_toast(t, title@, message@, icon@, severity, duration_ms, tag@));
    out
}

/// Removes every toast tagged `tag`; returns whether the popup is now empty.
pub fn dismiss_tagged(queue: &mut ToastQueue, tag: &str) -> (now_empty: bool)
    requires
        old(queue).wf(),
    ensures
        final(queue).wf(),
        final(queue).last_id() == old(queue).last_id(),
        final(queue).toasts() == old(queue).toasts().filter(|t: ToastData| t.tag@ != tag@),
        now_empty == (final(queue).toasts().len() == 0),
{
    queue.dismiss_tagged(tag)
}

proof fn lemma_toasts_filter_none(s: Seq<ToastData>, id: i32)
    requires
        forall|k: int| 0 <= k < s.len() ==> s[k].id != id,
    ensures
        s.filter(|t: ToastData| t.id != id) == s,
    decreases s.len(),
{
    reveal(Seq::filter);
    if s.len() > 0 {
        lemma_toasts_filter_none(s.drop_last(), id);
        assert(s.drop_last().push(s.last()) =~= s);
    }
}

proof fn lemma_toasts_filter_remove(s: Seq<ToastData>, i: int, id: i32)
    requires
        0 <= i < s.len(),
        s[i].id == id,
        forall|a: int, b: int| 0 <= a < b < s.len() ==> #[trigger] s[a].id < #[trigger] s[b].id,
    ensures
        s.filter(|t: ToastData| t.id != id) == s.remove(i),
    decreases s.len(),
{
    reveal(Seq::filter);
    if i == s.len() - 1 {
        lemma_toasts_filter_none(s.drop_last(), id);
        assert(s.remove(i) =~= s.drop_last());
    } else {
        let d = s.drop_last();
        lemma_toasts_filter_remove(d, i, id);
        assert(s.last().id != id);
        assert(s.remove(i) =~= d.remove(i).push(s.last()));
    }
}

/// No more than `MAX_TOASTS` toasts are ever shown: queueing a toast onto
/// at most that many leaves at most that many, the new toast shown last,
/// and drops a toast (the oldest) only when the bound would be exceeded.
pub proof fn law_toasts_bounded(s: Seq<ToastData>, t: ToastData)
    requires
        s.len() <= MAX_TOASTS,
    ensures
        bounded_push(s, t).len() <= MAX_TOASTS,
        bounded_push(s, t).last() == t,
        s.len() < MAX_TOASTS ==> bounded_push(s, t) == s.push(t),
        s.len() == MAX_TOASTS ==> bounded_push(s, t) == s.drop_first().push(t),
{
    if s.len() == MAX_TOASTS {
        assert(s.push(t).drop_first() =~= s.drop_first().push(t));
    }
}

/// The toasts left after dismissing `tag`.
pub open spec fn without_tag(s: Seq<ToastData>, tag: Seq<char>) -> Seq<ToastData> {
    s.filter(|t: ToastData| t.tag@ != tag)
}

/// Dismissing a tag removes exactly the toasts with that tag: none of the
/// remaining toasts has it, and every toast with another tag remains.
pub proof fn law_dismiss_tagged_exact(s: Seq<ToastData>, tag: Seq<char>)
    ensures
        forall|i: int| 0 <= i < without_tag(s, tag).len() ==> #[trigger] without_tag(s, tag)[i].tag@ != tag,
        forall|i: int| 0 <= i < s.len() && #[trigger] s[i].tag@ != tag ==> without_tag(s, tag).contains(s[i]),
    decreases s.len(),
{
    let p = |t: ToastData| t.tag@ != tag;
    reveal(Seq::filter);
    if s.len() > 0 {
        law_dismiss_tagged_exact(s.drop_last(), tag);
        assert(s.drop_last().push(s.last()) =~= s);
        let f = without_tag(s.drop_last(), tag);
        assert forall|i: int| 0 <= i < s.len() && #[trigger] s[i].tag@ != tag implies without_tag(s, tag).contains(
            s[i],
        ) by {
            if i < s.len() - 1 {
                assert(s.drop_last()[i] == s[i]);
                let k = choose|k: int| 0 <= k < f.len() && f[k] == s[i];
                assert(without_tag(s, tag)[k] == s[i]);
            } else {
                assert(without_tag(s, tag) == f.push(s.last()));
                assert(without_tag(s, tag)[f.len() as int] == s[i]);
            }
        }
    }
}

} // verus!
