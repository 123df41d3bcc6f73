//! The notification dispatcher's data core: a bounded drop-oldest queue of
//! pending notifications, a fast duplicate filter keyed by a hash of the
//! notification's content, and the single-wake bookkeeping that keeps at
//! most one wake signal outstanding to the background worker.
//!
//! The embedder owns the mutex around the queue and performs the actual
//! wake post and the OS presentation calls.

use vstd::prelude::*;

verus! {

/// How long a repeated identical notification is suppressed.
pub const DEDUPE_WINDOW_MS: u64 = 2000;
/// The queue's capacity; beyond it the oldest entry is dropped.
pub const MAX_QUEUE_LEN: usize = 256;
/// How many entries one wake of the worker drains at most.
pub const MAX_PER_TICK: usize = 32;

/// What kind of balloon a notification asks for.
#[derive(Clone, Copy, Debug, PartialEq, Eq, Structural)]
pub enum NotifyKind {
    Info,
    Error,
    Roar,
}

/// One pending notification.
#[derive(Clone, Debug)]
pub struct Notification {
    pub kind: NotifyKind,
    pub title: String,
    pub text: String,
    pub created_ms: u64,
    pub dedupe_key: u64,
}

/// The numeric tag hashed for a notification kind.
pub open spec fn spec_kind_tag(kind: NotifyKind) -> u64 {
    match kind {
        NotifyKind::Info => 0,
        NotifyKind::Error => 1,
        NotifyKind::Roar => 2,
    }
}

/// The FNV-1a offset basis.
pub const FNV_OFFSET: u64 = 0xcbf29ce484222325;
/// The FNV-1a prime.
pub const FNV_PRIME: u64 = 0x100000001b3;
/// A value no character can hash to, mixed in between title and text.
pub const HASH_FIELD_SEP: u64 = 0xffff_ffff;

/// One FNV-1a step: fold `v` into the running hash.
pub open spec fn spec_hash_step(h: u64, v: u64) -> u64 {
    (h ^ v).wrapping_mul(FNV_PRIME)
}

/// The hash after folding in the first `i` characters of `s`.
pub open spec fn spec_hash_prefix(init: u64, s: Seq<char>, i: int) -> u64
    decreases i,
{
    if i <= 0 {
        init
    } else {
        spec_hash_step(spec_hash_prefix(init, s, i - 1), s[i - 1] as u64)
    }
}

/// The hash after folding in all of `s`.
pub open spec fn spec_hash_chars(init: u64, s: Seq<char>) -> u64 {
    spec_hash_prefix(init, s, s.len() as int)
}

/// The duplicate-filter key of a notification: an FNV-1a fold over the
/// kind, the title and the text, with a separator between the two strings.
pub open spec fn spec_hash_key(kind: NotifyKind, title: Seq<char>, text: Seq<char>) -> u64 {
    spec_hash_chars(spec_hash_step(spec_hash_chars(spec_hash_step(FNV_OFFSET,
        spec_kind_tag(kind)), title), HASH_FIELD_SEP), text)
}

/// Folds the characters of `s` into the running hash.
fn hash_str(init: u64, s: &str) -> (r: u64)
    ensures
        r == spec_hash_chars(init, s@),
{
    let n = s.unicode_len();
    let mut h = init;
    let mut i: usize = 0;
    while i < n
        invariant
            n == s@.len(),
            i <= n,
            h == spec_hash_prefix(init, s@, i as int),
        decreases n - i,
    {
        let c = s.get_char(i);
        h = (h ^ (c as u64)).wrapping_mul(FNV_PRIME);
        i = i + 1;
    }
    h
}

/// Computes the duplicate-filter key of a notification's content.
pub fn hash_key(kind: NotifyKind, title: &str, text: &str) -> (r: u64)
    ensures
        r == spec_hash_key(kind, title@, text@),
{
    let tag: u64 = match kind {
        NotifyKind::Info => 0,
        NotifyKind::Error => 1,
        NotifyKind::Roar => 2,
    };
    let mut h = (FNV_OFFSET ^ tag).wrapping_mul(FNV_PRIME);
    h = hash_str(h, title);
    h = (h ^ HASH_FIELD_SEP).wrapping_mul(FNV_PRIME);
    hash_str(h, text)
}

/// The dispatcher's shared state: the pending notifications (oldest first),
/// whether a wake signal is outstanding, and the key and time of the last
/// notification accepted by the duplicate filter.
pub struct NotifyQueue {
    pub items: Vec<Notification>,
    pub posted: bool,
    pub last_key: u64,
    pub last_ms: u64,
}

/// Whether a notification with key `key` at time `ts_ms` repeats the
/// previously accepted one within the dedupe window.
pub open spec fn spec_is_fast_duplicate(q: NotifyQueue, key: u64, ts_ms: u64) -> bool {
    key == q.last_key && crate::chords::spec_saturating_sub(ts_ms, q.last_ms) <= DEDUPE_WINDOW_MS
}

impl NotifyQueue {
    /// The queue never holds more than its capacity.
    pub open spec fn wf(&self) -> bool {
        self.items@.len() <= MAX_QUEUE_LEN
    }

    /// An empty queue with no wake outstanding.
    pub fn new() -> (r: NotifyQueue)
        ensures
            r.wf(),
            r.items@.len() == 0,
            !r.posted,
            r.last_key == 0,
            r.last_ms == 0,
    {
        NotifyQueue { items: Vec::new(), posted: false, last_key: 0, last_ms: 0 }
    }

    /// Tests the duplicate filter, and arms it with `key` and `ts_ms` when
    /// the notification is not a duplicate.
    pub fn is_fast_duplicate(&mut self, key: u64, ts_ms: u64) -> (r: bool)
        ensures
            r == spec_is_fast_duplicate(*old(self), key, ts_ms),
            r ==> *final(self) == *old(self),
            !r ==> *final(self) == (NotifyQueue {
                last_key: key,
                last_ms: ts_ms,
                ..*old(self)
            }),
    {
        if key == self.last_key && ts_ms.saturating_sub(self.last_ms) <= DEDUPE_WINDOW_MS {
            return true;
        }
        self.last_key = key;
        self.last_ms = ts_ms;
        false
    }

    /// Accepts a notification unless the duplicate filter rejects it.
    ///
    /// A duplicate leaves the queue untouched and returns `false`. An
    /// accepted notification arms the filter, drops the oldest entry if
    /// the queue is full, and is appended with its creation time and its
    /// key; the caller should then request a wake with
    /// [`NotifyQueue::take_post_token`].
    pub fn push(&mut self, kind: NotifyKind, title: &str, text: &str, ts_ms: u64) -> (enqueued:
        bool)
        requires
            old(self).wf(),
        ensures
            final(self).wf(),
            enqueued == !spec_is_fast_duplicate(*old(self), spec_hash_key(kind, title@, text@),
                ts_ms),
            !enqueued ==> *final(self) == *old(self),
            enqueued ==> ({
                let key = spec_hash_key(kind, title@, text@);
                let base = if old(self).items@.len() >= MAX_QUEUE_LEN {
                    old(self).items@.remove(0)
                } else {
                    old(self).items@
                };
                &&& final(self).last_key == key
                &&& final(self).last_ms == ts_ms
                &&& final(self).posted == old(self).posted
                &&& final(self).items@.len() == base.len() + 1
                &&& (forall|i: int| 0 <= i < base.len() ==> final(self).items@[i] == base[i])
                &&& final(self).items@.last().kind == kind
                &&& final(self).items@.last().title@ == title@
                &&& final(self).items@.last().text@ == text@
                &&& final(self).items@.last().created_ms == ts_ms
                &&& final(self).items@.last().dedupe_key == key
            }),
    {
        let key = hash_key(kind, title, text);

        if self.is_fast_duplicate(key, ts_ms) {
            return false;
        }

        if self.items.len() >= MAX_QUEUE_LEN {
            self.items.remove(0);
        }

        self.items.push(Notification {
            kind,
            title: title.to_owned(),
            text: text.to_owned(),
            created_ms: ts_ms,
            dedupe_key: key,
        });
        true
    }

    /// Removes up to one wake's worth of notifications from the front of
    /// the queue, oldest first.
    pub fn drain_for_worker(&mut self) -> (out: Vec<Notification>)
        requires
            old(self).wf(),
        ensures
            final(self).wf(),
            ({
                let k = if old(self).items@.len() < MAX_PER_TICK {
                    old(self).items@.len() as int
                } else {
                    MAX_PER_TICK as int
                };
                &&& out@ == old(self).items@.subrange(0, k)
                &&& final(self).items@ == old(self).items@.subrange(k, old(
                    self).items@.len() as int)
            }),
            final(self).posted == old(self).posted,
            final(self).last_key == old(self).last_key,
            final(self).last_ms == old(self).last_ms,
    {
        let ghost orig = self.items@;
        let ghost k: int = if orig.len() < MAX_PER_TICK {
            orig.len() as int
        } else {
            MAX_PER_TICK as int
        };

        let mut out: Vec<Notification> = Vec::new();
        let mut taken: usize = 0;

        while taken < MAX_PER_TICK && self.items.len() > 0
            invariant
                taken <= MAX_PER_TICK,
                taken <= orig.len(),
                out@ == orig.subrange(0, taken as int),
                self.items@ == orig.subrange(taken as int, orig.len() as int),
                self.posted == old(self).posted,
                self.last_key == old(self).last_key,
                self.last_ms == old(self).last_ms,
            decreases MAX_PER_TICK - taken,
        {
            let n = self.items.remove(0);
            out.push(n);
            taken = taken + 1;
            proof {
                assert(out@ =~= orig.subrange(0, taken as int));
                assert(self.items@ =~= orig.subrange(taken as int, orig.len() as int));
            }
        }

        proof {
            assert(taken as int == k);
            assert(out@ =~= orig.subrange(0, k));
        }
        out
    }

    /// Whether anything is still pending.
    pub fn has_more(&self) -> (r: bool)
        ensures
            r == (self.items@.len() != 0),
    {
        self.items.len() != 0
    }

    /// Claims the single outstanding wake signal. Returns `true` exactly
    /// when no wake was outstanding; the caller must then deliver the wake,
    /// or give the token back with [`NotifyQueue::post_failed`].
    pub fn take_post_token(&mut self) -> (r: bool)
        ensures
            r == !old(self).posted,
            *final(self) == (NotifyQueue { posted: true, ..*old(self) }),
    {
        let was = self.posted;
        self.posted = true;
        !was
    }

    /// Returns the wake token after a failed delivery, so a later push can
    /// wake the worker again.
    pub fn post_failed(&mut self)
        ensures
            *final(self) == (NotifyQueue { posted: false, ..*old(self) }),
    {
        self.posted = false;
    }

    /// Re-arms the wake signal after a worker pass when work remains.
    /// Returns `true` exactly when the queue is still nonempty; the wake is
    /// then outstanding again and the caller must deliver it.
    pub fn repost_if_needed(&mut self) -> (r: bool)
        ensures
            r == (old(self).items@.len() != 0),
            r ==> *final(self) == (NotifyQueue { posted: true, ..*old(self) }),
            !r ==> *final(self) == *old(self),
    {
        if self.items.len() != 0 {
            self.posted = false;
            let _ = self.take_post_token();
            return true;
        }
        false
    }
}

} // verus!
