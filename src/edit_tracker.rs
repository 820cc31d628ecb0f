//! Which response answered which textual invocation, for a limited time, so
//! that an edited invocation updates its response instead of sending a new
//! one. Times are readings of the process clock in seconds.
use vstd::prelude::*;

verus! {

/// One textual invocation and the bot's response to it.
#[derive(Clone, Copy, Debug, PartialEq, Eq, Structural)]
pub struct TrackedInvocation {
    pub user_msg: u64,
    pub bot_response: u64,
    pub created_at: u64,
}

/// Whether an entry made at `created` is still tracked at `now`: it is
/// younger than the window.
pub open spec fn alive(created: u64, now: u64, window: nat) -> bool {
    (now as int) - (created as int) < window as int
}

/// The tracked invocations, each originating message at most once.
pub struct EditTracker {
    window_secs: u64,
    entries: Vec<TrackedInvocation>,
}

impl EditTracker {
    /// How long an entry stays, in seconds.
    pub closed spec fn window(&self) -> nat {
        self.window_secs as nat
    }

    /// The response to `user_msg` and when it was recorded, if tracked.
    pub closed spec fn lookup(&self, user_msg: u64) -> Option<(u64, u64)> {
        if exists|i: int| 0 <= i < self.entries@.len() && #[trigger] self.entries@[i].user_msg == user_msg {
            let i = choose|i: int| 0 <= i < self.entries@.len() && #[trigger] self.entries@[i].user_msg == user_msg;
            Some((self.entries@[i].bot_response, self.entries@[i].created_at))
        } else {
            None
        }
    }

    /// Originating messages are unique.
    pub closed spec fn wf(&self) -> bool {
        forall|i: int, j: int|
            0 <= i < self.entries@.len() && 0 <= j < self.entries@.len() && i != j
                ==> #[trigger] self.entries@[i].user_msg != #[trigger] self.entries@[j].user_msg
    }

    /// The response that an edit of `user_msg` at `now` replaces, if any.
    pub open spec fn tracked_response(&self, user_msg: u64, now: u64) -> Option<u64> {
        match self.lookup(user_msg) {
            Some((resp, created)) => if alive(created, now, self.window()) {
                Some(resp)
            } else {
                None
            },
            None => None,
        }
    }

    proof fn lemma_lookup_at(&self, i: int)
        requires
            self.wf(),
            0 <= i < self.entries@.len(),
        ensures
            self.lookup(self.entries@[i].user_msg) == Some(
                (self.entries@[i].bot_response, self.entries@[i].created_at),
            ),
    {
        let m = self.entries@[i].user_msg;
        assert(self.entries@[i].user_msg == m);
        let j = choose|j: int| 0 <= j < self.entries@.len() && #[trigger] self.entries@[j].user_msg == m;
        assert(self.entries@[j].user_msg == m);
    }

    proof fn lemma_lookup_absent(&self, m: u64)
        requires
            forall|i: int| 0 <= i < self.entries@.len() ==> #[trigger] self.entries@[i].user_msg != m,
        ensures
            self.lookup(m) is None,
    {
    }

    /// A tracker that keeps entries for `window_secs` seconds.
    pub fn for_timespan(window_secs: u64) -> (r: Self)
        ensures
            r.wf(),
            r.window() == window_secs,
            forall|m: u64| #[trigger] r.lookup(m) is None,
    {
        EditTracker { window_secs, entries: Vec::new() }
    }

    fn find_index(&self, user_msg: u64) -> (r: Option<usize>)
        requires
            self.wf(),
        ensures
            r is None ==> self.lookup(user_msg) is None,
            r matches Some(i) ==> i < self.entries@.len() && self.entries@[i as int].user_msg
                == user_msg,
    {
        let mut i: usize = 0;
        while i < self.entries.len()
            invariant
                i <= self.entries@.len(),
                forall|j: int| 0 <= j < i ==> #[trigger] self.entries@[j].user_msg != user_msg,
            decreases self.entries@.len() - i,
        {
            if self.entries[i].user_msg == user_msg {
                return Some(i);
            }
            i = i + 1;
        }
        proof {
            self.lemma_lookup_absent(user_msg);
        }
        None
    }

    /// Records that `bot_response` answered `user_msg` at `now`, replacing
    /// an earlier record for the same message.
    pub fn track(&mut self, user_msg: u64, bot_response: u64, now: u64)
        requires
            old(self).wf(),
        ensures
            final(self).wf(),
            final(self).window() == old(self).window(),
            final(self).lookup(user_msg) == Some((bot_response, now)),
            forall|m: u64| m != user_msg ==> #[trigger] final(self).lookup(m) == old(self).lookup(m),
    {
        let entry = TrackedInvocation { user_msg, bot_response, created_at: now };
        let ghost before = *self;
        match self.find_index(user_msg) {
            Some(i) => {
                self.entries.set(i, entry);
                proof {
                    self.lemma_lookup_at(i as int);
                    assert forall|m: u64| m != user_msg implies #[trigger] self.lookup(m)
                        == before.lookup(m) by {
                        if exists|k: int| 0 <= k < before.entries@.len() && #[trigger] before.entries@[k].user_msg == m {
                            let k = choose|k: int| 0 <= k < before.entries@.len() && #[trigger] before.entries@[k].user_msg == m;
                            before.lemma_lookup_at(k);
                            self.lemma_lookup_at(k);
                        } else {
                            assert forall|k: int| 0 <= k < self.entries@.len() implies #[trigger] self.entries@[k].user_msg != m by {
                                if k != i {
                                    assert(before.entries@[k].user_msg != m);
                                }
                            }
                            self.lemma_lookup_absent(m);
                        }
                    }
                }
            },
            None => {
                proof {
                    assert forall|k: int| 0 <= k < before.entries@.len() implies #[trigger] before.entries@[k].user_msg != user_msg by {
                        if before.entries@[k].user_msg == user_msg {
                            assert(before.lookup(user_msg) is Some);
                        }
                    }
                }
                self.entries.push(entry);
                proof {
                    let n = before.entries@.len() as int;
                    assert(self.entries@[n] == entry);
                    self.lemma_lookup_at(n);
                    assert forall|m: u64| m != user_msg implies #[trigger] self.lookup(m)
                        == before.lookup(m) by {
                        if exists|k: int| 0 <= k < before.entries@.len() && #[trigger] before.entries@[k].user_msg == m {
                            let k = choose|k: int| 0 <= k < before.entries@.len() && #[trigger] before.entries@[k].user_msg == m;
                            before.lemma_lookup_at(k);
                            assert(self.entries@[k] == before.entries@[k]);
                            self.lemma_lookup_at(k);
                        } else {
                            assert forall|k: int| 0 <= k < self.entries@.len() implies #[trigger] self.entries@[k].user_msg != m by {
                                if k < n {
                                    assert(self.entries@[k] == before.entries@[k]);
                                }
                            }
                            self.lemma_lookup_absent(m);
                        }
                    }
                }
            },
        }
    }

    /// The response to replace when `user_msg` is edited at `now`: only an
    /// entry still inside its window counts.
    pub fn find_bot_response(&self, user_msg: u64, now: u64) -> (r: Option<u64>)
        requires
            self.wf(),
        ensures
            r == self.tracked_response(user_msg, now),
    {
        match self.find_index(user_msg) {
            Some(i) => {
                proof {
                    self.lemma_lookup_at(i as int);
                }
                let e = self.entries[i];
                let fresh = if now >= e.created_at {
                    now - e.created_at < self.window_secs
                } else {
                    true
                };
                if fresh {
                    Some(e.bot_response)
                } else {
                    None
                }
            },
            None => None,
        }
    }

    /// `after` holds, in order, the entries of `before` picked by `src`,
    /// which are exactly those still alive at `now`.
    proof fn lemma_purged(before: &Self, after: &Self, src: Seq<int>, now: u64)
        requires
            before.wf(),
            after.window_secs == before.window_secs,
            after.entries@.len() == src.len(),
            forall|j: int|
                0 <= j < src.len() ==> 0 <= #[trigger] src[j] < before.entries@.len()
                    && after.entries@[j] == before.entries@[src[j]] && alive(
                    before.entries@[src[j]].created_at,
                    now,
                    before.window(),
                ),
            forall|a: int, b: int| 0 <= a < b < src.len() ==> #[trigger] src[a] < #[trigger] src[b],
            forall|k: int|
                0 <= k < before.entries@.len() && alive(
                    before.entries@[k].created_at,
                    now,
                    before.window(),
                ) ==> exists|j: int| 0 <= j < src.len() && #[trigger] src[j] == k,
        ensures
            after.wf(),
            forall|m: u64|
                #[trigger] after.lookup(m) == match before.lookup(m) {
                    Some((resp, created)) => if alive(created, now, before.window()) {
                        Some((resp, created))
                    } else {
                        None
                    },
                    None => None,
                },
    {
        assert forall|a: int, b: int|
            0 <= a < after.entries@.len() && 0 <= b < after.entries@.len() && a != b
                implies #[trigger] after.entries@[a].user_msg != #[trigger] after.entries@[b].user_msg by {
            if a < b {
                assert(src[a] < src[b]);
            } else {
                assert(src[b] < src[a]);
            }
            assert(before.entries@[src[a]].user_msg != before.entries@[src[b]].user_msg);
        }
        assert forall|m: u64|
            #[trigger] after.lookup(m) == match before.lookup(m) {
                Some((resp, created)) => if alive(created, now, before.window()) {
                    Some((resp, created))
                } else {
                    None
                },
                None => None,
            } by {
            if exists|k: int| 0 <= k < before.entries@.len() && #[trigger] before.entries@[k].user_msg == m {
                let k = choose|k: int| 0 <= k < before.entries@.len() && #[trigger] before.entries@[k].user_msg == m;
                before.lemma_lookup_at(k);
                if alive(before.entries@[k].created_at, now, before.window()) {
                    let j = choose|j: int| 0 <= j < src.len() && #[trigger] src[j] == k;
                    after.lemma_lookup_at(j);
                } else {
                    assert forall|j: int| 0 <= j < after.entries@.len() implies #[trigger] after.entries@[j].user_msg != m by {
                        if after.entries@[j].user_msg == m {
                            assert(before.entries@[src[j]].user_msg == before.entries@[k].user_msg);
                        }
                    }
                    after.lemma_lookup_absent(m);
                }
            } else {
                assert forall|j: int| 0 <= j < after.entries@.len() implies #[trigger] after.entries@[j].user_msg != m by {
                    assert(before.entries@[src[j]].user_msg == after.entries@[j].user_msg);
                }
                after.lemma_lookup_absent(m);
            }
        }
    }

    /// Drops every entry whose window has passed at `now`; the rest stay.
    pub fn purge(&mut self, now: u64)
        requires
            old(self).wf(),
        ensures
            final(self).wf(),
            final(self).window() == old(self).window(),
            forall|m: u64|
                #[trigger] final(self).lookup(m) == match old(self).lookup(m) {
                    Some((resp, created)) => if alive(created, now, old(self).window()) {
                        Some((resp, created))
                    } else {
                        None
                    },
                    None => None,
                },
    {
        let ghost before = *self;
        let ghost es = before.entries@;
        let mut kept: Vec<TrackedInvocation> = Vec::new();
        let ghost mut src: Seq<int> = Seq::empty();
        let mut i: usize = 0;
        while i < self.entries.len()
            invariant
                *self == before,
                i <= es.len(),
                es == before.entries@,
                kept@.len() == src.len(),
                forall|j: int|
                    0 <= j < src.len() ==> 0 <= #[trigger] src[j] < i && kept@[j] == es[src[j]]
                        && alive(es[src[j]].created_at, now, before.window()),
                forall|a: int, b: int| 0 <= a < b < src.len() ==> #[trigger] src[a] < #[trigger] src[b],
                forall|k: int|
                    0 <= k < i && alive(es[k].created_at, now, before.window()) ==> exists|j: int|
                        0 <= j < src.len() && #[trigger] src[j] == k,
            decreases es.len() - i,
        {
            let e = self.entries[i];
            let fresh = if now >= e.created_at {
                now - e.created_at < self.window_secs
            } else {
                true
            };
            if fresh {
                kept.push(e);
                proof {
                    let old_src = src;
                    src = src.push(i as int);
                    assert forall|k: int|
                        0 <= k < i + 1 && alive(es[k].created_at, now, before.window()) implies exists|j: int|
                            0 <= j < src.len() && #[trigger] src[j] == k by {
                        if k < i {
                            let j = choose|j: int| 0 <= j < old_src.len() && #[trigger] old_src[j] == k;
                            assert(src[j] == k);
                        } else {
                            assert(src[old_src.len() as int] == k);
                        }
                    }
                }
            }
            i = i + 1;
        }
        let ghost src_final = src;
        self.entries = kept;
        proof {
            Self::lemma_purged(&before, self, src_final, now);
        }
    }
}

/// The window law: a response recorded at `created` is found by a lookup
/// at any later time inside the window, and never once the window has
/// passed.
pub proof fn lemma_edit_window(tracker: EditTracker, user_msg: u64, resp: u64, created: u64, now: u64)
    requires
        tracker.lookup(user_msg) == Some((resp, created)),
        created <= now,
    ensures
        now < created + tracker.window() ==> tracker.tracked_response(user_msg, now) == Some(resp),
        now >= created + tracker.window() ==> tracker.tracked_response(user_msg, now) is None,
{
}

} // verus!
