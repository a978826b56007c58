//! Sliding-window admission control.
//!
//! The limiter remembers when each admitted operation happened, in
//! nanoseconds on a clock of the caller's choosing. An operation is
//! admitted when fewer than [`MAX_BURST_REQUESTS`] remembered operations
//! are still inside the window.

use std::collections::VecDeque;
use vstd::prelude::*;

verus! {

/// Length of the sliding window: three seconds, in nanoseconds.
pub const RATE_LIMIT_WINDOW: u128 = 3_000_000_000;

/// Number of operations that one window admits.
pub const MAX_BURST_REQUESTS: usize = 15;

/// A stamp has left the window once more than [`RATE_LIMIT_WINDOW`]
/// nanoseconds lie between it and `now`. A stamp exactly that old is still
/// inside, and so is one that lies in the future of `now`.
pub open spec fn expired(stamp: u128, now: u128) -> bool {
    now - stamp > RATE_LIMIT_WINDOW
}

/// Number of stamps at the front of `window` that have left it at `now`:
/// the index of the first stamp that is still inside.
pub open spec fn stale_prefix(window: Seq<u128>, now: u128) -> nat
    decreases window.len(),
{
    if window.len() > 0 && expired(window[0], now) {
        1 + stale_prefix(window.drop_first(), now)
    } else {
        0
    }
}

/// What is left of `window` at `now`, after the stale front is dropped.
pub open spec fn pruned(window: Seq<u128>, now: u128) -> Seq<u128> {
    window.skip(stale_prefix(window, now) as int)
}

/// Whether an operation at `now` is admitted by a limiter that remembers
/// `window`.
pub open spec fn admits(window: Seq<u128>, now: u128) -> bool {
    pruned(window, now).len() < MAX_BURST_REQUESTS
}

/// The stamps a limiter remembers after it was asked at `now`.
pub open spec fn after_request(window: Seq<u128>, now: u128) -> Seq<u128> {
    if admits(window, now) {
        pruned(window, now).push(now)
    } else {
        pruned(window, now)
    }
}

/// The stale prefix is a prefix: it is no longer than the window, every
/// stamp in it has expired, and the stamp behind it, if there is one, has
/// not.
pub proof fn lemma_stale_prefix(window: Seq<u128>, now: u128)
    ensures
        stale_prefix(window, now) <= window.len(),
        forall|i: int| 0 <= i < stale_prefix(window, now) ==> expired(#[trigger] window[i], now),
        stale_prefix(window, now) < window.len() ==> !expired(
            window[stale_prefix(window, now) as int],
            now,
        ),
    decreases window.len(),
{
    if window.len() > 0 && expired(window[0], now) {
        let rest = window.drop_first();
        lemma_stale_prefix(rest, now);
        assert forall|i: int| 0 <= i < stale_prefix(window, now) implies expired(
            #[trigger] window[i],
            now,
        ) by {
            if i > 0 {
                assert(window[i] == rest[i - 1]);
            }
        }
        if stale_prefix(window, now) < window.len() {
            let next = stale_prefix(rest, now) as int;
            assert(window[next + 1] == rest[next]);
        }
    }
}

/// A request that is rejected leaves a window that holds no more than one
/// burst exactly as it was.
pub proof fn lemma_rejection_leaves_window(window: Seq<u128>, now: u128)
    requires
        window.len() <= MAX_BURST_REQUESTS,
        !admits(window, now),
    ensures
        after_request(window, now) == window,
{
    lemma_stale_prefix(window, now);
    assert(window.skip(0) =~= window);
}

/// When the oldest remembered stamp has left the window, the request is
/// admitted and that stamp is evicted.
pub proof fn lemma_expired_front_is_evicted(window: Seq<u128>, now: u128)
    requires
        0 < window.len() <= MAX_BURST_REQUESTS,
        expired(window[0], now),
    ensures
        admits(window, now),
        stale_prefix(window, now) >= 1,
        after_request(window, now).len() <= window.len(),
        after_request(window, now).last() == now,
{
    lemma_stale_prefix(window, now);
}

/// Whether the stamps of a window are in the order of time.
pub open spec fn ordered(window: Seq<u128>) -> bool {
    forall|i: int, j: int| 0 <= i <= j < window.len() ==> window[i] <= window[j]
}

/// On a clock that never runs backwards the window stays in the order of
/// time, and what a request leaves of it holds no stamp that has left the
/// window: pruning the front has pruned them all.
pub proof fn lemma_ordered_window(window: Seq<u128>, now: u128)
    requires
        ordered(window),
        window.len() > 0 ==> window.last() <= now,
    ensures
        ordered(after_request(window, now)),
        forall|i: int|
            0 <= i < pruned(window, now).len() ==> !expired(#[trigger] pruned(window, now)[i], now),
{
    lemma_stale_prefix(window, now);
    let kept = pruned(window, now);
    let first = stale_prefix(window, now) as int;
    assert forall|i: int| 0 <= i < kept.len() implies !expired(#[trigger] kept[i], now) by {
        assert(kept[i] == window[first + i]);
        assert(window[first] <= window[first + i]);
    }
    let after = after_request(window, now);
    assert forall|i: int, j: int| 0 <= i <= j < after.len() implies after[i] <= after[j] by {
        if j < kept.len() {
            assert(after[i] == window[first + i]);
            assert(after[j] == window[first + j]);
        } else if i < kept.len() {
            assert(after[i] == window[first + i]);
            assert(window[first + i] <= window.last());
        }
    }
}

/// A window that holds `n` stamps, all taken at `at`.
pub open spec fn burst(n: nat, at: u128) -> Seq<u128> {
    Seq::new(n, |i: int| at)
}

/// Of a burst taken at one time, either every stamp has left the window or
/// none has.
proof fn lemma_stale_prefix_of_burst(n: nat, at: u128, now: u128)
    ensures
        stale_prefix(burst(n, at), now) == if expired(at, now) {
            n
        } else {
            0
        },
    decreases n,
{
    if n > 0 && expired(at, now) {
        assert(burst(n, at).drop_first() =~= burst((n - 1) as nat, at));
        lemma_stale_prefix_of_burst((n - 1) as nat, at, now);
    }
}

/// Starting from an empty window, the operations of one full burst at one
/// time are admitted one after the other, and the next operation at that
/// time is rejected and leaves the window as it is. An operation that comes
/// more than the window's length after the burst is admitted again and
/// evicts the burst, its oldest stamp included.
pub proof fn lemma_burst_and_recovery(at: u128, k: nat, later: u128)
    requires
        k < MAX_BURST_REQUESTS,
        later > at + RATE_LIMIT_WINDOW,
    ensures
        admits(burst(k, at), at),
        after_request(burst(k, at), at) == burst(k + 1, at),
        !admits(burst(MAX_BURST_REQUESTS as nat, at), at),
        after_request(burst(MAX_BURST_REQUESTS as nat, at), at) == burst(
            MAX_BURST_REQUESTS as nat,
            at,
        ),
        admits(burst(MAX_BURST_REQUESTS as nat, at), later),
        after_request(burst(MAX_BURST_REQUESTS as nat, at), later) == seq![later],
{
    let full = burst(MAX_BURST_REQUESTS as nat, at);
    lemma_stale_prefix_of_burst(k, at, at);
    lemma_stale_prefix_of_burst(MAX_BURST_REQUESTS as nat, at, at);
    lemma_stale_prefix_of_burst(MAX_BURST_REQUESTS as nat, at, later);
    assert(burst(k, at).skip(0) =~= burst(k, at));
    assert(burst(k, at).push(at) =~= burst(k + 1, at));
    assert(full.skip(0) =~= full);
    assert(full.skip(MAX_BURST_REQUESTS as int).push(later) =~= seq![later]);
}

/// The admitted operations that are remembered, oldest first.
pub struct RateLimiter {
    history: VecDeque<u128>,
}

impl View for RateLimiter {
    type V = Seq<u128>;

    closed spec fn view(&self) -> Seq<u128> {
        self.history@
    }
}

impl RateLimiter {
    /// A limiter never remembers more than one full burst.
    pub open spec fn wf(&self) -> bool {
        self@.len() <= MAX_BURST_REQUESTS
    }

    /// A limiter that remembers nothing.
    pub fn new() -> (limiter: RateLimiter)
        ensures
            limiter@ == Seq::<u128>::empty(),
            limiter.wf(),
    {
        RateLimiter { history: VecDeque::with_capacity(MAX_BURST_REQUESTS) }
    }

    /// Number of operations remembered.
    pub fn len(&self) -> (n: usize)
        ensures
            n == self@.len(),
    {
        self.history.len()
    }

    /// Decides an operation at `now`. The stale front of the window is
    /// dropped; if a full burst is still inside, the operation is rejected
    /// and nothing is recorded, else `now` is recorded and the operation is
    /// admitted.
    pub fn admit_at(&mut self, now: u128) -> (admitted: bool)
        requires
            old(self).wf(),
        ensures
            admitted == admits(old(self)@, now),
            final(self)@ == after_request(old(self)@, now),
            !admitted ==> final(self)@ == old(self)@,
            final(self).wf(),
    {
        let ghost before = self.history@;
        let ghost mut dropped: nat = 0;
        while self.history.len() > 0 && now > self.history[0] && now - self.history[0]
            > RATE_LIMIT_WINDOW
            invariant
                dropped <= before.len(),
                self.history@ == before.skip(dropped as int),
                stale_prefix(before, now) == dropped + stale_prefix(self.history@, now),
            decreases self.history@.len(),
        {
            proof {
                assert(self.history@.drop_first() == before.skip(dropped as int + 1));
                dropped = dropped + 1;
            }
            self.history.pop_front();
        }
        proof {
            lemma_stale_prefix(before, now);
        }
        if self.history.len() >= MAX_BURST_REQUESTS {
            return false;
        }
        self.history.push_back(now);
        true
    }
}

} // verus!
