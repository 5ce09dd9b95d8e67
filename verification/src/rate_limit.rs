//! A per-key sliding-window rate limiter shared across concurrent requests.
//!
//! Each key (a client address or a target email) owns a window of attempt
//! timestamps. A check first evicts timestamps older than the window, then
//! compares the surviving count against the threshold: at the threshold the
//! attempt is rejected with a retry-after hint and nothing is recorded,
//! under it the attempt is recorded. Pruning happens before the threshold
//! test, so an attempt arriving exactly when the oldest entry ages out is
//! admitted.
//!
//! The windows live in a concurrent map with per-entry locking. The checking
//! methods take the limiter exclusively — a contract needs exclusive access
//! to say how state changes — so a boundary serializes the brief
//! check-and-record step itself, keeping anything expensive outside that
//! section; checks on one key are linearizable, and the contracts here
//! describe one such linearized step.

use vstd::prelude::*;

verus! {

#[verifier::external_type_specification]
#[verifier::external_body]
#[verifier::reject_recursive_types(K)]
#[verifier::reject_recursive_types(V)]
#[verifier::reject_recursive_types(S)]
pub struct ExDashMap<K, V, S>(dashmap::DashMap<K, V, S>);

/// What the concurrent map holds: the window of attempt timestamps recorded
/// for each key.
pub uninterp spec fn attempts_of(m: dashmap::DashMap<String, Vec<u64>>) -> Map<Seq<char>, Seq<u64>>;

/// Whether the map holds no windows at all.
pub open spec fn no_attempts(m: dashmap::DashMap<String, Vec<u64>>) -> bool {
    attempts_of(m) =~= Map::<Seq<char>, Seq<u64>>::empty()
}

/// A recorded attempt at `t` still counts at `now` if it is less than
/// `window` seconds old.
pub open spec fn in_window(t: u64, now: u64, window: u64) -> bool {
    now < t + window
}

/// The attempts of a window that still count at `now`, in their recorded
/// order.
pub open spec fn pruned(times: Seq<u64>, now: u64, window: u64) -> Seq<u64>
    decreases times.len(),
{
    if times.len() == 0 {
        Seq::empty()
    } else {
        let rest = pruned(times.drop_last(), now, window);
        if in_window(times.last(), now, window) {
            rest.push(times.last())
        } else {
            rest
        }
    }
}

/// Whether a check at `now` against the window `times` admits the attempt.
pub open spec fn admits(times: Seq<u64>, now: u64, max_attempts: usize, window: u64) -> bool {
    pruned(times, now, window).len() < max_attempts
}

/// The retry-after hint when `oldest` is the oldest attempt still counting:
/// the seconds left until it ages out of the window.
pub open spec fn retry_after(oldest: u64, now: u64, window: u64) -> u64 {
    if oldest <= now && now - oldest < window {
        (window - (now - oldest)) as u64
    } else if now < oldest {
        window
    } else {
        0
    }
}

/// The window that a keyspace holds for `key`: absent keys hold the empty
/// window.
pub open spec fn window_of(state: Map<Seq<char>, Seq<u64>>, key: Seq<char>) -> Seq<u64> {
    if state.contains_key(key) {
        state[key]
    } else {
        Seq::empty()
    }
}

/// The attempts standing against `key` at `now`: its recorded window,
/// pruned.
pub open spec fn standing(
    state: Map<Seq<char>, Seq<u64>>,
    key: Seq<char>,
    now: u64,
    window: u64,
) -> Seq<u64> {
    pruned(window_of(state, key), now, window)
}

/// Every surviving timestamp of a pruned window still counts at `now`.
pub proof fn lemma_pruned_in_window(times: Seq<u64>, now: u64, window: u64)
    ensures
        forall|i: int|
            0 <= i < pruned(times, now, window).len() ==> in_window(
                #[trigger] pruned(times, now, window)[i],
                now,
                window,
            ),
    decreases times.len(),
{
    if times.len() > 0 {
        lemma_pruned_in_window(times.drop_last(), now, window);
        let rest = pruned(times.drop_last(), now, window);
        assert forall|i: int|
            0 <= i < pruned(times, now, window).len() implies in_window(
            pruned(times, now, window)[i],
            now,
            window,
        ) by {
            if in_window(times.last(), now, window) {
                assert(pruned(times, now, window) == rest.push(times.last()));
                if i < rest.len() {
                    assert(pruned(times, now, window)[i] == rest[i]);
                }
            } else {
                assert(pruned(times, now, window) == rest);
            }
        }
    }
}

/// Pruning a window that grew by one attempt keeps the pruned prefix and
/// appends the attempt exactly when it still counts.
pub proof fn lemma_pruned_push(times: Seq<u64>, t: u64, now: u64, window: u64)
    ensures
        pruned(times.push(t), now, window) == if in_window(t, now, window) {
            pruned(times, now, window).push(t)
        } else {
            pruned(times, now, window)
        },
{
    assert(times.push(t).drop_last() =~= times);
}

/// Pruning is idempotent: a window that survived one pruning at `now` is
/// unchanged by another at the same instant.
pub proof fn lemma_pruned_idempotent(times: Seq<u64>, now: u64, window: u64)
    ensures
        pruned(pruned(times, now, window), now, window) == pruned(times, now, window),
    decreases times.len(),
{
    if times.len() > 0 {
        lemma_pruned_idempotent(times.drop_last(), now, window);
        if in_window(times.last(), now, window) {
            lemma_pruned_push(pruned(times.drop_last(), now, window), times.last(), now, window);
        }
    }
}

/// A window whose every attempt has aged out prunes to nothing.
pub proof fn lemma_pruned_all_stale(times: Seq<u64>, now: u64, window: u64)
    requires
        forall|i: int| 0 <= i < times.len() ==> !in_window(#[trigger] times[i], now, window),
    ensures
        pruned(times, now, window) == Seq::<u64>::empty(),
    decreases times.len(),
{
    if times.len() > 0 {
        assert(forall|i: int|
            0 <= i < times.drop_last().len() ==> !in_window(
                #[trigger] times.drop_last()[i],
                now,
                window,
            ));
        lemma_pruned_all_stale(times.drop_last(), now, window);
    }
}

/// Whether the attempt at `t` still counts at `now`.
fn still_counts(t: u64, now: u64, window: u64) -> (b: bool)
    ensures
        b == in_window(t, now, window),
{
    t > now || now - t < window
}

/// Evict from one key's window every attempt that no longer counts at `now`;
/// report whether any remain.
pub fn prune_keep(times: &mut Vec<u64>, now: u64, window: u64) -> (nonempty: bool)
    ensures
        final(times)@ == pruned(old(times)@, now, window),
        nonempty == (final(times)@.len() > 0),
{
    let ghost all = old(times)@;
    let n = times.len();
    let mut kept: Vec<u64> = Vec::new();
    let mut i: usize = 0;
    while i < n
        invariant
            n == all.len(),
            times@ == all,
            0 <= i <= n,
            kept@ == pruned(all.subrange(0, i as int), now, window),
        decreases n - i,
    {
        let t = times[i];
        proof {
            assert(all.subrange(0, i + 1) =~= all.subrange(0, i as int).push(all[i as int]));
            lemma_pruned_push(all.subrange(0, i as int), all[i as int], now, window);
        }
        if still_counts(t, now, window) {
            kept.push(t);
        }
        i = i + 1;
    }
    proof {
        assert(all.subrange(0, n as int) =~= all);
    }
    let nonempty = kept.len() > 0;
    *times = kept;
    nonempty
}

/// One sliding-window check against a single key's window: prune, test the
/// surviving count against `max_attempts`, and either record the attempt or
/// reject it with the seconds left until the oldest survivor ages out.
pub fn check_window(times: &mut Vec<u64>, now: u64, max_attempts: usize, window: u64) -> (r: Result<
    (),
    u64,
>)
    requires
        max_attempts >= 1,
    ensures
        r is Ok <==> admits(old(times)@, now, max_attempts, window),
        r is Ok ==> final(times)@ == pruned(old(times)@, now, window).push(now),
        r matches Err(s) ==> final(times)@ == pruned(old(times)@, now, window) && s == retry_after(
            pruned(old(times)@, now, window)[0],
            now,
            window,
        ) && (window >= 1 ==> s >= 1),
{
    prune_keep(times, now, window);
    if times.len() >= max_attempts {
        let oldest = times[0];
        proof {
            lemma_pruned_in_window(old(times)@, now, window);
        }
        let elapsed = if now >= oldest {
            now - oldest
        } else {
            0
        };
        let hint = if elapsed < window {
            window - elapsed
        } else {
            0
        };
        Err(hint)
    } else {
        times.push(now);
        Ok(())
    }
}

/// The shared limiter: two independent keyspaces — one keyed by client
/// address, one by target email — with their thresholds and the common
/// window length in seconds.
pub struct RateLimiter {
    pub ip_attempts: dashmap::DashMap<String, Vec<u64>>,
    pub email_attempts: dashmap::DashMap<String, Vec<u64>>,
    pub max_attempts_per_ip: usize,
    pub max_attempts_per_email: usize,
    pub window_seconds: u64,
}

/// Relies on `dashmap::DashMap::new`: a fresh map with no entries.
#[verifier::external_body]
fn attempts_new() -> (m: dashmap::DashMap<String, Vec<u64>>)
    ensures
        no_attempts(m),
{
    dashmap::DashMap::new()
}

/// Relies on `dashmap::DashMap::get`: the window recorded for `key`, if any,
/// copied out of the entry.
#[verifier::external_body]
fn attempts_get(m: &dashmap::DashMap<String, Vec<u64>>, key: &str) -> (r: Option<Vec<u64>>)
    ensures
        r is Some <==> attempts_of(*m).contains_key(key@),
        r matches Some(v) ==> v@ == attempts_of(*m)[key@],
{
    m.get(key).map(|e| e.value().clone())
}

/// Relies on `dashmap::DashMap::insert`: the map afterwards holds `times`
/// for `key` and is otherwise unchanged.
#[verifier::external_body]
fn attempts_set(m: &mut dashmap::DashMap<String, Vec<u64>>, key: &str, times: Vec<u64>)
    ensures
        attempts_of(*final(m)) == attempts_of(*old(m)).insert(key@, times@),
{
    m.insert(key.to_owned(), times);
}

/// Relies on `dashmap::DashMap::remove`: the map afterwards has no entry for
/// `key` and is otherwise unchanged.
#[verifier::external_body]
fn attempts_remove(m: &mut dashmap::DashMap<String, Vec<u64>>, key: &str)
    ensures
        attempts_of(*final(m)) == attempts_of(*old(m)).remove(key@),
{
    m.remove(key);
}

/// Relies on `dashmap::DashMap::retain`, handing it the verified
/// `prune_keep`: every window is pruned to `now`, and keys whose window
/// empties are dropped. Iteration order plays no part in this contract.
#[verifier::external_body]
fn attempts_prune_all(m: &mut dashmap::DashMap<String, Vec<u64>>, now: u64, window: u64)
    ensures
        forall|k: Seq<char>|
            attempts_of(*final(m)).contains_key(k) <==> (attempts_of(*old(m)).contains_key(k) && pruned(
                #[trigger] window_of(attempts_of(*old(m)), k),
                now,
                window,
            ).len() > 0),
        forall|k: Seq<char>|
            attempts_of(*final(m)).contains_key(k) ==> #[trigger] attempts_of(*final(m))[k] == pruned(
                window_of(attempts_of(*old(m)), k),
                now,
                window,
            ),
{
    m.retain(|_, v| prune_keep(v, now, window));
}

impl RateLimiter {
    /// The per-address keyspace: each client address's window.
    pub open spec fn ip_state(&self) -> Map<Seq<char>, Seq<u64>> {
        attempts_of(self.ip_attempts)
    }

    /// The per-email keyspace: each target email's window.
    pub open spec fn email_state(&self) -> Map<Seq<char>, Seq<u64>> {
        attempts_of(self.email_attempts)
    }

    /// A usable limiter allows at least one attempt per keyspace.
    pub open spec fn wf(&self) -> bool {
        self.max_attempts_per_ip >= 1 && self.max_attempts_per_email >= 1
    }

    /// Both limiters keep their configuration across every operation.
    pub open spec fn same_config(&self, other: &RateLimiter) -> bool {
        self.max_attempts_per_ip == other.max_attempts_per_ip
            && self.max_attempts_per_email == other.max_attempts_per_email
            && self.window_seconds == other.window_seconds
    }

    /// A fresh limiter with the given thresholds and window, tracking
    /// nothing yet.
    pub fn new(max_attempts_per_ip: usize, max_attempts_per_email: usize, window_seconds: u64) -> (l:
        RateLimiter)
        requires
            max_attempts_per_ip >= 1,
            max_attempts_per_email >= 1,
        ensures
            l.wf(),
            l.ip_state() == Map::<Seq<char>, Seq<u64>>::empty(),
            l.email_state() == Map::<Seq<char>, Seq<u64>>::empty(),
            l.max_attempts_per_ip == max_attempts_per_ip,
            l.max_attempts_per_email == max_attempts_per_email,
            l.window_seconds == window_seconds,
    {
        RateLimiter {
            ip_attempts: attempts_new(),
            email_attempts: attempts_new(),
            max_attempts_per_ip,
            max_attempts_per_email,
            window_seconds,
        }
    }

    /// Gate one attempt from client address `ip` at instant `now`.
    pub fn check_ip_limit(&mut self, ip: &str, now: u64) -> (r: Result<(), u64>)
        requires
            old(self).wf(),
        ensures
            final(self).wf() && final(self).same_config(old(self)),
            final(self).email_state() == old(self).email_state(),
            r is Ok <==> admits(
                window_of(old(self).ip_state(), ip@),
                now,
                old(self).max_attempts_per_ip,
                old(self).window_seconds,
            ),
            r is Ok ==> final(self).ip_state() == old(self).ip_state().insert(
                ip@,
                pruned(window_of(old(self).ip_state(), ip@), now, old(self).window_seconds).push(
                    now,
                ),
            ),
            r matches Err(s) ==> final(self).ip_state() == old(self).ip_state().insert(
                ip@,
                pruned(window_of(old(self).ip_state(), ip@), now, old(self).window_seconds),
            ) && s == retry_after(
                pruned(window_of(old(self).ip_state(), ip@), now, old(self).window_seconds)[0],
                now,
                old(self).window_seconds,
            ) && (old(self).window_seconds >= 1 ==> s >= 1),
    {
        let max = self.max_attempts_per_ip;
        let window = self.window_seconds;
        let mut times = match attempts_get(&self.ip_attempts, ip) {
            Some(v) => v,
            None => Vec::new(),
        };
        let r = check_window(&mut times, now, max, window);
        attempts_set(&mut self.ip_attempts, ip, times);
        r
    }

    /// Gate one attempt against target email `email` at instant `now`.
    pub fn check_email_limit(&mut self, email: &str, now: u64) -> (r: Result<(), u64>)
        requires
            old(self).wf(),
        ensures
            final(self).wf() && final(self).same_config(old(self)),
            final(self).ip_state() == old(self).ip_state(),
            r is Ok <==> admits(
                window_of(old(self).email_state(), email@),
                now,
                old(self).max_attempts_per_email,
                old(self).window_seconds,
            ),
            r is Ok ==> final(self).email_state() == old(self).email_state().insert(
                email@,
                pruned(
                    window_of(old(self).email_state(), email@),
                    now,
                    old(self).window_seconds,
                ).push(now),
            ),
            r matches Err(s) ==> final(self).email_state() == old(self).email_state().insert(
                email@,
                pruned(window_of(old(self).email_state(), email@), now, old(self).window_seconds),
            ) && s == retry_after(
                pruned(
                    window_of(old(self).email_state(), email@),
                    now,
                    old(self).window_seconds,
                )[0],
                now,
                old(self).window_seconds,
            ) && (old(self).window_seconds >= 1 ==> s >= 1),
    {
        let max = self.max_attempts_per_email;
        let window = self.window_seconds;
        let mut times = match attempts_get(&self.email_attempts, email) {
            Some(v) => v,
            None => Vec::new(),
        };
        let r = check_window(&mut times, now, max, window);
        attempts_set(&mut self.email_attempts, email, times);
        r
    }

    /// Unconditionally clear a target email's window, so that a legitimate
    /// user's own failed attempts stop counting against them after a
    /// successful login.
    pub fn reset_email_limit(&mut self, email: &str)
        ensures
            final(self).wf() == old(self).wf() && final(self).same_config(old(self)),
            final(self).ip_state() == old(self).ip_state(),
            final(self).email_state() == old(self).email_state().remove(email@),
    {
        attempts_remove(&mut self.email_attempts, email);
    }

    /// Recording already happens inside `check_email_limit`; this entry
    /// point stands for callers that want to name the failure explicitly.
    pub fn record_failed_attempt(&self, _email: &str) {
    }

    /// Maintenance sweep: prune every key's window to `now` in both
    /// keyspaces and drop the keys left empty, bounding memory growth from
    /// one-off keys. Runs decoupled from request handling.
    pub fn cleanup(&mut self, now: u64)
        ensures
            final(self).wf() == old(self).wf() && final(self).same_config(old(self)),
            forall|k: Seq<char>|
                final(self).ip_state().contains_key(k) <==> (old(self).ip_state().contains_key(k)
                    && pruned(
                    #[trigger] window_of(old(self).ip_state(), k),
                    now,
                    old(self).window_seconds,
                ).len() > 0),
            forall|k: Seq<char>|
                final(self).ip_state().contains_key(k) ==> #[trigger] final(self).ip_state()[k] == pruned(
                    window_of(old(self).ip_state(), k),
                    now,
                    old(self).window_seconds,
                ),
            forall|k: Seq<char>|
                final(self).email_state().contains_key(k) <==> (old(self).email_state().contains_key(k)
                    && pruned(
                    #[trigger] window_of(old(self).email_state(), k),
                    now,
                    old(self).window_seconds,
                ).len() > 0),
            forall|k: Seq<char>|
                final(self).email_state().contains_key(k) ==> #[trigger] final(self).email_state()[k] == pruned(
                    window_of(old(self).email_state(), k),
                    now,
                    old(self).window_seconds,
                ),
    {
        let window = self.window_seconds;
        let ghost old_ip = attempts_of(self.ip_attempts);
        let ghost old_email = attempts_of(self.email_attempts);
        attempts_prune_all(&mut self.ip_attempts, now, window);
        attempts_prune_all(&mut self.email_attempts, now, window);
        proof {
            assert forall|k: Seq<char>| #![all_triggers]
                attempts_of(self.ip_attempts).contains_key(k) <==> (old_ip.contains_key(k)
                    && pruned(window_of(old_ip, k), now, window).len() > 0) by {
                assert(window_of(old_ip, k) == window_of(old_ip, k));
            }
            assert forall|k: Seq<char>| #![all_triggers]
                attempts_of(self.email_attempts).contains_key(k) <==> (old_email.contains_key(k)
                    && pruned(window_of(old_email, k), now, window).len() > 0) by {
                assert(window_of(old_email, k) == window_of(old_email, k));
            }
        }
    }
}

/// Law: resetting a key grants the next attempt. After a key's window is
/// cleared — or for a key never seen — a check against any keyspace that
/// allows at least one attempt admits it.
pub proof fn lemma_reset_admits(
    state: Map<Seq<char>, Seq<u64>>,
    key: Seq<char>,
    now: u64,
    max_attempts: usize,
    window: u64,
)
    requires
        !state.contains_key(key),
        max_attempts >= 1,
    ensures
        admits(window_of(state, key), now, max_attempts, window),
{
}

/// Law: the window slides. Once every recorded attempt lies a full window or
/// more in the past, a check is admitted again.
pub proof fn lemma_stale_window_admits(times: Seq<u64>, now: u64, max_attempts: usize, window: u64)
    requires
        max_attempts >= 1,
        forall|i: int| 0 <= i < times.len() ==> now >= #[trigger] times[i] + window,
    ensures
        admits(times, now, max_attempts, window),
{
    lemma_pruned_all_stale(times, now, window);
}

/// The instants of a window never decrease in recorded order.
pub open spec fn ascending(times: Seq<u64>) -> bool {
    forall|i: int, j: int|
        #![trigger times[i], times[j]]
        0 <= i < j < times.len() ==> times[i] <= times[j]
}

/// Every survivor of a pruning was recorded before it.
pub proof fn lemma_pruned_members(times: Seq<u64>, now: u64, window: u64)
    ensures
        forall|k: int|
            0 <= k < pruned(times, now, window).len() ==> times.contains(
                #[trigger] pruned(times, now, window)[k],
            ),
        pruned(times, now, window).len() <= times.len(),
    decreases times.len(),
{
    if times.len() > 0 {
        lemma_pruned_members(times.drop_last(), now, window);
        let rest = pruned(times.drop_last(), now, window);
        assert forall|k: int| 0 <= k < pruned(times, now, window).len() implies times.contains(
            pruned(times, now, window)[k],
        ) by {
            if k < rest.len() {
                assert(pruned(times, now, window)[k] == rest[k]);
                assert(times.drop_last().contains(rest[k]));
                let m = choose|m: int|
                    0 <= m < times.drop_last().len() && times.drop_last()[m] == rest[k];
                assert(times[m] == rest[k]);
            } else {
                assert(pruned(times, now, window)[k] == times.last());
                assert(times[times.len() - 1] == times.last());
            }
        }
    }
}

/// Pruning keeps the recorded order.
pub proof fn lemma_pruned_ascending(times: Seq<u64>, now: u64, window: u64)
    requires
        ascending(times),
    ensures
        ascending(pruned(times, now, window)),
    decreases times.len(),
{
    if times.len() > 0 {
        assert(ascending(times.drop_last())) by {
            assert forall|i: int, j: int|
                #![trigger times.drop_last()[i], times.drop_last()[j]]
                0 <= i < j < times.drop_last().len() implies times.drop_last()[i]
                <= times.drop_last()[j] by {
                assert(times.drop_last()[i] == times[i]);
                assert(times.drop_last()[j] == times[j]);
            }
        }
        lemma_pruned_ascending(times.drop_last(), now, window);
        lemma_pruned_members(times.drop_last(), now, window);
        let rest = pruned(times.drop_last(), now, window);
        let out = pruned(times, now, window);
        if in_window(times.last(), now, window) {
            assert(out == rest.push(times.last()));
            assert forall|i: int, j: int|
                #![trigger out[i], out[j]]
                0 <= i < j < out.len() implies out[i] <= out[j] by {
                if j < rest.len() {
                    assert(out[i] == rest[i]);
                    assert(out[j] == rest[j]);
                } else {
                    assert(out[j] == times.last());
                    assert(out[i] == rest[i]);
                    assert(times.drop_last().contains(rest[i]));
                    let m = choose|m: int|
                        0 <= m < times.drop_last().len() && times.drop_last()[m] == rest[i];
                    assert(times[m] == rest[i]);
                    assert(times[m] <= times[times.len() - 1]);
                }
            }
        }
    }
}

/// Law: the attempt-window representation keeps its shape under a monotonic
/// clock. If a key's window is ascending, every instant in it is at most the
/// check instant, and its count is at most the threshold, then the window a
/// `check_window` step leaves behind — pruned, plus the new instant exactly
/// when admitted — is again ascending, bounded by the check instant, and
/// holds at most the threshold. Order is owed only to a monotonic clock: a
/// caller that hands a smaller instant later breaks it, where the reference
/// monotonic clock could not.
pub proof fn lemma_window_shape_preserved(
    times: Seq<u64>,
    now: u64,
    max_attempts: usize,
    window: u64,
)
    requires
        ascending(times),
        forall|i: int| 0 <= i < times.len() ==> #[trigger] times[i] <= now,
        times.len() <= max_attempts,
    ensures
        ({
            let next = if admits(times, now, max_attempts, window) {
                pruned(times, now, window).push(now)
            } else {
                pruned(times, now, window)
            };
            &&& ascending(next)
            &&& next.len() <= max_attempts
            &&& forall|i: int| 0 <= i < next.len() ==> #[trigger] next[i] <= now
        }),
{
    lemma_pruned_members(times, now, window);
    lemma_pruned_ascending(times, now, window);
    let p = pruned(times, now, window);
    assert forall|i: int| 0 <= i < p.len() implies #[trigger] p[i] <= now by {
        assert(times.contains(p[i]));
        let m = choose|m: int| 0 <= m < times.len() && times[m] == p[i];
        assert(times[m] <= now);
    }
    if admits(times, now, max_attempts, window) {
        let next = p.push(now);
        assert forall|i: int, j: int|
            #![trigger next[i], next[j]]
            0 <= i < j < next.len() implies next[i] <= next[j] by {
            if j < p.len() {
                assert(next[i] == p[i]);
                assert(next[j] == p[j]);
            } else {
                assert(next[j] == now);
                assert(next[i] == p[i]);
            }
        }
    }
}

/// How many of `n` back-to-back checks at one instant are admitted, each
/// one step of the `check_window` contract: prune, then record exactly when
/// the surviving count is under the threshold.
pub open spec fn admitted_during_checks(
    times: Seq<u64>,
    n: nat,
    now: u64,
    max_attempts: usize,
    window: u64,
) -> nat
    decreases n,
{
    if n == 0 {
        0nat
    } else {
        let p = pruned(times, now, window);
        if p.len() < max_attempts {
            1nat + admitted_during_checks(p.push(now), (n - 1) as nat, now, max_attempts, window)
        } else {
            admitted_during_checks(p, (n - 1) as nat, now, max_attempts, window)
        }
    }
}

/// The admission count over a window that pruning leaves unchanged.
proof fn lemma_admissions_from_stable(
    times: Seq<u64>,
    n: nat,
    now: u64,
    max_attempts: usize,
    window: u64,
)
    requires
        window >= 1,
        pruned(times, now, window) == times,
    ensures
        admitted_during_checks(times, n, now, max_attempts, window) == if times.len()
            >= max_attempts {
            0nat
        } else if n <= max_attempts - times.len() {
            n
        } else {
            (max_attempts - times.len()) as nat
        },
    decreases n,
{
    if n > 0 {
        if times.len() < max_attempts {
            lemma_pruned_push(times, now, now, window);
            lemma_admissions_from_stable(times.push(now), (n - 1) as nat, now, max_attempts, window);
        } else {
            lemma_admissions_from_stable(times, (n - 1) as nat, now, max_attempts, window);
        }
    }
}

/// Law: checks on one key are linearizable, and each is exactly one
/// `check_window` step, so a burst of `n` simultaneous checks against one
/// key admits exactly the free slots — the threshold minus the attempts
/// already standing in the window, and no more than `n` — and rejects the
/// rest.
pub proof fn lemma_burst_admits_exactly(
    times: Seq<u64>,
    n: nat,
    now: u64,
    max_attempts: usize,
    window: u64,
)
    requires
        window >= 1,
    ensures
        ({
            let standing = pruned(times, now, window).len();
            admitted_during_checks(times, n, now, max_attempts, window) == if standing
                >= max_attempts {
                0nat
            } else if n <= max_attempts - standing {
                n
            } else {
                (max_attempts - standing) as nat
            }
        }),
{
    if n > 0 {
        let p = pruned(times, now, window);
        lemma_pruned_idempotent(times, now, window);
        if p.len() < max_attempts {
            lemma_pruned_push(p, now, now, window);
            lemma_admissions_from_stable(p.push(now), (n - 1) as nat, now, max_attempts, window);
        } else {
            lemma_admissions_from_stable(p, (n - 1) as nat, now, max_attempts, window);
        }
    }
}

} // verus!
