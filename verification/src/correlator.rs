//! The request correlator.
//!
//! Callers register the id of an outstanding request; the dispatcher hands
//! every inbound frame that carries an id to [`Requests::intercept`], which
//! removes the matching entry and yields a [`Delivery`] for its waiter.
//! Because resolving an id removes its entry, each id is delivered at most
//! once. Registration sweeps entries older than the expiry horizon and
//! rejects an id that is still pending, so an unexpired waiter is never
//! silently dropped.

use vstd::prelude::*;

use crate::error::Error;
use crate::response::Response;
use crate::EXPIRY_HORIZON_SECS;

verus! {

/// One outstanding request: its caller-chosen id and the second at which it
/// was registered. The waiter itself (the reply channel) lives outside the
/// library, keyed by the id.
#[derive(Clone, Copy, Debug, PartialEq, Eq, Structural)]
pub struct PendingRequest {
    pub id: i64,
    pub enqueued_at: i64,
}

/// An instruction to hand `response` to the waiter registered under `id`.
/// Emitted at most once per registration of an id.
#[derive(Clone, Debug, PartialEq, Eq)]
pub struct Delivery {
    pub id: i64,
    pub response: Response,
}

/// Whether some entry of `s` has the id `id`.
pub open spec fn pending(s: Seq<PendingRequest>, id: int) -> bool {
    exists|i: int| 0 <= i < s.len() && s[i].id == id
}

/// Whether some entry of `s` has the id `id` and the registration time `t`.
pub open spec fn has_entry(s: Seq<PendingRequest>, id: int, t: int) -> bool {
    exists|i: int| 0 <= i < s.len() && s[i].id == id && s[i].enqueued_at == t
}

/// The index of the entry with id `id`, when one exists.
pub open spec fn idx_of(s: Seq<PendingRequest>, id: int) -> int {
    choose|i: int| 0 <= i < s.len() && s[i].id == id
}

/// Whether an entry registered at second `t` is still fresh at second `now`.
pub open spec fn fresh_at(t: int, now: int) -> bool {
    now < t + EXPIRY_HORIZON_SECS
}

/// The table after sweeping at second `now`: exactly the entries still fresh,
/// in their original order.
pub open spec fn spec_sweep(s: Seq<PendingRequest>, now: int) -> Seq<PendingRequest>
    decreases s.len(),
{
    if s.len() == 0 {
        s
    } else {
        let rest = spec_sweep(s.drop_last(), now);
        if fresh_at(s.last().enqueued_at as int, now) {
            rest.push(s.last())
        } else {
            rest
        }
    }
}

/// The table after resolving `id`: the entry with that id is removed, and a
/// table without the id is left unchanged.
pub open spec fn spec_resolve(s: Seq<PendingRequest>, id: int) -> Seq<PendingRequest> {
    if pending(s, id) {
        s.remove(idx_of(s, id))
    } else {
        s
    }
}

/// No two entries of `s` share an id.
pub open spec fn ids_unique(s: Seq<PendingRequest>) -> bool {
    forall|i: int, j: int| 0 <= i < j < s.len() ==> s[i].id != s[j].id
}

/// Every registration time is a plausible second: nonnegative and far enough
/// from the upper bound that adding the expiry horizon cannot overflow.
pub open spec fn times_valid(s: Seq<PendingRequest>) -> bool {
    forall|i: int| 0 <= i < s.len() ==> 0 <= #[trigger] s[i].enqueued_at <= i64::MAX
        - EXPIRY_HORIZON_SECS
}

/// The table of outstanding requests, matched by correlation id.
#[derive(Debug)]
pub struct Requests {
    entries: Vec<PendingRequest>,
}

impl View for Requests {
    type V = Seq<PendingRequest>;

    closed spec fn view(&self) -> Seq<PendingRequest> {
        self.entries@
    }
}

impl Requests {
    /// The table's invariant: ids are unique and times are plausible seconds.
    pub open spec fn wf(&self) -> bool {
        ids_unique(self@) && times_valid(self@)
    }

    /// An empty table.
    pub fn new() -> (r: Self)
        ensures
            r.wf(),
            r@ == Seq::<PendingRequest>::empty(),
    {
        Requests { entries: Vec::new() }
    }

    /// How many requests are outstanding.
    pub fn len(&self) -> (r: usize)
        ensures
            r == self@.len(),
    {
        self.entries.len()
    }

    /// The index of the entry with id `id`, if the id is pending.
    fn find(&self, id: i64) -> (r: Option<usize>)
        ensures
            match r {
                Some(i) => i < self@.len() && self@[i as int].id == id,
                None => !pending(self@, id as int),
            },
    {
        let mut k: usize = 0;
        while k < self.entries.len()
            invariant
                k <= self.entries.len(),
                forall|i: int| 0 <= i < k ==> self.entries@[i].id != id,
            decreases self.entries.len() - k,
        {
            if self.entries[k].id == id {
                return Some(k);
            }
            k = k + 1;
        }
        None
    }

    /// Deletes all entries registered more than the expiry horizon before
    /// `now`, keeping the rest in order.
    pub fn clear(&mut self, now: i64)
        requires
            old(self).wf(),
        ensures
            final(self).wf(),
            final(self)@ == spec_sweep(old(self)@, now as int),
    {
        let mut kept: Vec<PendingRequest> = Vec::new();
        let mut k: usize = 0;
        proof {
            assert(self.entries@.subrange(0, 0) =~= Seq::<PendingRequest>::empty());
        }
        while k < self.entries.len()
            invariant
                self.wf(),
                k <= self.entries.len(),
                kept@ == spec_sweep(self.entries@.subrange(0, k as int), now as int),
            decreases self.entries.len() - k,
        {
            let e = self.entries[k];
            proof {
                let prefix = self.entries@.subrange(0, k as int);
                let extended = self.entries@.subrange(0, k as int + 1);
                assert(extended.drop_last() =~= prefix);
                assert(extended.last() == e);
            }
            if now < e.enqueued_at + EXPIRY_HORIZON_SECS {
                kept.push(e);
            }
            k = k + 1;
        }
        proof {
            assert(self.entries@.subrange(0, self.entries@.len() as int) =~= self.entries@);
            lemma_sweep_wf(self.entries@, now as int);
        }
        self.entries = kept;
    }

    /// Registers the id of a request issued at second `now`, sweeping stale
    /// entries first. An id still pending after the sweep is rejected, so the
    /// earlier waiter keeps its slot.
    pub fn insert(&mut self, id: i64, now: i64) -> (r: Result<(), Error>)
        requires
            old(self).wf(),
            0 <= now <= i64::MAX - EXPIRY_HORIZON_SECS,
        ensures
            final(self).wf(),
            pending(spec_sweep(old(self)@, now as int), id as int) ==> r
                == Err::<(), Error>(Error::DuplicateId) && final(self)@ == spec_sweep(
                old(self)@,
                now as int,
            ),
            !pending(spec_sweep(old(self)@, now as int), id as int) ==> r
                == Ok::<(), Error>(()) && final(self)@ == spec_sweep(old(self)@, now as int).push(
                PendingRequest { id, enqueued_at: now },
            ),
    {
        self.clear(now);
        match self.find(id) {
            Some(_) => Err(Error::DuplicateId),
            None => {
                proof {
                    lemma_push_wf(self@, id, now);
                }
                self.entries.push(PendingRequest { id, enqueued_at: now });
                Ok(())
            },
        }
    }

    /// Removes and completes the request pending under `id`, yielding the
    /// delivery of `response` to its waiter; hands the response back and
    /// changes nothing when no such id is pending.
    pub fn resolve(&mut self, id: i64, response: Response) -> (r: Result<Delivery, Response>)
        requires
            old(self).wf(),
        ensures
            final(self).wf(),
            final(self)@ == spec_resolve(old(self)@, id as int),
            pending(old(self)@, id as int) ==> r == Ok::<Delivery, Response>(
                Delivery { id, response },
            ),
            !pending(old(self)@, id as int) ==> r == Err::<Delivery, Response>(response)
                && final(self)@ == old(self)@,
    {
        match self.find(id) {
            Some(k) => {
                proof {
                    lemma_idx_agrees(self@, id as int, k as int);
                    lemma_remove_wf(self@, k as int);
                }
                self.entries.remove(k);
                Ok(Delivery { id, response })
            },
            None => Err(response),
        }
    }

    /// Routes one inbound frame by its correlation id: a frame whose id is
    /// pending resolves that request and yields its delivery; a frame without
    /// an id, or with an id nobody awaits, is handed back for the
    /// subscription registry to try.
    pub fn intercept(&mut self, response: Response) -> (r: Result<Delivery, Response>)
        requires
            old(self).wf(),
        ensures
            final(self).wf(),
            match r {
                Ok(d) => response.spec_id() matches Some(i) && pending(old(self)@, i as int) && d
                    == (Delivery { id: i, response }) && final(self)@ == spec_resolve(
                    old(self)@,
                    i as int,
                ),
                Err(res) => res == response && final(self)@ == old(self)@ && !(
                response.spec_id() matches Some(i) && pending(old(self)@, i as int)),
            },
    {
        let id_opt = response.id();
        match id_opt {
            Some(id) => self.resolve(id, response),
            None => Err(response),
        }
    }
}

/// The outcome a caller sees after waiting on its reply slot for the request
/// timeout. `outcome` is what the wait produced: the message a resolve
/// delivered within the window, or nothing. Exactly one result comes out:
/// no delivery means `Timeout`, a delivered server error surfaces as an API
/// failure, and any other delivered message is handed to the caller. A reply
/// that arrives after the window was given up is discarded by the waiter's
/// dead slot, never delivered here.
pub fn await_reply(outcome: Option<Response>) -> (r: Result<Response, Error>)
    ensures
        outcome is None <==> r == Err::<Response, Error>(Error::Timeout),
        match outcome {
            None => r == Err::<Response, Error>(Error::Timeout),
            Some(resp) => match resp {
                Response::Error(e) => r == Err::<Response, Error>(Error::APIResponse(e)),
                _ => r == Ok::<Response, Error>(resp),
            },
        },
{
    match outcome {
        None => Err(Error::Timeout),
        Some(resp) => match resp {
            Response::Error(e) => Err(Error::APIResponse(e)),
            other => Ok(other),
        },
    }
}

impl Default for Requests {
    /// An empty table.
    fn default() -> (r: Self)
        ensures
            r.wf(),
            r@ == Seq::<PendingRequest>::empty(),
    {
        Requests::new()
    }
}

/// An entry of `s.push(e)` is an entry of `s` or is `e` itself.
proof fn lemma_has_entry_push(s: Seq<PendingRequest>, e: PendingRequest, id: int, t: int)
    ensures
        has_entry(s.push(e), id, t) <==> has_entry(s, id, t) || (e.id == id && e.enqueued_at == t),
{
    let p = s.push(e);
    if has_entry(p, id, t) {
        let i = choose|i: int| 0 <= i < p.len() && p[i].id == id && p[i].enqueued_at == t;
        if i < s.len() {
            assert(s[i] == p[i]);
        }
    }
    if has_entry(s, id, t) {
        let i = choose|i: int| 0 <= i < s.len() && s[i].id == id && s[i].enqueued_at == t;
        assert(p[i] == s[i]);
    }
    if e.id == id && e.enqueued_at == t {
        assert(p[s.len() as int] == e);
    }
}

/// The sweep keeps the invariant, and every survivor comes from the table.
proof fn lemma_sweep_wf(s: Seq<PendingRequest>, now: int)
    requires
        ids_unique(s),
        times_valid(s),
    ensures
        ids_unique(spec_sweep(s, now)),
        times_valid(spec_sweep(s, now)),
        forall|j: int| 0 <= j < spec_sweep(s, now).len() ==> s.contains(
            #[trigger] spec_sweep(s, now)[j],
        ),
    decreases s.len(),
{
    if s.len() == 0 {
    } else {
        let last = s.last();
        let front = s.drop_last();
        assert(forall|i: int| 0 <= i < front.len() ==> front[i] == s[i]);
        lemma_sweep_wf(front, now);
        let rest = spec_sweep(front, now);
        assert forall|j: int| 0 <= j < rest.len() implies s.contains(rest[j]) by {
            assert(front.contains(rest[j]));
            let i = choose|i: int| 0 <= i < front.len() && front[i] == rest[j];
            assert(s[i] == rest[j]);
        }
        if fresh_at(last.enqueued_at as int, now) {
            let out = rest.push(last);
            assert(spec_sweep(s, now) == out);
            assert forall|j1: int, j2: int| 0 <= j1 < j2 < out.len() implies out[j1].id
                != out[j2].id by {
                if j2 == rest.len() {
                    assert(out[j2] == last);
                    assert(front.contains(rest[j1]));
                    let i = choose|i: int| 0 <= i < front.len() && front[i] == rest[j1];
                    assert(s[i].id != s[s.len() - 1].id);
                }
            }
            assert forall|j: int| 0 <= j < out.len() implies s.contains(out[j]) by {
                if j == rest.len() {
                    assert(s[s.len() - 1] == last);
                }
            }
            assert forall|j: int| 0 <= j < out.len() implies 0 <= #[trigger] out[j].enqueued_at
                <= i64::MAX - EXPIRY_HORIZON_SECS by {
                if j < rest.len() {
                    assert(0 <= rest[j].enqueued_at <= i64::MAX - EXPIRY_HORIZON_SECS);
                } else {
                    assert(out[j] == last);
                    assert(0 <= s[s.len() - 1].enqueued_at <= i64::MAX - EXPIRY_HORIZON_SECS);
                }
            }
        }
    }
}

/// Appending a new id not yet in the table preserves the invariant.
proof fn lemma_push_wf(s: Seq<PendingRequest>, id: i64, now: i64)
    requires
        ids_unique(s),
        times_valid(s),
        !pending(s, id as int),
        0 <= now <= i64::MAX - EXPIRY_HORIZON_SECS,
    ensures
        ids_unique(s.push(PendingRequest { id, enqueued_at: now })),
        times_valid(s.push(PendingRequest { id, enqueued_at: now })),
{
    let t = s.push(PendingRequest { id, enqueued_at: now });
    assert forall|i: int, j: int| 0 <= i < j < t.len() implies t[i].id != t[j].id by {
        if j == s.len() {
            assert(t[i] == s[i]);
        }
    }
    assert forall|i: int| 0 <= i < t.len() implies 0 <= #[trigger] t[i].enqueued_at <= i64::MAX
        - EXPIRY_HORIZON_SECS by {
        if i < s.len() {
            assert(t[i] == s[i]);
        }
    }
}

/// With unique ids, any index holding `id` is the index `idx_of` denotes.
proof fn lemma_idx_agrees(s: Seq<PendingRequest>, id: int, k: int)
    requires
        ids_unique(s),
        0 <= k < s.len(),
        s[k].id == id,
    ensures
        idx_of(s, id) == k,
        pending(s, id),
{
    assert(pending(s, id));
    let j = idx_of(s, id);
    if j < k {
        assert(s[j].id != s[k].id);
    } else if k < j {
        assert(s[k].id != s[j].id);
    }
}

/// Removing one entry preserves the invariant and removes its id.
proof fn lemma_remove_wf(s: Seq<PendingRequest>, k: int)
    requires
        ids_unique(s),
        times_valid(s),
        0 <= k < s.len(),
    ensures
        ids_unique(s.remove(k)),
        times_valid(s.remove(k)),
        !pending(s.remove(k), s[k].id as int),
{
    let t = s.remove(k);
    assert forall|i: int| 0 <= i < t.len() implies t[i].id != s[k].id && 0
        <= #[trigger] t[i].enqueued_at <= i64::MAX - EXPIRY_HORIZON_SECS by {
        if i < k {
            assert(t[i] == s[i]);
        } else {
            assert(t[i] == s[i + 1]);
        }
    }
    assert forall|i: int, j: int| 0 <= i < j < t.len() implies t[i].id != t[j].id by {
        assert(t[i] == (if i < k {
            s[i]
        } else {
            s[i + 1]
        }));
        assert(t[j] == (if j < k {
            s[j]
        } else {
            s[j + 1]
        }));
    }
}

/// Resolving an id removes it from the table: a second resolve of the same id
/// finds nothing, so a reply is delivered to a waiter at most once, and a
/// repeated reply for the same id is a no-op that leaves the table as it was.
pub proof fn lemma_resolve_at_most_once(s: Seq<PendingRequest>, id: int)
    requires
        ids_unique(s),
    ensures
        !pending(spec_resolve(s, id), id),
        spec_resolve(spec_resolve(s, id), id) == spec_resolve(s, id),
{
    if pending(s, id) {
        let k = idx_of(s, id);
        let t = s.remove(k);
        assert forall|i: int| 0 <= i < t.len() implies #[trigger] t[i].id != id by {
            if i < k {
                assert(t[i] == s[i]);
            } else {
                assert(t[i] == s[i + 1]);
            }
        }
    }
}

/// Resolving an id leaves every other pending id pending, with its entry
/// intact: completing one request never disturbs another caller's slot.
pub proof fn lemma_resolve_keeps_others(s: Seq<PendingRequest>, id: int, other: int, t: int)
    requires
        ids_unique(s),
        other != id,
    ensures
        has_entry(spec_resolve(s, id), other, t) <==> has_entry(s, other, t),
{
    if pending(s, id) {
        let k = idx_of(s, id);
        let r = s.remove(k);
        if has_entry(s, other, t) {
            let i = choose|i: int| 0 <= i < s.len() && s[i].id == other && s[i].enqueued_at == t;
            if i < k {
                assert(r[i] == s[i]);
            } else {
                assert(s[k].id == id);
                assert(i != k);
                assert(r[i - 1] == s[i]);
            }
        }
        if has_entry(r, other, t) {
            let i = choose|i: int| 0 <= i < r.len() && r[i].id == other && r[i].enqueued_at == t;
            if i < k {
                assert(r[i] == s[i]);
            } else {
                assert(r[i] == s[i + 1]);
            }
        }
    }
}

/// The sweep at second `now` keeps exactly the entries younger than the
/// expiry horizon: an entry registered at second `t` survives if and only if
/// it was still fresh, and no entry changes its registration time.
pub proof fn lemma_sweep_exact(s: Seq<PendingRequest>, now: int, id: int, t: int)
    ensures
        has_entry(spec_sweep(s, now), id, t) <==> has_entry(s, id, t) && fresh_at(t, now),
    decreases s.len(),
{
    if s.len() == 0 {
    } else {
        let last = s.last();
        let front = s.drop_last();
        lemma_sweep_exact(front, now, id, t);
        lemma_has_entry_push(front, last, id, t);
        assert(front.push(last) =~= s);
        if fresh_at(last.enqueued_at as int, now) {
            lemma_has_entry_push(spec_sweep(front, now), last, id, t);
        } else {
            if last.id == id && last.enqueued_at == t {
                assert(!fresh_at(t, now));
            }
        }
    }
}

/// Registering an id that is still pending and unexpired is rejected, and the
/// earlier entry survives the sweep untouched: a live waiter is never
/// silently dropped.
pub proof fn lemma_register_keeps_live_waiter(s: Seq<PendingRequest>, id: int, t: int, now: int)
    requires
        has_entry(s, id, t),
        fresh_at(t, now),
    ensures
        pending(spec_sweep(s, now), id),
        has_entry(spec_sweep(s, now), id, t),
{
    lemma_sweep_exact(s, now, id, t);
    let swept = spec_sweep(s, now);
    let i = choose|i: int| 0 <= i < swept.len() && swept[i].id == id && swept[i].enqueued_at == t;
    assert(pending(swept, id));
}

} // verus!
