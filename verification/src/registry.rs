//! The subscription registry.
//!
//! A channel key names a push-notification topic and maps to the single
//! current handler for that topic. Handlers themselves are asynchronous
//! callbacks that live outside the library; the registry stores an opaque
//! handler token and yields it when a push arrives, and the layer around the
//! library invokes the callback the token names. Registering a key that is
//! already taken replaces the previous handler, which from then on receives
//! nothing.

use vstd::prelude::*;

use crate::response::Response;

verus! {

/// One registered listener: the channel key and the token of its callback.
#[derive(Clone, Debug, PartialEq, Eq)]
pub struct Subscription {
    pub channel: String,
    pub handler: u64,
}

/// An instruction to invoke the callback named by `handler` with `response`,
/// detached from the reader loop.
#[derive(Clone, Debug, PartialEq, Eq)]
pub struct Dispatch {
    pub handler: u64,
    pub response: Response,
}

/// Whether some entry of `s` is keyed by `key`.
pub open spec fn registered(s: Seq<Subscription>, key: Seq<char>) -> bool {
    exists|i: int| 0 <= i < s.len() && s[i].channel@ == key
}

/// Whether some entry of `s` binds `key` to the handler token `h`.
pub open spec fn has_sub(s: Seq<Subscription>, key: Seq<char>, h: u64) -> bool {
    exists|i: int| 0 <= i < s.len() && s[i].channel@ == key && s[i].handler == h
}

/// The index of the entry keyed by `key`, when one exists.
pub open spec fn key_idx(s: Seq<Subscription>, key: Seq<char>) -> int {
    choose|i: int| 0 <= i < s.len() && s[i].channel@ == key
}

/// The handler token bound to `key`, when one is registered.
pub open spec fn handler_of(s: Seq<Subscription>, key: Seq<char>) -> u64 {
    s[key_idx(s, key)].handler
}

/// No two entries of `s` share a channel key.
pub open spec fn keys_unique(s: Seq<Subscription>) -> bool {
    forall|i: int, j: int| 0 <= i < j < s.len() ==> s[i].channel@ != s[j].channel@
}

/// The registry after binding `key` to `h`: the entry keyed by `key` is
/// replaced, or a new entry is appended when the key was free.
pub open spec fn spec_register(s: Seq<Subscription>, key: Seq<char>, e: Subscription) -> Seq<
    Subscription,
> {
    if registered(s, key) {
        s.update(key_idx(s, key), e)
    } else {
        s.push(e)
    }
}

/// The registry after dropping `key`: the entry keyed by `key` is removed,
/// and a registry without the key is left unchanged.
pub open spec fn spec_unregister(s: Seq<Subscription>, key: Seq<char>) -> Seq<Subscription> {
    if registered(s, key) {
        s.remove(key_idx(s, key))
    } else {
        s
    }
}

/// The map from channel key to the single current handler for that key.
#[derive(Debug)]
pub struct Subscriptions {
    entries: Vec<Subscription>,
}

impl View for Subscriptions {
    type V = Seq<Subscription>;

    closed spec fn view(&self) -> Seq<Subscription> {
        self.entries@
    }
}

impl Subscriptions {
    /// The registry's invariant: one entry per channel key.
    pub open spec fn wf(&self) -> bool {
        keys_unique(self@)
    }

    /// An empty registry.
    pub fn new() -> (r: Self)
        ensures
            r.wf(),
            r@ == Seq::<Subscription>::empty(),
    {
        Subscriptions { entries: Vec::new() }
    }

    /// How many channel keys have a handler.
    pub fn len(&self) -> (r: usize)
        ensures
            r == self@.len(),
    {
        self.entries.len()
    }

    /// The index of the entry keyed by `method`, if the key is taken.
    fn find(&self, method: &String) -> (r: Option<usize>)
        ensures
            match r {
                Some(i) => i < self@.len() && self@[i as int].channel@ == method@,
                None => !registered(self@, method@),
            },
    {
        let mut k: usize = 0;
        while k < self.entries.len()
            invariant
                k <= self.entries.len(),
                forall|i: int| 0 <= i < k ==> self.entries@[i].channel@ != method@,
            decreases self.entries.len() - k,
        {
            if self.entries[k].channel == *method {
                return Some(k);
            }
            k = k + 1;
        }
        None
    }

    /// Installs `handler` as the sole handler for the key `method`, replacing
    /// and discarding any prior handler without notifying it.
    pub fn insert(&mut self, method: String, handler: u64)
        requires
            old(self).wf(),
        ensures
            final(self).wf(),
            final(self)@ == spec_register(
                old(self)@,
                method@,
                Subscription { channel: method, handler },
            ),
            has_sub(final(self)@, method@, handler),
    {
        let ghost entry = Subscription { channel: method, handler };
        match self.find(&method) {
            Some(k) => {
                proof {
                    lemma_key_idx_agrees(self@, method@, k as int);
                    lemma_update_wf(self@, k as int, entry);
                }
                self.entries[k] = Subscription { channel: method, handler };
                proof {
                    assert(self@[k as int] == entry);
                }
            },
            None => {
                proof {
                    lemma_push_wf(self@, entry);
                }
                self.entries.push(Subscription { channel: method, handler });
                proof {
                    assert(self@[old(self)@.len() as int] == entry);
                }
            },
        }
    }

    /// Removes the handler for the key `method`; subsequent pushes for that
    /// key will find no handler and be dropped.
    pub fn remove(&mut self, method: &String)
        requires
            old(self).wf(),
        ensures
            final(self).wf(),
            final(self)@ == spec_unregister(old(self)@, method@),
            !registered(final(self)@, method@),
    {
        match self.find(method) {
            Some(k) => {
                proof {
                    lemma_key_idx_agrees(self@, method@, k as int);
                    lemma_remove_wf(self@, k as int);
                }
                self.entries.remove(k);
            },
            None => {},
        }
    }

    /// The handler token currently bound to the key `method`, if any.
    pub fn lookup(&self, method: &String) -> (r: Option<u64>)
        requires
            self.wf(),
        ensures
            match r {
                Some(h) => registered(self@, method@) && h == handler_of(self@, method@),
                None => !registered(self@, method@),
            },
    {
        match self.find(method) {
            Some(k) => {
                proof {
                    lemma_key_idx_agrees(self@, method@, k as int);
                }
                Some(self.entries[k].handler)
            },
            None => None,
        }
    }

    /// Routes one inbound frame by its channel key or method name: when a
    /// handler is registered for it, yields the dispatch that invokes the
    /// handler with the frame; otherwise hands the frame back so the caller
    /// can log it as unhandled.
    pub fn intercept(&self, response: Response) -> (r: Result<Dispatch, Response>)
        requires
            self.wf(),
        ensures
            match r {
                Ok(d) => response.spec_method() matches Some(key) && registered(self@, key) && d
                    == (Dispatch { handler: handler_of(self@, key), response }),
                Err(res) => res == response && !(response.spec_method() matches Some(key)
                    && registered(self@, key)),
            },
    {
        match response.method() {
            Some(method) => {
                match self.find(&method) {
                    Some(k) => {
                        proof {
                            lemma_key_idx_agrees(self@, method@, k as int);
                        }
                        Ok(Dispatch { handler: self.entries[k].handler, response })
                    },
                    None => Err(response),
                }
            },
            None => Err(response),
        }
    }
}

impl Default for Subscriptions {
    /// An empty registry.
    fn default() -> (r: Self)
        ensures
            r.wf(),
            r@ == Seq::<Subscription>::empty(),
    {
        Subscriptions::new()
    }
}

/// With unique keys, any index holding `key` is the index `key_idx` denotes.
proof fn lemma_key_idx_agrees(s: Seq<Subscription>, key: Seq<char>, k: int)
    requires
        keys_unique(s),
        0 <= k < s.len(),
        s[k].channel@ == key,
    ensures
        key_idx(s, key) == k,
        registered(s, key),
{
    assert(registered(s, key));
    let j = key_idx(s, key);
    if j < k {
        assert(s[j].channel@ != s[k].channel@);
    } else if k < j {
        assert(s[k].channel@ != s[j].channel@);
    }
}

/// Replacing the entry at a key's own index preserves the invariant.
proof fn lemma_update_wf(s: Seq<Subscription>, k: int, e: Subscription)
    requires
        keys_unique(s),
        0 <= k < s.len(),
        s[k].channel@ == e.channel@,
    ensures
        keys_unique(s.update(k, e)),
{
    let t = s.update(k, e);
    assert forall|i: int, j: int| 0 <= i < j < t.len() implies t[i].channel@ != t[j].channel@ by {
        assert(s[i].channel@ != s[j].channel@);
    }
}

/// Appending a key not yet taken preserves the invariant.
proof fn lemma_push_wf(s: Seq<Subscription>, e: Subscription)
    requires
        keys_unique(s),
        !registered(s, e.channel@),
    ensures
        keys_unique(s.push(e)),
{
    let t = s.push(e);
    assert forall|i: int, j: int| 0 <= i < j < t.len() implies t[i].channel@ != t[j].channel@ by {
        if j == s.len() {
            assert(t[i] == s[i]);
        }
    }
}

/// Removing one entry preserves the invariant and frees its key.
proof fn lemma_remove_wf(s: Seq<Subscription>, k: int)
    requires
        keys_unique(s),
        0 <= k < s.len(),
    ensures
        keys_unique(s.remove(k)),
        !registered(s.remove(k), s[k].channel@),
{
    let t = s.remove(k);
    assert forall|i: int| 0 <= i < t.len() implies #[trigger] t[i].channel@ != s[k].channel@ by {
        if i < k {
            assert(t[i] == s[i]);
        } else {
            assert(t[i] == s[i + 1]);
        }
    }
    assert forall|i: int, j: int| 0 <= i < j < t.len() implies t[i].channel@ != t[j].channel@ by {
        assert(t[i] == (if i < k {
            s[i]
        } else {
            s[i + 1]
        }));
        assert(t[j] == (if j < k {
            s[j]
        } else {
            s[j + 1]
        }));
    }
}

/// Registering a second handler for a channel key replaces the first: after
/// the registration exactly the new handler is bound to the key, so the first
/// handler receives no further pushes for it, and every other key keeps its
/// binding.
pub proof fn lemma_register_replaces(
    s: Seq<Subscription>,
    key: Seq<char>,
    e: Subscription,
    h: u64,
    other: Seq<char>,
    h2: u64,
)
    requires
        keys_unique(s),
        e.channel@ == key,
    ensures
        has_sub(spec_register(s, key, e), key, h) <==> h == e.handler,
        other != key ==> (has_sub(spec_register(s, key, e), other, h2) <==> has_sub(s, other, h2)),
{
    let t = spec_register(s, key, e);
    if registered(s, key) {
        let k = key_idx(s, key);
        assert(t[k] == e);
        assert(has_sub(t, key, e.handler));
        assert forall|i: int| 0 <= i < t.len() && #[trigger] t[i].channel@ == key implies i
            == k by {
            if i != k {
                assert(s[i].channel@ == key);
                lemma_key_idx_agrees(s, key, i);
            }
        }
        if other != key {
            if has_sub(s, other, h2) {
                let i = choose|i: int|
                    0 <= i < s.len() && s[i].channel@ == other && s[i].handler == h2;
                assert(t[i] == s[i]);
            }
            if has_sub(t, other, h2) {
                let i = choose|i: int|
                    0 <= i < t.len() && t[i].channel@ == other && t[i].handler == h2;
                assert(t[i] == s[i]);
            }
        }
    } else {
        assert(t[s.len() as int] == e);
        assert(has_sub(t, key, e.handler));
        assert forall|i: int| 0 <= i < t.len() && #[trigger] t[i].channel@ == key implies t[i]
            == e by {
            if i < s.len() {
                assert(s[i].channel@ == key);
            }
        }
        if other != key {
            if has_sub(s, other, h2) {
                let i = choose|i: int|
                    0 <= i < s.len() && s[i].channel@ == other && s[i].handler == h2;
                assert(t[i] == s[i]);
            }
            if has_sub(t, other, h2) {
                let i = choose|i: int|
                    0 <= i < t.len() && t[i].channel@ == other && t[i].handler == h2;
                assert(i < s.len());
                assert(t[i] == s[i]);
            }
        }
    }
}

} // verus!
