//! The subscription registry: the live set of event subscribers of one
//! topic, keyed by identifiers that are unique among the live subscriptions.

use vstd::prelude::*;
use vstd::assert_by_contradiction;

verus! {

/// How many random identifier candidates are drawn before the registry falls
/// back to a deterministic search for a free identifier.
pub const RANDOM_DRAW_LIMIT: usize = 16;

/// Whether some entry of `s` carries the identifier `id`.
pub open spec fn seq_contains_id(s: Seq<(u128, u64)>, id: u128) -> bool {
    exists|i: int| 0 <= i < s.len() && s[i].0 == id
}

/// Identifiers of the entries of `s` are pairwise distinct.
pub open spec fn seq_ids_unique(s: Seq<(u128, u64)>) -> bool {
    forall|i: int, j: int| 0 <= i < j < s.len() ==> s[i].0 != s[j].0
}

/// Relies on `uuid::Uuid::new_v4` and `uuid::Uuid::as_u128`: draws a random
/// 128-bit identifier candidate. The value is random, so nothing is promised
/// of it; the registry checks it against the live set itself.
#[verifier::external_body]
fn random_candidate() -> (id: u128) {
    uuid::Uuid::new_v4().as_u128()
}

/// The live subscriptions of one topic: identifier and sink handle of each,
/// in order of registration.
pub struct SubscriberMap {
    entries: Vec<(u128, u64)>,
}

impl View for SubscriberMap {
    type V = Seq<(u128, u64)>;

    closed spec fn view(&self) -> Seq<(u128, u64)> {
        self.entries@
    }
}

impl SubscriberMap {
    /// Identifiers of live subscriptions are pairwise distinct.
    pub open spec fn wf(&self) -> bool {
        seq_ids_unique(self@)
    }

    /// Whether `id` belongs to a live subscription.
    pub open spec fn contains_id(&self, id: u128) -> bool {
        seq_contains_id(self@, id)
    }

    /// An empty registry.
    pub fn new() -> (m: SubscriberMap)
        ensures
            m@ == Seq::<(u128, u64)>::empty(),
            m.wf(),
    {
        SubscriberMap { entries: Vec::new() }
    }

    /// Number of live subscriptions.
    pub fn len(&self) -> (n: usize)
        ensures
            n == self@.len(),
    {
        self.entries.len()
    }

    /// Whether `id` belongs to a live subscription.
    pub fn contains(&self, id: u128) -> (found: bool)
        ensures
            found == self.contains_id(id),
    {
        let n: usize = self.entries.len();
        let mut i: usize = 0;
        while i < n
            invariant
                i <= n,
                n == self.entries@.len(),
                forall|k: int| 0 <= k < i ==> self.entries@[k].0 != id,
            decreases n - i,
        {
            if self.entries[i].0 == id {
                return true;
            }
            i = i + 1;
        }
        false
    }

    /// Registers `sink` under a fresh identifier and returns that identifier.
    ///
    /// Candidates are drawn at random and retried on collision against the
    /// current live set; should every draw collide, the registry falls back
    /// to scanning for a free identifier, which must exist because there are
    /// more candidates than live subscriptions.
    pub fn subscribe(&mut self, sink: u64) -> (id: u128)
        requires
            old(self).wf(),
        ensures
            final(self).wf(),
            !old(self).contains_id(id),
            final(self)@ == old(self)@.push((id, sink)),
    {
        let ghost s0 = old(self)@;
        let mut tries: usize = 0;
        while tries < RANDOM_DRAW_LIMIT
            invariant
                self@ == s0,
                s0 == old(self)@,
                seq_ids_unique(s0),
            decreases RANDOM_DRAW_LIMIT - tries,
        {
            let candidate = random_candidate();
            if !self.contains(candidate) {
                self.entries.push((candidate, sink));
                proof {
                    lemma_push_fresh_keeps_unique(s0, candidate, sink);
                }
                return candidate;
            }
            tries = tries + 1;
        }
        // Every random draw collided: scan from zero. Among the first
        // `len + 1` candidates at least one is free.
        let n: usize = self.entries.len();
        proof {
            lemma_unused_id_below(s0);
        }
        let mut c: u128 = 0;
        loop
            invariant
                self@ == s0,
                s0 == old(self)@,
                seq_ids_unique(s0),
                n == s0.len(),
                c <= n as u128,
                forall|x: u128| x < c ==> seq_contains_id(s0, x),
                exists|x: u128| x <= s0.len() && !seq_contains_id(s0, x),
            ensures
                self@ == s0,
                !seq_contains_id(s0, c),
            decreases n as int + 1 - c as int,
        {
            if !self.contains(c) {
                break;
            }
            proof {
                let w = choose|x: u128| x <= s0.len() && !seq_contains_id(s0, x);
                assert(w != c);
                assert(!(w < c));
                assert(c < w && w <= n as u128);
            }
            c = c + 1;
        }
        self.entries.push((c, sink));
        proof {
            lemma_push_fresh_keeps_unique(s0, c, sink);
        }
        c
    }

    /// Removes the subscription registered under `id`, if it is live, and
    /// reports whether it was.
    pub fn unsubscribe(&mut self, id: u128) -> (removed: bool)
        requires
            old(self).wf(),
        ensures
            final(self).wf(),
            removed == old(self).contains_id(id),
            !removed ==> *final(self) == *old(self),
            removed ==> exists|i: int|
                0 <= i < old(self)@.len() && old(self)@[i].0 == id && final(self)@ == old(
                    self,
                )@.remove(i),
            !final(self).contains_id(id),
    {
        let ghost s0 = old(self)@;
        let n: usize = self.entries.len();
        let mut i: usize = 0;
        while i < n
            invariant
                i <= n,
                *self == *old(self),
                self@ == s0,
                s0 == old(self)@,
                seq_ids_unique(s0),
                n == s0.len(),
                forall|k: int| 0 <= k < i ==> s0[k].0 != id,
            decreases n - i,
        {
            if self.entries[i].0 == id {
                self.entries.remove(i);
                proof {
                    lemma_remove_id_clears_it(s0, i as int, id);
                }
                return true;
            }
            i = i + 1;
        }
        false
    }

    /// The sink handles of all live subscriptions, in registration order.
    pub fn sinks(&self) -> (out: Vec<u64>)
        ensures
            out@.len() == self@.len(),
            forall|k: int| 0 <= k < self@.len() ==> out@[k] == self@[k].1,
    {
        let n: usize = self.entries.len();
        let mut out: Vec<u64> = Vec::new();
        let mut i: usize = 0;
        while i < n
            invariant
                i <= n,
                n == self.entries@.len(),
                out@.len() == i,
                forall|k: int| 0 <= k < i ==> out@[k] == self.entries@[k].1,
            decreases n - i,
        {
            out.push(self.entries[i].1);
            i = i + 1;
        }
        out
    }
}

/// Pushing an entry whose identifier is not live keeps identifiers unique.
proof fn lemma_push_fresh_keeps_unique(s: Seq<(u128, u64)>, id: u128, sink: u64)
    requires
        seq_ids_unique(s),
        !seq_contains_id(s, id),
    ensures
        seq_ids_unique(s.push((id, sink))),
{
    let t = s.push((id, sink));
    assert forall|i: int, j: int| 0 <= i < j < t.len() implies t[i].0 != t[j].0 by {
        if j == s.len() {
            assert(t[i] == s[i]);
            assert(s[i].0 != id);
        } else {
            assert(t[i] == s[i]);
            assert(t[j] == s[j]);
        }
    }
}

/// Removing the one entry that carries `id` leaves no entry carrying it, and
/// keeps identifiers unique.
proof fn lemma_remove_id_clears_it(s: Seq<(u128, u64)>, i: int, id: u128)
    requires
        seq_ids_unique(s),
        0 <= i < s.len(),
        s[i].0 == id,
    ensures
        seq_ids_unique(s.remove(i)),
        !seq_contains_id(s.remove(i), id),
{
    let t = s.remove(i);
    assert forall|k: int| 0 <= k < t.len() implies t[k].0 != id by {
        if k < i {
            assert(t[k] == s[k]);
        } else {
            assert(t[k] == s[k + 1]);
        }
    }
    assert forall|k: int, l: int| 0 <= k < l < t.len() implies t[k].0 != t[l].0 by {
        let k0 = if k < i { k } else { k + 1 };
        let l0 = if l < i { l } else { l + 1 };
        assert(t[k] == s[k0]);
        assert(t[l] == s[l0]);
    }
}

/// Among the identifiers `0 ..= s.len()` at least one is carried by no entry
/// of `s`: there are more candidates than entries.
pub proof fn lemma_unused_id_below(s: Seq<(u128, u64)>)
    requires
        s.len() <= u64::MAX,
    ensures
        exists|x: u128| x <= s.len() && !seq_contains_id(s, x),
{
    broadcast use vstd::set::group_set_axioms;

    let n = s.len();
    let mapped = s.map_values(|p: (u128, u64)| p.0);
    let ids = mapped.to_set();
    mapped.lemma_cardinality_of_set();
    vstd::seq_lib::seq_to_set_is_finite::<u128>(mapped);
    assert_by_contradiction!(exists|x: u128| x <= s.len() && !seq_contains_id(s, x), {
        let candidates = Set::new(|x: u128| x <= n);
        lemma_id_range_cardinality(n as u128);
        assert forall|x: u128| candidates.contains(x) implies ids.contains(x) by {
            assert(seq_contains_id(s, x));
            let i = choose|i: int| 0 <= i < s.len() && s[i].0 == x;
            assert(mapped[i] == x);
            assert(mapped.contains(x));
        }
        vstd::set_lib::lemma_len_subset(candidates, ids);
    });
}

/// The set of identifiers up to and including `n` has `n + 1` elements.
proof fn lemma_id_range_cardinality(n: u128)
    ensures
        Set::new(|x: u128| x <= n).finite(),
        Set::new(|x: u128| x <= n).len() == n + 1,
    decreases n,
{
    broadcast use vstd::set::group_set_axioms;

    let s = Set::new(|x: u128| x <= n);
    if n == 0 {
        assert(s =~= Set::empty().insert(0u128));
    } else {
        lemma_id_range_cardinality((n - 1) as u128);
        let prev = Set::new(|x: u128| x <= (n - 1) as u128);
        assert(s =~= prev.insert(n));
        assert(!prev.contains(n));
    }
}

} // verus!
