//! Arrival bookkeeping for one owner of a list of animated items.
//!
//! History starts at rest; later batches animate at most six current
//! identities. The owner retains the clocks, so temporarily unmounting a
//! child cannot restart its arrival. Removed items and settled clocks are
//! retired instead of accumulating lifetime history.
//!
//! The roster decides which identities hold an arrival clock. What a clock
//! reads (when it started, how far it has travelled) is kept beside it by
//! the caller, which reports at each roll call which clocks are still live.

use vstd::prelude::*;
use crate::motion::{MotionKey, MotionKeyModel, copy_key, same_key};

verus! {

/// How many items may take part in one arrival cascade. A longer list
/// arrives with the last beat rather than queueing behind it.
pub const STAGGER_PARTICIPANTS: usize = 6;

/// The models of a list of keys.
pub open spec fn keys_view(v: Seq<MotionKey>) -> Seq<MotionKeyModel> {
    v.map_values(|k: MotionKey| k@)
}

/// No key occurs twice in `s`.
pub open spec fn distinct(s: Seq<MotionKeyModel>) -> bool {
    forall|i: int, j: int| 0 <= i < j < s.len() ==> s[i] != s[j]
}

/// Every key of `a` occurs in `b`.
pub open spec fn within(a: Seq<MotionKeyModel>, b: Seq<MotionKeyModel>) -> bool {
    forall|i: int| 0 <= i < a.len() ==> b.contains(#[trigger] a[i])
}

/// No key of `a` occurs in `b`.
pub open spec fn apart(a: Seq<MotionKeyModel>, b: Seq<MotionKeyModel>) -> bool {
    forall|i: int| 0 <= i < a.len() ==> !b.contains(#[trigger] a[i])
}

/// What a roster holds: whether it has taken its first roll call, the
/// identities of the last roll call, and the identities holding a clock.
pub struct RosterModel {
    pub primed: bool,
    pub seen: Seq<MotionKeyModel>,
    pub clocks: Seq<MotionKeyModel>,
}

/// What every roster keeps: no identity twice, clocks only for identities
/// of the last roll call, and never more clocks than one cascade admits.
pub open spec fn roster_ok(m: RosterModel) -> bool {
    &&& distinct(m.seen)
    &&& distinct(m.clocks)
    &&& within(m.clocks, m.seen)
    &&& m.clocks.len() <= STAGGER_PARTICIPANTS
}

/// The first occurrence of each key among the first `n` of `keys`, in
/// order.
pub open spec fn first_occurrences(keys: Seq<MotionKeyModel>, n: nat) -> Seq<MotionKeyModel>
    decreases n,
{
    if n == 0 {
        Seq::empty()
    } else {
        let d = first_occurrences(keys, (n - 1) as nat);
        if d.contains(keys[n - 1]) {
            d
        } else {
            d.push(keys[n - 1])
        }
    }
}

/// The keys among the first `n` of `d` that `seen` does not hold, in order.
pub open spec fn unseen(d: Seq<MotionKeyModel>, seen: Seq<MotionKeyModel>, n: nat) -> Seq<
    MotionKeyModel,
>
    decreases n,
{
    if n == 0 {
        Seq::empty()
    } else {
        let u = unseen(d, seen, (n - 1) as nat);
        if seen.contains(d[n - 1]) {
            u
        } else {
            u.push(d[n - 1])
        }
    }
}

/// The clocks among the first `n` that survive a roll call: clocks are
/// kept only while arrivals are assigned, for identities still present,
/// and while they are live.
pub open spec fn kept(
    clocks: Seq<MotionKeyModel>,
    live: Seq<bool>,
    seen: Seq<MotionKeyModel>,
    assign: bool,
    n: nat,
) -> Seq<MotionKeyModel>
    decreases n,
{
    if n == 0 {
        Seq::empty()
    } else {
        let r = kept(clocks, live, seen, assign, (n - 1) as nat);
        if assign && seen.contains(clocks[n - 1]) && live[n - 1] {
            r.push(clocks[n - 1])
        } else {
            r
        }
    }
}

/// The smaller of two numbers.
pub open spec fn at_most(a: int, b: int) -> int {
    if a < b {
        a
    } else {
        b
    }
}

/// One roll call of `keys` on roster `m`, whose clocks are live as `live`
/// says: the roster after it, and the batch of identities that start an
/// arrival, in cascade order.
///
/// The identities are those of the roll call. Identities not seen before
/// form the fresh batch, capped so that the clocks never exceed one
/// cascade; the batch cascades only from the second roll call on, and only
/// while arrivals are assigned.
pub open spec fn roll_call(
    m: RosterModel,
    keys: Seq<MotionKeyModel>,
    assign: bool,
    live: Seq<bool>,
) -> (RosterModel, Seq<MotionKeyModel>) {
    let seen = first_occurrences(keys, keys.len());
    let k = kept(m.clocks, live, seen, assign, m.clocks.len());
    let fresh = unseen(seen, m.seen, seen.len());
    let room = STAGGER_PARTICIPANTS - k.len();
    let batch = if m.primed && assign {
        fresh.take(at_most(fresh.len() as int, room))
    } else {
        Seq::empty()
    };
    (RosterModel { primed: true, seen, clocks: k + batch }, batch)
}

proof fn lemma_push_contains(u: Seq<MotionKeyModel>, c: MotionKeyModel)
    ensures
        forall|k: MotionKeyModel| u.push(c).contains(k) <==> (u.contains(k) || k == c),
{
    assert forall|k: MotionKeyModel| u.push(c).contains(k) <==> (u.contains(k) || k == c) by {
        if u.push(c).contains(k) {
            let i = choose|i: int| 0 <= i < u.len() + 1 && u.push(c)[i] == k;
            if i < u.len() {
                assert(u[i] == k);
            }
        }
        if u.contains(k) {
            let i = choose|i: int| 0 <= i < u.len() && u[i] == k;
            assert(u.push(c)[i] == k);
        }
        if k == c {
            assert(u.push(c)[u.len() as int] == k);
        }
    }
}

proof fn lemma_keys_view_push(v: Seq<MotionKey>, k: MotionKey)
    ensures
        keys_view(v.push(k)) =~= keys_view(v).push(k@),
{
}

proof fn lemma_first_occurrences(keys: Seq<MotionKeyModel>, n: nat)
    requires
        n <= keys.len(),
    ensures
        distinct(first_occurrences(keys, n)),
        forall|k: MotionKeyModel|
            first_occurrences(keys, n).contains(k) <==> keys.take(n as int).contains(k),
        first_occurrences(keys, n).len() <= n,
    decreases n,
{
    if n == 0 {
        assert(keys.take(0) =~= Seq::<MotionKeyModel>::empty());
    } else {
        let m = (n - 1) as nat;
        lemma_first_occurrences(keys, m);
        let d = first_occurrences(keys, m);
        let c = keys[m as int];
        assert(keys.take(n as int) =~= keys.take(m as int).push(c));
        lemma_push_contains(keys.take(m as int), c);
        lemma_push_contains(d, c);
        assert forall|k: MotionKeyModel|
            first_occurrences(keys, n).contains(k) <==> keys.take(n as int).contains(k) by {
            assert(keys.take(m as int).push(c).contains(k) <==> (keys.take(m as int).contains(k)
                || k == c));
            assert(d.contains(k) <==> keys.take(m as int).contains(k));
            assert(d.push(c).contains(k) <==> (d.contains(k) || k == c));
        }
        if !d.contains(c) {
            let r = d.push(c);
            assert forall|i: int, j: int| 0 <= i < j < r.len() implies r[i] != r[j] by {
                if j == d.len() {
                    assert(d.contains(d[i]));
                }
            }
        }
    }
}

proof fn lemma_unseen(d: Seq<MotionKeyModel>, seen: Seq<MotionKeyModel>, n: nat)
    requires
        n <= d.len(),
        distinct(d),
    ensures
        distinct(unseen(d, seen, n)),
        within(unseen(d, seen, n), d),
        apart(unseen(d, seen, n), seen),
        forall|k: MotionKeyModel| unseen(d, seen, n).contains(k) ==> d.take(n as int).contains(k),
    decreases n,
{
    if n > 0 {
        let m = (n - 1) as nat;
        lemma_unseen(d, seen, m);
        let u = unseen(d, seen, m);
        assert(d.take(n as int) =~= d.take(m as int).push(d[m as int]));
        lemma_push_contains(d.take(m as int), d[m as int]);
        lemma_push_contains(u, d[m as int]);
        assert forall|k: MotionKeyModel| unseen(d, seen, n).contains(k) implies d.take(
            n as int,
        ).contains(k) by {
            assert(d.take(m as int).push(d[m as int]).contains(k) <==> (d.take(m as int).contains(k)
                || k == d[m as int]));
            assert(u.contains(k) ==> d.take(m as int).contains(k));
            assert(u.push(d[m as int]).contains(k) <==> (u.contains(k) || k == d[m as int]));
        }
        if !seen.contains(d[m as int]) {
            let r = u.push(d[m as int]);
            assert forall|i: int| 0 <= i < r.len() implies d.contains(#[trigger] r[i]) by {
                if i < u.len() {
                    assert(d.contains(u[i]));
                } else {
                    assert(d[m as int] == r[i]);
                }
            }
            assert(!u.contains(d[m as int])) by {
                if u.contains(d[m as int]) {
                    assert(d.take(m as int).contains(d[m as int]));
                    let j = choose|j: int| 0 <= j < m && d.take(m as int)[j] == d[m as int];
                    assert(d[j] == d[m as int]);
                }
            }
            assert forall|i: int, j: int| 0 <= i < j < r.len() implies r[i] != r[j] by {
                if j == u.len() {
                    assert(u.contains(u[i]));
                }
            }
            assert forall|i: int| 0 <= i < r.len() implies !seen.contains(#[trigger] r[i]) by {
                if i < u.len() {
                    assert(!seen.contains(u[i]));
                }
            }
        }
    }
}

proof fn lemma_kept(
    clocks: Seq<MotionKeyModel>,
    live: Seq<bool>,
    seen: Seq<MotionKeyModel>,
    assign: bool,
    n: nat,
)
    requires
        n <= clocks.len(),
        distinct(clocks),
    ensures
        distinct(kept(clocks, live, seen, assign, n)),
        within(kept(clocks, live, seen, assign, n), seen),
        forall|k: MotionKeyModel|
            kept(clocks, live, seen, assign, n).contains(k) ==> clocks.take(n as int).contains(k),
        kept(clocks, live, seen, assign, n).len() <= n,
        forall|i: int|
            0 <= i < n && !live[i] ==> !(#[trigger] kept(clocks, live, seen, assign, n).contains(
                clocks[i],
            )),
        !assign ==> kept(clocks, live, seen, assign, n).len() == 0,
        forall|i: int|
            0 <= i < n && assign && seen.contains(clocks[i]) && live[i] ==> (#[trigger] kept(
                clocks,
                live,
                seen,
                assign,
                n,
            ).contains(clocks[i])),
    decreases n,
{
    if n > 0 {
        let m = (n - 1) as nat;
        lemma_kept(clocks, live, seen, assign, m);
        let u = kept(clocks, live, seen, assign, m);
        let c = clocks[m as int];
        assert(clocks.take(n as int) =~= clocks.take(m as int).push(c));
        lemma_push_contains(clocks.take(m as int), c);
        lemma_push_contains(u, c);
        assert forall|k: MotionKeyModel| kept(clocks, live, seen, assign, n).contains(k) implies clocks.take(
            n as int,
        ).contains(k) by {
            assert(clocks.take(m as int).push(c).contains(k) <==> (clocks.take(m as int).contains(k)
                || k == c));
            assert(u.contains(k) ==> clocks.take(m as int).contains(k));
            assert(u.push(c).contains(k) <==> (u.contains(k) || k == c));
        }
        assert forall|i: int|
            0 <= i < n && !live[i] implies !(#[trigger] kept(clocks, live, seen, assign, n).contains(
                clocks[i],
            )) by {
            if i < m {
                assert(!u.contains(clocks[i]));
                assert(clocks[i] != c);
                assert(u.push(c).contains(clocks[i]) <==> (u.contains(clocks[i]) || clocks[i] == c));
            } else {
                if u.contains(c) {
                    assert(clocks.take(m as int).contains(c));
                    let j = choose|j: int| 0 <= j < m && clocks.take(m as int)[j] == c;
                    assert(clocks[j] == c);
                }
            }
        }
        assert forall|i: int|
            0 <= i < n && assign && seen.contains(clocks[i]) && live[i] implies (#[trigger] kept(
                clocks,
                live,
                seen,
                assign,
                n,
            ).contains(clocks[i])) by {
            if i < m {
                assert(u.contains(clocks[i]));
            }
            assert(u.push(c).contains(clocks[i]) <==> (u.contains(clocks[i]) || clocks[i] == c));
        }
        if assign && seen.contains(c) && live[m as int] {
            let r = u.push(c);
            assert(!u.contains(c)) by {
                if u.contains(c) {
                    assert(clocks.take(m as int).contains(c));
                    let j = choose|j: int| 0 <= j < m && clocks.take(m as int)[j] == c;
                    assert(clocks[j] == c);
                }
            }
            assert forall|i: int, j: int| 0 <= i < j < r.len() implies r[i] != r[j] by {
                if j == u.len() {
                    assert(u.contains(u[i]));
                }
            }
            assert forall|i: int| 0 <= i < r.len() implies seen.contains(#[trigger] r[i]) by {
                if i < u.len() {
                    assert(seen.contains(u[i]));
                }
            }
        }
    }
}

/// The first `n` of `clocks` without `key`.
pub open spec fn without(clocks: Seq<MotionKeyModel>, key: MotionKeyModel, n: nat) -> Seq<
    MotionKeyModel,
>
    decreases n,
{
    if n == 0 {
        Seq::empty()
    } else {
        let r = without(clocks, key, (n - 1) as nat);
        if clocks[n - 1] != key {
            r.push(clocks[n - 1])
        } else {
            r
        }
    }
}

proof fn lemma_without(clocks: Seq<MotionKeyModel>, key: MotionKeyModel, n: nat)
    requires
        n <= clocks.len(),
        distinct(clocks),
    ensures
        distinct(without(clocks, key, n)),
        !without(clocks, key, n).contains(key),
        forall|k: MotionKeyModel| without(clocks, key, n).contains(k) ==> clocks.take(n as int).contains(k),
        without(clocks, key, n).len() <= n,
    decreases n,
{
    if n > 0 {
        let m = (n - 1) as nat;
        lemma_without(clocks, key, m);
        let u = without(clocks, key, m);
        let c = clocks[m as int];
        assert(clocks.take(n as int) =~= clocks.take(m as int).push(c));
        lemma_push_contains(clocks.take(m as int), c);
        lemma_push_contains(u, c);
        assert forall|k: MotionKeyModel| without(clocks, key, n).contains(k) implies clocks.take(
            n as int,
        ).contains(k) by {
            assert(clocks.take(m as int).push(c).contains(k) <==> (clocks.take(m as int).contains(k)
                || k == c));
            assert(u.contains(k) ==> clocks.take(m as int).contains(k));
            assert(u.push(c).contains(k) <==> (u.contains(k) || k == c));
        }
        if c != key {
            let r = u.push(c);
            assert(!u.contains(c)) by {
                if u.contains(c) {
                    assert(clocks.take(m as int).contains(c));
                    let j = choose|j: int| 0 <= j < m && clocks.take(m as int)[j] == c;
                    assert(clocks[j] == c);
                }
            }
            assert forall|i: int, j: int| 0 <= i < j < r.len() implies r[i] != r[j] by {
                if j == u.len() {
                    assert(u.contains(u[i]));
                }
            }

        }
    }
}

/// Every roll call keeps what a roster keeps.
pub proof fn lemma_roll_call_keeps_roster(
    m: RosterModel,
    keys: Seq<MotionKeyModel>,
    assign: bool,
    live: Seq<bool>,
)
    requires
        roster_ok(m),
        live.len() == m.clocks.len(),
    ensures
        roster_ok(roll_call(m, keys, assign, live).0),
{
    let seen = first_occurrences(keys, keys.len());
    lemma_first_occurrences(keys, keys.len());
    lemma_kept(m.clocks, live, seen, assign, m.clocks.len());
    lemma_unseen(seen, m.seen, seen.len());
    let k = kept(m.clocks, live, seen, assign, m.clocks.len());
    let fresh = unseen(seen, m.seen, seen.len());
    let batch = roll_call(m, keys, assign, live).1;
    let clocks = k + batch;
    assert(m.clocks.take(m.clocks.len() as int) =~= m.clocks);
    assert(seen.take(seen.len() as int) =~= seen);
    assert forall|i: int| 0 <= i < batch.len() implies #[trigger] fresh.contains(batch[i]) by {
        assert(fresh[i] == batch[i]);
    }
    assert forall|i: int| 0 <= i < clocks.len() implies seen.contains(#[trigger] clocks[i]) by {
        if i < k.len() {
            assert(clocks[i] == k[i]);
        } else {
            assert(clocks[i] == batch[i - k.len()]);
            assert(fresh.contains(batch[i - k.len()]));
            let j = choose|j: int| 0 <= j < fresh.len() && fresh[j] == batch[i - k.len()];
            assert(seen.contains(fresh[j]));
        }
    }
    assert forall|i: int, j: int| 0 <= i < j < clocks.len() implies clocks[i] != clocks[j] by {
        if j < k.len() {
        } else if i >= k.len() {
            assert(batch[i - k.len()] == fresh[i - k.len()]);
            assert(batch[j - k.len()] == fresh[j - k.len()]);
        } else {
            // a kept clock was seen before; a batch identity was not
            assert(k.contains(k[i]));
            assert(m.clocks.contains(k[i]));
            let a = choose|a: int| 0 <= a < m.clocks.len() && m.clocks[a] == k[i];
            assert(m.seen.contains(m.clocks[a]));
            let b = j - k.len();
            assert(fresh[b] == batch[b]);
            assert(!m.seen.contains(fresh[b]));
        }
    }
}

/// What a roll call promises.
///
/// The first roll call is history: it starts no arrival. The roster then
/// remembers exactly the identities of this roll call, so removed items do
/// not accumulate; every identity that starts an arrival is one not seen
/// before and present now; at most six clocks run; without arrivals being
/// assigned no clock runs; a clock reported settled is retired; and while
/// arrivals are assigned, a live clock of an identity still present keeps
/// running.
pub proof fn lemma_roll_call(
    m: RosterModel,
    keys: Seq<MotionKeyModel>,
    assign: bool,
    live: Seq<bool>,
)
    requires
        roster_ok(m),
        live.len() == m.clocks.len(),
    ensures
        !m.primed ==> roll_call(m, keys, assign, live).1.len() == 0,
        forall|k: MotionKeyModel|
            roll_call(m, keys, assign, live).0.seen.contains(k) <==> keys.contains(k),
        roll_call(m, keys, assign, live).0.seen.len() <= keys.len(),
        roll_call(m, keys, assign, live).0.clocks.len() <= STAGGER_PARTICIPANTS,
        forall|i: int|
            0 <= i < roll_call(m, keys, assign, live).1.len() ==> !m.seen.contains(
                #[trigger] roll_call(m, keys, assign, live).1[i],
            ) && keys.contains(roll_call(m, keys, assign, live).1[i]),
        !assign ==> roll_call(m, keys, assign, live).0.clocks.len() == 0,
        forall|i: int|
            0 <= i < m.clocks.len() && !live[i] ==> !roll_call(
                m,
                keys,
                assign,
                live,
            ).0.clocks.contains(#[trigger] m.clocks[i]),
        forall|i: int|
            0 <= i < m.clocks.len() && live[i] && assign && keys.contains(m.clocks[i])
                ==> roll_call(m, keys, assign, live).0.clocks.contains(#[trigger] m.clocks[i]),
{
    let seen = first_occurrences(keys, keys.len());
    lemma_first_occurrences(keys, keys.len());
    lemma_kept(m.clocks, live, seen, assign, m.clocks.len());
    lemma_unseen(seen, m.seen, seen.len());
    lemma_roll_call_keeps_roster(m, keys, assign, live);
    assert(keys.take(keys.len() as int) =~= keys);
    assert(seen.take(seen.len() as int) =~= seen);
    let k = kept(m.clocks, live, seen, assign, m.clocks.len());
    let fresh = unseen(seen, m.seen, seen.len());
    let batch = roll_call(m, keys, assign, live).1;
    let clocks = k + batch;
    assert forall|i: int| 0 <= i < batch.len() implies !m.seen.contains(#[trigger] batch[i])
        && keys.contains(batch[i]) by {
        assert(fresh[i] == batch[i]);
        assert(seen.contains(fresh[i]));
    }
    assert forall|i: int| 0 <= i < m.clocks.len() && !live[i] implies !clocks.contains(
        #[trigger] m.clocks[i],
    ) by {
        assert(m.clocks.take(m.clocks.len() as int) =~= m.clocks);
        assert(!k.contains(m.clocks[i]));
        assert(m.seen.contains(m.clocks[i]));
        if clocks.contains(m.clocks[i]) {
            let j = choose|j: int| 0 <= j < clocks.len() && clocks[j] == m.clocks[i];
            if j < k.len() {
                assert(k[j] == clocks[j]);
            } else {
                assert(batch[j - k.len()] == clocks[j]);
            }
        }
    }
    if !assign {
        assert(m.clocks.take(m.clocks.len() as int) =~= m.clocks);
    }
    assert forall|i: int|
        0 <= i < m.clocks.len() && live[i] && assign && keys.contains(m.clocks[i]) implies clocks.contains(
        #[trigger] m.clocks[i],
    ) by {
        assert(m.clocks.take(m.clocks.len() as int) =~= m.clocks);
        assert(seen.contains(m.clocks[i]));
        assert(k.contains(m.clocks[i]));
        let j = choose|j: int| 0 <= j < k.len() && k[j] == m.clocks[i];
        assert(clocks[j] == k[j]);
    }
}

/// Every occurrence of `y` among the first `n` keys comes after some
/// occurrence of `x`.
pub open spec fn precedes_within(keys: Seq<MotionKeyModel>, n: int, x: MotionKeyModel, y: MotionKeyModel) -> bool {
    forall|j: int| 0 <= j < n && #[trigger] keys[j] == y ==> keys.take(j).contains(x)
}

/// The first occurrences come in roll-call order.
proof fn lemma_first_occurrences_order(keys: Seq<MotionKeyModel>, n: nat)
    requires
        n <= keys.len(),
    ensures
        forall|a: int, b: int|
            0 <= a < b < first_occurrences(keys, n).len() ==> precedes_within(
                keys,
                n as int,
                #[trigger] first_occurrences(keys, n)[a],
                #[trigger] first_occurrences(keys, n)[b],
            ),
    decreases n,
{
    if n > 0 {
        let m = (n - 1) as nat;
        lemma_first_occurrences_order(keys, m);
        lemma_first_occurrences(keys, m);
        let d = first_occurrences(keys, m);
        let c = keys[m as int];
        let f = first_occurrences(keys, n);
        assert forall|a: int, b: int| 0 <= a < b < f.len() implies precedes_within(
            keys,
            n as int,
            #[trigger] f[a],
            #[trigger] f[b],
        ) by {
            assert(f[a] == d[a]);
            assert(d.contains(d[a]));
            assert(keys.take(m as int).contains(d[a]));
            assert forall|j: int| 0 <= j < n && #[trigger] keys[j] == f[b] implies keys.take(
                j,
            ).contains(f[a]) by {
                if j < m {
                    if b < d.len() {
                        assert(f[b] == d[b]);
                        assert(precedes_within(keys, m as int, d[a], d[b]));
                    } else {
                        // the new identity occurs nowhere before position m
                        assert(f[b] == c);
                        assert(keys.take(m as int)[j] == c);
                        assert(keys.take(m as int).contains(c));
                    }
                }
            }
        }
    }
}

/// Keys that a text has and a set lacks are all among the unseen ones.
proof fn lemma_unseen_complete(d: Seq<MotionKeyModel>, seen: Seq<MotionKeyModel>, n: nat)
    requires
        n <= d.len(),
    ensures
        forall|k: MotionKeyModel|
            d.take(n as int).contains(k) && !seen.contains(k) ==> unseen(d, seen, n).contains(k),
    decreases n,
{
    if n > 0 {
        let m = (n - 1) as nat;
        lemma_unseen_complete(d, seen, m);
        let u = unseen(d, seen, m);
        assert(d.take(n as int) =~= d.take(m as int).push(d[m as int]));
        lemma_push_contains(d.take(m as int), d[m as int]);
        lemma_push_contains(u, d[m as int]);
        assert forall|k: MotionKeyModel|
            d.take(n as int).contains(k) && !seen.contains(k) implies unseen(d, seen, n).contains(
            k,
        ) by {
            assert(d.take(m as int).push(d[m as int]).contains(k) <==> (d.take(m as int).contains(
                k,
            ) || k == d[m as int]));
            assert(u.push(d[m as int]).contains(k) <==> (u.contains(k) || k == d[m as int]));
        }
    }
}

/// The unseen keys keep the order of the keys they are drawn from.
proof fn lemma_unseen_order(
    d: Seq<MotionKeyModel>,
    seen: Seq<MotionKeyModel>,
    n: nat,
    keys: Seq<MotionKeyModel>,
    limit: int,
)
    requires
        n <= d.len(),
        distinct(d),
        forall|a: int, b: int|
            0 <= a < b < d.len() ==> precedes_within(keys, limit, #[trigger] d[a], #[trigger] d[b]),
    ensures
        forall|a: int, b: int|
            0 <= a < b < unseen(d, seen, n).len() ==> precedes_within(
                keys,
                limit,
                #[trigger] unseen(d, seen, n)[a],
                #[trigger] unseen(d, seen, n)[b],
            ),
    decreases n,
{
    if n > 0 {
        let m = (n - 1) as nat;
        lemma_unseen_order(d, seen, m, keys, limit);
        lemma_unseen(d, seen, m);
        let u = unseen(d, seen, m);
        let r = unseen(d, seen, n);
        assert forall|a: int, b: int| 0 <= a < b < r.len() implies precedes_within(
            keys,
            limit,
            #[trigger] r[a],
            #[trigger] r[b],
        ) by {
            assert(r[a] == u[a]);
            if b < u.len() {
                assert(r[b] == u[b]);
            } else {
                assert(r[b] == d[m as int]);
                assert(u.contains(u[a]));
                assert(d.take(m as int).contains(u[a]));
                let x = choose|x: int| 0 <= x < m && d.take(m as int)[x] == u[a];
                assert(d[x] == u[a]);
            }
        }
    }
}

/// The fresh identities of a roll call, in roll-call order.
pub open spec fn fresh_of(m: RosterModel, keys: Seq<MotionKeyModel>) -> Seq<MotionKeyModel> {
    unseen(first_occurrences(keys, keys.len()), m.seen, first_occurrences(keys, keys.len()).len())
}

/// What the fresh identities are: distinct, in roll-call order, and exactly
/// the roll call's identities that the roster had not seen.
proof fn lemma_fresh_facts(m: RosterModel, keys: Seq<MotionKeyModel>)
    ensures
        distinct(fresh_of(m, keys)),
        forall|a: int, b: int|
            0 <= a < b < fresh_of(m, keys).len() ==> precedes_within(
                keys,
                keys.len() as int,
                #[trigger] fresh_of(m, keys)[a],
                #[trigger] fresh_of(m, keys)[b],
            ),
        forall|k: MotionKeyModel|
            keys.contains(k) && !m.seen.contains(k) ==> fresh_of(m, keys).contains(k),
{
    let seen = first_occurrences(keys, keys.len());
    lemma_first_occurrences(keys, keys.len());
    lemma_first_occurrences_order(keys, keys.len());
    lemma_unseen(seen, m.seen, seen.len());
    lemma_unseen_complete(seen, m.seen, seen.len());
    lemma_unseen_order(seen, m.seen, seen.len(), keys, keys.len() as int);
    assert(keys.take(keys.len() as int) =~= keys);
    assert(seen.take(seen.len() as int) =~= seen);
}

/// A prefix of the fresh identities passes none over.
proof fn lemma_prefix_skips_none(
    m: RosterModel,
    keys: Seq<MotionKeyModel>,
    batch: Seq<MotionKeyModel>,
    t: int,
)
    requires
        0 <= t <= fresh_of(m, keys).len(),
        batch == fresh_of(m, keys).take(t),
    ensures
        forall|i: int, j: int|
            0 <= i < j < keys.len() && batch.contains(#[trigger] keys[j]) && !keys.take(j).contains(
                keys[j],
            ) && !m.seen.contains(#[trigger] keys[i]) ==> batch.contains(keys[i]),
{
    lemma_fresh_facts(m, keys);
    let fresh = fresh_of(m, keys);
    assert forall|i: int, j: int|
        0 <= i < j < keys.len() && batch.contains(#[trigger] keys[j]) && !keys.take(j).contains(
            keys[j],
        ) && !m.seen.contains(#[trigger] keys[i]) implies batch.contains(keys[i]) by {
        if keys[i] != keys[j] {
            assert(keys.contains(keys[i]));
            assert(fresh.contains(keys[i]));
            let p = choose|p: int| 0 <= p < fresh.len() && fresh[p] == keys[i];
            let q = choose|q: int| 0 <= q < batch.len() && batch[q] == keys[j];
            assert(fresh[q] == batch[q]);
            if p >= batch.len() {
                assert(precedes_within(keys, keys.len() as int, fresh[q], fresh[p]));
                assert(keys.take(i).contains(keys[j]));
                let x = choose|x: int| 0 <= x < i && keys.take(i)[x] == keys[j];
                assert(keys.take(j)[x] == keys[j]);
            } else {
                assert(batch[p] == fresh[p]);
            }
        }
    }
}

/// A roll call's batch is the first of the identities not seen before, in
/// roll-call order:
/// - batch members keep roll-call order: every occurrence of a later member
///   comes after an occurrence of an earlier one;
/// - no new identity is passed over: one that first appears in the roll call
///   before a batch member's first appearance is itself in the batch;
/// - when the roll call cascades, either the clocks are full or every new
///   identity of the roll call is in the batch.
pub proof fn lemma_batch_is_first_new(
    m: RosterModel,
    keys: Seq<MotionKeyModel>,
    assign: bool,
    live: Seq<bool>,
)
    requires
        roster_ok(m),
        live.len() == m.clocks.len(),
    ensures
        forall|a: int, b: int|
            0 <= a < b < roll_call(m, keys, assign, live).1.len() ==> precedes_within(
                keys,
                keys.len() as int,
                #[trigger] roll_call(m, keys, assign, live).1[a],
                #[trigger] roll_call(m, keys, assign, live).1[b],
            ),
        forall|i: int, j: int|
            0 <= i < j < keys.len() && roll_call(m, keys, assign, live).1.contains(
                #[trigger] keys[j],
            ) && !keys.take(j).contains(keys[j]) && !m.seen.contains(#[trigger] keys[i])
                ==> roll_call(m, keys, assign, live).1.contains(keys[i]),
        m.primed && assign ==> (roll_call(m, keys, assign, live).0.clocks.len()
            == STAGGER_PARTICIPANTS || forall|k: MotionKeyModel|
            keys.contains(k) && !m.seen.contains(k) ==> roll_call(
                m,
                keys,
                assign,
                live,
            ).1.contains(k)),
{
    let seen = first_occurrences(keys, keys.len());
    let fresh = fresh_of(m, keys);
    let batch = roll_call(m, keys, assign, live).1;
    lemma_fresh_facts(m, keys);
    lemma_kept(m.clocks, live, seen, assign, m.clocks.len());
    assert(m.clocks.take(m.clocks.len() as int) =~= m.clocks);
    let t: int = if m.primed && assign {
        at_most(fresh.len() as int, STAGGER_PARTICIPANTS - kept(m.clocks, live, seen, assign, m.clocks.len()).len())
    } else {
        0
    };
    assert(batch =~= fresh.take(t));
    lemma_prefix_skips_none(m, keys, batch, t);
    assert forall|a: int, b: int| 0 <= a < b < batch.len() implies precedes_within(
        keys,
        keys.len() as int,
        #[trigger] batch[a],
        #[trigger] batch[b],
    ) by {
        assert(batch[a] == fresh[a]);
        assert(batch[b] == fresh[b]);
    }
    if m.primed && assign && t == fresh.len() {
        assert(batch =~= fresh);
    }
}

/// Arrival bookkeeping for one owner: which identities the last roll call
/// named, and which of them hold an arrival clock.
#[derive(Debug)]
pub struct ArrivalRoster {
    primed: bool,
    seen: Vec<MotionKey>,
    clocks: Vec<MotionKey>,
}

impl View for ArrivalRoster {
    type V = RosterModel;

    closed spec fn view(&self) -> RosterModel {
        RosterModel { primed: self.primed, seen: keys_view(self.seen@), clocks: keys_view(self.clocks@) }
    }
}

/// Whether `v` holds `k`.
fn holds(v: &Vec<MotionKey>, k: &MotionKey) -> (r: bool)
    ensures
        r == keys_view(v@).contains(k@),
{
    let mut i: usize = 0;
    while i < v.len()
        invariant
            i <= v.len(),
            forall|j: int| 0 <= j < i ==> v@[j]@ != k@,
        decreases v.len() - i,
    {
        if same_key(&v[i], k) {
            assert(keys_view(v@)[i as int] == k@);
            return true;
        }
        i += 1;
    }
    assert forall|j: int| 0 <= j < keys_view(v@).len() implies keys_view(v@)[j] != k@ by {
        assert(v@[j]@ != k@);
    }
    false
}

impl ArrivalRoster {
    /// A roster that has taken no roll call.
    pub fn new() -> (r: Self)
        ensures
            r@ == (RosterModel { primed: false, seen: Seq::empty(), clocks: Seq::empty() }),
            roster_ok(r@),
    {
        let r = ArrivalRoster { primed: false, seen: Vec::new(), clocks: Vec::new() };
        assert(keys_view(r.seen@) =~= Seq::empty());
        assert(keys_view(r.clocks@) =~= Seq::empty());
        r
    }

    /// The identities holding an arrival clock, in no particular order.
    pub fn clock_keys(&self) -> (r: &Vec<MotionKey>)
        ensures
            keys_view(r@) == self@.clocks,
    {
        &self.clocks
    }

    /// How many identities the last roll call named.
    pub fn seen_count(&self) -> (r: usize)
        ensures
            r == self@.seen.len(),
    {
        self.seen.len()
    }

    /// How many identities hold an arrival clock.
    pub fn clock_count(&self) -> (r: usize)
        ensures
            r == self@.clocks.len(),
    {
        self.clocks.len()
    }

    /// Whether `key` holds an arrival clock.
    pub fn has_clock(&self, key: &MotionKey) -> (r: bool)
        ensures
            r == self@.clocks.contains(key@),
    {
        holds(&self.clocks, key)
    }

    /// Takes the roll call of this render's identities `keys`, where the
    /// caller reports for each current clock, in the order of
    /// [`clock_keys`](Self::clock_keys), whether it is still `live`. Returns
    /// the identities that start an arrival, in cascade order: one
    /// decelerating cascade for the identities not seen before, when
    /// `assign` holds.
    pub fn note(&mut self, keys: &Vec<MotionKey>, assign: bool, live: &Vec<bool>) -> (batch: Vec<
        MotionKey,
    >)
        requires
            roster_ok(old(self)@),
            live@.len() == old(self)@.clocks.len(),
        ensures
            (final(self)@, keys_view(batch@)) == roll_call(
                old(self)@,
                keys_view(keys@),
                assign,
                live@,
            ),
            roster_ok(final(self)@),
    {
        let ghost kv = keys_view(keys@);
        let ghost old_m = self@;
        // the identities of this roll call
        let mut seen_now: Vec<MotionKey> = Vec::new();
        let mut i: usize = 0;
        while i < keys.len()
            invariant
                i <= keys.len(),
                kv == keys_view(keys@),
                keys_view(seen_now@) == first_occurrences(kv, i as nat),
            decreases keys.len() - i,
        {
            if !holds(&seen_now, &keys[i]) {
                let k = copy_key(&keys[i]);
                seen_now.push(k);
                assert(keys_view(seen_now@) =~= first_occurrences(kv, (i + 1) as nat));
            } else {
                assert(kv[i as int] == keys@[i as int]@);
            }
            i += 1;
        }
        let ghost seen_m = keys_view(seen_now@);
        // the clocks that survive
        let mut kept_now: Vec<MotionKey> = Vec::new();
        let mut j: usize = 0;
        while j < self.clocks.len()
            invariant
                j <= self.clocks.len(),
                live@.len() == self.clocks.len(),
                self@ == old_m,
                seen_m == keys_view(seen_now@),
                keys_view(kept_now@) == kept(old_m.clocks, live@, seen_m, assign, j as nat),
            decreases self.clocks.len() - j,
        {
            assert(old_m.clocks[j as int] == self.clocks@[j as int]@);
            if assign && holds(&seen_now, &self.clocks[j]) && live[j] {
                let k = copy_key(&self.clocks[j]);
                kept_now.push(k);
                assert(keys_view(kept_now@) =~= kept(
                    old_m.clocks,
                    live@,
                    seen_m,
                    assign,
                    (j + 1) as nat,
                ));
            }
            j += 1;
        }
        // the identities not seen before, in order
        let mut fresh: Vec<MotionKey> = Vec::new();
        let mut t: usize = 0;
        while t < seen_now.len()
            invariant
                t <= seen_now.len(),
                self@ == old_m,
                seen_m == keys_view(seen_now@),
                keys_view(fresh@) == unseen(seen_m, old_m.seen, t as nat),
            decreases seen_now.len() - t,
        {
            assert(seen_m[t as int] == seen_now@[t as int]@);
            if !holds(&self.seen, &seen_now[t]) {
                let k = copy_key(&seen_now[t]);
                fresh.push(k);
                assert(keys_view(fresh@) =~= unseen(seen_m, old_m.seen, (t + 1) as nat));
            }
            t += 1;
        }
        proof {
            lemma_kept(old_m.clocks, live@, seen_m, assign, old_m.clocks.len());
            lemma_roll_call_keeps_roster(old_m, kv, assign, live@);
        }
        let room: usize = STAGGER_PARTICIPANTS - kept_now.len();
        let take: usize = if fresh.len() < room {
            fresh.len()
        } else {
            room
        };
        let mut batch: Vec<MotionKey> = Vec::new();
        if self.primed && assign {
            let mut b: usize = 0;
            while b < take
                invariant
                    b <= take,
                    take <= fresh.len(),
                    keys_view(batch@) == keys_view(fresh@).take(b as int),
                decreases take - b,
            {
                let k = copy_key(&fresh[b]);
                proof {
                    lemma_keys_view_push(batch@, k);
                }
                batch.push(k);
                assert(keys_view(batch@) =~= keys_view(fresh@).take((b + 1) as int));
                b += 1;
            }
        }
        let mut clocks = kept_now;
        let mut c: usize = 0;
        let ghost kept_m = keys_view(clocks@);
        while c < batch.len()
            invariant
                c <= batch.len(),
                keys_view(clocks@) == kept_m + keys_view(batch@).take(c as int),
            decreases batch.len() - c,
        {
            let k = copy_key(&batch[c]);
            proof {
                lemma_keys_view_push(clocks@, k);
            }
            clocks.push(k);
            assert(keys_view(clocks@) =~= kept_m + keys_view(batch@).take((c + 1) as int));
            c += 1;
        }
        assert(keys_view(batch@).take(batch.len() as int) =~= keys_view(batch@));
        assert(first_occurrences(kv, kv.len()) == seen_m);
        self.primed = true;
        self.seen = seen_now;
        self.clocks = clocks;
        proof {
            if !(old_m.primed && assign) {
                assert(keys_view(batch@) =~= Seq::empty());
            }
        }
        batch
    }

    /// Retires the clock of `key`, once it settles or motion is reduced;
    /// every other clock stays.
    pub fn retire(&mut self, key: &MotionKey)
        requires
            roster_ok(old(self)@),
        ensures
            final(self)@ == (RosterModel {
                clocks: without(old(self)@.clocks, key@, old(self)@.clocks.len()),
                ..old(self)@
            }),
            !final(self)@.clocks.contains(key@),
            roster_ok(final(self)@),
    {
        let ghost old_m = self@;
        let mut rest: Vec<MotionKey> = Vec::new();
        let mut i: usize = 0;
        while i < self.clocks.len()
            invariant
                i <= self.clocks.len(),
                old_m == self@,
                keys_view(rest@) == without(old_m.clocks, key@, i as nat),
            decreases self.clocks.len() - i,
        {
            assert(old_m.clocks[i as int] == self.clocks@[i as int]@);
            if !same_key(&self.clocks[i], key) {
                let k = copy_key(&self.clocks[i]);
                rest.push(k);
            }
            assert(keys_view(rest@) =~= without(old_m.clocks, key@, (i + 1) as nat));
            i += 1;
        }
        proof {
            lemma_without(old_m.clocks, key@, old_m.clocks.len());
            assert(old_m.clocks.take(old_m.clocks.len() as int) =~= old_m.clocks);
            let f = without(old_m.clocks, key@, old_m.clocks.len());
            assert forall|a: int| 0 <= a < f.len() implies old_m.seen.contains(#[trigger] f[a]) by {
                assert(f.contains(f[a]));
                let b = choose|b: int| 0 <= b < old_m.clocks.len() && old_m.clocks.take(
                    old_m.clocks.len() as int,
                )[b] == f[a];
                assert(old_m.seen.contains(old_m.clocks[b]));
            }
        }
        self.clocks = rest;
    }
}

} // verus!
