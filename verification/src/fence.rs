//! Fenced markdown blocks whose content cannot break out of its fence.
//!
//! A block of code is shown through markdown by wrapping it in a fence of
//! backticks. A fence is closed by a run of at least as many backticks, so
//! the fence is chosen one longer than the longest run inside the content,
//! and never shorter than the conventional three.

use vstd::prelude::*;
use crate::text::push_char;

verus! {

/// `s` holds `n` backticks in a row from position `i`.
pub open spec fn run_at(s: Seq<char>, i: int, n: nat) -> bool {
    &&& 0 <= i
    &&& i + n <= s.len()
    &&& forall|k: int| i <= k < i + n ==> s[k] == '`'
}

/// `s` holds a run of `n` backticks somewhere.
pub open spec fn has_run(s: Seq<char>, n: nat) -> bool {
    exists|i: int| run_at(s, i, n)
}

/// `n` backticks.
pub open spec fn backticks(n: nat) -> Seq<char> {
    Seq::new(n, |_i: int| '`')
}

/// A fence of `n` backticks suits content `s`: it is at least three long,
/// no run in `s` is as long, and it is no longer than it needs to be.
pub open spec fn fence_ok(s: Seq<char>, n: nat) -> bool {
    &&& n >= 3
    &&& !has_run(s, n)
    &&& (n == 3 || has_run(s, (n - 1) as nat))
}

/// The fence length that suits `s` (there is exactly one).
pub open spec fn fence_width(s: Seq<char>) -> nat {
    choose|n: nat| fence_ok(s, n)
}

/// No run of `n` backticks lies within the first `limit` characters of `s`.
pub open spec fn no_run_before(s: Seq<char>, n: nat, limit: int) -> bool {
    forall|j: int| #[trigger] run_at(s, j, n) ==> j + n > limit
}

/// A run of backticks holds every shorter run from its start.
proof fn lemma_run_shrinks(s: Seq<char>, i: int, n: nat, m: nat)
    requires
        run_at(s, i, n),
        m <= n,
    ensures
        run_at(s, i, m),
{
}

/// The length of the longest run of backticks in `s`.
///
/// The result is a run that `s` holds, and `s` holds no longer one.
pub fn longest_backtick_run(s: &Vec<char>) -> (r: usize)
    ensures
        has_run(s@, r as nat),
        !has_run(s@, r as nat + 1),
        r <= s@.len(),
{
    let mut best: usize = 0;
    let mut cur: usize = 0;
    let mut i: usize = 0;
    proof {
        assert(run_at(s@, 0, 0));
    }
    while i < s.len()
        invariant
            i <= s.len(),
            cur <= i,
            cur <= best,
            run_at(s@, i - cur, cur as nat),
            cur < i ==> s@[i - cur - 1] != '`',
            has_run(s@, best as nat),
            no_run_before(s@, best as nat + 1, i as int),
        decreases s.len() - i,
    {
        let c = s[i];
        let ghost old_best = best;
        let ghost old_cur = cur;
        if c == '`' {
            cur = cur + 1;
            if cur > best {
                best = cur;
            }
            proof {
                assert(run_at(s@, i + 1 - cur, cur as nat));
                if best == cur {
                    assert(run_at(s@, i + 1 - best, best as nat));
                }
                let ghost b1: nat = best as nat + 1;
                assert forall|j: int| #[trigger] run_at(s@, j, b1) implies j + b1 > i + 1 by {
                    if j + b1 <= i + 1 {
                        if j + best + 1 <= i {
                            lemma_run_shrinks(s@, j, best as nat + 1, old_best as nat + 1);
                        } else {
                            // the run ends at position i, so it extends the
                            // trailing run past its first backtick
                            assert(j + best + 1 == i + 1);
                            assert(j < i + 1 - cur);
                            let k = i - old_cur - 1;
                            if old_cur < i {
                                assert(j <= k);
                                assert(s@[k] == '`');
                            } else {
                                assert(j < 0);
                            }
                        }
                    }
                }
            }
        } else {
            cur = 0;
            proof {
                assert(run_at(s@, i + 1, 0));
                let ghost b1: nat = best as nat + 1;
                assert forall|j: int| #[trigger] run_at(s@, j, b1) implies j + b1 > i + 1 by {
                    if j + b1 <= i + 1 {
                        if j + best + 1 == i + 1 {
                            assert(s@[i as int] == '`');
                        }
                    }
                }
            }
        }
        i += 1;
    }
    best
}

/// A fence of `n` backticks.
pub fn fence_of(n: usize) -> (r: String)
    ensures
        r@ == backticks(n as nat),
{
    let mut out = String::new();
    let mut i: usize = 0;
    while i < n
        invariant
            i <= n,
            out@ == backticks(i as nat),
        decreases n - i,
    {
        push_char(&mut out, '`');
        i += 1;
        assert(out@ =~= backticks(i as nat));
    }
    out
}

/// The fence for `content`: one backtick longer than its longest run, and
/// at least three. No run inside the content is as long as the fence, and
/// no shorter fence of at least three backticks has that property.
pub fn fence_for(content: &Vec<char>) -> (r: String)
    requires
        content@.len() < usize::MAX,
    ensures
        r@ == backticks(fence_width(content@)),
        fence_ok(content@, fence_width(content@)),
{
    let longest = longest_backtick_run(content);
    let n: usize = if longest + 1 > 3 {
        longest + 1
    } else {
        3
    };
    proof {
        if n > longest + 1 {
            assert forall|i: int| !run_at(content@, i, n as nat) by {
                if run_at(content@, i, n as nat) {
                    lemma_run_shrinks(content@, i, n as nat, longest as nat + 1);
                }
            }
        }
        assert(fence_ok(content@, n as nat));
        let w = fence_width(content@);
        lemma_fence_is_shortest(content@, n as nat, w);
        lemma_fence_is_shortest(content@, w, n as nat);
    }
    fence_of(n)
}

/// The fence that [`fence_for`] picks is the shortest fence of at least
/// three backticks that the content cannot close: any length `m` of at least
/// three with no run of `m` backticks in the content is at least as long.
pub proof fn lemma_fence_is_shortest(content: Seq<char>, n: nat, m: nat)
    requires
        n >= 3,
        !has_run(content, n),
        n == 3 || has_run(content, (n - 1) as nat),
        m >= 3,
        !has_run(content, m),
    ensures
        n <= m,
{
    if n > m && n != 3 {
        let k: nat = (n - 1) as nat;
        let i = choose|i: int| #[trigger] run_at(content, i, k);
        lemma_run_shrinks(content, i, k, m);
    }
}

} // verus!
