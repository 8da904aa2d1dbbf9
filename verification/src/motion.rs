//! The motion policy's decisions: how much of the described motion runs once
//! the operating system's reduce-motion signal has composed with the
//! application's choice, and the integer bookkeeping the animation clocks
//! share.

use vstd::prelude::*;

verus! {

/// How much of the described motion actually runs.
///
/// Resolution follows the customization order: this default, then the
/// application's installed policy, then per-surface overrides where a
/// component exposes one. The OS reduce-motion signal composes with the
/// policy and can only restrict: under reduce motion the effective
/// preference is at least [`Crossfade`](Self::Crossfade), never less.
#[derive(Debug, Clone, Copy, PartialEq, Eq, PartialOrd, Ord, Hash, Structural)]
pub enum MotionPreference {
    /// Everything the policy describes: travel, springs, and loops.
    Full,
    /// Comprehension-aiding opacity only, at the quick tempo: no travel,
    /// no springs, no stagger delays, and no repeating loops beyond
    /// progress indication.
    Crossfade,
    /// State changes land in one frame.
    Snap,
}

impl Default for MotionPreference {
    fn default() -> (r: Self)
        ensures
            r == MotionPreference::Full,
    {
        MotionPreference::Full
    }
}

/// How restrained a preference is, in declaration order: the order the
/// derived `Ord` follows.
pub open spec fn restraint(p: MotionPreference) -> nat {
    match p {
        MotionPreference::Full => 0,
        MotionPreference::Crossfade => 1,
        MotionPreference::Snap => 2,
    }
}

/// The preference in effect for `policy` when the OS signal is
/// `reduce_motion`: the policy floored at crossfade under the signal.
pub open spec fn effective(policy: MotionPreference, reduce_motion: bool) -> MotionPreference {
    if reduce_motion && policy == MotionPreference::Full {
        MotionPreference::Crossfade
    } else {
        policy
    }
}

/// The preference actually in effect: the policy's own, floored at
/// [`MotionPreference::Crossfade`] while the OS asks for reduced motion.
/// Nothing a policy chooses wins motion back from the OS signal.
pub fn resolve_preference(policy: MotionPreference, reduce_motion: bool) -> (r: MotionPreference)
    ensures
        r == effective(policy, reduce_motion),
        restraint(r) >= restraint(policy),
        reduce_motion ==> restraint(r) >= 1,
        !reduce_motion ==> r == policy,
        restraint(r) == if reduce_motion && restraint(policy) < 1 {
            1
        } else {
            restraint(policy)
        },
{
    if reduce_motion {
        match policy {
            MotionPreference::Full => MotionPreference::Crossfade,
            other => other,
        }
    } else {
        policy
    }
}

/// Whether springs, reorders, drives and decorative loops may run at all
/// under the `effective` preference.
pub fn motion_is_full(effective: MotionPreference) -> (r: bool)
    ensures
        r == (effective == MotionPreference::Full),
{
    match effective {
        MotionPreference::Full => true,
        _ => false,
    }
}

/// How many stagger beats item `index` of a staggered reveal waits: its
/// index, capped at `cap` so long lists settle in a bounded time, as the
/// `u32` a duration is multiplied by (wrapping as `as u32` does).
pub fn stagger_steps(index: usize, cap: usize) -> (r: u32)
    ensures
        r as int == (if index < cap {
            index as int
        } else {
            cap as int
        }) % 0x1_0000_0000,
{
    let steps: usize = if index < cap {
        index
    } else {
        cap
    };
    ((steps as u64) % 0x1_0000_0000) as u32
}

/// A repeating loop with nothing to complete, which runs for as long as its
/// element is on screen. Its period is held in whole milliseconds.
#[derive(Debug, Clone, Copy, PartialEq, Eq, Structural)]
pub struct AmbientLoopSpec {
    /// One full cycle, in milliseconds. Choreographed phase offsets are
    /// fractions of this.
    pub period_ms: u64,
}

impl AmbientLoopSpec {
    /// Opacity breathing for "still working" indicators.
    pub fn breathing() -> (r: Self)
        ensures
            r.period_ms == 1600,
    {
        AmbientLoopSpec { period_ms: 1600 }
    }

    /// One cycle of the orb lattice.
    pub fn orb_lattice() -> (r: Self)
        ensures
            r.period_ms == 1700,
    {
        AmbientLoopSpec { period_ms: 1700 }
    }

    /// The cycle in whole milliseconds, for choreography that phases in
    /// integer beats.
    pub fn period_millis(self) -> (r: u64)
        ensures
            r == self.period_ms,
    {
        self.period_ms
    }
}

/// The key an animation is stable under: the identity of the element it
/// belongs to.
#[derive(Debug, Clone, PartialEq, Eq, Hash)]
pub enum MotionKey {
    /// Keyed by number alone.
    Integer(u64),
    /// Keyed by name alone.
    Name(String),
    /// Keyed by name and number, such as a position.
    NamedInteger(String, u64),
}

/// What a motion key holds, as numbers and text.
pub enum MotionKeyModel {
    Integer(u64),
    Name(Seq<char>),
    NamedInteger(Seq<char>, u64),
}

impl View for MotionKey {
    type V = MotionKeyModel;

    open spec fn view(&self) -> MotionKeyModel {
        match self {
            MotionKey::Integer(i) => MotionKeyModel::Integer(*i),
            MotionKey::Name(n) => MotionKeyModel::Name(n@),
            MotionKey::NamedInteger(n, i) => MotionKeyModel::NamedInteger(n@, *i),
        }
    }
}

/// Whether two keys name the same element.
pub fn same_key(a: &MotionKey, b: &MotionKey) -> (r: bool)
    ensures
        r == (a@ == b@),
{
    match (a, b) {
        (MotionKey::Integer(x), MotionKey::Integer(y)) => *x == *y,
        (MotionKey::Name(x), MotionKey::Name(y)) => *x == *y,
        (MotionKey::NamedInteger(x, i), MotionKey::NamedInteger(y, j)) => *x == *y && *i == *j,
        _ => false,
    }
}

/// A copy of `k`.
pub fn copy_key(k: &MotionKey) -> (r: MotionKey)
    ensures
        r@ == k@,
{
    match k {
        MotionKey::Integer(i) => MotionKey::Integer(*i),
        MotionKey::Name(n) => MotionKey::Name(n.clone()),
        MotionKey::NamedInteger(n, i) => MotionKey::NamedInteger(n.clone(), *i),
    }
}

/// A tally of the animation frames that reveals have asked for, so that
/// frame demand can be audited where it is created rather than inferred.
#[derive(Debug)]
pub struct RevealFrameRequests {
    count: usize,
}

impl View for RevealFrameRequests {
    type V = nat;

    closed spec fn view(&self) -> nat {
        self.count as nat
    }
}

impl RevealFrameRequests {
    /// A tally with nothing recorded.
    pub fn new() -> (r: Self)
        ensures
            r@ == 0,
    {
        RevealFrameRequests { count: 0 }
    }

    /// Records one animation frame requested by a reveal. The tally
    /// saturates rather than wrapping.
    pub fn note_reveal_frame_request(&mut self)
        ensures
            final(self)@ == if old(self)@ < usize::MAX {
                old(self)@ + 1
            } else {
                old(self)@
            },
    {
        if self.count < usize::MAX {
            self.count = self.count + 1;
        }
    }

    /// The frames requested since the last call, and resets the tally.
    pub fn take_reveal_frame_requests(&mut self) -> (r: usize)
        ensures
            r == old(self)@,
            final(self)@ == 0,
    {
        let taken = self.count;
        self.count = 0;
        taken
    }
}

} // verus!
