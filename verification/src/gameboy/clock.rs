use vstd::prelude::*;

verus! {

/// The frequency of the clock, in T-cycles per second.
pub const FREQUENCY: usize = 4_194_304;

/// The count after one more T-cycle: it wraps to 0 after the largest `usize`.
pub open spec fn next_count(count: usize) -> usize {
    if count == usize::MAX { 0 } else { (count + 1) as usize }
}

/// Counts T-cycles, wrapping around.
#[derive(Debug, Clone, Copy, PartialEq, Eq, PartialOrd, Ord, Hash)]
pub struct Clock {
    t_cycle_count: usize,
}

impl Clock {
    /// The number of T-cycles counted, modulo the size of a `usize`.
    pub closed spec fn spec_count(&self) -> usize {
        self.t_cycle_count
    }

    /// A clock at zero.
    pub fn new() -> (r: Self)
        ensures
            r.spec_count() == 0,
    {
        Self { t_cycle_count: 0 }
    }

    /// The number of T-cycles counted.
    pub fn t_cycle_count(&self) -> (r: usize)
        ensures
            r == self.spec_count(),
    {
        self.t_cycle_count
    }

    /// Counts one T-cycle.
    pub fn tick(&mut self)
        ensures
            final(self).spec_count() == next_count(old(self).spec_count()),
    {
        self.t_cycle_count = self.t_cycle_count.wrapping_add(1);
    }

    /// Whether this T-cycle starts a machine cycle (one in four).
    pub fn is_m_cycle(&self) -> (r: bool)
        ensures
            r == (self.spec_count() % 4 == 0),
    {
        self.t_cycle_count % 4 == 0
    }

    /// Whether the sound unit produces a sample on this T-cycle (one in two).
    pub fn is_apu_cycle(&self) -> (r: bool)
        ensures
            r == (self.spec_count() % 2 == 0),
    {
        self.t_cycle_count % 2 == 0
    }
}

impl Default for Clock {
    fn default() -> (r: Self)
        ensures
            r.spec_count() == 0,
    {
        Self::new()
    }
}

/// Machine cycles come every four T-cycles, also across the wrap of the counter.
pub proof fn lemma_m_cycle_period(count: usize)
    ensures
        next_count(next_count(next_count(next_count(count)))) % 4 == count % 4,
{
    assert(usize::MAX == 0xffff_ffff || usize::MAX == 0xffff_ffff_ffff_ffff);
}

/// The count after `n` more T-cycles from `count`.
pub open spec fn count_after(count: usize, n: nat) -> usize
    decreases n,
{
    if n == 0 { count } else { count_after(next_count(count), (n - 1) as nat) }
}

/// A clock started at zero counts the T-cycles modulo the size of a `usize`; after `n` of
/// them a machine cycle starts exactly when `n` is a multiple of 4 and the sound unit
/// samples exactly when `n` is even (so every machine cycle is also a sampling cycle).
pub proof fn lemma_clock_after(n: nat)
    ensures
        count_after(0, n) == n % (usize::MAX as nat + 1),
        (count_after(0, n) % 4 == 0) == (n % 4 == 0),
        (count_after(0, n) % 2 == 0) == (n % 2 == 0),
    decreases n,
{
    let m = usize::MAX as nat + 1;
    assert(m == 0x1_0000_0000 || m == 0x1_0000_0000_0000_0000) by {
        assert(usize::MAX == 0xffff_ffff || usize::MAX == 0xffff_ffff_ffff_ffff);
    }
    if n > 0 {
        lemma_count_after_split((n - 1) as nat);
        lemma_clock_after((n - 1) as nat);
        let x = count_after(0, (n - 1) as nat);
        assert(next_count(x) == (x + 1) % (m as int)) by {
            if x == usize::MAX {
                assert((x + 1) % (m as int) == 0) by { vstd::arithmetic::div_mod::lemma_mod_self_0(m as int); }
            } else {
                vstd::arithmetic::div_mod::lemma_small_mod((x + 1) as nat, m);
            }
        }
        vstd::arithmetic::div_mod::lemma_add_mod_noop((n - 1) as int, 1, m as int);
        vstd::arithmetic::div_mod::lemma_small_mod(1, m);
    }
    let c = count_after(0, n);
    assert(c % 4 == n % 4 && c % 2 == n % 2) by {
        let k = (m / 4) as int;
        assert(m == 4 * k);
        vstd::arithmetic::div_mod::lemma_mod_mod(n as int, 4, k);
        vstd::arithmetic::div_mod::lemma_mod_mod(n as int, 2, 2 * k);
        assert((n as int) % (2 * (2 * k)) == (n as int) % (m as int));
    }
}

/// Counting `n + 1` cycles is counting `n` of them, then one more.
proof fn lemma_count_after_split(n: nat)
    ensures
        count_after(0, n + 1) == next_count(count_after(0, n)),
    decreases n,
{
    lemma_count_after_shift(0, n);
}

proof fn lemma_count_after_shift(count: usize, n: nat)
    ensures
        count_after(count, n + 1) == next_count(count_after(count, n)),
    decreases n,
{
    reveal_with_fuel(count_after, 2);
    if n > 0 {
        lemma_count_after_shift(next_count(count), (n - 1) as nat);
    }
}

} // verus!
