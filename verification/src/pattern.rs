//! Blink pattern engine: a pure map from a tick counter and a bitmask to
//! an output level, evaluated once per timer interrupt.
use vstd::prelude::*;

verus! {

/// The level driven onto the digital output after a timer tick.
#[derive(Clone, Copy, PartialEq, Eq, Structural, Debug)]
pub enum OutputLevel {
    High,
    Low,
}

/// The level the pattern engine selects for tick `t` under mask `m`:
/// low exactly when every bit of the mask is set in the tick counter.
pub open spec fn spec_next_level(t: u32, m: u32) -> OutputLevel {
    if t & m == m {
        OutputLevel::Low
    } else {
        OutputLevel::High
    }
}

/// Pure pattern step: decides the output level for the current tick.
pub fn next_level(tick: u32, mask: u32) -> (r: OutputLevel)
    ensures
        r == spec_next_level(tick, mask),
{
    if tick & mask == mask {
        OutputLevel::Low
    } else {
        OutputLevel::High
    }
}

/// One full timer-interrupt step of the engine: the level for the current
/// tick, and the tick counter advanced by one (wrapping at the top).
pub fn tick_step(tick: u32, mask: u32) -> (r: (OutputLevel, u32))
    ensures
        r.0 == spec_next_level(tick, mask),
        r.1 == (tick + 1) % 0x1_0000_0000,
{
    let level = next_level(tick, mask);
    let next = if tick == 0xffff_ffffu32 {
        0u32
    } else {
        tick + 1
    };
    (level, next)
}

/// The level depends on the tick only through the test `t & m == m`:
/// two ticks that agree on that test get the same level.
pub proof fn lemma_next_level_deterministic(t1: u32, t2: u32, m: u32)
    requires
        (t1 & m == m) == (t2 & m == m),
    ensures
        spec_next_level(t1, m) == spec_next_level(t2, m),
{
}

/// Adding a power of two that lies above every bit of the mask does not
/// change the masked bits, so the pattern repeats with that period.
pub proof fn lemma_next_level_periodic(t: u32, m: u32, j: u32)
    requires
        j < 32,
        m < (1u32 << j),
    ensures
        spec_next_level(((t + (1u32 << j)) % 0x1_0000_0000) as u32, m) == spec_next_level(t, m),
{
    assert(((t + (1u32 << j)) % 0x1_0000_0000) as u32 & m == t & m) by (bit_vector)
        requires
            j < 32,
            m < (1u32 << j),
    ;
}

/// The repeat is not faster than a full period: when the mask is the
/// whole test (its highest set bit is bit `j - 1`), the tick `m` itself
/// and the tick `m + 2^(j-1)` get different levels, so `2^(j-1)` is not
/// a period of the pattern.
pub proof fn lemma_half_period_differs(m: u32, j: u32)
    requires
        1 <= j < 32,
        m < (1u32 << j),
        m >= (1u32 << (j - 1) as u32),
    ensures
        spec_next_level(m, m) != spec_next_level(
            ((m + (1u32 << (j - 1) as u32)) % 0x1_0000_0000) as u32,
            m,
        ),
{
    assert(m & m == m) by (bit_vector);
    assert(((m + (1u32 << (j - 1) as u32)) % 0x1_0000_0000) as u32 & m != m) by (bit_vector)
        requires
            1 <= j < 32,
            m < (1u32 << j),
            m >= (1u32 << (j - 1) as u32),
    ;
}

/// The pattern's period is two to the highest set bit of the mask plus
/// one: with `k` the highest set bit of `m`, the level repeats every
/// `2^(k+1)` ticks, and `2^k` ticks are not enough.
pub proof fn lemma_pattern_period(t: u32, m: u32, k: u32)
    requires
        k < 31,
        (1u32 << k) <= m < (1u32 << (k + 1) as u32),
    ensures
        spec_next_level(((t + (1u32 << (k + 1) as u32)) % 0x1_0000_0000) as u32, m)
            == spec_next_level(t, m),
        spec_next_level(m, m) != spec_next_level(
            ((m + (1u32 << k)) % 0x1_0000_0000) as u32,
            m,
        ),
{
    lemma_next_level_periodic(t, m, (k + 1) as u32);
    lemma_half_period_differs(m, (k + 1) as u32);
}

} // verus!
