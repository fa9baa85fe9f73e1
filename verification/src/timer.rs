use vstd::prelude::*;

verus! {

/// A counter after one tick: one less, but never below zero.
pub open spec fn tick(counter: u8) -> u8 {
    if counter > 0 {
        (counter - 1) as u8
    } else {
        0
    }
}

/// A counter after `n` ticks.
pub open spec fn ticks(counter: u8, n: nat) -> u8
    decreases n,
{
    if n == 0 {
        counter
    } else {
        tick(ticks(counter, (n - 1) as nat))
    }
}

/// A counter loses one per tick until it is zero, and then stays zero: after
/// `n` ticks a counter that began at `counter` holds `counter - n`, or zero
/// once `n` has reached `counter`.
pub proof fn lemma_ticks(counter: u8, n: nat)
    ensures
        ticks(counter, n) == (if n >= counter {
            0
        } else {
            counter - n
        }),
    decreases n,
{
    if n > 0 {
        lemma_ticks(counter, (n - 1) as nat);
    }
}

} // verus!
