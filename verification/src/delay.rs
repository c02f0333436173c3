//! Destruction-delay schedule: the `i`-th unit of a reaction is destroyed
//! after an exact fraction of a second, `max(1/20, 5^i / (2 * 6^i))` — a
//! half second decayed by a factor of six fifths per step, floored at one
//! twentieth — so the rhythm accelerates and then holds steady.

use vstd::prelude::*;

verus! {

/// `base` raised to the power `e`.
pub open spec fn pow(base: nat, e: nat) -> nat
    decreases e,
{
    if e == 0 {
        1
    } else {
        base * pow(base, (e - 1) as nat)
    }
}

/// True once the decayed delay `5^i / (2 * 6^i)` has fallen below the
/// floor of one twentieth, i.e. once `10 * 5^i < 6^i`.
pub open spec fn floor_reached(i: nat) -> bool {
    10 * pow(5, i) < pow(6, i)
}

/// Numerator of the `i`-th delay, in seconds.
pub open spec fn delay_num(i: nat) -> nat {
    if floor_reached(i) {
        1
    } else {
        pow(5, i)
    }
}

/// Denominator of the `i`-th delay.
pub open spec fn delay_den(i: nat) -> nat {
    if floor_reached(i) {
        20
    } else {
        2 * pow(6, i)
    }
}

/// A duration, as the exact fraction `num / den` of a second.
#[derive(Clone, Copy, Debug, PartialEq, Eq, Structural)]
pub struct Delay {
    pub num: u64,
    pub den: u64,
}

proof fn lemma_pow_pos(base: nat, e: nat)
    requires
        base >= 1,
    ensures
        pow(base, e) >= 1,
    decreases e,
{
    if e > 0 {
        lemma_pow_pos(base, (e - 1) as nat);
        assert(pow(base, e) == base * pow(base, (e - 1) as nat));
        assert(base * pow(base, (e - 1) as nat) >= 1) by (nonlinear_arith)
            requires
                base >= 1,
                pow(base, (e - 1) as nat) >= 1,
        ;
    }
}

proof fn lemma_pow_mono(base: nat, e1: nat, e2: nat)
    requires
        base >= 1,
        e1 <= e2,
    ensures
        pow(base, e1) <= pow(base, e2),
    decreases e2,
{
    if e1 < e2 {
        lemma_pow_mono(base, e1, (e2 - 1) as nat);
        lemma_pow_pos(base, (e2 - 1) as nat);
        assert(pow(base, e2) == base * pow(base, (e2 - 1) as nat));
        assert(base * pow(base, (e2 - 1) as nat) >= pow(base, (e2 - 1) as nat)) by (nonlinear_arith)
            requires
                base >= 1,
                pow(base, (e2 - 1) as nat) >= 0,
        ;
    }
}

proof fn lemma_pow_values()
    ensures
        pow(5, 12) == 244140625,
        pow(6, 12) == 2176782336,
        pow(5, 13) == 1220703125,
        pow(6, 13) == 13060694016,
{
    reveal_with_fuel(pow, 14);
}

/// Once the floor is reached it is never left: the decayed value keeps
/// shrinking by a factor of six fifths per step.
proof fn lemma_floor_step(i: nat)
    requires
        floor_reached(i),
    ensures
        floor_reached(i + 1),
{
    assert(pow(5, i + 1) == 5 * pow(5, i));
    assert(pow(6, i + 1) == 6 * pow(6, i));
    assert(10 * (5 * pow(5, i)) < 6 * pow(6, i)) by (nonlinear_arith)
        requires
            10 * pow(5, i) < pow(6, i),
    ;
}

/// Law: from the thirteenth step on the decayed value sits below one
/// twentieth, so (with [`lemma_delay_floor`]) the delay is the floor
/// exactly.
pub proof fn lemma_floor_from_13(i: nat)
    requires
        i >= 13,
    ensures
        floor_reached(i),
    decreases i,
{
    if i == 13 {
        lemma_pow_values();
    } else {
        lemma_floor_from_13((i - 1) as nat);
        lemma_floor_step((i - 1) as nat);
    }
}

/// The delay for the `i`-th destruction of a reaction (0-indexed).
pub fn delay_for(i: usize) -> (d: Delay)
    ensures
        d.num == delay_num(i as nat),
        d.den == delay_den(i as nat),
        d.den > 0,
{
    if i >= 13 {
        proof {
            lemma_floor_from_13(i as nat);
        }
        Delay { num: 1, den: 20 }
    } else {
        let mut p5: u64 = 1;
        let mut p6: u64 = 1;
        let mut j: usize = 0;
        while j < i
            invariant
                j <= i <= 12,
                p5 == pow(5, j as nat),
                p6 == pow(6, j as nat),
            decreases i - j,
        {
            proof {
                lemma_pow_values();
                lemma_pow_mono(5, j as nat + 1, 12);
                lemma_pow_mono(6, j as nat + 1, 12);
                assert(pow(5, j as nat + 1) == 5 * pow(5, j as nat));
                assert(pow(6, j as nat + 1) == 6 * pow(6, j as nat));
            }
            p5 = p5 * 5;
            p6 = p6 * 6;
            j = j + 1;
        }
        proof {
            lemma_pow_pos(6, i as nat);
            lemma_pow_values();
            lemma_pow_mono(5, i as nat, 12);
            lemma_pow_mono(6, i as nat, 12);
        }
        if 10 * p5 >= p6 {
            Delay { num: p5, den: 2 * p6 }
        } else {
            Delay { num: 1, den: 20 }
        }
    }
}

/// Law: the delays never increase from one destruction to the next, and
/// they strictly decrease until the floor of one twentieth is reached.
/// Delays are fractions, so the comparison is by cross-multiplication:
/// `delay(i + 1) <= delay(i)` reads
/// `delay_num(i + 1) * delay_den(i) <= delay_num(i) * delay_den(i + 1)`.
pub proof fn lemma_delay_nonincreasing(i: nat)
    ensures
        delay_num(i + 1) * delay_den(i) <= delay_num(i) * delay_den(i + 1),
        !floor_reached(i + 1) ==> delay_num(i + 1) * delay_den(i) < delay_num(i) * delay_den(i + 1),
{
    if floor_reached(i) {
        lemma_floor_step(i);
        assert(delay_num(i + 1) * delay_den(i) == 20);
        assert(delay_num(i) * delay_den(i + 1) == 20);
    } else if floor_reached(i + 1) {
        // 1 * (2 * 6^i) <= 5^i * 20 follows from 6^i <= 10 * 5^i.
        assert(delay_num(i + 1) * delay_den(i) <= delay_num(i) * delay_den(i + 1)) by (nonlinear_arith)
            requires
                delay_num(i + 1) == 1,
                delay_den(i) == 2 * pow(6, i),
                delay_num(i) == pow(5, i),
                delay_den(i + 1) == 20,
                10 * pow(5, i) >= pow(6, i),
        ;
    } else {
        // 5^(i+1) * (2 * 6^i) == 10 * (5^i * 6^i)
        // 5^i * (2 * 6^(i+1)) == 12 * (5^i * 6^i)
        lemma_pow_pos(5, i);
        lemma_pow_pos(6, i);
        assert(pow(5, i + 1) == 5 * pow(5, i));
        assert(pow(6, i + 1) == 6 * pow(6, i));
        assert((5 * pow(5, i)) * (2 * pow(6, i)) < pow(5, i) * (2 * (6 * pow(6, i)))) by (nonlinear_arith)
            requires
                pow(5, i) >= 1,
                pow(6, i) >= 1,
        ;
    }
}

/// Law: every delay is at least one twentieth of a second, and once the
/// decayed value has fallen below that floor the delay is the floor
/// exactly.
pub proof fn lemma_delay_floor(i: nat)
    ensures
        20 * delay_num(i) >= delay_den(i),
        floor_reached(i) ==> delay_num(i) == 1 && delay_den(i) == 20,
{
}

} // verus!
