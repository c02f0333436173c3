use chain_reaction::delay::delay_for;

#[test]
fn delay_exact_values() {
    // 0.5 / 1.2^i as an exact fraction: 5^i / (2 * 6^i).
    assert_eq!((delay_for(0).num, delay_for(0).den), (1, 2));
    assert_eq!((delay_for(1).num, delay_for(1).den), (5, 12));
    assert_eq!((delay_for(2).num, delay_for(2).den), (25, 72));
    assert_eq!((delay_for(3).num, delay_for(3).den), (125, 432));
}

#[test]
fn delay_floor_kicks_in_at_thirteen() {
    // At i == 12 the decayed value still clears one twentieth...
    let d12 = delay_for(12);
    assert_eq!((d12.num, d12.den), (244140625, 2 * 2176782336));
    assert!(d12.num as u128 * 20 > d12.den as u128);
    // ...and from i == 13 on the delay is the floor exactly.
    for i in 13..40 {
        let d = delay_for(i);
        assert_eq!((d.num, d.den), (1, 20));
    }
}

#[test]
fn delays_never_increase() {
    for i in 0..40usize {
        let a = delay_for(i);
        let b = delay_for(i + 1);
        // b <= a, compared by cross-multiplication.
        assert!(b.num as u128 * a.den as u128 <= a.num as u128 * b.den as u128);
    }
}

#[test]
fn delays_strictly_decrease_before_floor() {
    for i in 0..12usize {
        let a = delay_for(i);
        let b = delay_for(i + 1);
        assert!(b.num as u128 * (a.den as u128) < a.num as u128 * (b.den as u128));
    }
}

#[test]
fn delay_never_below_floor() {
    for i in 0..40usize {
        let d = delay_for(i);
        // d >= 1/20.
        assert!(d.num as u128 * 20 >= d.den as u128);
    }
}
