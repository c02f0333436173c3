//! Hostile-unit attributes: category and polarity, assigned at spawn and
//! never mutated afterwards.

use vstd::prelude::*;

verus! {

/// Category of a hostile unit.
#[derive(Clone, Copy, Debug, PartialEq, Eq, Structural)]
pub enum EnemyColor {
    Red,
    Green,
    Blue,
}

/// Polarity of a hostile unit. Linked units of one category cancel each
/// other out when their polarities are opposite.
#[derive(Clone, Copy, Debug, PartialEq, Eq, Structural)]
pub enum EnemyPolarity {
    Positive,
    Negative,
}

/// The immutable attributes of a hostile unit.
#[derive(Clone, Copy, Debug, PartialEq, Eq, Structural)]
pub struct Enemy {
    pub enemy_color: EnemyColor,
    pub enemy_polarity: EnemyPolarity,
}

/// Relies on rand's `Rng::gen_range` on `thread_rng`: a draw from the
/// non-empty range `0..n` yields a value below `n`.
#[verifier::external_body]
fn draw_below(n: u32) -> (r: u32)
    requires
        n > 0,
    ensures
        r < n,
{
    rand::Rng::gen_range(&mut rand::thread_rng(), 0..n)
}

impl EnemyColor {
    /// A category drawn uniformly at random.
    pub fn random() -> EnemyColor {
        match draw_below(3) {
            0 => EnemyColor::Red,
            1 => EnemyColor::Green,
            _ => EnemyColor::Blue,
        }
    }
}

impl EnemyPolarity {
    /// A polarity drawn uniformly at random.
    pub fn random() -> EnemyPolarity {
        match draw_below(2) {
            0 => EnemyPolarity::Positive,
            _ => EnemyPolarity::Negative,
        }
    }
}

impl Enemy {
    /// An enemy with the given attributes.
    pub fn new(color: EnemyColor, polarity: EnemyPolarity) -> (e: Enemy)
        ensures
            e.enemy_color == color,
            e.enemy_polarity == polarity,
    {
        Enemy { enemy_color: color, enemy_polarity: polarity }
    }

    /// An enemy with both attributes drawn at random.
    pub fn random() -> Enemy {
        Enemy { enemy_color: EnemyColor::random(), enemy_polarity: EnemyPolarity::random() }
    }
}

} // verus!
