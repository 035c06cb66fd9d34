//! Particle kinds and their draw layering: cool smoke and dust at the
//! back, fragments and rings over them, fire above those, and the hot
//! flashes and sparks on top — four bounded passes, no sorting.

use vstd::prelude::*;

verus! {

/// Every particle kind the effects system animates.
#[derive(Copy, Clone, PartialEq, Eq, Debug, Structural)]
pub enum PKind {
    Smoke,
    Debris,
    Spark,
    Dust,
    Leaf,
    Flash,
    Fireball,
    Shockwave,
    Muzzle,
}

/// Number of draw passes.
pub const LAYERS: u8 = 4;

/// Draw pass of a particle. A fireball old enough to have burnt out
/// (`charred`) sinks to the smoke layer.
pub open spec fn layer_of(kind: PKind, charred: bool) -> u8 {
    match kind {
        PKind::Smoke | PKind::Dust => 0,
        PKind::Fireball => if charred {
            0
        } else {
            2
        },
        PKind::Debris | PKind::Leaf | PKind::Shockwave => 1,
        PKind::Muzzle => 2,
        PKind::Flash | PKind::Spark => 3,
    }
}

/// The pass (0 = back, 3 = front) that draws a particle of `kind`;
/// `charred` says whether a fireball has aged past its flame.
pub fn draw_layer(kind: PKind, charred: bool) -> (r: u8)
    ensures
        r == layer_of(kind, charred),
        r < LAYERS,
        kind == PKind::Smoke || kind == PKind::Dust ==> r == 0,
        kind == PKind::Debris || kind == PKind::Leaf || kind == PKind::Shockwave ==> r == 1,
        kind == PKind::Muzzle ==> r == 2,
        kind == PKind::Flash || kind == PKind::Spark ==> r == 3,
        kind == PKind::Fireball && charred ==> r == 0,
        kind == PKind::Fireball && !charred ==> r == 2,
{
    match kind {
        PKind::Smoke | PKind::Dust => 0,
        PKind::Fireball if charred => 0,
        PKind::Debris | PKind::Leaf | PKind::Shockwave => 1,
        PKind::Fireball | PKind::Muzzle => 2,
        PKind::Flash | PKind::Spark => 3,
    }
}

/// Age law: only fireballs change pass with age; every other kind is
/// drawn in the same pass whether or not it is old, and fragments, leaves
/// and shock rings always sit in the pass over smoke and dust.
pub proof fn lemma_age_moves_only_fire(kind: PKind, c: bool)
    ensures
        kind != PKind::Fireball ==> layer_of(kind, true) == layer_of(kind, false),
        layer_of(PKind::Debris, c) == 1,
        layer_of(PKind::Leaf, c) == 1,
        layer_of(PKind::Shockwave, c) == 1,
        layer_of(PKind::Smoke, c) == 0,
        layer_of(PKind::Dust, c) == 0,
        layer_of(PKind::Muzzle, c) == 2,
        layer_of(PKind::Flash, c) == 3,
        layer_of(PKind::Spark, c) == 3,
        layer_of(PKind::Fireball, true) == 0,
        layer_of(PKind::Fireball, false) == 2,
{
}

/// Layering law: cool particles (smoke, dust, burnt-out fire) sit behind
/// luminous fire, which sits behind hot cores and spark trails; every kind
/// lands in one of the four passes.
pub proof fn lemma_cool_behind_hot(kind: PKind, charred: bool, burning: bool)
    ensures
        layer_of(kind, charred) < LAYERS,
        layer_of(PKind::Smoke, burning) < layer_of(PKind::Fireball, false),
        layer_of(PKind::Dust, burning) < layer_of(PKind::Muzzle, burning),
        layer_of(PKind::Fireball, false) < layer_of(PKind::Spark, burning),
        layer_of(PKind::Muzzle, burning) < layer_of(PKind::Flash, burning),
        layer_of(PKind::Fireball, true) == layer_of(PKind::Smoke, burning),
{
}

} // verus!
