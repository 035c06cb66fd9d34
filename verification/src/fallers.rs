//! Ground contact of tumbling bodies — flung wall runners, gibbed parts,
//! and stone debris all fall under gravity, bounce exactly once on the
//! terrain, then come to rest and fade in place.

use vstd::prelude::*;

verus! {

/// Motion state of a tumbling body.
#[derive(Copy, Clone, PartialEq, Eq, Debug, Structural)]
pub enum Tumble {
    /// Thrown, not yet touched the ground.
    Airborne,
    /// Bounced once, still in the air or sliding.
    Bounced,
    /// Lying on the ground: no more motion, only the fade.
    Resting,
}

/// What a ground contact does to the body's motion.
#[derive(Copy, Clone, PartialEq, Eq, Debug, Structural)]
pub enum Touchdown {
    /// Rebound with damped velocity and spin.
    Bounce,
    /// Stop dead and lie flat.
    Settle,
    /// Already resting: nothing moves.
    Still,
}

/// The contact rule of [`touch_ground`].
pub open spec fn contact(state: Tumble) -> (Tumble, Touchdown) {
    match state {
        Tumble::Airborne => (Tumble::Bounced, Touchdown::Bounce),
        Tumble::Bounced => (Tumble::Resting, Touchdown::Settle),
        Tumble::Resting => (Tumble::Resting, Touchdown::Still),
    }
}

/// A downward ground contact: the first one bounces, the second one
/// settles the body for good.
pub fn touch_ground(state: Tumble) -> (r: (Tumble, Touchdown))
    ensures
        r == contact(state),
        state == Tumble::Airborne ==> r == (Tumble::Bounced, Touchdown::Bounce),
        state == Tumble::Bounced ==> r == (Tumble::Resting, Touchdown::Settle),
        state == Tumble::Resting ==> r == (Tumble::Resting, Touchdown::Still),
{
    match state {
        Tumble::Airborne => (Tumble::Bounced, Touchdown::Bounce),
        Tumble::Bounced => (Tumble::Resting, Touchdown::Settle),
        Tumble::Resting => (Tumble::Resting, Touchdown::Still),
    }
}

/// State after `n` ground contacts starting from `state`.
pub open spec fn after_contacts(state: Tumble, n: nat) -> Tumble
    decreases n,
{
    if n == 0 {
        state
    } else {
        contact(after_contacts(state, (n - 1) as nat)).0
    }
}

/// Number of bounces among the first `n` contacts starting from `state`.
pub open spec fn bounces(state: Tumble, n: nat) -> nat
    decreases n,
{
    if n == 0 {
        0
    } else {
        bounces(state, (n - 1) as nat) + if contact(after_contacts(state, (n - 1) as nat)).1
            == Touchdown::Bounce {
            1nat
        } else {
            0nat
        }
    }
}

/// Bounce-once law: however many times a thrown body meets the ground it
/// bounces at most once, and from the second contact on it rests for good.
pub proof fn lemma_bounces_once(n: nat)
    ensures
        bounces(Tumble::Airborne, n) <= 1,
        n >= 2 ==> after_contacts(Tumble::Airborne, n) == Tumble::Resting,
        n >= 1 ==> bounces(Tumble::Airborne, n) == 1,
    decreases n,
{
    if n > 0 {
        lemma_bounces_once((n - 1) as nat);
        assert(after_contacts(Tumble::Airborne, 0) == Tumble::Airborne);
        assert(after_contacts(Tumble::Airborne, 1) == Tumble::Bounced);
    }
}

/// Rest is final: a resting body never moves again, whatever contacts
/// follow.
pub proof fn lemma_rest_is_final(n: nat)
    ensures
        after_contacts(Tumble::Resting, n) == Tumble::Resting,
        bounces(Tumble::Resting, n) == 0,
    decreases n,
{
    if n > 0 {
        lemma_rest_is_final((n - 1) as nat);
    }
}

} // verus!
