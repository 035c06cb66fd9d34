//! The duel's phase machine: which phase the match is in, what a frame's
//! input does to it, when a blast ends the match, and whether simulated
//! time runs. The platform layer reads the keys and performs the routed
//! action; every decision about the phase is made here.

use vstd::prelude::*;
use crate::world::SegmentKind;

verus! {

/// Phase of a match.
#[derive(Copy, Clone, PartialEq, Eq, Debug, Structural)]
pub enum Phase {
    Menu,
    Playing,
    Paused,
    Victory,
    Defeat,
}

/// What one frame of input does to the match.
#[derive(Copy, Clone, PartialEq, Eq, Debug, Structural)]
pub enum InputRoute {
    /// Nothing changes this frame.
    Idle,
    /// Switch to the given phase.
    Enter(Phase),
    /// Start a fresh match from a new seed (it opens on the menu).
    Restart,
    /// Live play: the cannon follows the aim, power, charge and fire input.
    Steer,
}

/// The routing table of [`route_input`].
///
/// * Menu: a click starts play.
/// * Paused: the pause key resumes; restart wins over resume.
/// * Playing: the pause key pauses (and nothing else happens that frame);
///   otherwise restart restarts; otherwise the cannon is steered.
/// * Victory / Defeat: restart restarts; a click restarts once the end
///   overlay has been held long enough.
pub open spec fn route(phase: Phase, click: bool, pause: bool, restart: bool, hold_done: bool)
    -> InputRoute
{
    match phase {
        Phase::Menu => if click {
            InputRoute::Enter(Phase::Playing)
        } else {
            InputRoute::Idle
        },
        Phase::Paused => if restart {
            InputRoute::Restart
        } else if pause {
            InputRoute::Enter(Phase::Playing)
        } else {
            InputRoute::Idle
        },
        Phase::Playing => if pause {
            InputRoute::Enter(Phase::Paused)
        } else if restart {
            InputRoute::Restart
        } else {
            InputRoute::Steer
        },
        Phase::Victory | Phase::Defeat => if restart || (click && hold_done) {
            InputRoute::Restart
        } else {
            InputRoute::Idle
        },
    }
}

/// Route one frame of input. `click` is a fresh left click, `pause` the
/// pause key (P or Escape), `restart` the R key, and `hold_done` whether
/// the end overlay has been up for its full hold time.
pub fn route_input(phase: Phase, click: bool, pause: bool, restart: bool, hold_done: bool) -> (r:
    InputRoute)
    ensures
        r == route(phase, click, pause, restart, hold_done),
        phase == Phase::Menu ==> (r == InputRoute::Enter(Phase::Playing) <==> click),
        phase == Phase::Menu && !click ==> r == InputRoute::Idle,
        phase == Phase::Victory || phase == Phase::Defeat ==> (r == InputRoute::Restart <==> (
        restart || (click && hold_done))),
        phase == Phase::Victory || phase == Phase::Defeat ==> (r == InputRoute::Idle <==> !(
        restart || (click && hold_done))),
        phase == Phase::Paused ==> (restart ==> r == InputRoute::Restart),
        phase == Phase::Paused && !restart ==> (r == InputRoute::Enter(Phase::Playing) <==> pause),
        phase == Phase::Paused && !restart && !pause ==> r == InputRoute::Idle,
        phase == Phase::Playing ==> (pause ==> r == InputRoute::Enter(Phase::Paused)),
        phase == Phase::Playing && !pause ==> (r == InputRoute::Restart <==> restart),
        phase == Phase::Playing && !pause && !restart ==> r == InputRoute::Steer,
{
    match phase {
        Phase::Menu => {
            if click {
                InputRoute::Enter(Phase::Playing)
            } else {
                InputRoute::Idle
            }
        },
        Phase::Paused => {
            let mut r = InputRoute::Idle;
            if pause {
                r = InputRoute::Enter(Phase::Playing);
            }
            if restart {
                r = InputRoute::Restart;
            }
            r
        },
        Phase::Playing => {
            if pause {
                return InputRoute::Enter(Phase::Paused);
            }
            if restart {
                return InputRoute::Restart;
            }
            InputRoute::Steer
        },
        Phase::Victory | Phase::Defeat => {
            if restart {
                return InputRoute::Restart;
            }
            if click && hold_done {
                InputRoute::Restart
            } else {
                InputRoute::Idle
            }
        },
    }
}

/// The phase after a blast during play: the keep falling wins the match
/// (even if the same blast kills the player's cannon); otherwise a dead
/// cannon loses it. Outside play a blast never changes the phase.
pub open spec fn after_blast(phase: Phase, keep_alive: bool, player_alive: bool) -> Phase {
    if phase == Phase::Playing && !keep_alive {
        Phase::Victory
    } else if phase == Phase::Playing && !player_alive {
        Phase::Defeat
    } else {
        phase
    }
}

/// Decide the phase once a blast has dealt its damage.
pub fn phase_after_blast(phase: Phase, keep_alive: bool, player_alive: bool) -> (r: Phase)
    ensures
        r == after_blast(phase, keep_alive, player_alive),
        phase != Phase::Playing ==> r == phase,
        phase == Phase::Playing && !keep_alive ==> r == Phase::Victory,
        phase == Phase::Playing && keep_alive && !player_alive ==> r == Phase::Defeat,
        phase == Phase::Playing && keep_alive && player_alive ==> r == Phase::Playing,
{
    if phase == Phase::Playing {
        if !keep_alive {
            return Phase::Victory;
        } else if !player_alive {
            return Phase::Defeat;
        }
    }
    phase
}

/// Whether any keep segment still stands, given each segment's kind and
/// whether it is alive.
pub fn keep_alive(segments: &[(SegmentKind, bool)]) -> (r: bool)
    ensures
        r == exists|i: int|
            0 <= i < segments@.len() && (#[trigger] segments@[i]).0 == SegmentKind::Keep
                && segments@[i].1,
{
    let mut i: usize = 0;
    while i < segments.len()
        invariant
            i <= segments@.len(),
            forall|j: int|
                0 <= j < i ==> !((#[trigger] segments@[j]).0 == SegmentKind::Keep
                    && segments@[j].1),
        decreases segments@.len() - i,
    {
        let (kind, alive) = segments[i];
        if kind == SegmentKind::Keep && alive {
            return true;
        }
        i = i + 1;
    }
    false
}

impl Phase {
    /// Whether simulated time runs: during play and through the end
    /// slow-motion, never on the menu or while paused.
    pub open spec fn spec_advances(self) -> bool {
        self == Phase::Playing || self == Phase::Victory || self == Phase::Defeat
    }

    /// Whether this frame advances the simulation (balls, particles,
    /// wind, reload timers).
    pub fn advances(self) -> (r: bool)
        ensures
            r == self.spec_advances(),
    {
        match self {
            Phase::Playing | Phase::Victory | Phase::Defeat => true,
            Phase::Menu | Phase::Paused => false,
        }
    }
}

/// Pause round trip: pausing during play and pressing pause again (with no
/// restart) brings the match back to play.
pub proof fn lemma_pause_resume(c1: bool, r1: bool, h1: bool, c2: bool, h2: bool)
    ensures
        route(Phase::Playing, c1, true, r1, h1) == InputRoute::Enter(Phase::Paused),
        route(Phase::Paused, c2, true, false, h2) == InputRoute::Enter(Phase::Playing),
{
}

/// Pausing freezes the match: the menu and the pause screen run no
/// simulated time, and no input on the pause screen steers the cannon.
pub proof fn lemma_pause_freezes(click: bool, pause: bool, restart: bool, hold: bool)
    ensures
        !Phase::Paused.spec_advances(),
        !Phase::Menu.spec_advances(),
        route(Phase::Paused, click, pause, restart, hold) != InputRoute::Steer,
        route(Phase::Menu, click, pause, restart, hold) != InputRoute::Steer,
{
}

/// A finished match stays finished: from Victory or Defeat the only way
/// out is a restart, never back into play; blasts cannot change it.
pub proof fn lemma_end_is_final(
    phase: Phase,
    click: bool,
    pause: bool,
    restart: bool,
    hold: bool,
    keep: bool,
    player: bool,
)
    requires
        phase == Phase::Victory || phase == Phase::Defeat,
    ensures
        route(phase, click, pause, restart, hold) == InputRoute::Restart || route(
            phase,
            click,
            pause,
            restart,
            hold,
        ) == InputRoute::Idle,
        after_blast(phase, keep, player) == phase,
        !hold && !restart ==> route(phase, click, pause, restart, hold) == InputRoute::Idle,
{
}

/// End-screen law: on Victory or Defeat a frame restarts the match exactly
/// when R is pressed or the overlay is clicked after its hold time; any
/// other frame — in particular one with no key and no click, however long
/// the overlay has been up — leaves the end screen as it is.
pub proof fn lemma_end_screen_restart(
    phase: Phase,
    click: bool,
    pause: bool,
    restart: bool,
    hold: bool,
)
    requires
        phase == Phase::Victory || phase == Phase::Defeat,
    ensures
        route(phase, click, pause, restart, hold) == InputRoute::Restart <==> (restart || (click
            && hold)),
        !(restart || (click && hold)) ==> route(phase, click, pause, restart, hold)
            == InputRoute::Idle,
        route(phase, false, pause, false, hold) == InputRoute::Idle,
{
}

/// Restart is always at hand once a match has begun: on the pause screen
/// and the end screens the R key restarts, and during play it restarts
/// unless pause was pressed in the same frame.
pub proof fn lemma_restart_available(phase: Phase, click: bool, pause: bool, hold: bool)
    requires
        phase != Phase::Menu,
        phase == Phase::Playing ==> !pause,
    ensures
        route(phase, click, pause, true, hold) == InputRoute::Restart,
{
}

/// Victory takes precedence: a blast that fells the keep wins the match
/// even when it also destroys the player's cannon; a blast that leaves the
/// keep standing and the cannon alive changes nothing.
pub proof fn lemma_blast_outcomes(player_alive: bool)
    ensures
        after_blast(Phase::Playing, false, player_alive) == Phase::Victory,
        after_blast(Phase::Playing, true, false) == Phase::Defeat,
        after_blast(Phase::Playing, true, true) == Phase::Playing,
{
}

} // verus!
