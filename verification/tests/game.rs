use siege::game::{keep_alive, phase_after_blast, route_input, InputRoute, Phase};
use siege::world::SegmentKind;

#[test]
fn menu_starts_on_click_only() {
    assert_eq!(route_input(Phase::Menu, true, false, false, false), InputRoute::Enter(Phase::Playing));
    assert_eq!(route_input(Phase::Menu, false, true, true, true), InputRoute::Idle);
}

#[test]
fn pause_and_resume_round_trip() {
    assert_eq!(route_input(Phase::Playing, false, true, false, false), InputRoute::Enter(Phase::Paused));
    assert_eq!(route_input(Phase::Paused, false, true, false, false), InputRoute::Enter(Phase::Playing));
    assert_eq!(route_input(Phase::Paused, true, false, false, false), InputRoute::Idle);
}

#[test]
fn restart_precedence() {
    // Pause wins while playing; restart wins while paused.
    assert_eq!(route_input(Phase::Playing, false, true, true, false), InputRoute::Enter(Phase::Paused));
    assert_eq!(route_input(Phase::Playing, false, false, true, false), InputRoute::Restart);
    assert_eq!(route_input(Phase::Paused, false, true, true, false), InputRoute::Restart);
}

#[test]
fn playing_without_keys_steers() {
    assert_eq!(route_input(Phase::Playing, true, false, false, false), InputRoute::Steer);
    assert_eq!(route_input(Phase::Playing, false, false, false, true), InputRoute::Steer);
}

#[test]
fn end_screens_wait_for_hold_before_click_restarts() {
    for p in [Phase::Victory, Phase::Defeat] {
        assert_eq!(route_input(p, true, false, false, false), InputRoute::Idle);
        assert_eq!(route_input(p, true, false, false, true), InputRoute::Restart);
        assert_eq!(route_input(p, false, false, true, false), InputRoute::Restart);
        assert_eq!(route_input(p, false, true, false, true), InputRoute::Idle);
    }
}

#[test]
fn blast_outcomes() {
    assert_eq!(phase_after_blast(Phase::Playing, false, false), Phase::Victory);
    assert_eq!(phase_after_blast(Phase::Playing, false, true), Phase::Victory);
    assert_eq!(phase_after_blast(Phase::Playing, true, false), Phase::Defeat);
    assert_eq!(phase_after_blast(Phase::Playing, true, true), Phase::Playing);
    assert_eq!(phase_after_blast(Phase::Victory, true, false), Phase::Victory);
    assert_eq!(phase_after_blast(Phase::Defeat, false, true), Phase::Defeat);
    assert_eq!(phase_after_blast(Phase::Paused, false, false), Phase::Paused);
}

#[test]
fn time_runs_only_in_play_and_end_slowmo() {
    assert!(Phase::Playing.advances());
    assert!(Phase::Victory.advances());
    assert!(Phase::Defeat.advances());
    assert!(!Phase::Paused.advances());
    assert!(!Phase::Menu.advances());
}

#[test]
fn keep_alive_looks_for_a_standing_keep() {
    let mut segs = vec![
        (SegmentKind::Tower, true),
        (SegmentKind::Curtain, true),
        (SegmentKind::Gate, true),
        (SegmentKind::Keep, true),
    ];
    assert!(keep_alive(&segs));
    segs[3].1 = false;
    assert!(!keep_alive(&segs));
    assert!(!keep_alive(&[]));
    assert!(!keep_alive(&[(SegmentKind::Tower, true)]));
}
