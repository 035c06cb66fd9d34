use siege::fallers::{touch_ground, Touchdown, Tumble};

#[test]
fn thrown_body_bounces_once_then_rests() {
    let (s1, a1) = touch_ground(Tumble::Airborne);
    assert_eq!((s1, a1), (Tumble::Bounced, Touchdown::Bounce));
    let (s2, a2) = touch_ground(s1);
    assert_eq!((s2, a2), (Tumble::Resting, Touchdown::Settle));
    let mut s = s2;
    for _ in 0..10 {
        let (next, act) = touch_ground(s);
        assert_eq!(act, Touchdown::Still);
        s = next;
    }
    assert_eq!(s, Tumble::Resting);
}

#[test]
fn bounce_count_never_exceeds_one() {
    let mut s = Tumble::Airborne;
    let mut bounces = 0;
    for _ in 0..50 {
        let (next, act) = touch_ground(s);
        if act == Touchdown::Bounce {
            bounces += 1;
        }
        s = next;
    }
    assert_eq!(bounces, 1);
}
