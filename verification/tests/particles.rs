use siege::particles::{draw_layer, PKind, LAYERS};

#[test]
fn cool_behind_fire_behind_hot() {
    assert_eq!(draw_layer(PKind::Smoke, false), 0);
    assert_eq!(draw_layer(PKind::Dust, true), 0);
    assert_eq!(draw_layer(PKind::Fireball, true), 0);
    assert_eq!(draw_layer(PKind::Debris, false), 1);
    assert_eq!(draw_layer(PKind::Leaf, false), 1);
    assert_eq!(draw_layer(PKind::Shockwave, false), 1);
    assert_eq!(draw_layer(PKind::Fireball, false), 2);
    assert_eq!(draw_layer(PKind::Muzzle, true), 2);
    assert_eq!(draw_layer(PKind::Flash, false), 3);
    assert_eq!(draw_layer(PKind::Spark, false), 3);
    for k in [
        PKind::Smoke, PKind::Debris, PKind::Spark, PKind::Dust, PKind::Leaf,
        PKind::Flash, PKind::Fireball, PKind::Shockwave, PKind::Muzzle,
    ] {
        assert!(draw_layer(k, false) < LAYERS && draw_layer(k, true) < LAYERS);
    }
}
