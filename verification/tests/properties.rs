use angular_units::Angle;
use angular_units::ArcMinutes;
use angular_units::ArcSeconds;
use angular_units::Deg;
use angular_units::Interpolate;
use angular_units::IntoAngle;
use angular_units::Rad;
use angular_units::Scalar;
use angular_units::Turns;

#[test]
fn round_trip_all_pairs() {
    let v = Scalar::from_ratio(73, 10);
    let d = Deg::new(v);
    let r: Rad = d.into_angle();
    let back: Deg = r.into_angle();
    assert!(back == d);

    let t: Turns = d.into_angle();
    let back2: Deg = t.into_angle();
    assert!(back2 == d);

    let m: ArcMinutes = d.into_angle();
    let back3: Deg = m.into_angle();
    assert!(back3 == d);

    let s: ArcSeconds = d.into_angle();
    let back4: Deg = s.into_angle();
    assert!(back4 == d);

    let m2: ArcMinutes = Rad::new(v).into_angle();
    let back5: Rad = m2.into_angle();
    assert!(back5.reduced() == Rad::new(v));
}

#[test]
fn conversion_chain_agrees_with_direct() {
    let d = Deg::new(Scalar::from_int(45));
    let through_turns: Turns = d.into_angle();
    let chained: Rad = through_turns.into_angle();
    let direct: Rad = d.into_angle();
    assert!(chained.reduced() == direct.reduced());
}

#[test]
fn normalize_is_idempotent_across_units() {
    let values = [-720, -361, -1, 0, 1, 359, 360, 361, 1000];
    for v in values {
        let d = Deg::new(Scalar::from_int(v)).normalize();
        assert!(d.normalize() == d);
        assert!(d.is_normalized());

        let t = Turns::new(Scalar::from_ratio(v, 100)).normalize();
        assert!(t.normalize() == t);
        assert!(t.is_normalized());

        let r = Rad::new(Scalar::from_int(v)).normalize();
        assert!(r.normalize() == r);
        assert!(r.is_normalized());

        let m = ArcMinutes::new(Scalar::from_int(v * 100)).normalize();
        assert!(m.normalize() == m);
        assert!(m.is_normalized());

        let s = ArcSeconds::new(Scalar::from_int(v * 10000)).normalize();
        assert!(s.normalize() == s);
        assert!(s.is_normalized());
    }
}

#[test]
fn normalize_boundary_values() {
    assert!(Deg::new(Scalar::from_int(0)).normalize() == Deg::new(Scalar::from_int(0)));
    assert!(Deg::new(Scalar::from_int(0)).is_normalized());
    assert!(!Deg::new(Scalar::from_int(360)).is_normalized());
    assert!(Turns::new(Scalar::from_int(1)).normalize() == Turns::new(Scalar::from_int(0)));
    assert!(ArcMinutes::new(Scalar::from_int(-30)).normalize()
        == ArcMinutes::new(Scalar::from_int(21570)));
    assert!(ArcSeconds::new(Scalar::from_int(1296001)).normalize()
        == ArcSeconds::new(Scalar::from_int(1)));
}

#[test]
fn compose_inverts_decompose() {
    let x = Deg::new(Scalar::from_ratio(903131, 10000));
    let (d, m, s) = x.decompose();
    let recomposed = Deg::from_components(d, m, s);
    assert!(recomposed == x);

    let y = Deg::new(Scalar::from_ratio(5025, 100));
    let (d2, m2, s2) = y.decompose();
    assert!(Deg::from_components(d2, m2, s2) == y);
}

#[test]
fn from_components_matches_mixed_addition() {
    let built = Deg::from_components(
        Deg::new(Scalar::from_int(50)),
        ArcMinutes::new(Scalar::from_int(30)),
        ArcSeconds::new(Scalar::from_int(10)),
    );
    let added = Deg::new(Scalar::from_int(50))
        .add(ArcMinutes::new(Scalar::from_int(30)))
        .add(ArcSeconds::new(Scalar::from_int(10)));
    assert!(built == added);
}

#[test]
fn inversion_is_half_turn_addition() {
    let values = [0, 45, 180, 300, -90];
    for v in values {
        let d = Deg::new(Scalar::from_int(v));
        assert!(d.invert() == d.add(Deg::half_turn()));

        let t = Turns::new(Scalar::from_ratio(v, 360));
        assert!(t.invert().reduced() == t.add(Turns::half_turn()).reduced());
    }
    assert!(Deg::new(Scalar::from_int(0)).invert() == Deg::new(Scalar::from_int(180)));
}

#[test]
fn interpolation_midpoint_same_unit() {
    let mid = Rad::new(Scalar::from_int(1))
        .interpolate(&Rad::new(Scalar::from_int(2)), Scalar::from_ratio(1, 2));
    assert!(mid == Rad::new(Scalar::from_ratio(3, 2)));

    let endpoints = Turns::new(Scalar::from_ratio(1, 8))
        .interpolate(&Turns::new(Scalar::from_ratio(3, 8)), Scalar::from_int(0));
    assert!(endpoints == Turns::new(Scalar::from_ratio(1, 8)));

    let end = Turns::new(Scalar::from_ratio(1, 8))
        .interpolate(&Turns::new(Scalar::from_ratio(3, 8)), Scalar::from_int(1));
    assert!(end == Turns::new(Scalar::from_ratio(3, 8)));
}

#[test]
fn forward_interpolation_goes_the_long_way() {
    let shortest = Turns::new(Scalar::from_ratio(1, 10))
        .interpolate(&Turns::new(Scalar::from_ratio(9, 10)), Scalar::from_ratio(1, 2))
        .normalize();
    assert!(shortest == Turns::new(Scalar::from_int(0)));

    let forward = Turns::new(Scalar::from_ratio(1, 10))
        .interpolate_forward(&Turns::new(Scalar::from_ratio(9, 10)), Scalar::from_ratio(1, 2))
        .normalize();
    assert!(forward == Turns::new(Scalar::from_ratio(1, 2)));
}

#[test]
fn scalar_construction_and_sign() {
    assert!(Scalar::from_ratio(1, -2) == Scalar::from_ratio(-1, 2));
    assert!(Scalar::from_ratio(-3, -4) == Scalar::from_ratio(3, 4));
    assert!(Scalar::from_int(-7) < Scalar::zero());
    assert!(Scalar::zero() < Scalar::one());
    assert!(Scalar::from_ratio(1, 3) < Scalar::from_ratio(1, 2));
    assert!(Scalar::from_ratio(2, 6).reduced() == Scalar::from_ratio(1, 3));
    assert_eq!(Scalar::from_ratio(2, 6).reduced().numerator(), 1);
    assert_eq!(Scalar::from_ratio(2, 6).reduced().denominator(), 3);
    assert!(Scalar::from_int(-5).abs() == Scalar::from_int(5));
    assert!(Scalar::from_int(5).neg() == Scalar::from_int(-5));
    assert!(Scalar::zero().is_zero());
    assert!(!Scalar::pi().is_zero());
}

#[test]
fn scalar_floor_and_remainder() {
    assert!(Scalar::from_ratio(7, 2).floor() == Scalar::from_int(3));
    assert!(Scalar::from_ratio(-7, 2).floor() == Scalar::from_int(-4));
    assert!(Scalar::from_int(-9).floor() == Scalar::from_int(-9));

    let r = Scalar::from_ratio(-7, 2).rem(Scalar::from_int(3));
    assert!(r == Scalar::from_ratio(-1, 2));
    let r2 = Scalar::from_int(7).rem(Scalar::from_int(-4));
    assert!(r2 == Scalar::from_int(3));
}

#[test]
fn scalar_approx_eq_tolerance() {
    let a = Scalar::from_ratio(1000001, 1000000);
    let eps = Scalar::from_ratio(1, 100000);
    assert!(a.approx_eq(&Scalar::one(), &eps));
    let far = Scalar::from_ratio(11, 10);
    assert!(!far.approx_eq(&Scalar::one(), &eps));
}

#[test]
fn zero_and_default_are_no_rotation() {
    assert!(Deg::default() == Deg::new(Scalar::from_int(0)));
    assert!(Rad::default() == Rad::zero());
    assert!(Turns::zero() == Turns::new(Scalar::from_int(0)));
    let d = Deg::new(Scalar::from_int(25));
    assert!(d.add(Deg::zero()) == d);
    assert!(d.neg() == Deg::new(Scalar::from_int(-25)));
}

#[test]
fn period_constants() {
    assert!(Deg::period() == Scalar::from_int(360));
    assert!(Turns::period() == Scalar::from_int(1));
    assert!(ArcMinutes::period() == Scalar::from_int(21600));
    assert!(ArcSeconds::period() == Scalar::from_int(1296000));
    assert!(Rad::period() == Scalar::pi().mul(Scalar::from_int(2)));
    assert!(ArcSeconds::full_turn() == ArcSeconds::new(Scalar::from_int(1296000)));
    assert!(ArcMinutes::half_turn() == ArcMinutes::new(Scalar::from_int(10800)));
    assert!(Turns::quarter_turn() == Turns::new(Scalar::from_ratio(1, 4)));
}

#[test]
fn in_place_variants_match_the_plain_ones() {
    let mut a = Deg::new(Scalar::from_int(30));
    a.mul_assign(Scalar::from_int(3));
    assert!(a == Deg::new(Scalar::from_int(90)));
    a.div_assign(Scalar::from_int(2));
    assert!(a == Deg::new(Scalar::from_int(45)));
    a.rem_assign(Deg::new(Scalar::from_int(7)));
    assert!(a == Deg::new(Scalar::from_int(3)));

    assert!(Deg::zero().is_zero());
    assert!(!a.is_zero());
}

#[test]
fn mixed_addition_left_unit_wins() {
    let a = Turns::new(Scalar::from_ratio(1, 4))
        .add(Deg::new(Scalar::from_int(30)))
        .sub(ArcMinutes::new(Scalar::from_int(15)));
    assert!(a.reduced() == Turns::new(Scalar::from_ratio(479, 1440)));

    let mut b = ArcSeconds::new(Scalar::from_int(30));
    b.sub_assign(ArcMinutes::new(Scalar::from_int(1)));
    assert!(b == ArcSeconds::new(Scalar::from_int(-30)));
}
