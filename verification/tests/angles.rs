use angular_units::Angle;
use angular_units::ArcMinutes;
use angular_units::ArcSeconds;
use angular_units::Deg;
use angular_units::Interpolate;
use angular_units::IntoAngle;
use angular_units::Rad;
use angular_units::Scalar;
use angular_units::Turns;

fn eps6() -> Scalar {
    Scalar::from_ratio(1, 1000000)
}

#[test]
fn test_convert() {
    let d: Deg = ArcMinutes::new(Scalar::from_int(120)).into_angle();
    assert!(d.approx_eq(&Deg::new(Scalar::from_int(2)), &eps6()));

    let m: ArcMinutes = ArcSeconds::new(Scalar::from_int(30)).into_angle();
    assert!(m.approx_eq(&ArcMinutes::new(Scalar::from_ratio(1, 2)), &eps6()));

    let sum = Deg::new(Scalar::from_int(30))
        .add(ArcMinutes::new(Scalar::from_int(30)))
        .add(ArcSeconds::new(Scalar::from_int(30)));
    let expected = Deg::new(Scalar::from_ratio(3050833333333, 100000000000));
    assert!(sum.reduced().approx_eq(&expected, &eps6()));

    let d2: Deg = Rad::new(Scalar::pi()).into_angle();
    assert!(d2.approx_eq(&Deg::new(Scalar::from_int(180)), &eps6()));

    let d3: Deg = Turns::new(Scalar::from_ratio(1, 4)).into_angle();
    assert!(d3.approx_eq(&Deg::new(Scalar::from_int(90)), &eps6()));

    let half_pi = Scalar::pi().div(Scalar::from_int(2));
    let r: Rad = Turns::new(Scalar::from_ratio(1, 4)).into_angle();
    assert!(r.approx_eq(&Rad::new(half_pi), &eps6()));

    let d4: Deg = ArcMinutes::new(Scalar::from_int(600)).into_angle();
    assert!(d4.approx_eq(&Deg::new(Scalar::from_int(10)), &eps6()));

    let r2: Rad = ArcMinutes::new(Scalar::from_int(5400)).into_angle();
    assert!(r2.reduced().approx_eq(&Rad::new(half_pi), &eps6()));
}

#[test]
fn test_arithmetic() {
    {
        let a1 = Rad::new(Scalar::from_int(2));
        let a2 = Deg::new(Scalar::from_int(100));

        let a3 = a2.add(a1);
        assert!(a3.scalar().approx_eq(
            &Scalar::from_ratio(21459, 100),
            &Scalar::from_ratio(1, 100)
        ));

        let a4 = Deg::new(Scalar::from_int(50));
        let a5 = a2.add(a4);
        assert!(a5.scalar() == Scalar::from_int(150));

        let mut a6 = Deg::new(Scalar::from_int(123));
        a6.add_assign(Deg::new(Scalar::from_int(10)));
        a6.add_assign(Rad::new(Scalar::pi()));
        assert!(a6.scalar() == Scalar::from_int(313));

        let a7 = Deg::new(Scalar::from_int(50));
        assert!(a7.mul(Scalar::from_int(2)) == Deg::new(Scalar::from_int(100)));
    }
    {
        let a1 = Rad::new(Scalar::from_int(2));
        let a2 = a1.rem(Rad::new(Scalar::from_ratio(3, 2)));
        assert!(a2 == Rad::new(Scalar::from_ratio(1, 2)));
        assert!(Rad::new(Scalar::from_int(1)).mul(Scalar::from_int(2))
            == Rad::new(Scalar::from_int(2)));
        let two_pi = Scalar::pi().mul(Scalar::from_int(2));
        assert!(Rad::new(two_pi).div(Scalar::from_int(2)) == Rad::new(Scalar::pi()));
    }
}

#[test]
fn test_equality() {
    let a1 = Rad::new(Scalar::from_int(2));
    assert!(a1 == Rad::new(Scalar::from_int(2)));
    assert!(Deg::new(Scalar::from_int(200)) == Deg::new(Scalar::from_int(200)));
    assert!(!(Deg::new(Scalar::from_int(200)) == Deg::new(Scalar::from_int(100))));

    assert!(Deg::new(Scalar::from_int(200)) < Deg::new(Scalar::from_int(300)));
    assert!(Deg::new(Scalar::from_int(250)) > Deg::new(Scalar::from_int(100)));
}

#[test]
fn test_normalize() {
    let mut a1 = Deg::new(Scalar::from_int(200));
    a1.add_assign(Deg::new(Scalar::from_int(300)));
    assert!(a1 == Deg::new(Scalar::from_int(500)));
    a1 = a1.normalize();
    assert!(a1 == Deg::new(Scalar::from_int(140)));
    assert!(a1.normalize() == a1);

    let a2 = Deg::new(Scalar::from_int(50));
    assert!(a2.sub(Deg::new(Scalar::from_int(150))) == Deg::new(Scalar::from_int(-100)));
    let a3 = a2.sub(Deg::new(Scalar::from_int(100)));
    assert!(!a3.is_normalized());
    assert!(a3.normalize() == Deg::new(Scalar::from_int(310)));
    assert!(a3.normalize().normalize() == a3.normalize());
    assert!(a3.normalize().is_normalized());

    let a4 = Rad::new(Scalar::pi());
    let two_pi = Scalar::pi().mul(Scalar::from_int(2));
    let a5 = a4.add(Rad::new(two_pi));
    let three_pi = Scalar::pi().mul(Scalar::from_int(3));
    assert!(a5 == Rad::new(three_pi));
    assert!(!a3.is_normalized());
    assert!(a5.normalize() == Rad::new(Scalar::pi()));
    let a6 = a4.sub(Rad::new(two_pi));
    assert!(a6 == Rad::new(Scalar::pi().neg()));
    assert!(!a6.is_normalized());
    assert!(a6.normalize() == a5.normalize());

    assert!(Deg::new(Scalar::from_int(360)).normalize() == Deg::new(Scalar::from_int(0)));
    assert!(Deg::new(Scalar::from_int(-1)).normalize() == Deg::new(Scalar::from_int(359)));
}

#[test]
fn decompose() {
    {
        let (deg, min, sec) = Deg::new(Scalar::from_ratio(5025, 100)).decompose();

        assert!(deg == Deg::new(Scalar::from_int(50)));
        assert!(min == ArcMinutes::new(Scalar::from_int(15)));
        assert!(sec == ArcSeconds::new(Scalar::from_int(0)));
    }
    {
        let (deg, min, sec) = Deg::new(Scalar::from_ratio(903131, 10000)).decompose();

        assert!(deg == Deg::new(Scalar::from_int(90)));
        assert!(min == ArcMinutes::new(Scalar::from_int(18)));
        assert!(sec.approx_eq(&ArcSeconds::new(Scalar::from_ratio(4716, 100)), &eps6()));
    }
}

#[test]
fn test_interpolate() {
    let half = Scalar::from_ratio(1, 2);
    let a1 = Deg::new(Scalar::from_int(60)).interpolate(&Deg::new(Scalar::from_int(120)), half);
    assert!(a1 == Deg::new(Scalar::from_int(90)));

    let a2 = Deg::new(Scalar::from_int(50))
        .interpolate(&Rad::new(Scalar::pi()), Scalar::from_ratio(3, 4));
    assert!(a2.reduced().approx_eq(&Deg::new(Scalar::from_ratio(1475, 10)), &eps6()));

    let a3 = Turns::new(Scalar::from_ratio(1, 2))
        .interpolate(&Deg::new(Scalar::from_int(30)), Scalar::from_ratio(1, 4));
    assert!(a3.reduced().approx_eq(
        &Turns::new(Scalar::from_ratio(39583333333, 100000000000)),
        &eps6()
    ));

    let a4 = Deg::new(Scalar::from_int(100))
        .interpolate(&Deg::new(Scalar::from_int(310)), half)
        .normalize();
    assert!(a4 == Deg::new(Scalar::from_int(25)));
    let a5 = Deg::new(Scalar::from_int(100))
        .interpolate_forward(&Deg::new(Scalar::from_int(310)), half)
        .normalize();
    assert!(a5 == Deg::new(Scalar::from_int(205)));
}

#[test]
fn test_constants() {
    assert!(Deg::half_turn() == Deg::new(Scalar::from_int(180)));
    assert!(Deg::quarter_turn() == Deg::new(Scalar::from_int(90)));
    assert!(Rad::half_turn() == Rad::new(Scalar::pi()));
    assert!(Rad::full_turn() == Rad::new(Rad::period()));
}

#[test]
fn test_invert() {
    assert!(Deg::new(Scalar::from_int(0)).invert() == Deg::new(Scalar::from_int(180)));
    assert!(Deg::new(Scalar::from_int(180)).invert().normalize() == Deg::new(Scalar::from_int(0)));
    assert!(Deg::new(Scalar::from_int(80)).invert() == Deg::new(Scalar::from_int(260)));
}
