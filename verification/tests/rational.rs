use unit_convert::Meters;
use unit_convert::Quantity;
use unit_convert::Rat;
use unit_convert::UnitExt;

#[test]
fn equivalence_ignores_representation() {
    assert!(Rat::new(1, 2).eqv(&Rat::new(2, 4)));
    assert!(Rat::new(-1, 2).eqv(&Rat::new(1, -2)));
    assert!(!Rat::new(1, 2).eqv(&Rat::new(2, 3)));
}

#[test]
fn equivalence_handles_extreme_components() {
    assert!(Rat::new(i64::MAX, i64::MAX).eqv(&Rat::from_i64(1)));
    assert!(Rat::new(i64::MIN, i64::MIN).eqv(&Rat::from_i64(1)));
    assert!(!Rat::new(i64::MAX, 1).eqv(&Rat::new(i64::MAX - 1, 1)));
}

#[test]
fn arithmetic_is_exact() {
    assert!(Rat::new(1, 3).add(Rat::new(1, 6)).eqv(&Rat::new(1, 2)));
    assert!(Rat::new(1, 2).sub(Rat::new(1, 3)).eqv(&Rat::new(1, 6)));
    assert!(Rat::new(2, 3).mul(Rat::new(3, 4)).eqv(&Rat::new(1, 2)));
    assert!(Rat::new(2, 3).div(Rat::new(4, 3)).eqv(&Rat::new(1, 2)));
}

#[test]
fn division_by_zero_yields_no_number() {
    let r = Meters(Rat::from_i64(1)).div_value(Rat::from_i64(0));
    assert_eq!(r.value().den(), 0);
}
