use ezdiff::rational::Rational;

fn assert_rat(r: Rational, num: i128, den: i128) {
    assert_eq!(r.numerator(), num);
    assert_eq!(r.denominator(), den);
}

#[test]
fn from_int_has_denominator_one() {
    assert_rat(Rational::from_int(-9), -9, 1);
}

#[test]
fn new_folds_the_sign_into_the_numerator() {
    assert_rat(Rational::new(3, -4), -3, 4);
    assert_rat(Rational::new(3, 4), 3, 4);
    assert_rat(Rational::new(-3, -4), 3, 4);
}

#[test]
fn sum_of_halves_and_thirds() {
    let y = Rational::new(1, 2).add(Rational::new(1, 3));
    assert_rat(y, 5, 6);
}

#[test]
fn difference_crosses_denominators() {
    let y = Rational::new(1, 2).sub(Rational::new(1, 3));
    assert_rat(y, 1, 6);
}

#[test]
fn product_multiplies_componentwise() {
    let y = Rational::new(2, 3).mul(Rational::new(5, 7));
    assert_rat(y, 10, 21);
}

#[test]
fn quotient_flips_the_divisor() {
    let y = Rational::new(2, 3).div(Rational::new(5, 7));
    assert_rat(y, 14, 15);
}

#[test]
fn quotient_by_a_negative_stays_well_formed() {
    let y = Rational::new(1, 1).div(Rational::new(-2, 1));
    assert_rat(y, -1, 2);
}

#[test]
fn equivalence_ignores_the_representation() {
    assert!(Rational::new(2, 4).eqv(&Rational::new(1, 2)));
    assert!(!Rational::new(2, 4).eqv(&Rational::new(2, 3)));
}

#[test]
fn powers_by_repeated_multiplication() {
    let y = Rational::from_int(2).pow_nat(5);
    assert_rat(y, 32, 1);
    let unit = Rational::from_int(7).pow_nat(0);
    assert_rat(unit, 1, 1);
}
