use ezdiff::rational::Rational;
use ezdiff::scalar::Dual;
use ezdiff::vector::DualVector;

fn assert_rat(r: Rational, num: i128, den: i128) {
    assert_eq!(r.numerator(), num);
    assert_eq!(r.denominator(), den);
}

#[test]
fn seeding_fills_every_slot() {
    let v = DualVector::new(Rational::new(7, 2), 4);
    assert_eq!(v.width(), 4);
    for i in 0..4 {
        assert_rat(v.value_at(i), 7, 2);
        assert_rat(v.derivative_at(i), 1, 1);
    }
}

#[test]
fn each_slot_matches_the_scalar_computation() {
    // x^2 + 2 at x == 3, through the vector form: every slot must agree
    // with the scalar result.
    let v = DualVector::new(Rational::from_int(3), 3);
    let vy = v.clone().mul(v).add_const(Rational::from_int(2));
    let x = Dual::new(Rational::from_int(3));
    let y = x.mul(x).add_const(Rational::from_int(2));
    assert_eq!(vy.width(), 3);
    for i in 0..3 {
        assert_eq!(vy.value_at(i).numerator(), y.value().numerator());
        assert_eq!(vy.value_at(i).denominator(), y.value().denominator());
        assert_eq!(vy.derivative_at(i).numerator(), y.derivative().numerator());
        assert_eq!(vy.derivative_at(i).denominator(), y.derivative().denominator());
    }
}

#[test]
fn slotwise_negation_and_difference() {
    let a = DualVector::new(Rational::from_int(5), 2);
    let b = DualVector::new(Rational::from_int(3), 2);
    let neg = a.clone().neg();
    let diff = a.sub(b);
    for i in 0..2 {
        assert_rat(neg.value_at(i), -5, 1);
        assert_rat(neg.derivative_at(i), -1, 1);
        assert_rat(diff.value_at(i), 2, 1);
        assert_rat(diff.derivative_at(i), 0, 1);
    }
}

#[test]
fn slotwise_division_uses_the_same_rule() {
    let a = DualVector::new(Rational::from_int(3), 2);
    let b = DualVector::new(Rational::from_int(2), 2);
    let y = a.div(b);
    for i in 0..2 {
        assert_rat(y.value_at(i), 3, 2);
        assert_rat(y.derivative_at(i), 5, 4);
    }
}

#[test]
fn slotwise_constant_interaction_commutes() {
    let v = DualVector::new(Rational::from_int(2), 3);
    let left = DualVector::const_add(Rational::from_int(5), v.clone());
    let right = v.clone().add_const(Rational::from_int(5));
    let scaled_left = DualVector::const_mul(Rational::from_int(3), v.clone());
    let scaled_right = v.mul_const(Rational::from_int(3));
    for i in 0..3 {
        assert_eq!(left.value_at(i).numerator(), right.value_at(i).numerator());
        assert_eq!(left.value_at(i).denominator(), right.value_at(i).denominator());
        assert_eq!(left.derivative_at(i).numerator(), right.derivative_at(i).numerator());
        assert_rat(left.value_at(i), 7, 1);
        assert_eq!(scaled_left.value_at(i).numerator(), scaled_right.value_at(i).numerator());
        assert_eq!(
            scaled_left.derivative_at(i).numerator(),
            scaled_right.derivative_at(i).numerator()
        );
        assert_rat(scaled_left.value_at(i), 6, 1);
        assert_rat(scaled_left.derivative_at(i), 3, 1);
    }
}

#[test]
fn slotwise_powers_and_chain() {
    let v = DualVector::new(Rational::from_int(2), 2);
    let cubed = v.clone().powi(3);
    let chained = v.chain_unary(Rational::new(5, 7), Rational::new(2, 3));
    for i in 0..2 {
        assert_rat(cubed.value_at(i), 8, 1);
        assert_rat(cubed.derivative_at(i), 12, 1);
        assert_rat(chained.value_at(i), 5, 7);
        assert_rat(chained.derivative_at(i), 2, 3);
    }
}
