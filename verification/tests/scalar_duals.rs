use ezdiff::rational::Rational;
use ezdiff::scalar::Dual;

fn rat(num: i128, den: i128) -> Rational {
    Rational::new(num, den)
}

fn assert_rat(r: Rational, num: i128, den: i128) {
    assert_eq!(r.numerator(), num);
    assert_eq!(r.denominator(), den);
}

#[test]
fn simple() {
    let x = Dual::new(Rational::from_int(3));
    let y = x.mul(x).add_const(Rational::from_int(2));
    assert_rat(y.value(), 11, 1);
    assert_rat(y.derivative(), 6, 1);
}

#[test]
fn add_mul_consts() {
    let f = |x: Dual| Dual::const_add(Rational::from_int(1), x.mul_const(Rational::from_int(3)));
    let y_2 = f(Dual::new(Rational::from_int(2)));
    assert_rat(y_2.value(), 7, 1);
    assert_rat(y_2.derivative(), 3, 1);
}

#[test]
fn seeding_marks_the_variable() {
    let x = Dual::new(rat(7, 2));
    assert_rat(x.value(), 7, 2);
    assert_rat(x.derivative(), 1, 1);
}

#[test]
fn negation_flips_both_components() {
    let y = Dual::new(Rational::from_int(5)).neg();
    assert_rat(y.value(), -5, 1);
    assert_rat(y.derivative(), -1, 1);
}

#[test]
fn difference_rule() {
    let a = Dual::new(Rational::from_int(5));
    let b = Dual::new(Rational::from_int(3));
    let y = a.sub(b);
    assert_rat(y.value(), 2, 1);
    assert_rat(y.derivative(), 0, 1);
}

#[test]
fn division_rule_uses_the_sum() {
    let a = Dual::new(Rational::from_int(3));
    let b = Dual::new(Rational::from_int(2));
    let y = a.div(b);
    assert_rat(y.value(), 3, 2);
    // (a*b' + b*a') / b^2 == (3 + 2) / 4, a sum where the textbook
    // quotient rule would subtract.
    assert_rat(y.derivative(), 5, 4);
}

#[test]
fn division_by_a_negative_keeps_denominator_positive() {
    let a = Dual::new(Rational::from_int(1));
    let b = Dual::new(Rational::from_int(-2));
    let y = a.div(b);
    assert_rat(y.value(), -1, 2);
    assert_rat(y.derivative(), -1, 4);
}

#[test]
fn power_rule() {
    let x = Dual::new(Rational::from_int(2));
    let y = x.powi(3);
    assert_rat(y.value(), 8, 1);
    assert_rat(y.derivative(), 12, 1);
}

#[test]
fn power_zero_is_the_constant_one() {
    let x = Dual::new(Rational::from_int(9));
    let y = x.powi(0);
    assert_rat(y.value(), 1, 1);
    assert_rat(y.derivative(), 0, 1);
}

#[test]
fn chain_rule_scales_the_derivative() {
    let x = Dual::new(Rational::from_int(4)).mul_const(Rational::from_int(2));
    // A function with value 5/7 and slope 2/3 at the point: the result
    // keeps the value and multiplies the incoming derivative (2) by the
    // slope.
    let y = x.chain_unary(rat(5, 7), rat(2, 3));
    assert_rat(y.value(), 5, 7);
    assert_rat(y.derivative(), 4, 3);
}

#[test]
fn chain_rule_composes() {
    let x = Dual::new(Rational::from_int(4));
    let two_steps = x.chain_unary(rat(1, 2), rat(3, 1)).chain_unary(rat(9, 5), rat(5, 1));
    let one_step = x.chain_unary(rat(9, 5), rat(5, 1).mul(rat(3, 1)));
    assert!(two_steps.value().eqv(&one_step.value()));
    assert!(two_steps.derivative().eqv(&one_step.derivative()));
    assert_rat(two_steps.derivative(), 15, 1);
}

#[test]
fn constant_addition_commutes() {
    let x = Dual::new(Rational::from_int(2));
    let left = Dual::const_add(Rational::from_int(5), x);
    let right = x.add_const(Rational::from_int(5));
    assert_eq!(left.value().numerator(), right.value().numerator());
    assert_eq!(left.value().denominator(), right.value().denominator());
    assert_eq!(left.derivative().numerator(), right.derivative().numerator());
    assert_eq!(left.derivative().denominator(), right.derivative().denominator());
    assert_rat(left.value(), 7, 1);
}

#[test]
fn constant_multiplication_commutes() {
    let x = Dual::new(rat(3, 2));
    let left = Dual::const_mul(Rational::from_int(4), x);
    let right = x.mul_const(Rational::from_int(4));
    assert_eq!(left.value().numerator(), right.value().numerator());
    assert_eq!(left.value().denominator(), right.value().denominator());
    assert_eq!(left.derivative().numerator(), right.derivative().numerator());
    assert_eq!(left.derivative().denominator(), right.derivative().denominator());
    assert!(left.value().eqv(&rat(6, 1)));
    assert!(left.derivative().eqv(&rat(4, 1)));
}

#[test]
fn dual_addition_commutes() {
    let a = Dual::new(rat(1, 2));
    let b = Dual::new(rat(1, 3));
    let left = a.add(b);
    let right = b.add(a);
    assert!(left.value().eqv(&right.value()));
    assert!(left.derivative().eqv(&right.derivative()));
    assert!(left.value().eqv(&rat(5, 6)));
    assert!(left.derivative().eqv(&rat(2, 1)));
}

#[test]
fn dual_multiplication_commutes() {
    let a = Dual::new(rat(1, 2));
    let b = Dual::new(rat(1, 3));
    let left = a.mul(b);
    let right = b.mul(a);
    assert!(left.value().eqv(&right.value()));
    assert!(left.derivative().eqv(&right.derivative()));
    assert!(left.value().eqv(&rat(1, 6)));
    // product rule: 1/2 * 1 + 1/3 * 1 == 5/6
    assert!(left.derivative().eqv(&rat(5, 6)));
}
