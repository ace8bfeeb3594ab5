use taylor_number::{cube, TaylorNumber};

fn tower(values: &[i64]) -> TaylorNumber<i64> {
    let mut t = TaylorNumber::Unperturbed(values[values.len() - 1]);
    for k in (0..values.len() - 1).rev() {
        t = TaylorNumber::Perturbed(values[k], Box::new(t));
    }
    t
}

fn values(t: &TaylorNumber<i64>) -> Vec<i64> {
    let mut out = Vec::new();
    let mut cur = t;
    loop {
        match cur {
            TaylorNumber::Unperturbed(re) => {
                out.push(*re);
                return out;
            }
            TaylorNumber::Perturbed(re, df) => {
                out.push(*re);
                cur = df;
            }
        }
    }
}

#[test]
fn new_tower_has_order_zero() {
    let x = TaylorNumber::new(7i64);
    assert!(matches!(x, TaylorNumber::Unperturbed(7)));
    assert_eq!(x.real_part(), 7);
    assert_eq!(values(&x), vec![7]);
}

#[test]
fn derivative_zero_of_fresh_tower_is_its_value() {
    let d = TaylorNumber::new(-4i64).derivative(0);
    assert_eq!(values(&d), vec![-4]);
    assert_eq!(d.real_part(), -4);
}

#[test]
fn derivative_zero_drops_the_derivatives() {
    let d = tower(&[3, 1, 2]).derivative(0);
    assert_eq!(values(&d), vec![3]);
}

#[test]
fn derivative_beyond_zero_is_a_plain_zero() {
    assert_eq!(values(&tower(&[3, 1, 2]).derivative(1)), vec![0]);
    assert_eq!(values(&tower(&[3, 1, 2]).derivative(2)), vec![0]);
    assert_eq!(values(&TaylorNumber::new(9i64).derivative(5)), vec![0]);
}

#[test]
fn perturbing_a_fresh_tower_declares_its_derivative() {
    let mut y = TaylorNumber::new(1i64);
    y.perturb_by(5);
    assert_eq!(values(&y), vec![1, 5]);
    assert_eq!(y.real_part(), 1);
    assert_eq!(y.diff().real_part(), 5);
}

#[test]
fn perturbing_again_adds_to_the_derivative() {
    let mut y = TaylorNumber::new(3i64);
    y.perturb_by(1);
    y.perturb_by(4);
    assert_eq!(values(&y), vec![3, 5]);
    y.perturb_by(-7);
    assert_eq!(values(&y), vec![3, -2]);
}

#[test]
fn perturbing_a_deep_tower_touches_only_the_first_derivative() {
    let mut y = tower(&[3, 1, 2, 8]);
    y.perturb_by(10);
    assert_eq!(values(&y), vec![3, 11, 2, 8]);
}

#[test]
fn diff_of_order_zero_is_zero() {
    let d = TaylorNumber::new(42i64).diff();
    assert_eq!(values(&d), vec![0]);
}

#[test]
fn diff_returns_the_nested_tower() {
    assert_eq!(values(&tower(&[3, 1, 2]).diff()), vec![1, 2]);
    assert_eq!(values(&tower(&[3, 1, 2]).diff().diff()), vec![2]);
    assert_eq!(values(&tower(&[3, 1, 2]).diff().diff().diff()), vec![0]);
}

#[test]
fn clone_is_an_independent_copy() {
    let a = tower(&[3, 1, 2]);
    let mut b = a.clone();
    b.perturb_by(5);
    assert_eq!(values(&a), vec![3, 1, 2]);
    assert_eq!(values(&b), vec![3, 6, 2]);
}

#[test]
fn debug_rendering_shows_the_nesting() {
    let text = format!("{:?}", tower(&[3, 1]));
    assert_eq!(text, "Perturbed(3, Unperturbed(1))");
}

#[test]
fn addition_of_plain_values() {
    let c = TaylorNumber::new(2i64) + TaylorNumber::new(5i64);
    assert_eq!(values(&c), vec![7]);
}

#[test]
fn addition_carries_the_only_derivative_through() {
    assert_eq!(values(&(tower(&[1, 1]) + tower(&[1]))), vec![2, 1]);
    assert_eq!(values(&(tower(&[1]) + tower(&[1, 4, 9]))), vec![2, 4, 9]);
}

#[test]
fn addition_is_linear() {
    let a = tower(&[2, 3, 5]);
    let b = tower(&[7, 11]);
    let c = a.clone() + b.clone();
    assert_eq!(c.real_part(), a.real_part() + b.real_part());
    assert_eq!(values(&c), vec![9, 14, 5]);
    assert_eq!(values(&c.diff()), values(&(a.diff() + b.diff())));
}

#[test]
fn addition_wraps_around() {
    let c = TaylorNumber::new(i64::MAX) + TaylorNumber::new(1i64);
    assert_eq!(values(&c), vec![i64::MIN]);
}

#[test]
fn negation_reaches_every_level() {
    assert_eq!(values(&(-tower(&[3, -1, 2]))), vec![-3, 1, -2]);
    assert_eq!(values(&(-TaylorNumber::new(i64::MIN))), vec![i64::MIN]);
}

#[test]
fn subtraction_adds_the_negation() {
    assert_eq!(values(&(tower(&[1]) - tower(&[5, 2]))), vec![-4, -2]);
    assert_eq!(values(&(tower(&[9, 4, 1]) - tower(&[5, 2]))), vec![4, 2, 1]);
}

#[test]
fn a_tower_minus_itself_is_zero_at_every_depth() {
    for a in [tower(&[3]), tower(&[3, 1]), tower(&[i64::MIN, i64::MAX, -1, 0])] {
        let d = a.clone() - a;
        assert!(d.is_zero());
        assert!(values(&d).iter().all(|v| *v == 0));
    }
}

#[test]
fn scalar_multiplication_distributes() {
    let a = tower(&[3, 1, -2]);
    let c = a.clone() * 4i64;
    assert_eq!(values(&c), vec![12, 4, -8]);
    assert_eq!(c.real_part(), a.real_part() * 4);
    assert_eq!(c.diff().real_part(), a.diff().real_part() * 4);
}

#[test]
fn scalar_division_applies_the_divisor_as_a_factor() {
    assert_eq!(values(&(tower(&[6, 2]) / 2i64)), vec![12, 4]);
    assert_eq!(values(&(tower(&[6]) / 3i64)), vec![18]);
    assert_eq!(values(&(tower(&[6, 2, 1]) / 0i64)), vec![0, 0, 0]);
}

#[test]
fn product_of_plain_values() {
    assert_eq!(values(&(tower(&[6]) * tower(&[-7]))), vec![-42]);
}

#[test]
fn product_with_an_order_zero_operand_scales() {
    assert_eq!(values(&(tower(&[2]) * tower(&[3, 4, 5]))), vec![6, 8, 10]);
    assert_eq!(values(&(tower(&[3, 4, 5]) * tower(&[2]))), vec![6, 8, 10]);
}

#[test]
fn product_rule_at_order_one() {
    let a = tower(&[2, 3]);
    let b = tower(&[5, 7]);
    let c = a * b;
    assert_eq!(c.real_part(), 10);
    assert_eq!(c.clone().diff().real_part(), 3 * 5 + 7 * 2);
    assert_eq!(values(&c), vec![10, 29, 42]);
}

#[test]
fn product_wraps_around() {
    let c = TaylorNumber::new(i64::MAX) * TaylorNumber::new(2i64);
    assert_eq!(values(&c), vec![-2]);
}

#[test]
fn cube_of_x_at_three() {
    let mut a = TaylorNumber::new(3i64);
    a.perturb_by(1);
    let c = cube(a);
    assert_eq!(c.real_part(), 27);
    assert_eq!(c.clone().diff().real_part(), 27);
    assert_eq!(c.clone().diff().diff().real_part(), 18);
    assert_eq!(values(&c), vec![27, 27, 18, 6]);
}

#[test]
fn cube_is_the_product_taken_twice() {
    let a = tower(&[2, 1, 4]);
    let by_hand = a.clone() * a.clone() * a.clone();
    assert_eq!(values(&cube(a)), values(&by_hand));
}

#[test]
fn zero_is_zero() {
    let z = TaylorNumber::<i64>::zero();
    assert_eq!(values(&z), vec![0]);
    assert!(z.is_zero());
}

#[test]
fn is_zero_looks_at_every_level() {
    assert!(tower(&[0, 0, 0]).is_zero());
    assert!(!tower(&[0, 0, 1]).is_zero());
    assert!(!tower(&[0, 1]).is_zero());
    assert!(!tower(&[1, 0]).is_zero());
    assert!(!tower(&[5]).is_zero());
}

#[test]
fn one_is_the_identity_of_the_product() {
    let one = TaylorNumber::<i64>::one();
    assert_eq!(values(&one), vec![1]);
    for a in [tower(&[5]), tower(&[3, 1]), tower(&[-2, 7, i64::MIN, 4])] {
        assert_eq!(values(&(TaylorNumber::one() * a.clone())), values(&a));
    }
}

#[test]
fn product_rule_at_order_two() {
    let a = tower(&[2, 3, 5]);
    let b = tower(&[7, 11, 13]);
    let c = a * b;
    assert_eq!(c.clone().diff().diff().real_part(), 5 * 7 + 2 * 3 * 11 + 2 * 13);
    assert_eq!(values(&c), vec![14, 43, 127, 282, 390]);
}

#[test]
fn product_order_is_the_sum_of_the_orders() {
    assert_eq!(values(&(tower(&[1, 1]) * tower(&[1, 1, 1, 1]))).len(), 5);
    assert_eq!(values(&(tower(&[1]) * tower(&[1, 1, 1]))).len(), 3);
}
