use plonky2_evm::field::crandall::{CrandallField, CRANDALL_ORDER};
use plonky2_evm::field::extension_field::{QuarticCrandallField, QuarticFieldExtension};
use rand::Rng;

fn random_element() -> QuarticCrandallField {
    let mut rng = rand::thread_rng();
    QuarticCrandallField::new(
        CrandallField::from_noncanonical_u64(rng.gen()),
        CrandallField::from_noncanonical_u64(rng.gen()),
        CrandallField::from_noncanonical_u64(rng.gen()),
        CrandallField::from_noncanonical_u64(rng.gen()),
    )
}

fn element(a: [u64; 4]) -> QuarticCrandallField {
    QuarticCrandallField::new(
        CrandallField::from_noncanonical_u64(a[0]),
        CrandallField::from_noncanonical_u64(a[1]),
        CrandallField::from_noncanonical_u64(a[2]),
        CrandallField::from_noncanonical_u64(a[3]),
    )
}

#[test]
fn test_frobenius() {
    let x = random_element();
    assert_eq!(x.exp_usize(CRANDALL_ORDER as usize), x.frobenius());
}

#[test]
fn frobenius_of_fixed_element_is_pth_power() {
    let x = element([1, 2, 3, 4]);
    assert_eq!(x.exp_usize(CRANDALL_ORDER as usize), x.frobenius());
    assert_ne!(x.frobenius(), x);
}

#[test]
fn frobenius_fixes_base_field() {
    let x = element([12345, 0, 0, 0]);
    assert!(x.is_in_basefield());
    assert_eq!(x.frobenius(), x);
    assert!(!element([1, 1, 0, 0]).is_in_basefield());
}

#[test]
fn fourfold_frobenius_is_identity() {
    let x = random_element();
    assert_eq!(x.frobenius().frobenius().frobenius().frobenius(), x);
}

#[test]
fn inverse_times_element_is_one() {
    for _ in 0..8 {
        let x = random_element();
        if x.is_zero() {
            continue;
        }
        let inv = x.try_inverse().unwrap();
        assert_eq!(inv.mul(&x), QuarticCrandallField::one());
    }
    let y = element([0, 0, 0, 5]);
    assert_eq!(y.try_inverse().unwrap().mul(&y), QuarticCrandallField::one());
}

#[test]
fn zero_has_no_inverse() {
    assert!(QuarticCrandallField::zero().try_inverse().is_none());
    assert!(CrandallField::zero().try_inverse().is_none());
}

#[test]
fn x_to_the_fourth_is_w() {
    let x = element([0, 1, 0, 0]);
    let x4 = x.mul(&x).mul(&x).mul(&x);
    assert_eq!(x4, element([3, 0, 0, 0]));
    assert_eq!(x.exp_usize(4), x4);
}

#[test]
fn add_sub_neg_scalar() {
    let a = element([1, 2, 3, 4]);
    let b = element([CRANDALL_ORDER - 1, 5, 6, 7]);
    assert_eq!(a.add(&b), element([0, 7, 9, 11]));
    assert_eq!(a.add(&b).sub(&b), a);
    assert_eq!(a.add(&a.neg()), QuarticCrandallField::zero());
    assert_eq!(a.scalar_mul(CrandallField::from_noncanonical_u64(2)), element([2, 4, 6, 8]));
    let repr = a.to_canonical_representation();
    assert_eq!(repr[2].to_canonical_u64(), 3);
}

#[test]
fn base_field_arithmetic() {
    let a = CrandallField::from_noncanonical_u64(CRANDALL_ORDER + 5);
    assert_eq!(a.to_canonical_u64(), 5);
    let b = CrandallField::from_noncanonical_u64(CRANDALL_ORDER - 1);
    assert_eq!(b.mul(&b).to_canonical_u64(), 1);
    assert_eq!(a.exp_u64(3).to_canonical_u64(), 125);
    let inv = a.try_inverse().unwrap();
    assert_eq!(inv.mul(&a).to_canonical_u64(), 1);
    assert_eq!(a.sub(&b).to_canonical_u64(), 6);
    assert_eq!(a.neg().add(&a).to_canonical_u64(), 0);
}

#[test]
fn division_undoes_multiplication() {
    let a = element([5, 6, 7, 8]);
    let b = element([1, 0, 2, 0]);
    assert_eq!(a.mul(&b).div(&b), a);
}
