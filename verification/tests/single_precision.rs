//! Single-precision (32-bit) vector operations, exercised through the public
//! API on concrete values. Elements are carried as IEEE-754 bit patterns.

use numrs::vector::Vector;

fn v32(xs: &[f32]) -> Vector<u32> {
    let bits: Vec<u32> = xs.iter().map(|x| x.to_bits()).collect();
    Vector::<u32>::new(&bits)
}

fn assert_elements(v: &Vector<u32>, expected: &[f32]) {
    assert_eq!(v.len(), expected.len());
    for i in 0..expected.len() {
        assert_eq!(*v.index(i), expected[i].to_bits(), "element {}", i);
    }
}

#[test]
fn add_four_wide_chunk() {
    let a = v32(&[1.0, 2.0, 3.0, 4.0]);
    let b = v32(&[4.0, 3.0, 2.0, 1.0]);
    let r = a.add(b).unwrap();
    assert_elements(&r, &[5.0, 5.0, 5.0, 5.0]);
}

#[test]
fn add_shape_mismatch_message() {
    let a = v32(&[1.0, 2.0, 3.0]);
    let b = v32(&[1.0, 2.0, 3.0, 4.0]);
    let e = a.add(b).unwrap_err();
    assert_eq!(e, "Vectors are not conformable for addition.");
}

#[test]
fn mul_full_chunk_and_tail() {
    let a = v32(&[1.0, 2.0, 3.0, 4.0, 5.0]);
    let b = v32(&[2.0, 2.0, 2.0, 2.0, 2.0]);
    let r = a.mul(b).unwrap();
    assert_elements(&r, &[2.0, 4.0, 6.0, 8.0, 10.0]);
}

#[test]
fn neg_keeps_negative_zero() {
    let a = v32(&[1.0, -2.0, 0.0]);
    let r = a.neg();
    assert_eq!(*r.index(0), (-1.0f32).to_bits());
    assert_eq!(*r.index(1), 2.0f32.to_bits());
    assert_eq!(*r.index(2), (-0.0f32).to_bits());
}

#[test]
fn eq_true_and_false() {
    assert!(v32(&[1.0, 2.0]).eq(&v32(&[1.0, 2.0])));
    assert!(!v32(&[1.0, 2.0]).eq(&v32(&[1.0, 3.0])));
}

#[test]
fn div_by_zero_yields_nan_not_fault() {
    let a = v32(&[1.0, 0.0]);
    let b = v32(&[1.0, 0.0]);
    let r = a.div(b).unwrap();
    assert_eq!(*r.index(0), 1.0f32.to_bits());
    assert!(f32::from_bits(*r.index(1)).is_nan());
}

#[test]
fn add_matches_scalar_for_all_small_lengths() {
    for n in 0..=12usize {
        let xs: Vec<f32> = (0..n).map(|i| i as f32 * 1.5 - 3.0).collect();
        let ys: Vec<f32> = (0..n).map(|i| i as f32 * -0.25 + 1.0).collect();
        let r = v32(&xs).add(v32(&ys)).unwrap();
        assert_eq!(r.len(), n);
        for i in 0..n {
            assert_eq!(*r.index(i), (xs[i] + ys[i]).to_bits(), "n={} i={}", n, i);
        }
    }
}

#[test]
fn sub_matches_scalar_for_all_small_lengths() {
    for n in 0..=12usize {
        let xs: Vec<f32> = (0..n).map(|i| i as f32 * 0.75 + 2.0).collect();
        let ys: Vec<f32> = (0..n).map(|i| i as f32 * 1.25 - 4.0).collect();
        let r = v32(&xs).sub(v32(&ys)).unwrap();
        assert_eq!(r.len(), n);
        for i in 0..n {
            assert_eq!(*r.index(i), (xs[i] - ys[i]).to_bits(), "n={} i={}", n, i);
        }
    }
}

#[test]
fn mul_matches_scalar_for_all_small_lengths() {
    for n in 0..=12usize {
        let xs: Vec<f32> = (0..n).map(|i| i as f32 * 0.3 - 1.1).collect();
        let ys: Vec<f32> = (0..n).map(|i| i as f32 * -2.5 + 0.5).collect();
        let r = v32(&xs).mul(v32(&ys)).unwrap();
        assert_eq!(r.len(), n);
        for i in 0..n {
            assert_eq!(*r.index(i), (xs[i] * ys[i]).to_bits(), "n={} i={}", n, i);
        }
    }
}

#[test]
fn div_matches_scalar_for_all_small_lengths() {
    for n in 0..=12usize {
        let xs: Vec<f32> = (0..n).map(|i| i as f32 * 5.5 - 7.0).collect();
        let ys: Vec<f32> = (0..n).map(|i| i as f32 * 0.5 + 0.25).collect();
        let r = v32(&xs).div(v32(&ys)).unwrap();
        assert_eq!(r.len(), n);
        for i in 0..n {
            assert_eq!(*r.index(i), (xs[i] / ys[i]).to_bits(), "n={} i={}", n, i);
        }
    }
}

#[test]
fn binary_ops_preserve_length() {
    for n in [0usize, 1, 3, 4, 5, 8, 11] {
        let xs: Vec<f32> = (0..n).map(|i| i as f32 + 1.0).collect();
        let ys: Vec<f32> = (0..n).map(|i| i as f32 + 2.0).collect();
        assert_eq!(v32(&xs).add(v32(&ys)).unwrap().len(), n);
        assert_eq!(v32(&xs).sub(v32(&ys)).unwrap().len(), n);
        assert_eq!(v32(&xs).mul(v32(&ys)).unwrap().len(), n);
        assert_eq!(v32(&xs).div(v32(&ys)).unwrap().len(), n);
    }
}

#[test]
fn shape_mismatch_all_ops() {
    let short = [1.0f32, 2.0];
    let long = [1.0f32, 2.0, 3.0];
    assert_eq!(
        v32(&short).add(v32(&long)).unwrap_err(),
        "Vectors are not conformable for addition."
    );
    assert_eq!(
        v32(&long).sub(v32(&short)).unwrap_err(),
        "Vectors are not conformable for subtraction."
    );
    assert_eq!(
        v32(&short).mul(v32(&long)).unwrap_err(),
        "Vectors are not conformable for multiplication."
    );
    assert_eq!(
        v32(&long).div(v32(&short)).unwrap_err(),
        "Vectors are not conformable for division."
    );
}

#[test]
fn eq_of_clone_is_true() {
    let a = v32(&[0.5, -1.5, 2.25, 1e30, -0.0, 3.5]);
    let b = a.clone();
    assert!(a.eq(&b));
    assert!(b.eq(&a));
}

#[test]
fn eq_false_when_tail_element_differs() {
    let a = v32(&[1.0, 2.0, 3.0, 4.0, 5.0]);
    let b = v32(&[1.0, 2.0, 3.0, 4.0, 6.0]);
    assert!(!a.eq(&b));
    assert!(!b.eq(&a));
}

#[test]
fn eq_nan_unequal_to_itself() {
    let a = v32(&[1.0, f32::NAN]);
    let b = a.clone();
    assert!(!a.eq(&b));
}

#[test]
fn eq_zero_signs_equal() {
    assert!(v32(&[0.0, -0.0]).eq(&v32(&[-0.0, 0.0])));
}

#[test]
fn eq_length_mismatch_is_false() {
    assert!(!v32(&[1.0, 2.0]).eq(&v32(&[1.0, 2.0, 3.0])));
}

#[test]
fn neg_involution_all_kinds() {
    let values = [0.0f32, -0.0, 1.0, -2.5, 1e-40, f32::INFINITY, f32::NEG_INFINITY, f32::NAN];
    let v = v32(&values);
    let twice = v.clone().neg().neg();
    for i in 0..values.len() {
        assert_eq!(*twice.index(i), values[i].to_bits(), "element {}", i);
    }
}

#[test]
fn div_by_zero_signs() {
    let r = v32(&[1.0, -1.0]).div(v32(&[0.0, 0.0])).unwrap();
    assert_eq!(*r.index(0), f32::INFINITY.to_bits());
    assert_eq!(*r.index(1), f32::NEG_INFINITY.to_bits());
}

#[test]
fn empty_vectors() {
    let e = v32(&[]);
    assert_eq!(e.len(), 0);
    assert_eq!(e.clone().add(v32(&[])).unwrap().len(), 0);
    assert!(e.eq(&v32(&[])));
    assert_eq!(e.clone().neg().len(), 0);
}

#[test]
fn index_and_len() {
    let a = v32(&[7.5, -8.25, 9.0]);
    assert_eq!(a.len(), 3);
    assert_eq!(*a.index(0), 7.5f32.to_bits());
    assert_eq!(*a.index(2), 9.0f32.to_bits());
}

#[test]
fn clone_is_independent() {
    let a = v32(&[1.0, 2.0]);
    let b = a.clone();
    let negated = a.neg();
    assert_eq!(*b.index(0), 1.0f32.to_bits());
    assert_eq!(*negated.index(0), (-1.0f32).to_bits());
}

#[test]
fn clone_from_copies_contents() {
    let mut a = v32(&[1.0, 2.0, 3.0]);
    let b = v32(&[4.0, 5.0]);
    a.clone_from(&b);
    assert_eq!(a.len(), 2);
    assert_eq!(*a.index(0), 4.0f32.to_bits());
    assert_eq!(*a.index(1), 5.0f32.to_bits());
}
