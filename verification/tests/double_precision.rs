//! Double-precision (64-bit) vector operations, exercised through the public
//! API on concrete values. Elements are carried as IEEE-754 bit patterns; the
//! lane width is two, so odd lengths end in a one-element tail chunk.

use numrs::vector::Vector;

fn v64(xs: &[f64]) -> Vector<u64> {
    let bits: Vec<u64> = xs.iter().map(|x| x.to_bits()).collect();
    Vector::<u64>::new(&bits)
}

#[test]
fn add_two_wide_chunk_and_tail() {
    let a = v64(&[1.0, 2.0, 3.0]);
    let b = v64(&[3.0, 2.0, 1.0]);
    let r = a.add(b).unwrap();
    assert_eq!(r.len(), 3);
    for i in 0..3 {
        assert_eq!(*r.index(i), 4.0f64.to_bits(), "element {}", i);
    }
}

#[test]
fn add_matches_scalar_for_all_small_lengths_64() {
    for n in 0..=6usize {
        let xs: Vec<f64> = (0..n).map(|i| i as f64 * 1.5 - 3.0).collect();
        let ys: Vec<f64> = (0..n).map(|i| i as f64 * -0.25 + 1.0).collect();
        let r = v64(&xs).add(v64(&ys)).unwrap();
        assert_eq!(r.len(), n);
        for i in 0..n {
            assert_eq!(*r.index(i), (xs[i] + ys[i]).to_bits(), "n={} i={}", n, i);
        }
    }
}

#[test]
fn sub_matches_scalar_for_all_small_lengths_64() {
    for n in 0..=6usize {
        let xs: Vec<f64> = (0..n).map(|i| i as f64 * 0.75 + 2.0).collect();
        let ys: Vec<f64> = (0..n).map(|i| i as f64 * 1.25 - 4.0).collect();
        let r = v64(&xs).sub(v64(&ys)).unwrap();
        assert_eq!(r.len(), n);
        for i in 0..n {
            assert_eq!(*r.index(i), (xs[i] - ys[i]).to_bits(), "n={} i={}", n, i);
        }
    }
}

#[test]
fn mul_matches_scalar_for_all_small_lengths_64() {
    for n in 0..=6usize {
        let xs: Vec<f64> = (0..n).map(|i| i as f64 * 0.3 - 1.1).collect();
        let ys: Vec<f64> = (0..n).map(|i| i as f64 * -2.5 + 0.5).collect();
        let r = v64(&xs).mul(v64(&ys)).unwrap();
        assert_eq!(r.len(), n);
        for i in 0..n {
            assert_eq!(*r.index(i), (xs[i] * ys[i]).to_bits(), "n={} i={}", n, i);
        }
    }
}

#[test]
fn div_matches_scalar_for_all_small_lengths_64() {
    for n in 0..=6usize {
        let xs: Vec<f64> = (0..n).map(|i| i as f64 * 5.5 - 7.0).collect();
        let ys: Vec<f64> = (0..n).map(|i| i as f64 * 0.5 + 0.25).collect();
        let r = v64(&xs).div(v64(&ys)).unwrap();
        assert_eq!(r.len(), n);
        for i in 0..n {
            assert_eq!(*r.index(i), (xs[i] / ys[i]).to_bits(), "n={} i={}", n, i);
        }
    }
}

#[test]
fn shape_mismatch_all_ops_64() {
    let short = [1.0f64];
    let long = [1.0f64, 2.0];
    assert_eq!(
        v64(&short).add(v64(&long)).unwrap_err(),
        "Vectors are not conformable for addition."
    );
    assert_eq!(
        v64(&long).sub(v64(&short)).unwrap_err(),
        "Vectors are not conformable for subtraction."
    );
    assert_eq!(
        v64(&short).mul(v64(&long)).unwrap_err(),
        "Vectors are not conformable for multiplication."
    );
    assert_eq!(
        v64(&long).div(v64(&short)).unwrap_err(),
        "Vectors are not conformable for division."
    );
}

#[test]
fn eq_of_clone_is_true_64() {
    let a = v64(&[0.5, -1.5, 2.25, 1e300, -0.0]);
    let b = a.clone();
    assert!(a.eq(&b));
    assert!(b.eq(&a));
}

#[test]
fn eq_false_when_tail_element_differs_64() {
    let a = v64(&[1.0, 2.0, 3.0]);
    let b = v64(&[1.0, 2.0, 4.0]);
    assert!(!a.eq(&b));
    assert!(!b.eq(&a));
}

#[test]
fn eq_nan_and_zero_signs_64() {
    let nan = v64(&[f64::NAN]);
    assert!(!nan.eq(&nan.clone()));
    assert!(v64(&[0.0, -0.0]).eq(&v64(&[-0.0, 0.0])));
    assert!(!v64(&[1.0]).eq(&v64(&[1.0, 1.0])));
}

#[test]
fn neg_involution_all_kinds_64() {
    let values = [0.0f64, -0.0, 1.0, -2.5, 5e-324, f64::INFINITY, f64::NEG_INFINITY, f64::NAN];
    let v = v64(&values);
    let twice = v.clone().neg().neg();
    for i in 0..values.len() {
        assert_eq!(*twice.index(i), values[i].to_bits(), "element {}", i);
    }
}

#[test]
fn neg_keeps_negative_zero_64() {
    let r = v64(&[1.0, -2.0, 0.0]).neg();
    assert_eq!(*r.index(0), (-1.0f64).to_bits());
    assert_eq!(*r.index(1), 2.0f64.to_bits());
    assert_eq!(*r.index(2), (-0.0f64).to_bits());
}

#[test]
fn div_by_zero_yields_nan_not_fault_64() {
    let r = v64(&[1.0, 0.0, -1.0]).div(v64(&[1.0, 0.0, 0.0])).unwrap();
    assert_eq!(*r.index(0), 1.0f64.to_bits());
    assert!(f64::from_bits(*r.index(1)).is_nan());
    assert_eq!(*r.index(2), f64::NEG_INFINITY.to_bits());
}

#[test]
fn empty_vectors_64() {
    let e = v64(&[]);
    assert_eq!(e.len(), 0);
    assert_eq!(e.clone().mul(v64(&[])).unwrap().len(), 0);
    assert!(e.eq(&v64(&[])));
}
