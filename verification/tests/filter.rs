use rbloom::new_exact;
use rbloom::MAX_BITS;
use rbloom::BloomFilter;
use rbloom::InvalidParameter;

/// Dimensions for about `n` items at false-positive rate `p`:
/// `m = ceil(-n ln p / (ln 2)^2)` bits and `k = ceil(-log2 p)` hash functions.
fn dimensions_from_capacity(n: usize, p: f64) -> (usize, usize) {
    let ln2 = 2.0f64.ln();
    let m = ((n as f64) * p.ln() * -1.0f64 / (ln2 * ln2)).ceil() as usize;
    let k = (p.log2() * -1.0f64).ceil() as usize;
    (k, m)
}

fn new(n: usize, p: f64) -> BloomFilter {
    let (k, m) = dimensions_from_capacity(n, p);
    assert!(m <= MAX_BITS, "m = {}", m);
    match new_exact(k, m) {
        Ok(filter) => filter,
        Err(reason) => panic!("{}", reason.message()),
    }
}

#[test]
fn test_initialize_correctly() {
    let b = new_exact(7, 100).unwrap();
    assert!(b.k() == 7);
    assert!(b.len() == 100);
}

#[test]
#[should_panic(expected = "k cannot be larger than m")]
fn test_panic_when_k_is_larger_than_m() {
    if let Err(reason) = new_exact(100, 10) {
        panic!("{}", reason.message());
    }
}

#[test]
fn test_calculate_estimates_positive_result() {
    let b = new(100, 0.01);
    assert!(b.len() > 0, "m = {}", b.len());
    assert!(b.k() > 0, "k = {}", b.k());
}

#[test]
fn test_add_and_test() {
    let mut b = new(100, 0.01);
    assert_eq!(b.test("hello world".as_bytes()), false);
    b.add("hello world".as_bytes());
    assert_eq!(b.test("hello world".as_bytes()), true);
}

#[test]
fn test_test_for_non_existing() {
    let mut b = new(100, 0.01);
    b.add("hello world".as_bytes());
    assert_eq!(b.test("hello".as_bytes()), false);
}

#[test]
fn test_with_different_types() {
    let mut b = new(1000, 0.01);
    assert_eq!(b.test(&[false as u8]), false);
    b.add(&[false as u8]);
    assert_eq!(b.test(&[false as u8]), true);

    assert_eq!(b.test(&150i32.to_le_bytes()), false);
    b.add(&150i32.to_le_bytes());
    assert_eq!(b.test(&150i32.to_le_bytes()), true);
}

#[test]
fn test_deterministic() {
    let mut b1 = new_exact(3, 100).unwrap();
    let mut b2 = new_exact(3, 100).unwrap();
    b1.add("hello world".as_bytes());
    b2.add("hello world".as_bytes());
    assert_eq!(b1.bits(), b2.bits());
}

#[test]
fn test_different_seeds() {
    let mut b = new_exact(3, 100).unwrap();
    b.add("hello world".as_bytes());
    assert_eq!(b.count_ones(), 3);
}

#[test]
#[should_panic]
fn new_with_p_greater_than_1() {
    let _b = new(1000, 1.2);
}

#[test]
#[should_panic]
fn new_with_p_smaller_than_0() {
    let _b = new(1000, -0.1);
}

#[test]
#[should_panic]
fn new_exact_k_greater_than_m() {
    let _b = new_exact(100, 10).unwrap();
}

#[test]
fn capacity_dimensions_for_one_percent() {
    assert_eq!(dimensions_from_capacity(100, 0.01), (7, 959));
    let b = new(100, 0.01);
    assert_eq!(b.k(), 7);
    assert_eq!(b.len(), 959);
    assert_eq!(b.count_ones(), 0);
}

#[test]
fn capacity_of_zero_items_is_rejected() {
    let (k, m) = dimensions_from_capacity(0, 0.01);
    assert_eq!(m, 0);
    assert_eq!(new_exact(k, m).err(), Some(InvalidParameter::HashCountNotBelowLength));
}

#[test]
fn probability_out_of_range_derives_rejected_dimensions() {
    for p in [1.2f64, 1.0, -0.1, 0.0] {
        let (k, m) = dimensions_from_capacity(1000, p);
        assert!(m > MAX_BITS || new_exact(k, m).is_err(), "p = {}", p);
    }
}

#[test]
fn probability_close_to_one_derives_rejected_dimensions() {
    let (k, m) = dimensions_from_capacity(1, 0.9999999);
    assert_eq!((k, m), (1, 1));
    assert_eq!(new_exact(k, m).err(), Some(InvalidParameter::HashCountNotBelowLength));
}

#[test]
fn capacity_dimensions_for_a_thousand_items() {
    let b = new(1000, 0.01);
    assert_eq!(b.k(), 7);
    assert_eq!(b.len(), 9586);
}
