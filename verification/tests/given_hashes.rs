use rbloom::hashing::get_hashes;
use rbloom::hashing::truncate_digest;
use rbloom::new_exact;

fn bits_with(m: usize, set: &[usize]) -> Vec<bool> {
    let mut bits = vec![false; m];
    for position in set {
        bits[*position] = true;
    }
    bits
}

#[test]
fn each_hash_sets_the_bit_at_its_remainder() {
    let mut filter = new_exact(3, 10).unwrap();
    filter.add_hashes(&[12, 25, 7]);
    assert_eq!(filter.bits(), bits_with(10, &[2, 5, 7]));
    assert_eq!(filter.count_ones(), 3);
    assert_eq!(filter.k(), 3);
    assert_eq!(filter.len(), 10);
}

#[test]
fn largest_hash_is_reduced_like_any_other() {
    let mut filter = new_exact(3, 100).unwrap();
    filter.add_hashes(&[u32::MAX, 0, 99, 100]);
    assert_eq!(filter.bits(), bits_with(100, &[95, 0, 99]));
    assert_eq!(filter.count_ones(), 3);
}

#[test]
fn hashes_with_one_remainder_set_one_bit() {
    let mut filter = new_exact(3, 10).unwrap();
    filter.add_hashes(&[1, 11, 21]);
    assert_eq!(filter.bits(), bits_with(10, &[1]));
    assert_eq!(filter.count_ones(), 1);
    assert!(filter.test_hashes(&[1, 11, 21]));
    assert!(filter.test_hashes(&[31]));
}

#[test]
fn no_hashes_set_no_bit() {
    let mut filter = new_exact(3, 10).unwrap();
    filter.add_hashes(&[]);
    assert_eq!(filter.bits(), bits_with(10, &[]));
    assert_eq!(filter.count_ones(), 0);
}

#[test]
fn lookup_needs_every_selected_bit() {
    let mut filter = new_exact(3, 10).unwrap();
    assert!(!filter.test_hashes(&[12, 25, 7]));
    filter.add_hashes(&[12, 25]);
    assert!(filter.test_hashes(&[12, 25]));
    assert!(filter.test_hashes(&[2, 5]));
    assert!(filter.test_hashes(&[25]));
    assert!(!filter.test_hashes(&[12, 25, 7]));
    assert!(!filter.test_hashes(&[7, 12, 25]));
    assert!(!filter.test_hashes(&[3]));
    filter.add_hashes(&[7]);
    assert!(filter.test_hashes(&[12, 25, 7]));
}

#[test]
fn lookup_of_no_hashes_succeeds() {
    let filter = new_exact(3, 10).unwrap();
    assert!(filter.test_hashes(&[]));
}

#[test]
fn set_bits_accumulate_over_insertions() {
    let mut filter = new_exact(2, 8).unwrap();
    filter.add_hashes(&[0, 9]);
    assert_eq!(filter.bits(), bits_with(8, &[0, 1]));
    filter.add_hashes(&[9, 15]);
    assert_eq!(filter.bits(), bits_with(8, &[0, 1, 7]));
    filter.add_hashes(&[16, 17]);
    assert_eq!(filter.bits(), bits_with(8, &[0, 1, 7]));
    assert_eq!(filter.count_ones(), 3);
}

#[test]
fn insertion_of_an_item_is_insertion_of_its_hashes() {
    for (k, m) in [(1usize, 2usize), (3, 100), (7, 959)] {
        let mut by_item = new_exact(k, m).unwrap();
        let mut by_hashes = new_exact(k, m).unwrap();
        by_item.add(b"hello world");
        by_hashes.add_hashes(&get_hashes(b"hello world", k));
        assert_eq!(by_item.bits(), by_hashes.bits());
        assert_eq!(
            by_item.test(b"hello"),
            by_item.test_hashes(&get_hashes(b"hello", k))
        );
        assert_eq!(
            by_item.test(b"hello world"),
            by_item.test_hashes(&get_hashes(b"hello world", k))
        );
    }
}

#[test]
fn digest_is_cut_to_its_low_32_bits() {
    assert_eq!(truncate_digest(0), 0);
    assert_eq!(truncate_digest(5), 5);
    assert_eq!(truncate_digest(0xffff_ffff), 0xffff_ffff);
    assert_eq!(truncate_digest(usize::MAX), u32::MAX);
    assert_eq!(truncate_digest(0x0123_4567_89ab_cdefu64 as usize), 0x89ab_cdef);
}
