use hermes::cccl::host_thrust::{
    hermes_copy, hermes_count, hermes_equal, hermes_fill, hermes_find, hermes_for_each,
    hermes_reduce, hermes_replace, hermes_scan_inclusive, hermes_sequence, hermes_sort,
    hermes_transform, hermes_unique,
};

#[test]
fn fill_copy_count_transform_reduce() {
    let mut a = [0u32; 8];
    hermes_fill(&mut a, 3);
    assert_eq!(hermes_count(&a, &3), 8);
    let mut b = [0u32; 8];
    assert_eq!(hermes_copy(&a, &mut b), 8);
    let mut c = [0u32; 8];
    hermes_transform(&b, &mut c, |x| x * 2);
    assert_eq!(hermes_reduce(&c, 0, |x, y| x + y), 48);
}

#[test]
fn sort_unique_scan_sequence() {
    let mut v = [3i64, 1, 2, 1, 3];
    hermes_sort(&mut v);
    assert_eq!(&v, &[1, 1, 2, 3, 3]);
    let n = hermes_unique(&mut v);
    assert_eq!(&v[..n], &[1, 2, 3]);
    assert_eq!(v, [1, 2, 3, 3, 3]);
    let mut s = [0i64; 5];
    hermes_sequence(&mut s, 10);
    assert_eq!(&s, &[10, 11, 12, 13, 14]);
    let mut scan = [0i64; 5];
    hermes_scan_inclusive(&s, &mut scan, |a, b| a + b);
    assert_eq!(scan[4], 10 + 11 + 12 + 13 + 14);
}

#[test]
fn find_replace_equal_foreach() {
    let mut a = [1, 2, 3, 2];
    assert_eq!(hermes_find(&a, &2), Some(1));
    assert_eq!(hermes_replace(&mut a, &2, 9), 2);
    assert_eq!(&a, &[1, 9, 3, 9]);
    assert!(hermes_equal(&[1, 2], &[1, 2]));
    hermes_for_each(&mut a, |x| *x += 1);
    assert_eq!(a[0], 2);
}

#[test]
fn sort_moves_elements_not_copies() {
    // The sort wrapper must reorder: a wrapper that handed the slice back
    // unchanged would leave it unsorted.
    let mut v = [5u8, 4, 3, 2, 1];
    hermes_sort(&mut v);
    assert_eq!(v, [1, 2, 3, 4, 5]);
}

#[test]
fn scan_is_running_sum_and_unique_of_distinct_keeps_all() {
    let src = [1u64, 2, 3, 4];
    let mut out = [0u64; 4];
    assert_eq!(hermes_scan_inclusive(&src, &mut out, |a, b| a + b), 4);
    assert_eq!(out, [1, 3, 6, 10]);
    let mut d = [1u8, 2, 3];
    assert_eq!(hermes_unique(&mut d), 3);
    assert_eq!(hermes_find(&d, &7), None);
    assert!(!hermes_equal(&[1, 2], &[1, 3]));
    assert!(!hermes_equal(&[1, 2], &[1]));
}

#[test]
fn reduce_and_scan_call_the_operator_only_on_reached_values() {
    // A checked operator that would fail on an overflowing pair is never
    // handed one: the fold over small values stays in range.
    let v: Vec<u8> = vec![100, 50, 60];
    let total = hermes_reduce(&v, 0u8, |a: u8, b: u8| a.checked_add(b).unwrap_or(u8::MAX));
    assert_eq!(total, 210);
    let mut out = [0u8; 3];
    let n = hermes_scan_inclusive(&v, &mut out, |a: u8, b: u8| a.checked_add(b).unwrap_or(u8::MAX));
    assert_eq!(n, 3);
    assert_eq!(out, [100, 150, 210]);
    let mut halves = [0u8; 2];
    let m = hermes_transform(&v, &mut halves, |x: &u8| *x / 2);
    assert_eq!(m, 2);
    assert_eq!(halves, [50, 25]);
}
