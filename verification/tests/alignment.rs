use audio_compare::alignment::{aligned_lengths, shift_in_range, shift_magnitude};
use audio_compare::{apply_shift, CompareError};

#[test]
fn positive_shift_drops_the_head_of_the_first() {
    let a = [1.0f32, 2.0, 3.0, 4.0, 5.0];
    let b = [6.0f32, 7.0, 8.0, 9.0, 10.0];
    let (x, y) = apply_shift(&a, &b, 2).unwrap();
    assert_eq!(x, vec![3.0, 4.0, 5.0]);
    assert_eq!(y, vec![6.0, 7.0, 8.0]);
}

#[test]
fn negative_shift_drops_the_head_of_the_second() {
    let a = [1.0f32, 2.0, 3.0, 4.0, 5.0];
    let b = [6.0f32, 7.0, 8.0, 9.0, 10.0];
    let (x, y) = apply_shift(&a, &b, -2).unwrap();
    assert_eq!(x, vec![1.0, 2.0, 3.0]);
    assert_eq!(y, vec![8.0, 9.0, 10.0]);
}

#[test]
fn zero_shift_cuts_the_first_to_the_second() {
    let a = [1.0f32, 2.0, 3.0, 4.0, 5.0];
    let b = [6.0f32, 7.0, 8.0];
    let (x, y) = apply_shift(&a, &b, 0).unwrap();
    assert_eq!(x, vec![1.0, 2.0, 3.0]);
    assert_eq!(y, vec![6.0, 7.0, 8.0]);
    let (x, y) = apply_shift(&b, &a, 0).unwrap();
    assert_eq!(x, vec![6.0, 7.0, 8.0]);
    assert_eq!(y, vec![1.0, 2.0, 3.0, 4.0, 5.0]);
}

#[test]
fn a_clip_shorter_than_the_cut_stays_whole() {
    let a = [1u8, 2, 3, 4, 5, 6, 7, 8, 9, 10];
    let b = [11u8, 12, 13];
    let (x, y) = apply_shift(&a, &b, 2).unwrap();
    assert_eq!(x, vec![3, 4, 5, 6, 7, 8, 9, 10]);
    assert_eq!(y, vec![11, 12, 13]);
    let (x, y) = apply_shift(&b, &a, -2).unwrap();
    assert_eq!(x, vec![11, 12, 13]);
    assert_eq!(y, vec![3, 4, 5, 6, 7, 8, 9, 10]);
}

#[test]
fn shift_as_long_as_the_clips_leaves_nothing() {
    let a = [1i16, 2, 3];
    let b = [4i16, 5, 6];
    let (x, y) = apply_shift(&a, &b, 3).unwrap();
    assert!(x.is_empty());
    assert!(y.is_empty());
    let (x, y) = apply_shift(&a, &b, -3).unwrap();
    assert!(x.is_empty());
    assert!(y.is_empty());
}

#[test]
fn shift_longer_than_a_clip_is_out_of_range() {
    let a = [1.0f32, 2.0, 3.0, 4.0, 5.0];
    let b = [6.0f32, 7.0, 8.0];
    assert_eq!(apply_shift(&a, &b, 4), Err(CompareError::AlignmentOutOfRange));
    assert_eq!(apply_shift(&a, &b, -4), Err(CompareError::AlignmentOutOfRange));
    assert_eq!(apply_shift(&b, &a, 4), Err(CompareError::AlignmentOutOfRange));
    assert_eq!(apply_shift(&b, &a, -4), Err(CompareError::AlignmentOutOfRange));
    assert_eq!(apply_shift(&a, &a, 6), Err(CompareError::AlignmentOutOfRange));
    assert_eq!(apply_shift(&a, &a, -6), Err(CompareError::AlignmentOutOfRange));
    assert_eq!(apply_shift(&a, &a, isize::MAX), Err(CompareError::AlignmentOutOfRange));
    assert_eq!(apply_shift(&a, &a, isize::MIN), Err(CompareError::AlignmentOutOfRange));
}

#[test]
fn empty_clips_take_only_the_zero_shift() {
    let none: [f32; 0] = [];
    let some = [1.0f32];
    let (x, y) = apply_shift(&none, &none, 0).unwrap();
    assert!(x.is_empty() && y.is_empty());
    let (x, y) = apply_shift(&none, &some, 0).unwrap();
    assert!(x.is_empty());
    assert_eq!(y, vec![1.0]);
    assert_eq!(apply_shift(&none, &some, 1), Err(CompareError::AlignmentOutOfRange));
    assert_eq!(apply_shift(&some, &none, -1), Err(CompareError::AlignmentOutOfRange));
}

#[test]
fn shift_magnitude_exact_values() {
    assert_eq!(shift_magnitude(0), 0);
    assert_eq!(shift_magnitude(7), 7);
    assert_eq!(shift_magnitude(-7), 7);
    assert_eq!(shift_magnitude(isize::MAX), isize::MAX as usize);
    assert_eq!(shift_magnitude(isize::MIN), isize::MAX as usize + 1);
}

#[test]
fn shift_in_range_is_the_bound_on_both_lengths() {
    assert!(shift_in_range(5, 3, 3));
    assert!(shift_in_range(5, 3, -3));
    assert!(!shift_in_range(5, 3, 4));
    assert!(!shift_in_range(3, 5, -4));
    assert!(shift_in_range(0, 0, 0));
    assert!(!shift_in_range(0, 0, 1));
}

#[test]
fn aligned_lengths_match_what_apply_shift_returns() {
    let a: Vec<u32> = (0..9).collect();
    let b: Vec<u32> = (0..6).collect();
    for shift in -10isize..=10 {
        match (aligned_lengths(a.len(), b.len(), shift), apply_shift(&a, &b, shift)) {
            (Ok((n1, n2)), Ok((x, y))) => {
                assert_eq!((n1, n2), (x.len(), y.len()), "shift {shift}");
            }
            (Err(e1), Err(e2)) => {
                assert_eq!(e1, CompareError::AlignmentOutOfRange);
                assert_eq!(e2, CompareError::AlignmentOutOfRange);
                assert!(shift.unsigned_abs() > 6);
            }
            _ => panic!("lengths and trimming disagree at shift {shift}"),
        }
    }
    assert_eq!(aligned_lengths(9, 6, 2), Ok((7, 6)));
    assert_eq!(aligned_lengths(9, 6, -2), Ok((4, 4)));
    assert_eq!(aligned_lengths(9, 6, 5), Ok((4, 4)));
}
