use std::cmp::Ordering;

use window_frame::FrameBound;

fn samples() -> Vec<FrameBound<usize>> {
    vec![
        FrameBound::UnboundedPreceding,
        FrameBound::Preceding(usize::MAX),
        FrameBound::Preceding(7),
        FrameBound::Preceding(1),
        FrameBound::Preceding(0),
        FrameBound::CurrentRow,
        FrameBound::Following(0),
        FrameBound::Following(1),
        FrameBound::Following(7),
        FrameBound::Following(usize::MAX),
        FrameBound::UnboundedFollowing,
    ]
}

#[test]
fn unbounded_preceding_is_in_no_order_to_itself() {
    let a: FrameBound<usize> = FrameBound::UnboundedPreceding;
    let b: FrameBound<usize> = FrameBound::UnboundedPreceding;
    assert_eq!(a.partial_cmp(&b), None);
    assert!(!(a < b));
    assert!(!(a <= b));
    assert!(!(a > b));
    assert!(!(a >= b));
}

#[test]
fn unbounded_following_is_in_no_order_to_itself() {
    let a: FrameBound<usize> = FrameBound::UnboundedFollowing;
    let b: FrameBound<usize> = FrameBound::UnboundedFollowing;
    assert_eq!(a.partial_cmp(&b), None);
    assert!(!(a <= b));
    assert!(!(a >= b));
}

#[test]
fn unbounded_ends_are_still_equal_as_values() {
    let a: FrameBound<usize> = FrameBound::UnboundedPreceding;
    assert_eq!(a, FrameBound::UnboundedPreceding);
    let b: FrameBound<usize> = FrameBound::UnboundedFollowing;
    assert_eq!(b, FrameBound::UnboundedFollowing);
    assert_ne!(a, b);
}

#[test]
fn unbounded_preceding_is_less_than_every_other_bound() {
    let up: FrameBound<usize> = FrameBound::UnboundedPreceding;
    for b in samples() {
        if b != FrameBound::UnboundedPreceding {
            assert_eq!(up.partial_cmp(&b), Some(Ordering::Less), "{:?}", b);
            assert_eq!(b.partial_cmp(&up), Some(Ordering::Greater), "{:?}", b);
        }
    }
}

#[test]
fn unbounded_following_is_greater_than_every_other_bound() {
    let uf: FrameBound<usize> = FrameBound::UnboundedFollowing;
    for b in samples() {
        if b != FrameBound::UnboundedFollowing {
            assert_eq!(uf.partial_cmp(&b), Some(Ordering::Greater), "{:?}", b);
            assert_eq!(b.partial_cmp(&uf), Some(Ordering::Less), "{:?}", b);
        }
    }
}

#[test]
fn current_row_equals_current_row() {
    let a: FrameBound<usize> = FrameBound::CurrentRow;
    assert_eq!(a.partial_cmp(&FrameBound::CurrentRow), Some(Ordering::Equal));
}

#[test]
fn zero_offset_is_not_the_current_row() {
    let p: FrameBound<usize> = FrameBound::Preceding(0);
    let c: FrameBound<usize> = FrameBound::CurrentRow;
    let f: FrameBound<usize> = FrameBound::Following(0);
    assert_eq!(p.partial_cmp(&c), Some(Ordering::Less));
    assert_eq!(c.partial_cmp(&p), Some(Ordering::Greater));
    assert_eq!(c.partial_cmp(&f), Some(Ordering::Less));
    assert_eq!(f.partial_cmp(&c), Some(Ordering::Greater));
    assert_eq!(p.partial_cmp(&f), Some(Ordering::Less));
    assert!(p < c && c < f);
}

#[test]
fn zero_offset_is_not_the_current_row_for_other_offset_types() {
    let p: FrameBound<String> = FrameBound::Preceding(String::new());
    let c: FrameBound<String> = FrameBound::CurrentRow;
    let f: FrameBound<String> = FrameBound::Following(String::new());
    assert_eq!(p.partial_cmp(&c), Some(Ordering::Less));
    assert_eq!(c.partial_cmp(&f), Some(Ordering::Less));
    let p: FrameBound<i8> = FrameBound::Preceding(0);
    let c: FrameBound<i8> = FrameBound::CurrentRow;
    let f: FrameBound<i8> = FrameBound::Following(0);
    assert!(p < c && c < f);
}

#[test]
fn larger_preceding_offset_is_the_earlier_bound() {
    let far: FrameBound<usize> = FrameBound::Preceding(5);
    let near: FrameBound<usize> = FrameBound::Preceding(2);
    assert_eq!(far.partial_cmp(&near), Some(Ordering::Less));
    assert_eq!(near.partial_cmp(&far), Some(Ordering::Greater));
    assert_eq!(near.partial_cmp(&FrameBound::Preceding(2)), Some(Ordering::Equal));
}

#[test]
fn larger_following_offset_is_the_later_bound() {
    let near: FrameBound<usize> = FrameBound::Following(2);
    let far: FrameBound<usize> = FrameBound::Following(5);
    assert_eq!(near.partial_cmp(&far), Some(Ordering::Less));
    assert_eq!(far.partial_cmp(&near), Some(Ordering::Greater));
    assert_eq!(far.partial_cmp(&FrameBound::Following(5)), Some(Ordering::Equal));
}

#[test]
fn offsets_order_bounds_for_every_pair_of_small_counts() {
    for n1 in 0usize..6 {
        for n2 in (n1 + 1)..7 {
            assert!(FrameBound::Preceding(n2) < FrameBound::Preceding(n1));
            assert!(FrameBound::Following(n1) < FrameBound::Following(n2));
        }
    }
}

#[test]
fn offsets_order_bounds_of_strings() {
    let a = String::from("apple");
    let b = String::from("pear");
    assert!(FrameBound::Preceding(b.clone()) < FrameBound::Preceding(a.clone()));
    assert!(FrameBound::Following(a) < FrameBound::Following(b));
}

#[test]
fn every_preceding_is_before_every_following() {
    let p: FrameBound<usize> = FrameBound::Preceding(0);
    let f: FrameBound<usize> = FrameBound::Following(usize::MAX);
    assert_eq!(p.partial_cmp(&f), Some(Ordering::Less));
    assert_eq!(f.partial_cmp(&p), Some(Ordering::Greater));
    let p: FrameBound<usize> = FrameBound::Preceding(usize::MAX);
    let f: FrameBound<usize> = FrameBound::Following(0);
    assert_eq!(p.partial_cmp(&f), Some(Ordering::Less));
    assert_eq!(f.partial_cmp(&p), Some(Ordering::Greater));
}

#[test]
fn samples_stand_in_rising_order() {
    let s = samples();
    for i in 0..s.len() {
        for j in 0..s.len() {
            let expected = if i == j {
                match s[i] {
                    FrameBound::UnboundedPreceding | FrameBound::UnboundedFollowing => None,
                    _ => Some(Ordering::Equal),
                }
            } else {
                Some(i.cmp(&j))
            };
            assert_eq!(s[i].partial_cmp(&s[j]), expected, "{:?} against {:?}", s[i], s[j]);
        }
    }
}

#[test]
fn order_reads_the_same_from_both_sides() {
    let s = samples();
    for a in &s {
        for b in &s {
            assert_eq!(b.partial_cmp(a), a.partial_cmp(b).map(Ordering::reverse));
        }
    }
}

#[test]
fn being_before_is_transitive_on_samples() {
    let s = samples();
    for a in &s {
        for b in &s {
            for c in &s {
                if a < b && b < c {
                    assert!(a < c);
                }
                if a <= b && b <= c {
                    assert!(a <= c);
                }
            }
        }
    }
}
