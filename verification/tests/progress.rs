use gitnote_sync::progress::{forward_progress, progress_percent};
use std::cell::RefCell;

#[test]
fn percent_is_the_floor_of_the_ratio() {
    assert_eq!(progress_percent(0, 10), 0);
    assert_eq!(progress_percent(1, 3), 33);
    assert_eq!(progress_percent(2, 3), 66);
    assert_eq!(progress_percent(3, 3), 100);
    assert_eq!(progress_percent(1, 200), 0);
    assert_eq!(progress_percent(199, 200), 99);
    assert_eq!(progress_percent(29, 100), 29);
    assert_eq!(progress_percent(57, 100), 57);
    assert_eq!(progress_percent(1, 1), 100);
}

#[test]
fn percent_of_nothing_is_zero_or_the_largest_value() {
    assert_eq!(progress_percent(0, 0), 0);
    assert_eq!(progress_percent(1, 0), i32::MAX);
    assert_eq!(progress_percent(usize::MAX, 0), i32::MAX);
}

#[test]
fn percent_beyond_the_total_is_held_to_the_range() {
    assert_eq!(progress_percent(3, 2), 150);
    assert_eq!(progress_percent(usize::MAX, 1), i32::MAX);
    assert_eq!(progress_percent(usize::MAX, usize::MAX), 100);
    assert_eq!(progress_percent(usize::MAX - 1, usize::MAX), 99);
    assert_eq!(progress_percent(21_474_836, 1), 2_147_483_600);
    assert_eq!(progress_percent(21_474_837, 1), i32::MAX);
}

#[test]
fn percent_never_decreases_with_the_count() {
    let total = 37;
    let mut last = 0;
    for indexed in 0..=total {
        let percent = progress_percent(indexed, total);
        assert!(percent >= last);
        assert!((0..=100).contains(&percent));
        assert_eq!(percent == 100, indexed == total);
        last = percent;
    }
}

#[test]
fn reporter_gets_the_percentage_and_decides() {
    let seen: RefCell<Vec<i32>> = RefCell::new(Vec::new());
    let until_half = |percent: i32| {
        seen.borrow_mut().push(percent);
        percent < 50
    };
    let mut stopped = false;
    assert!(forward_progress(1, 4, &until_half, &mut stopped));
    assert!(!stopped);
    assert!(!forward_progress(2, 4, &until_half, &mut stopped));
    assert!(stopped);
    assert!(forward_progress(0, 4, &until_half, &mut stopped));
    assert!(stopped);
    assert_eq!(seen.into_inner(), vec![25, 50, 0]);
}
