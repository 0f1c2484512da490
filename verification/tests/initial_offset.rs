use tail_url::options::{initial_offset, TailOptions};

fn options(initial_tail_offset: Option<u64>, reverse_offset: bool) -> TailOptions {
    TailOptions { initial_tail_offset, reverse_offset }
}

#[test]
fn without_tail_offset_the_tail_begins_at_the_end() {
    for length in [0u64, 1, 500, 1000, u64::MAX] {
        assert_eq!(initial_offset(&options(None, false), length), length);
        assert_eq!(initial_offset(&options(None, true), length), length);
    }
}

#[test]
fn forward_offset_below_the_length_is_taken_as_it_is() {
    assert_eq!(initial_offset(&options(Some(100), false), 500), 100);
    assert_eq!(initial_offset(&options(Some(0), false), 500), 0);
    assert_eq!(initial_offset(&options(Some(499), false), 500), 499);
    assert_eq!(initial_offset(&options(Some(u64::MAX - 1), false), u64::MAX), u64::MAX - 1);
}

#[test]
fn forward_offset_at_or_past_the_length_gives_the_end() {
    assert_eq!(initial_offset(&options(Some(500), false), 500), 500);
    assert_eq!(initial_offset(&options(Some(501), false), 500), 500);
    assert_eq!(initial_offset(&options(Some(u64::MAX), false), 500), 500);
    assert_eq!(initial_offset(&options(Some(7), false), 0), 0);
}

#[test]
fn reversed_offset_below_the_length_counts_back_from_the_end() {
    assert_eq!(initial_offset(&options(Some(100), true), 500), 400);
    assert_eq!(initial_offset(&options(Some(1), true), 500), 499);
    assert_eq!(initial_offset(&options(Some(499), true), 500), 1);
    assert_eq!(initial_offset(&options(Some(0), true), 500), 500);
    assert_eq!(initial_offset(&options(Some(1), true), u64::MAX), u64::MAX - 1);
}

#[test]
fn reversed_offset_at_or_past_the_length_gives_the_end() {
    assert_eq!(initial_offset(&options(Some(500), true), 500), 500);
    assert_eq!(initial_offset(&options(Some(501), true), 500), 500);
    assert_eq!(initial_offset(&options(Some(u64::MAX), true), 500), 500);
    assert_eq!(initial_offset(&options(Some(0), true), 0), 0);
    assert_eq!(initial_offset(&options(Some(3), true), 0), 0);
}

#[test]
fn initial_offset_never_lies_past_the_length() {
    let offsets = [None, Some(0u64), Some(1), Some(10), Some(11), Some(u64::MAX)];
    for length in [0u64, 1, 10, 11, u64::MAX] {
        for offset in offsets {
            for reverse in [false, true] {
                assert!(initial_offset(&options(offset, reverse), length) <= length);
            }
        }
    }
}
