use window_frame::Frame;
use window_frame::FrameBound;
use window_frame::FrameBounds;
use window_frame::FrameExclusion;

#[test]
fn bounds_are_written_as_in_sql() {
    assert_eq!(FrameBound::<usize>::UnboundedPreceding.to_string(), "UNBOUNDED PRECEDING");
    assert_eq!(FrameBound::Preceding(3usize).to_string(), "3 PRECEDING");
    assert_eq!(FrameBound::<usize>::CurrentRow.to_string(), "CURRENT ROW");
    assert_eq!(FrameBound::Following(2usize).to_string(), "2 FOLLOWING");
    assert_eq!(FrameBound::<usize>::UnboundedFollowing.to_string(), "UNBOUNDED FOLLOWING");
}

#[test]
fn counts_are_written_in_base_ten() {
    assert_eq!(FrameBound::Preceding(0usize).to_string(), "0 PRECEDING");
    assert_eq!(FrameBound::Preceding(9usize).to_string(), "9 PRECEDING");
    assert_eq!(FrameBound::Following(10usize).to_string(), "10 FOLLOWING");
    assert_eq!(FrameBound::Following(1234567890usize).to_string(), "1234567890 FOLLOWING");
    assert_eq!(FrameBound::Following(100usize).to_string(), "100 FOLLOWING");
    assert_eq!(
        FrameBound::Preceding(usize::MAX).to_string(),
        format!("{} PRECEDING", usize::MAX)
    );
}

#[test]
fn every_small_count_is_written_as_the_formatter_writes_it() {
    for n in 0usize..1200 {
        assert_eq!(FrameBound::Following(n).to_string(), format!("{} FOLLOWING", n));
    }
}

#[test]
fn exclusions_are_written_as_in_sql() {
    assert_eq!(FrameExclusion::CurrentRow.to_string(), "EXCLUDE CURRENT ROW");
    assert_eq!(FrameExclusion::NoOthers.to_string(), "EXCLUDE NO OTHERS");
}

#[test]
fn bounds_of_a_frame_are_written_between_and() {
    let bounds = FrameBounds::Rows(FrameBound::Preceding(12), FrameBound::UnboundedFollowing);
    assert_eq!(bounds.to_string(), "ROWS BETWEEN 12 PRECEDING AND UNBOUNDED FOLLOWING");
}

#[test]
fn default_exclusion_is_not_written() {
    let frame = Frame::rows(FrameBound::CurrentRow, FrameBound::Following(5));
    assert_eq!(frame.to_string(), "ROWS BETWEEN CURRENT ROW AND 5 FOLLOWING");
    let same = Frame::rows_with_exclusion(
        FrameBound::CurrentRow,
        FrameBound::Following(5),
        FrameExclusion::NoOthers,
    );
    assert_eq!(same.to_string(), "ROWS BETWEEN CURRENT ROW AND 5 FOLLOWING");
}

#[test]
fn other_exclusion_is_written_after_the_bounds() {
    let frame = Frame::rows_with_exclusion(
        FrameBound::UnboundedPreceding,
        FrameBound::UnboundedFollowing,
        FrameExclusion::CurrentRow,
    );
    assert_eq!(
        frame.to_string(),
        "ROWS BETWEEN UNBOUNDED PRECEDING AND UNBOUNDED FOLLOWING EXCLUDE CURRENT ROW"
    );
}

#[test]
fn writing_a_frame_twice_gives_the_same_text() {
    let frame = Frame::rows_with_exclusion(
        FrameBound::Preceding(40),
        FrameBound::Following(2),
        FrameExclusion::CurrentRow,
    );
    assert_eq!(frame.to_string(), frame.to_string());
    assert_eq!(frame.to_string(), frame.clone().to_string());
}
