use blog_api::SequenceCounter;
use blog_api::next_sequence;
use blog_api::reset_sequence;

#[test]
fn test_sequence_increments() {
    let mut counter = SequenceCounter::new();
    reset_sequence(&mut counter);
    assert_eq!(next_sequence(&mut counter), 1);
    assert_eq!(next_sequence(&mut counter), 2);
    assert_eq!(next_sequence(&mut counter), 3);
}

#[test]
fn test_reset_sequence() {
    let mut counter = SequenceCounter::new();
    next_sequence(&mut counter);
    next_sequence(&mut counter);
    reset_sequence(&mut counter);
    assert_eq!(next_sequence(&mut counter), 1);
}
