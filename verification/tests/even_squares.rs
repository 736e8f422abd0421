use tips::even_squares::even_square_sum_upto;
use tips::even_squares::hover;

#[test]
fn even_square_sum_of_fixed_range_is_120() {
    assert_eq!(hover(), 120);
}

#[test]
fn even_square_sum_matches_closed_form() {
    // Evens below 10 are 0, 2, 4, 6, 8: twice 0 through 4, so the sum of
    // their squares is four times the sum of squares below 5.
    assert_eq!(hover(), 4 * (4 * 5 * 9) / 6);
}

#[test]
fn even_square_sum_of_short_ranges() {
    assert_eq!(even_square_sum_upto(0), 0);
    assert_eq!(even_square_sum_upto(1), 0);
}

#[test]
fn even_members_contribute_their_squares() {
    assert_eq!(even_square_sum_upto(3) - even_square_sum_upto(2), 4);
    assert_eq!(even_square_sum_upto(5) - even_square_sum_upto(4), 16);
    assert_eq!(even_square_sum_upto(9) - even_square_sum_upto(8), 64);
}

#[test]
fn odd_members_contribute_nothing() {
    assert_eq!(even_square_sum_upto(2) - even_square_sum_upto(1), 0);
    assert_eq!(even_square_sum_upto(4) - even_square_sum_upto(3), 0);
    assert_eq!(even_square_sum_upto(10) - even_square_sum_upto(9), 0);
}

#[test]
fn repeated_even_square_sum_calls_agree() {
    assert_eq!(hover(), hover());
    assert_eq!(even_square_sum_upto(7), even_square_sum_upto(7));
}
