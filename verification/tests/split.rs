use remittance_split::split::{
    apportion, can_apportion, percentages_sum_to_whole, split_or_default,
};

#[test]
fn whole_is_exactly_one_hundred() {
    assert!(percentages_sum_to_whole(50, 30, 15, 5));
    assert!(percentages_sum_to_whole(100, 0, 0, 0));
    assert!(percentages_sum_to_whole(0, 0, 0, 100));
    assert!(percentages_sum_to_whole(25, 25, 25, 25));
    assert!(!percentages_sum_to_whole(50, 30, 10, 5));
    assert!(!percentages_sum_to_whole(50, 30, 15, 6));
    assert!(!percentages_sum_to_whole(0, 0, 0, 0));
}

#[test]
fn sum_is_not_taken_modulo_the_width() {
    // In 32 bits these would wrap round to one hundred.
    assert!(!percentages_sum_to_whole(u32::MAX, 101, 0, 0));
    assert!(!percentages_sum_to_whole(u32::MAX, u32::MAX, 102, 0));
    assert!(!percentages_sum_to_whole(u32::MAX, u32::MAX, u32::MAX, 103));
    assert!(!percentages_sum_to_whole(u32::MAX, u32::MAX, u32::MAX, u32::MAX));
}

#[test]
fn nothing_found_gives_the_default() {
    assert_eq!(split_or_default(None), vec![50, 30, 15, 5]);
}

#[test]
fn what_is_found_is_kept_as_it_is() {
    assert_eq!(split_or_default(Some(vec![40, 30, 20, 10])), vec![40, 30, 20, 10]);
    assert_eq!(split_or_default(Some(vec![1, 2, 3])), vec![1, 2, 3]);
    assert_eq!(split_or_default(Some(vec![])), Vec::<u32>::new());
}

#[test]
fn round_total_is_carved_up_without_remainder() {
    assert_eq!(apportion(&vec![50, 30, 15, 5], 1000), vec![500, 300, 150, 50]);
}

#[test]
fn rounding_loss_goes_to_the_last_amount() {
    assert_eq!(apportion(&vec![50, 30, 15, 5], 101), vec![50, 30, 15, 6]);
    assert_eq!(apportion(&vec![33, 33, 33, 1], 10), vec![3, 3, 3, 1]);
    assert_eq!(apportion(&vec![25, 25, 25, 25], 3), vec![0, 0, 0, 3]);
}

#[test]
fn negative_total_rounds_toward_zero() {
    assert_eq!(apportion(&vec![50, 30, 15, 5], -101), vec![-50, -30, -15, -6]);
    assert_eq!(apportion(&vec![50, 30, 15, 5], -1), vec![0, 0, 0, -1]);
    assert_eq!(apportion(&vec![50, 30, 15, 5], -1000), vec![-500, -300, -150, -50]);
}

#[test]
fn zero_total_gives_four_zeros() {
    assert_eq!(apportion(&vec![50, 30, 15, 5], 0), vec![0, 0, 0, 0]);
}

#[test]
fn last_percentage_is_not_read() {
    assert_eq!(apportion(&vec![100, 0, 0, 0], 7), vec![7, 0, 0, 0]);
    assert_eq!(apportion(&vec![0, 0, 0, 100], 7), vec![0, 0, 0, 7]);
    assert_eq!(apportion(&vec![10, 10, 10, 0], 100), vec![10, 10, 10, 70]);
}

#[test]
fn amounts_make_up_the_total() {
    let totals: [i128; 7] = [0, 1, 99, 101, 12_345_678_901_234_567_890, -7, -99_999];
    for total in totals {
        let amounts = apportion(&vec![37, 29, 21, 13], total);
        assert_eq!(amounts.len(), 4);
        assert_eq!(amounts[0] + amounts[1] + amounts[2] + amounts[3], total);
        assert_eq!(amounts[0], total * 37 / 100);
        assert_eq!(amounts[1], total * 29 / 100);
        assert_eq!(amounts[2], total * 21 / 100);
    }
}

#[test]
fn largest_totals_that_fit() {
    let most = i128::MAX / 100;
    assert!(can_apportion(&vec![50, 30, 15, 5], most));
    let amounts = apportion(&vec![50, 30, 15, 5], most);
    assert_eq!(amounts[0] + amounts[1] + amounts[2] + amounts[3], most);
    assert_eq!(amounts[0], most / 2);

    let least = i128::MIN / 100;
    assert!(can_apportion(&vec![50, 30, 15, 5], least));
    let amounts = apportion(&vec![50, 30, 15, 5], least);
    assert_eq!(amounts[0] + amounts[1] + amounts[2] + amounts[3], least);

    // Beyond a hundredth of the range the largest product decides.
    assert!(can_apportion(&vec![50, 30, 15, 5], i128::MAX / 50));
    assert!(!can_apportion(&vec![50, 30, 15, 5], i128::MAX / 50 + 1));
    assert!(can_apportion(&vec![50, 30, 15, 5], i128::MIN / 50));
    assert!(!can_apportion(&vec![50, 30, 15, 5], i128::MIN / 50 - 1));
}

#[test]
fn totals_that_do_not_fit_are_told_apart() {
    assert!(!can_apportion(&vec![50, 30, 15, 5], i128::MAX));
    assert!(!can_apportion(&vec![50, 30, 15, 5], i128::MIN));
    assert!(!can_apportion(&vec![5, 15, 30, 50], i128::MAX / 10));
    assert!(can_apportion(&vec![0, 0, 0, 100], i128::MAX));
    assert!(can_apportion(&vec![0, 0, 0, 100], i128::MIN));
    assert!(can_apportion(&vec![1, 0, 0, 99], i128::MAX));
    assert!(!can_apportion(&vec![2, 0, 0, 98], i128::MAX));
}

#[test]
fn splits_that_are_no_whole_are_applied_as_they_are() {
    // The shares come to three times the total, so what is left is minus twice the total.
    assert!(can_apportion(&vec![100, 100, 100, 0], 1000));
    assert_eq!(apportion(&vec![100, 100, 100, 0], 1000), vec![1000, 1000, 1000, -2000]);
    assert!(can_apportion(&vec![4_000_000_000, 0, 0, 0], 1_000));
    assert_eq!(
        apportion(&vec![4_000_000_000, 0, 0, 0], 1_000),
        vec![40_000_000_000, 0, 0, -39_999_999_000]
    );
}

#[test]
fn amounts_fit_wherever_the_products_do() {
    let most = i128::MAX / 100;
    assert!(can_apportion(&vec![100, 100, 100, 0], most));
    assert_eq!(
        apportion(&vec![100, 100, 100, 0], most),
        vec![most, most, most, -2 * most]
    );
    let least = i128::MIN / 100;
    assert!(can_apportion(&vec![100, 100, 100, 0], least));
    assert_eq!(
        apportion(&vec![100, 100, 100, 0], least),
        vec![least, least, least, -2 * least]
    );
    let wide = i128::MAX / 4_000_000_000;
    assert!(can_apportion(&vec![4_000_000_000, 4_000_000_000, 4_000_000_000, 0], wide));
    let amounts = apportion(&vec![4_000_000_000, 4_000_000_000, 4_000_000_000, 0], wide);
    assert_eq!(amounts[0], wide * 40_000_000);
    assert_eq!(amounts[3], wide - 3 * (wide * 40_000_000));
    assert!(!can_apportion(&vec![4_000_000_000, 0, 0, 0], wide + 1));
    assert!(!can_apportion(&vec![0, 4_000_000_000, 0, 0], wide + 1));
    assert!(!can_apportion(&vec![0, 0, 4_000_000_000, 0], wide + 1));
    assert!(can_apportion(&vec![0, 0, 0, 4_000_000_000], wide + 1));
}

#[test]
fn split_of_another_length_cannot_be_applied() {
    assert!(!can_apportion(&vec![], 10));
    assert!(!can_apportion(&vec![50, 30, 20], 10));
    assert!(!can_apportion(&vec![50, 30, 15, 5, 0], 10));
    assert!(can_apportion(&vec![50, 30, 15, 5], 10));
}
