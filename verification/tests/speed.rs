use rustyper::wpm::calculate_wpm;

const SECOND_NS: u128 = 1_000_000_000;

#[test]
fn exact_formula_values() {
    // 3 correct / 5 / 0.3 min = 2.00 wpm.
    assert_eq!(calculate_wpm(&vec![true, true, true], 18 * SECOND_NS), 200);
    // 2 correct / 5 / 1 min = 0.40 wpm; the false entry does not count.
    assert_eq!(
        calculate_wpm(&vec![true, false, true], 60 * SECOND_NS),
        40
    );
    // 25 correct / 5 / 0.5 min = 10.00 wpm.
    assert_eq!(calculate_wpm(&vec![true; 25], 30 * SECOND_NS), 1000);
}

#[test]
fn rounding_is_toward_zero() {
    // 1 correct / 5 / (7 / 60) min = 1.714... wpm, reported as 1.71.
    assert_eq!(calculate_wpm(&vec![true], 7 * SECOND_NS), 171);
}

#[test]
fn zero_elapsed_time_scores_zero() {
    assert_eq!(calculate_wpm(&vec![true, true], 0), 0);
}

#[test]
fn empty_log_scores_zero() {
    assert_eq!(calculate_wpm(&Vec::new(), 9 * SECOND_NS), 0);
}

#[test]
fn all_false_log_scores_zero() {
    assert_eq!(calculate_wpm(&vec![false, false], 6 * SECOND_NS), 0);
}
