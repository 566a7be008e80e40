use pi_status::{average_usage, FULLY_BUSY};

#[test]
fn average_of_no_core_is_zero() {
    assert_eq!(average_usage(&[]), 0);
}

#[test]
fn average_of_two_cores() {
    assert_eq!(average_usage(&[5000, 10000]), 7500);
    assert_eq!(average_usage(&[5000, 10000]) as f64 / 100.0, 75.0);
}

#[test]
fn average_of_one_core_is_its_share() {
    assert_eq!(average_usage(&[0]), 0);
    assert_eq!(average_usage(&[1234]), 1234);
    assert_eq!(average_usage(&[FULLY_BUSY]), FULLY_BUSY);
}

#[test]
fn average_truncates() {
    assert_eq!(average_usage(&[1, 2]), 1);
    assert_eq!(average_usage(&[1, 1, 2]), 1);
    assert_eq!(average_usage(&[0, 0, 0, 3]), 0);
}

#[test]
fn average_stays_within_the_shares() {
    let shares: [u32; 4] = [2500, 10000, 0, 7300];
    let average = average_usage(&shares);
    assert_eq!(average, 4950);
    assert!(average <= FULLY_BUSY);
    assert_eq!(average_usage(&[u32::MAX, u32::MAX, u32::MAX]), u32::MAX);
}

#[test]
fn average_gives_the_same_result_twice() {
    assert_eq!(average_usage(&[1, 2, 3]), average_usage(&[1, 2, 3]));
}
