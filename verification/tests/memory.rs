use open2e::commands::system::{
    adjust_for_reserved, get_total_memory_gb, round_to_gb, BYTES_PER_GB, REPORTED_GB,
    RESERVED_FROM_GB,
};
use open2e::error::CommandError;

fn bytes_of(gigabytes: f64) -> u64 {
    (gigabytes * 1024.0 * 1024.0 * 1024.0) as u64
}

#[test]
fn a_gigabyte_is_1024_cubed() {
    assert_eq!(BYTES_PER_GB, 1024 * 1024 * 1024);
    assert_eq!(RESERVED_FROM_GB, 15);
    assert_eq!(REPORTED_GB, 16);
}

#[test]
fn fifteen_point_four_gigabytes_report_sixteen() {
    assert_eq!(round_to_gb(bytes_of(15.4)), 15);
    assert_eq!(get_total_memory_gb(Ok(bytes_of(15.4))), Ok(16));
}

#[test]
fn fourteen_point_six_gigabytes_report_sixteen() {
    assert_eq!(round_to_gb(bytes_of(14.6)), 15);
    assert_eq!(get_total_memory_gb(Ok(bytes_of(14.6))), Ok(16));
}

#[test]
fn eight_gigabytes_report_eight() {
    assert_eq!(round_to_gb(bytes_of(8.0)), 8);
    assert_eq!(get_total_memory_gb(Ok(bytes_of(8.0))), Ok(8));
}

#[test]
fn thirty_two_gigabytes_round_to_thirty_two_and_report_sixteen() {
    assert_eq!(round_to_gb(bytes_of(32.0)), 32);
    assert_eq!(get_total_memory_gb(Ok(bytes_of(32.0))), Ok(16));
}

#[test]
fn rounding_is_to_the_nearest_gigabyte() {
    assert_eq!(round_to_gb(0), 0);
    assert_eq!(round_to_gb(1), 0);
    assert_eq!(round_to_gb(536_870_911), 0);
    assert_eq!(round_to_gb(536_870_912), 1);
    assert_eq!(round_to_gb(1_073_741_824), 1);
    assert_eq!(round_to_gb(1_610_612_735), 1);
    assert_eq!(round_to_gb(1_610_612_736), 2);
    assert_eq!(round_to_gb(15_569_256_447), 14);
    assert_eq!(round_to_gb(15_569_256_448), 15);
}

#[test]
fn rounding_does_not_overflow_at_the_top() {
    assert_eq!(round_to_gb(u64::MAX), 17_179_869_184);
    assert_eq!(round_to_gb(u64::MAX - 536_870_911), 17_179_869_184);
    assert_eq!(round_to_gb(u64::MAX - 536_870_912), 17_179_869_183);
    assert_eq!(get_total_memory_gb(Ok(u64::MAX)), Ok(16));
}

#[test]
fn adjustment_starts_at_fifteen() {
    assert_eq!(adjust_for_reserved(0), 0);
    assert_eq!(adjust_for_reserved(1), 1);
    assert_eq!(adjust_for_reserved(14), 14);
    assert_eq!(adjust_for_reserved(15), 16);
    assert_eq!(adjust_for_reserved(16), 16);
    assert_eq!(adjust_for_reserved(17), 16);
    assert_eq!(adjust_for_reserved(64), 16);
    assert_eq!(adjust_for_reserved(u64::MAX), 16);
}

#[test]
fn values_below_fifteen_pass_through() {
    assert_eq!(get_total_memory_gb(Ok(0)), Ok(0));
    assert_eq!(get_total_memory_gb(Ok(bytes_of(3.9))), Ok(4));
    assert_eq!(get_total_memory_gb(Ok(bytes_of(14.4))), Ok(14));
    assert_eq!(get_total_memory_gb(Ok(15_569_256_447)), Ok(14));
    assert_eq!(get_total_memory_gb(Ok(15_569_256_448)), Ok(16));
}

#[test]
fn rounding_agrees_with_floating_point_division() {
    let mut bytes: u64 = 0;
    while bytes < 40 * BYTES_PER_GB {
        let expected = ((bytes as f64) / 1024.0 / 1024.0 / 1024.0).round() as u64;
        assert_eq!(round_to_gb(bytes), expected, "at {} bytes", bytes);
        bytes += 33_554_433;
    }
    let mut gigabytes: u64 = 0;
    while gigabytes < 64 {
        let half = gigabytes * BYTES_PER_GB + BYTES_PER_GB / 2;
        for probe in [half - 1, half, half + 1] {
            let expected = ((probe as f64) / 1024.0 / 1024.0 / 1024.0).round() as u64;
            assert_eq!(round_to_gb(probe), expected, "at {} bytes", probe);
        }
        gigabytes += 1;
    }
}

#[test]
fn the_report_is_sixteen_or_less_than_fifteen() {
    let mut bytes: u64 = 0;
    while bytes < 70 * BYTES_PER_GB {
        let reported = get_total_memory_gb(Ok(bytes)).unwrap();
        assert!(reported == 16 || reported < 15);
        assert_eq!(reported, adjust_for_reserved(round_to_gb(bytes)));
        bytes += 268_435_457;
    }
}

#[test]
fn a_failed_query_is_a_host_failure() {
    let result = get_total_memory_gb(Err(String::from("poisoned lock")));
    assert_eq!(result, Err(CommandError::HostInfo(String::from("poisoned lock"))));
}
