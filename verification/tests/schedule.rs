use emergence::net::{build_cookie, build_url};
use emergence::schedule::{now_timestamp, release_timestamp};

#[test]
fn release_boundaries_match_known_instants() {
    // midnight of December 1 in UTC-5 is 05:00 UTC of that date
    assert_eq!(release_timestamp(2015, 1), 1448946000);
    assert_eq!(release_timestamp(2020, 1), 1606798800);
    assert_eq!(release_timestamp(2020, 25), 1608872400);
    // one day apart within a month
    assert_eq!(release_timestamp(2021, 2) - release_timestamp(2021, 1), 86400);
}

#[test]
fn leap_years_shift_december() {
    // 2020 is a leap year, 2019 is not: the two Decembers are 366 days apart
    assert_eq!(release_timestamp(2020, 1) - release_timestamp(2019, 1), 366 * 86400);
    // 2019 and 2018: 365 days
    assert_eq!(release_timestamp(2019, 1) - release_timestamp(2018, 1), 365 * 86400);
}

#[test]
fn the_clock_reads_a_present_day_instant() {
    // any instant this test runs at is far past 2021-01-01 and below year 3000
    let now = now_timestamp();
    assert!(now > 1609459200);
    assert!(now < 32503680000);
}

#[test]
fn url_is_parameterized_by_year_and_day() {
    assert_eq!(build_url(2020, 3), "https://adventofcode.com/2020/day/3/input");
    assert_eq!(build_url(2015, 25), "https://adventofcode.com/2015/day/25/input");
}

#[test]
fn cookie_carries_the_token() {
    assert_eq!(build_cookie("abc123"), "session=abc123");
    assert_eq!(build_cookie(""), "session=");
}
