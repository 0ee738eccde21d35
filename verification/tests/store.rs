use emergence::{AoC, Error};

fn store(year: usize) -> AoC {
    AoC::with_path_and_token(year, String::from("aoc-cache"), String::from("emergence")).unwrap()
}

#[test]
fn day00() {
    let aoc = store(2020);
    assert!(matches!(aoc.read_or_fetch(0, None), Err(Error::DayZero)));
}

#[test]
fn day31() {
    let aoc = store(2020);
    assert!(matches!(aoc.read_or_fetch(31, None), Err(Error::OutOfBounds)));
}

#[test]
fn day_zero_fails_whatever_the_cache_holds() {
    let aoc = store(2020);
    let r = aoc.read_or_fetch(0, Some(String::from("hello")));
    assert!(matches!(r, Err(Error::DayZero)));
}

#[test]
fn day_past_25_fails_whatever_the_cache_holds() {
    let aoc = store(2020);
    let r = aoc.read_or_fetch(26, Some(String::from("hello")));
    assert!(matches!(r, Err(Error::OutOfBounds)));
}

#[test]
fn cache_hit_returns_cached_text() {
    let aoc = store(2020);
    let r = aoc.read_or_fetch(1, Some(String::from("hello")));
    assert_eq!(r.unwrap(), "hello");
}

#[test]
fn cache_hit_is_idempotent() {
    let aoc = store(2020);
    let first = aoc.read_or_fetch(3, Some(String::from("hello\n"))).unwrap();
    let second = aoc.read_or_fetch(3, Some(first.clone())).unwrap();
    assert_eq!(first, second);
    assert_eq!(second, "hello\n");
}

#[test]
fn rel_path_day01() {
    let aoc = store(2020);
    assert_eq!(aoc.cache_rel_path(1), "2020/day01.txt");
}

#[test]
fn loc_joins_base_year_and_day() {
    let aoc = store(2020);
    assert_eq!(aoc.loc(1), "aoc-cache/2020/day01.txt");
    assert_eq!(aoc.loc(25), "aoc-cache/2020/day25.txt");
}

#[test]
fn loc_pads_days_and_renders_any_year() {
    let aoc = AoC::with_path_and_token(999, String::from("d"), String::from("t")).unwrap();
    assert_eq!(aoc.loc(9), "d/999/day09.txt");
    assert_eq!(aoc.loc(10), "d/999/day10.txt");
}

#[test]
fn future_day_is_not_yet_released() {
    let aoc = store(2999);
    assert!(matches!(aoc.read_or_fetch(25, None), Err(Error::NotYetReleased(25))));
}

#[test]
fn gate_blocks_before_boundary() {
    let aoc = store(2020);
    assert!(matches!(aoc.fetch_at(1, 0), Err(Error::NotYetReleased(1))));
    let boundary = emergence::schedule::release_timestamp(2020, 1);
    assert!(matches!(aoc.fetch_at(1, boundary - 1), Err(Error::NotYetReleased(1))));
}

#[test]
fn gate_passes_from_boundary_on() {
    let aoc = store(2015);
    let boundary = emergence::schedule::release_timestamp(2015, 1);
    // from the boundary on, the network decides the outcome; it must never
    // be a gate error or a validation error
    match aoc.fetch_at(1, boundary) {
        Ok(_) | Err(Error::Transport) | Err(Error::Remote) => {}
        other => panic!("unexpected outcome past the boundary: {:?}", other),
    }
}

#[test]
fn miss_settlement_returns_network_text_verbatim() {
    let r = AoC::settle_miss(4, false, Ok(String::from("fetched body\n")));
    assert_eq!(r.unwrap(), "fetched body\n");
    let e = AoC::settle_miss(4, false, Err(Error::Remote));
    assert!(matches!(e, Err(Error::Remote)));
}

#[test]
fn miss_settlement_lets_a_blocked_gate_win() {
    let r = AoC::settle_miss(4, true, Ok(String::from("fetched body\n")));
    assert!(matches!(r, Err(Error::NotYetReleased(4))));
}

#[test]
fn read_through_miss_attempts_the_fetch() {
    let aoc = store(2015);
    match aoc.read_or_fetch(1, None) {
        Ok(_) | Err(Error::Transport) | Err(Error::Remote) => {}
        other => panic!("unexpected outcome on a released miss: {:?}", other),
    }
}
