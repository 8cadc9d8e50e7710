use speng_hunter::galaxy::{blocks_at_level, galaxy_type_skipped, random_galaxy_code};
use speng_hunter::gui::{
    gui_point, keep_reading_selection, make_lparam, row_clicks, rows_to_check, search_verdict, SearchVerdict,
};

#[test]
fn lparam_packing() {
    assert_eq!(make_lparam(100, 200), (200 << 16) | 100);
    assert_eq!(make_lparam(0, 0), 0);
    assert_eq!(make_lparam(0x1_2345, 1), 0x1_2345);
    assert_eq!(make_lparam(-1, 0), 0xFFFF);
    assert_eq!(make_lparam(5, -1), -65531);
}

#[test]
fn law_lparam_round_trip_on_examples() {
    for (x, y) in [(0, 0), (65535, 32767), (1234, -32768), (1, -1)] {
        let l = make_lparam(x, y);
        assert_eq!(l & 0xFFFF, x as isize);
        assert_eq!(l >> 16, y as isize);
    }
}

#[test]
fn button_points() {
    assert_eq!(gui_point(100, 200), (110, 210));
    assert_eq!(gui_point(-10, 0), (0, 10));
}

#[test]
fn rows_checked() {
    assert_eq!(rows_to_check(i32::MIN + 1), 0);
    assert_eq!(rows_to_check(-3), 0);
    assert_eq!(rows_to_check(0), 0);
    assert_eq!(rows_to_check(1), 1);
    assert_eq!(rows_to_check(3), 3);
    assert_eq!(rows_to_check(4), 4);
    assert_eq!(rows_to_check(5000), 4);
    assert_eq!(rows_to_check(i32::MAX), 4);
}

#[test]
fn row_click_positions() {
    assert_eq!(row_clicks((300, 100), 0), ((236, 125), (300, 131)));
    assert_eq!(row_clicks((300, 100), 3), ((236, 200), (300, 206)));
}

#[test]
fn search_verdicts() {
    assert_eq!(search_verdict(0, 0), SearchVerdict::KeepWaiting);
    assert_eq!(search_verdict(6_000_000_000, 0), SearchVerdict::KeepWaiting);
    assert_eq!(search_verdict(6_000_000_001, 0), SearchVerdict::NothingSearched);
    assert_eq!(search_verdict(6_000_000_001, 3), SearchVerdict::KeepWaiting);
    assert_eq!(search_verdict(80_000_000_000, 3), SearchVerdict::KeepWaiting);
    assert_eq!(search_verdict(80_000_000_001, 3), SearchVerdict::TooLong);
    assert_eq!(search_verdict(90_000_000_000, 0), SearchVerdict::NothingSearched);
}

#[test]
fn law_search_ends_on_examples() {
    for searched in [0, 1, 1000] {
        let mut stopped = false;
        for t in (0..100u128).map(|s| s * 1_000_000_000) {
            let v = search_verdict(t, searched);
            if stopped {
                assert_ne!(v, SearchVerdict::KeepWaiting);
            }
            stopped = v != SearchVerdict::KeepWaiting;
        }
        assert!(stopped);
    }
}

#[test]
fn block_counts() {
    let mut expected: u32 = 1;
    for level in 0..=10 {
        assert_eq!(blocks_at_level(level), expected);
        expected = expected.wrapping_mul(8);
    }
}

#[test]
fn random_codes_are_valid_and_vary() {
    let mut rng = rand::thread_rng();
    let mut levels = std::collections::HashSet::new();
    let mut numbers = std::collections::HashSet::new();
    for _ in 0..2000 {
        let c = random_galaxy_code(&mut rng);
        assert!((1..=8).contains(&c.level));
        assert!(c.block < 8u32.pow(c.level));
        assert!(c.number < 2500);
        levels.insert(c.level);
        numbers.insert(c.number);
    }
    assert!(levels.len() > 4);
    assert!(numbers.len() > 100);
}

#[test]
fn skipped_galaxy_types() {
    assert!(!galaxy_type_skipped(0));
    for t in 1..=8 {
        assert!(galaxy_type_skipped(t));
    }
    assert!(!galaxy_type_skipped(9));
    assert!(!galaxy_type_skipped(15));
    assert!(galaxy_type_skipped(16));
    assert!(!galaxy_type_skipped(17));
}

#[test]
fn selection_retries() {
    assert!(keep_reading_selection(1, 0));
    assert!(keep_reading_selection(99, 0));
    assert!(!keep_reading_selection(100, 0));
    assert!(!keep_reading_selection(1, 0x1000));
    assert!(!keep_reading_selection(101, 0));
}
