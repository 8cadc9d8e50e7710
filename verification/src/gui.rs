use vstd::prelude::*;

verus! {

/// Pixels added to each scaled button coordinate.
pub const GENERIC_OFFSET: i32 = 0xa;

/// Pixels from a system row to its filter entry.
pub const FILTER_OFFSET: i32 = 0x6;

/// Height of one system row of the star browser.
pub const SYSTEMS_OFFSET: i32 = 0x19;

/// Horizontal distance from the filter-sort button to a row's name.
pub const ROW_NAME_SHIFT: i32 = 0x40;

/// Times the clear button is clicked, since one click does not always clear.
pub const CLEAR_CLICKS: u32 = 3;

/// Times the filter toggle is clicked.
pub const FILTER_TOGGLE_CLICKS: u32 = 2;

/// Reads of the selected-object pointer before giving up on it.
pub const SELECT_RETRIES: u32 = 100;

/// Most system rows checked after one search.
pub const MAX_ROWS: i32 = 4;

/// Nanoseconds after which a search that has searched nothing is abandoned.
pub const EMPTY_SEARCH_TIMEOUT_NANOS: u128 = 6_000_000_000;

/// Nanoseconds after which any search is abandoned.
pub const SEARCH_TIMEOUT_NANOS: u128 = 80_000_000_000;

/// Whether the selected-object pointer is read again after `reads` reads,
/// the last of which gave `pointer`: only while it is still null and fewer
/// than `SELECT_RETRIES` reads were made.
pub fn keep_reading_selection(reads: u32, pointer: usize) -> (again: bool)
    ensures
        again == (pointer == 0 && reads < SELECT_RETRIES),
        again <==> pointer == 0 && reads < 100,
{
    pointer == 0 && reads < SELECT_RETRIES
}

/// The low 16 bits of a message parameter.
pub open spec fn lparam_low(l: isize) -> isize {
    l & 0xFFFF
}

/// The bits of a message parameter above the low 16, sign-extended.
pub open spec fn lparam_high(l: isize) -> isize {
    l >> 16
}

/// The value `y` keeps in the high part of a message parameter: all of it
/// on a 64-bit machine, its low 16 bits (sign-extended) on a 32-bit one.
pub open spec fn kept_high(y: i32) -> isize {
    if isize::BITS == 64 {
        y as isize
    } else {
        (y as i16) as isize
    }
}

/// Packs a click position into a mouse message parameter: `x`'s low 16 bits
/// in the low word, `y` shifted above them.
pub fn make_lparam(x: i32, y: i32) -> (l: isize)
    ensures
        lparam_low(l) == (x & 0xFFFF) as isize,
        lparam_high(l) == kept_high(y),
        0 <= x <= 0xFFFF && -0x8000 <= y <= 0x7FFF ==> l as int == y as int * 65536 + x as int,
{
    let high: isize = (y as isize) << 16usize;
    let low: isize = (x & 0xFFFF) as isize;
    let l = high | low;
    assert(0 <= x <= 0xFFFF && -0x8000 <= y <= 0x7FFF ==> l as int == y as int * 65536 + x as int) by (bit_vector)
        requires
            high == (y as isize) << 16usize,
            low == (x & 0xFFFF) as isize,
            l == high | low,
    ;
    assert(l & 0xFFFF == (x & 0xFFFF) as isize && (l >> 16) == kept_high(y)) by (bit_vector)
        requires
            high == (y as isize) << 16usize,
            low == (x & 0xFFFF) as isize,
            l == high | low,
    ;
    l
}

/// A click position packed by `make_lparam` unpacks to the same position,
/// for every position on a screen of up to 65535 by 32767 pixels.
pub proof fn law_lparam_round_trip(x: i32, y: i32)
    requires
        0 <= x <= 0xFFFF,
        -0x8000 <= y <= 0x7FFF,
    ensures
        (x & 0xFFFF) == x,
        kept_high(y) == y,
{
    assert((x & 0xFFFF) == x) by (bit_vector)
        requires
            0 <= x <= 0xFFFF,
    ;
    assert((y as i16) as isize == y as isize) by (bit_vector)
        requires
            -0x8000 <= y <= 0x7FFF,
    ;
}

/// The screen position of a button from its scaled layout coordinates.
pub fn gui_point(scaled_x: i32, scaled_y: i32) -> (p: (i32, i32))
    requires
        scaled_x + GENERIC_OFFSET <= i32::MAX,
        scaled_y + GENERIC_OFFSET <= i32::MAX,
    ensures
        p.0 == scaled_x + GENERIC_OFFSET,
        p.1 == scaled_y + GENERIC_OFFSET,
        p.0 == scaled_x + 10 && p.1 == scaled_y + 10,
{
    (scaled_x + GENERIC_OFFSET, scaled_y + GENERIC_OFFSET)
}

/// How many system rows are checked after a search that found
/// `systems_found` systems: rows 0 up to `min(systems_found - 1, 3)`.
pub open spec fn rows_checked(systems_found: int) -> int {
    if systems_found <= 0 {
        0
    } else if systems_found >= MAX_ROWS {
        MAX_ROWS as int
    } else {
        systems_found
    }
}

/// The rows checked are the first `min(systems_found, 4)` found systems:
/// none when nothing was found, every one of up to four, and four otherwise.
pub proof fn law_rows_checked(systems_found: int)
    ensures
        0 <= rows_checked(systems_found) <= 4,
        systems_found <= 0 ==> rows_checked(systems_found) == 0,
        1 <= systems_found <= 4 ==> rows_checked(systems_found) == systems_found,
        systems_found >= 4 ==> rows_checked(systems_found) == 4,
{
}

/// The number of system rows to check.
pub fn rows_to_check(systems_found: i32) -> (n: i32)
    requires
        systems_found > i32::MIN,
    ensures
        n == rows_checked(systems_found as int),
        0 <= n <= 4,
        systems_found <= 0 ==> n == 0,
        1 <= systems_found <= 4 ==> n == systems_found,
        systems_found >= 4 ==> n == 4,
{
    proof {
        law_rows_checked(systems_found as int);
    }
    let last = if systems_found - 1 < MAX_ROWS - 1 {
        systems_found - 1
    } else {
        MAX_ROWS - 1
    };
    if last < 0 {
        0
    } else {
        last + 1
    }
}

/// The two clicks that select system row `row`: first on its name, then on
/// its filter entry.
pub fn row_clicks(filter_sort: (i32, i32), row: i32) -> (c: ((i32, i32), (i32, i32)))
    requires
        filter_sort.0 - ROW_NAME_SHIFT >= i32::MIN,
        i32::MIN <= row + 1 <= i32::MAX,
        i32::MIN <= (row + 1) * SYSTEMS_OFFSET <= i32::MAX,
        i32::MIN <= filter_sort.1 + (row + 1) * SYSTEMS_OFFSET <= i32::MAX,
        i32::MIN <= filter_sort.1 + FILTER_OFFSET <= i32::MAX,
        i32::MIN <= filter_sort.1 + FILTER_OFFSET + (row + 1) * SYSTEMS_OFFSET <= i32::MAX,
    ensures
        c.0.0 == filter_sort.0 - ROW_NAME_SHIFT,
        c.0.1 == filter_sort.1 + (row + 1) * SYSTEMS_OFFSET,
        c.1.0 == filter_sort.0,
        c.1.1 == filter_sort.1 + FILTER_OFFSET + (row + 1) * SYSTEMS_OFFSET,
        c.0.0 == filter_sort.0 - 64 && c.1.0 == filter_sort.0,
        c.0.1 == filter_sort.1 + 25 * (row + 1) && c.1.1 == c.0.1 + 6,
{
    let step = (row + 1) * SYSTEMS_OFFSET;
    (
        (filter_sort.0 - ROW_NAME_SHIFT, filter_sort.1 + step),
        (filter_sort.0, filter_sort.1 + FILTER_OFFSET + step),
    )
}

/// What to do while the star browser searches.
#[derive(Clone, Copy, Debug, PartialEq, Eq, Structural)]
pub enum SearchVerdict {
    /// Keep polling.
    KeepWaiting,
    /// Six seconds passed and no system was searched: clear and move on.
    NothingSearched,
    /// Eighty seconds passed: clear and move on.
    TooLong,
}

/// The verdict on a running search after `elapsed_nanos` nanoseconds with
/// `systems_searched` systems searched.
pub open spec fn search_verdict_of(elapsed_nanos: u128, systems_searched: i32) -> SearchVerdict {
    if elapsed_nanos > EMPTY_SEARCH_TIMEOUT_NANOS && systems_searched == 0 {
        SearchVerdict::NothingSearched
    } else if elapsed_nanos > SEARCH_TIMEOUT_NANOS {
        SearchVerdict::TooLong
    } else {
        SearchVerdict::KeepWaiting
    }
}

/// Decides whether a running search is abandoned.
pub fn search_verdict(elapsed_nanos: u128, systems_searched: i32) -> (v: SearchVerdict)
    ensures
        v == search_verdict_of(elapsed_nanos, systems_searched),
        v == SearchVerdict::NothingSearched <==> elapsed_nanos > 6_000_000_000
            && systems_searched == 0,
        v == SearchVerdict::TooLong <==> elapsed_nanos > 80_000_000_000 && systems_searched != 0,
        v == SearchVerdict::KeepWaiting <==> elapsed_nanos <= 80_000_000_000 && (systems_searched
            != 0 || elapsed_nanos <= 6_000_000_000),
{
    proof {
        law_search_verdict_cases(elapsed_nanos, systems_searched);
    }
    if elapsed_nanos > EMPTY_SEARCH_TIMEOUT_NANOS && systems_searched == 0 {
        SearchVerdict::NothingSearched
    } else if elapsed_nanos > SEARCH_TIMEOUT_NANOS {
        SearchVerdict::TooLong
    } else {
        SearchVerdict::KeepWaiting
    }
}

/// A search is cleared for having searched nothing only when nothing was
/// searched and six seconds passed; for taking too long only when something
/// was searched and eighty seconds passed; a search that has searched at
/// least one system is waited on for the full eighty seconds.
pub proof fn law_search_verdict_cases(elapsed_nanos: u128, systems_searched: i32)
    ensures
        search_verdict_of(elapsed_nanos, systems_searched) == SearchVerdict::NothingSearched
            <==> elapsed_nanos > 6_000_000_000 && systems_searched == 0,
        search_verdict_of(elapsed_nanos, systems_searched) == SearchVerdict::TooLong
            <==> elapsed_nanos > 80_000_000_000 && systems_searched != 0,
        search_verdict_of(elapsed_nanos, systems_searched) == SearchVerdict::KeepWaiting
            <==> elapsed_nanos <= 80_000_000_000 && (systems_searched != 0 || elapsed_nanos
            <= 6_000_000_000),
        systems_searched != 0 && elapsed_nanos <= 80_000_000_000 ==> search_verdict_of(
            elapsed_nanos,
            systems_searched,
        ) == SearchVerdict::KeepWaiting,
{
}

/// A search once abandoned stays abandoned as time goes on, and no search
/// is waited on for more than eighty seconds.
pub proof fn law_search_ends(t: u128, later: u128, searched: i32)
    requires
        t <= later,
    ensures
        search_verdict_of(t, searched) != SearchVerdict::KeepWaiting ==> search_verdict_of(
            later,
            searched,
        ) != SearchVerdict::KeepWaiting,
        later > SEARCH_TIMEOUT_NANOS ==> search_verdict_of(later, searched)
            != SearchVerdict::KeepWaiting,
{
}

} // verus!
