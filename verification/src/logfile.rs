use vstd::prelude::*;

verus! {

/// The character of a decimal digit.
pub open spec fn digit_char(d: nat) -> char {
    (48 + d) as char
}

/// The decimal numeral of `n`, without leading zeros.
pub open spec fn decimal(n: nat) -> Seq<char>
    decreases n,
{
    if n < 10 {
        seq![digit_char(n)]
    } else {
        decimal(n / 10).push(digit_char(n % 10))
    }
}

/// The name of the log file with the given index: "hunter.log" for 0, else
/// "hunter-" followed by the index and ".log".
pub open spec fn log_file_name_text(index: nat) -> Seq<char> {
    if index == 0 {
        "hunter.log"@
    } else {
        "hunter-"@ + decimal(index) + ".log"@
    }
}

/// The text of one decimal digit.
fn digit_str(d: u32) -> (s: &'static str)
    requires
        d < 10,
    ensures
        s@ == seq![digit_char(d as nat)],
{
    proof {
        reveal_strlit("0");
        reveal_strlit("1");
        reveal_strlit("2");
        reveal_strlit("3");
        reveal_strlit("4");
        reveal_strlit("5");
        reveal_strlit("6");
        reveal_strlit("7");
        reveal_strlit("8");
        reveal_strlit("9");
    }
    match d {
        0 => "0",
        1 => "1",
        2 => "2",
        3 => "3",
        4 => "4",
        5 => "5",
        6 => "6",
        7 => "7",
        8 => "8",
        _ => "9",
    }
}

/// Appends the decimal numeral of `n`.
fn append_decimal(s: &mut String, n: u32)
    ensures
        final(s)@ == old(s)@ + decimal(n as nat),
    decreases n,
{
    if n >= 10 {
        append_decimal(s, n / 10);
    }
    s.append(digit_str(n % 10));
    assert(old(s)@ + decimal(n as nat) =~= s@);
}

/// The name of the log file with the given index.
pub fn log_file_name(index: u32) -> (name: String)
    ensures
        name@ == log_file_name_text(index as nat),
        index == 0 ==> name@ == seq!['h', 'u', 'n', 't', 'e', 'r', '.', 'l', 'o', 'g'],
        index > 0 ==> {
            &&& name@.len() >= 12
            &&& name@.subrange(0, 7) == seq!['h', 'u', 'n', 't', 'e', 'r', '-']
            &&& name@.subrange(name@.len() - 4, name@.len() as int) == seq!['.', 'l', 'o', 'g']
            &&& forall|i: int| 7 <= i < name@.len() - 4 ==> '0' <= #[trigger] name@[i] <= '9'
            &&& name@[7] != '0'
            &&& numeral_value(name@.subrange(7, name@.len() - 4)) == index
        },
{
    proof {
        law_log_file_name_is_numbered(index as nat);
    }
    if index == 0 {
        String::from_str("hunter.log")
    } else {
        let mut name = String::from_str("hunter-");
        append_decimal(&mut name, index);
        name.append(".log");
        name
    }
}

proof fn lemma_decimal_len(n: nat)
    ensures
        decimal(n).len() >= 1,
        n >= 10 ==> decimal(n).len() >= 2,
    decreases n,
{
    if n >= 10 {
        lemma_decimal_len(n / 10);
    }
}

/// Different numbers have different numerals.
pub proof fn law_decimal_injective(a: nat, b: nat)
    requires
        decimal(a) == decimal(b),
    ensures
        a == b,
    decreases a,
{
    lemma_decimal_len(a);
    lemma_decimal_len(b);
    if a < 10 && b < 10 {
        assert(decimal(a)[0] == digit_char(a));
        assert(decimal(b)[0] == digit_char(b));
    } else if a >= 10 && b >= 10 {
        assert(decimal(a).last() == digit_char(a % 10));
        assert(decimal(b).last() == digit_char(b % 10));
        assert(decimal(a).drop_last() =~= decimal(a / 10));
        assert(decimal(b).drop_last() =~= decimal(b / 10));
        law_decimal_injective(a / 10, b / 10);
    }
}

/// Distinct indices name distinct log files, so the first index whose file
/// does not exist yet never names an existing log.
pub proof fn law_log_file_names_distinct(i: nat, j: nat)
    requires
        log_file_name_text(i) == log_file_name_text(j),
    ensures
        i == j,
{
    reveal_strlit("hunter.log");
    reveal_strlit("hunter-");
    reveal_strlit(".log");
    if i == 0 && j != 0 {
        assert(log_file_name_text(i)[6] == '.');
        assert(log_file_name_text(j)[6] == '-');
    } else if i != 0 && j == 0 {
        assert(log_file_name_text(i)[6] == '-');
        assert(log_file_name_text(j)[6] == '.');
    } else if i != 0 && j != 0 {
        let ti = log_file_name_text(i);
        let tj = log_file_name_text(j);
        lemma_decimal_len(i);
        lemma_decimal_len(j);
        assert(ti.len() == tj.len());
        assert(ti.subrange(7, ti.len() - 4) =~= decimal(i));
        assert(tj.subrange(7, tj.len() - 4) =~= decimal(j));
        law_decimal_injective(i, j);
    }
}

/// The number a string of decimal digits stands for, reading each digit as
/// its character code minus that of '0' (48).
pub open spec fn numeral_value(d: Seq<char>) -> int
    decreases d.len(),
{
    if d.len() == 0 {
        0
    } else {
        numeral_value(d.drop_last()) * 10 + (d.last() as int - 48)
    }
}

/// The numeral of `n` is made of the digits '0' to '9' only, starts with a
/// nonzero digit unless `n` is 0, and stands for `n`.
pub proof fn law_decimal_is_numeral(n: nat)
    ensures
        forall|i: int| 0 <= i < decimal(n).len() ==> '0' <= #[trigger] decimal(n)[i] <= '9',
        n > 0 ==> decimal(n)[0] != '0',
        numeral_value(decimal(n)) == n,
    decreases n,
{
    lemma_decimal_len(n);
    if n < 10 {
        assert(decimal(n)[0] == digit_char(n));
        assert(decimal(n).drop_last() =~= Seq::<char>::empty());
        assert(digit_char(n) as int == 48 + n);
        assert(numeral_value(decimal(n)) == numeral_value(decimal(n).drop_last()) * 10 + (decimal(n).last() as int - 48));
    } else {
        law_decimal_is_numeral(n / 10);
        lemma_decimal_len(n / 10);
        let d = decimal(n);
        assert(d.drop_last() =~= decimal(n / 10));
        assert(d.last() == digit_char(n % 10));
        assert(d[0] == decimal(n / 10)[0]);
        assert forall|i: int| 0 <= i < d.len() implies '0' <= #[trigger] d[i] <= '9' by {
            if i < d.len() - 1 {
                assert(d[i] == decimal(n / 10)[i]);
            }
        }
        assert(digit_char(n % 10) as int == 48 + n % 10);
        assert(numeral_value(d) == numeral_value(d.drop_last()) * 10 + (d.last() as int - 48));
        assert(n == (n / 10) * 10 + n % 10);
    }
}

/// The log file of index 0 is "hunter.log"; that of any other index `n` is
/// "hunter-", then the base-10 numeral of `n` (digits '0' to '9', no leading
/// zero), then ".log".
pub proof fn law_log_file_name_is_numbered(n: nat)
    ensures
        n == 0 ==> log_file_name_text(n) == seq!['h', 'u', 'n', 't', 'e', 'r', '.', 'l', 'o', 'g'],
        n > 0 ==> {
            let t = log_file_name_text(n);
            &&& t.len() >= 12
            &&& t.subrange(0, 7) == seq!['h', 'u', 'n', 't', 'e', 'r', '-']
            &&& t.subrange(t.len() - 4, t.len() as int) == seq!['.', 'l', 'o', 'g']
            &&& forall|i: int| 7 <= i < t.len() - 4 ==> '0' <= #[trigger] t[i] <= '9'
            &&& t[7] != '0'
            &&& numeral_value(t.subrange(7, t.len() - 4)) == n
        },
{
    reveal_strlit("hunter.log");
    reveal_strlit("hunter-");
    reveal_strlit(".log");
    if n == 0 {
        assert(log_file_name_text(n) =~= seq!['h', 'u', 'n', 't', 'e', 'r', '.', 'l', 'o', 'g']);
    } else {
        law_decimal_is_numeral(n);
        lemma_decimal_len(n);
        let t = log_file_name_text(n);
        let d = decimal(n);
        assert(t.subrange(0, 7) =~= seq!['h', 'u', 'n', 't', 'e', 'r', '-']);
        assert(t.subrange(t.len() - 4, t.len() as int) =~= seq!['.', 'l', 'o', 'g']);
        assert(t.subrange(7, t.len() - 4) =~= d);
        assert forall|i: int| 7 <= i < t.len() - 4 implies '0' <= #[trigger] t[i] <= '9' by {
            assert(t[i] == d[i - 7]);
        }
        assert(t[7] == d[0]);
    }
}

} // verus!
