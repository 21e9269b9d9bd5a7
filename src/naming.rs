use vstd::prelude::*;

verus! {

/// Whether `s` has the shape of a timestamp written year down to second: at
/// least fourteen characters, each a decimal digit or the sign of a year
/// outside `0..=9999`.
pub open spec fn is_stamp(s: Seq<char>) -> bool {
    &&& s.len() >= 14
    &&& forall|i: int| 0 <= i < s.len() ==> is_stamp_char(#[trigger] s[i])
}

/// A decimal digit or a sign.
pub open spec fn is_stamp_char(c: char) -> bool {
    ('0' <= c && c <= '9') || c == '+' || c == '-'
}

/// The decimal digit for `d < 10`.
pub open spec fn digit_char(d: nat) -> char {
    if d == 0 {
        '0'
    } else if d == 1 {
        '1'
    } else if d == 2 {
        '2'
    } else if d == 3 {
        '3'
    } else if d == 4 {
        '4'
    } else if d == 5 {
        '5'
    } else if d == 6 {
        '6'
    } else if d == 7 {
        '7'
    } else if d == 8 {
        '8'
    } else {
        '9'
    }
}

/// The decimal notation of `n`, without leading zeros.
pub open spec fn decimal(n: nat) -> Seq<char>
    decreases n,
{
    if n < 10 {
        seq![digit_char(n)]
    } else {
        decimal(n / 10).push(digit_char(n % 10))
    }
}

/// The name of a recording file whose timestamp is `stamp`.
pub open spec fn file_name_for(stamp: Seq<char>) -> Seq<char> {
    stamp + ".wav"@
}

/// The name of the `attempt`-th candidate file for `stamp`: the plain name
/// first, then the stamp with `_1`, `_2`, ... before the extension.
pub open spec fn numbered_name_for(stamp: Seq<char>, attempt: nat) -> Seq<char> {
    if attempt == 0 {
        file_name_for(stamp)
    } else {
        stamp + "_"@ + decimal(attempt) + ".wav"@
    }
}

/// Relies on chrono's `Local::now` and `DateTime::format` with
/// `"%Y%m%d%H%M%S"`: the local time of the call, year down to second. Which
/// time it is depends on the clock and the time zone; its shape does not:
/// the year takes at least four digits (a sign in front outside `0..=9999`)
/// and month, day, hour, minute and second two digits each.
#[verifier::external_body]
fn local_timestamp() -> (r: String)
    ensures
        r@.len() >= 14,
        forall|i: int| 0 <= i < r@.len() ==> is_stamp_char(#[trigger] r@[i]),
{
    chrono::Local::now().format("%Y%m%d%H%M%S").to_string()
}

/// The local time now, year down to second, as the stamp of a recording.
pub fn recording_stamp() -> (r: String)
    ensures
        is_stamp(r@),
{
    local_timestamp()
}

/// The file name of a recording that carries the timestamp `stamp`.
pub fn recording_file_name(stamp: &str) -> (r: String)
    ensures
        r@ == file_name_for(stamp@),
{
    let name = String::from_str(stamp);
    name.concat(".wav")
}

/// The decimal digit `d` as a string.
fn digit_str(d: u64) -> (r: &'static str)
    requires
        d < 10,
    ensures
        r@ == seq![digit_char(d as nat)],
{
    proof {
        reveal_strlit("0");
        reveal_strlit("1");
        reveal_strlit("2");
        reveal_strlit("3");
        reveal_strlit("4");
        reveal_strlit("5");
        reveal_strlit("6");
        reveal_strlit("7");
        reveal_strlit("8");
        reveal_strlit("9");
    }
    let r = match d {
        0 => "0",
        1 => "1",
        2 => "2",
        3 => "3",
        4 => "4",
        5 => "5",
        6 => "6",
        7 => "7",
        8 => "8",
        _ => "9",
    };
    assert(r@ =~= seq![digit_char(d as nat)]);
    r
}

/// `prefix` followed by the decimal notation of `n`.
fn append_decimal(prefix: String, n: u64) -> (r: String)
    ensures
        r@ == prefix@ + decimal(n as nat),
    decreases n,
{
    if n < 10 {
        prefix.concat(digit_str(n))
    } else {
        let head = append_decimal(prefix, n / 10);
        let r = head.concat(digit_str(n % 10));
        assert(r@ =~= prefix@ + decimal(n as nat));
        r
    }
}

/// The `attempt`-th candidate file name for a recording stamped `stamp`;
/// candidates for distinct attempts differ, so a caller that skips names
/// already taken finds a fresh one.
pub fn numbered_file_name(stamp: &str, attempt: u64) -> (r: String)
    ensures
        r@ == numbered_name_for(stamp@, attempt as nat),
{
    if attempt == 0 {
        recording_file_name(stamp)
    } else {
        let name = String::from_str(stamp).concat("_");
        let name = append_decimal(name, attempt);
        name.concat(".wav")
    }
}

/// Decimal notation is never empty.
proof fn lemma_decimal_nonempty(n: nat)
    ensures
        decimal(n).len() >= 1,
    decreases n,
{
    if n >= 10 {
        lemma_decimal_nonempty(n / 10);
    }
}

/// Distinct numbers have distinct decimal notations.
proof fn lemma_decimal_injective(a: nat, b: nat)
    requires
        decimal(a) == decimal(b),
    ensures
        a == b,
    decreases a,
{
    if a >= 10 {
        lemma_decimal_nonempty(a / 10);
        assert(decimal(a) == decimal(a / 10).push(digit_char(a % 10)));
        assert(decimal(a).last() == digit_char(a % 10));
    }
    if b >= 10 {
        lemma_decimal_nonempty(b / 10);
        assert(decimal(b) == decimal(b / 10).push(digit_char(b % 10)));
        assert(decimal(b).last() == digit_char(b % 10));
    }
    if a < 10 && b < 10 {
        assert(decimal(a) == seq![digit_char(a)]);
        assert(decimal(b) == seq![digit_char(b)]);
        assert(seq![digit_char(a)][0] == digit_char(a));
        assert(seq![digit_char(b)][0] == digit_char(b));
        assert(decimal(a)[0] == decimal(b)[0]);
        assert(digit_char(a) == digit_char(b));
    } else if a >= 10 && b >= 10 {
        assert(decimal(a).drop_last() =~= decimal(a / 10));
        assert(decimal(b).drop_last() =~= decimal(b / 10));
        lemma_decimal_injective(a / 10, b / 10);
        assert(decimal(a).last() == decimal(b).last());
        assert(digit_char(a % 10) == digit_char(b % 10));
        assert(a % 10 == b % 10);
        assert(a == 10 * (a / 10) + a % 10 && b == 10 * (b / 10) + b % 10) by (nonlinear_arith);
    } else {
        assert(decimal(a).len() != decimal(b).len());
    }
}

/// Every attempt gives its own file name: two candidates for one stamp are
/// equal only when their attempts are.
pub proof fn lemma_numbered_names_distinct(stamp: Seq<char>, a: nat, b: nat)
    requires
        a != b,
    ensures
        numbered_name_for(stamp, a) != numbered_name_for(stamp, b),
{
    reveal_strlit("_");
    reveal_strlit(".wav");
    lemma_decimal_nonempty(a);
    lemma_decimal_nonempty(b);
    let na = numbered_name_for(stamp, a);
    let nb = numbered_name_for(stamp, b);
    if a != 0 && b != 0 && na == nb {
        let k = stamp.len() + 1;
        assert(na.subrange(k as int, na.len() - 4) =~= decimal(a));
        assert(nb.subrange(k as int, nb.len() - 4) =~= decimal(b));
        lemma_decimal_injective(a, b);
    }
}

} // verus!
