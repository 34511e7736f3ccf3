use vstd::prelude::*;
use vstd::string::StringExecFns;

verus! {

/// The decimal digit character for a value below ten.
pub open spec fn digit_char(d: nat) -> char {
    if d == 0 {
        '0'
    } else if d == 1 {
        '1'
    } else if d == 2 {
        '2'
    } else if d == 3 {
        '3'
    } else if d == 4 {
        '4'
    } else if d == 5 {
        '5'
    } else if d == 6 {
        '6'
    } else if d == 7 {
        '7'
    } else if d == 8 {
        '8'
    } else {
        '9'
    }
}

/// The decimal rendering of `n`, most significant digit first, no leading
/// zeros except for zero itself.
pub open spec fn dec_digits(n: nat) -> Seq<char>
    decreases n,
{
    if n < 10 {
        seq![digit_char(n)]
    } else {
        dec_digits(n / 10).push(digit_char(n % 10))
    }
}

/// The path a capture at Unix time `ts` (in seconds) is written to: built from
/// the timestamp alone, under the shared temporary directory.
pub open spec fn screenshot_path_spec(ts: u64) -> Seq<char> {
    "/tmp/jj-gui-screenshot-"@ + dec_digits(ts as nat) + ".png"@
}

fn digit_str(d: u64) -> (r: &'static str)
    requires
        d < 10,
    ensures
        r@ == seq![digit_char(d as nat)],
{
    let r: &'static str = if d == 0 {
        "0"
    } else if d == 1 {
        "1"
    } else if d == 2 {
        "2"
    } else if d == 3 {
        "3"
    } else if d == 4 {
        "4"
    } else if d == 5 {
        "5"
    } else if d == 6 {
        "6"
    } else if d == 7 {
        "7"
    } else if d == 8 {
        "8"
    } else {
        "9"
    };
    proof {
        reveal_strlit("0");
        reveal_strlit("1");
        reveal_strlit("2");
        reveal_strlit("3");
        reveal_strlit("4");
        reveal_strlit("5");
        reveal_strlit("6");
        reveal_strlit("7");
        reveal_strlit("8");
        reveal_strlit("9");
        assert(r@ =~= seq![digit_char(d as nat)]);
    }
    r
}

/// Renders `n` in decimal.
pub fn u64_to_dec(n: u64) -> (r: String)
    ensures
        r@ == dec_digits(n as nat),
    decreases n,
{
    if n < 10 {
        digit_str(n).to_owned()
    } else {
        let mut s = u64_to_dec(n / 10);
        s.append(digit_str(n % 10));
        proof {
            assert(s@ =~= dec_digits(n as nat));
        }
        s
    }
}

/// Builds the path a screenshot taken at Unix time `ts` is saved under. Two
/// captures within the same second build the same path: a documented
/// limitation, not deduplicated or error-flagged.
pub fn screenshot_path(ts: u64) -> (r: String)
    ensures
        r@ == screenshot_path_spec(ts),
{
    let mut s = "/tmp/jj-gui-screenshot-".to_owned();
    let digits = u64_to_dec(ts);
    s.append(digits.as_str());
    s.append(".png");
    proof {
        assert(s@ =~= screenshot_path_spec(ts));
    }
    s
}

/// Captures requested within the same second are written to identical paths:
/// the path is a function of the whole-second timestamp alone.
pub proof fn lemma_same_second_same_path(t1: u64, t2: u64)
    requires
        t1 == t2,
    ensures
        screenshot_path_spec(t1) == screenshot_path_spec(t2),
{
}

} // verus!
