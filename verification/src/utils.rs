use vstd::prelude::*;

use vstd::string::StringExecFns;

verus! {

/// The decimal digit character for `d`.
pub open spec fn spec_digit(d: u64) -> char
    recommends
        d < 10,
{
    if d == 0 {
        '0'
    } else if d == 1 {
        '1'
    } else if d == 2 {
        '2'
    } else if d == 3 {
        '3'
    } else if d == 4 {
        '4'
    } else if d == 5 {
        '5'
    } else if d == 6 {
        '6'
    } else if d == 7 {
        '7'
    } else if d == 8 {
        '8'
    } else {
        '9'
    }
}

/// The decimal digits of `n`, most significant first, no leading zeroes
/// except for the single digit of zero itself.
pub open spec fn spec_dec_str(n: u64) -> Seq<char>
    decreases n,
{
    if n < 10 {
        seq![spec_digit(n)]
    } else {
        spec_dec_str((n / 10) as u64).push(spec_digit((n % 10) as u64))
    }
}

/// One decimal digit as a string slice.
fn digit_str(d: u64) -> (r: &'static str)
    requires
        d < 10,
    ensures
        r@ == seq![spec_digit(d)],
{
    if d == 0 {
        let r = "0";
        proof {
            reveal_strlit("0");
            assert(r@ =~= seq![spec_digit(d)]);
        }
        r
    } else if d == 1 {
        let r = "1";
        proof {
            reveal_strlit("1");
            assert(r@ =~= seq![spec_digit(d)]);
        }
        r
    } else if d == 2 {
        let r = "2";
        proof {
            reveal_strlit("2");
            assert(r@ =~= seq![spec_digit(d)]);
        }
        r
    } else if d == 3 {
        let r = "3";
        proof {
            reveal_strlit("3");
            assert(r@ =~= seq![spec_digit(d)]);
        }
        r
    } else if d == 4 {
        let r = "4";
        proof {
            reveal_strlit("4");
            assert(r@ =~= seq![spec_digit(d)]);
        }
        r
    } else if d == 5 {
        let r = "5";
        proof {
            reveal_strlit("5");
            assert(r@ =~= seq![spec_digit(d)]);
        }
        r
    } else if d == 6 {
        let r = "6";
        proof {
            reveal_strlit("6");
            assert(r@ =~= seq![spec_digit(d)]);
        }
        r
    } else if d == 7 {
        let r = "7";
        proof {
            reveal_strlit("7");
            assert(r@ =~= seq![spec_digit(d)]);
        }
        r
    } else if d == 8 {
        let r = "8";
        proof {
            reveal_strlit("8");
            assert(r@ =~= seq![spec_digit(d)]);
        }
        r
    } else {
        let r = "9";
        proof {
            reveal_strlit("9");
            assert(r@ =~= seq![spec_digit(d)]);
        }
        r
    }
}

/// Render `n` as decimal digits.
pub fn u64_to_dec_str(n: u64) -> (r: String)
    ensures
        r@ == spec_dec_str(n),
    decreases n,
{
    if n < 10 {
        digit_str(n).to_owned()
    } else {
        let mut s = u64_to_dec_str(n / 10);
        s.append(digit_str(n % 10));
        proof {
            assert(s@ =~= spec_dec_str(n));
        }
        s
    }
}

/// `100 * (a as int) / (b as int)` rounded down: a ratio in hundredths. Zero when the
/// denominator is zero; capped at the largest representable value.
pub open spec fn spec_ratio_centi(a: u64, b: u64) -> u64 {
    if b == 0 {
        0
    } else if 100 * (a as int) / (b as int) > u64::MAX {
        u64::MAX
    } else {
        (100 * (a as int) / (b as int)) as u64
    }
}

/// `10000 * (a as int) / (b as int)` rounded down: a percentage in hundredths. Zero when
/// the denominator is zero; capped at the largest representable value.
pub open spec fn spec_pct_centi(a: u64, b: u64) -> u64 {
    if b == 0 {
        0
    } else if 10000 * (a as int) / (b as int) > u64::MAX {
        u64::MAX
    } else {
        (10000 * (a as int) / (b as int)) as u64
    }
}

/// Compute a ratio in hundredths, guarding the zero denominator.
pub fn ratio_centi(a: u64, b: u64) -> (r: u64)
    ensures
        r == spec_ratio_centi(a, b),
{
    if b == 0 {
        0
    } else {
        let q = (a as u128) * 100 / (b as u128);
        if q > u64::MAX as u128 {
            u64::MAX
        } else {
            q as u64
        }
    }
}

/// Compute a percentage in hundredths, guarding the zero denominator.
pub fn pct_centi(a: u64, b: u64) -> (r: u64)
    ensures
        r == spec_pct_centi(a, b),
{
    if b == 0 {
        0
    } else {
        let q = (a as u128) * 10000 / (b as u128);
        if q > u64::MAX as u128 {
            u64::MAX
        } else {
            q as u64
        }
    }
}

/// A byte count rendered with a unit: whole bytes below one kibibyte,
/// otherwise the value in the largest fitting binary unit with one
/// decimal digit, rounded down.
pub open spec fn spec_format_file_size(bytes: u64) -> Seq<char> {
    if bytes < 1024 {
        spec_dec_str(bytes) + " B"@
    } else if bytes < 1048576 {
        spec_dec_str((bytes / 1024) as u64) + "."@ + spec_dec_str(((bytes % 1024) * 10 / 1024) as u64) + " KB"@
    } else if bytes < 1073741824 {
        spec_dec_str((bytes / 1048576) as u64) + "."@ + spec_dec_str(
            ((bytes % 1048576) * 10 / 1048576) as u64,
        ) + " MB"@
    } else {
        spec_dec_str((bytes / 1073741824) as u64) + "."@ + spec_dec_str(
            ((bytes % 1073741824) * 10 / 1073741824) as u64,
        ) + " GB"@
    }
}

/// Utility operations on demo files and their numbers.
pub struct DemoUtils;

impl DemoUtils {
    /// Format a byte count in a human-readable binary unit.
    pub fn format_file_size(bytes: u64) -> (r: String)
        ensures
            r@ == spec_format_file_size(bytes),
    {
        if bytes < 1024 {
            let mut s = u64_to_dec_str(bytes);
            s.append(" B");
            s
        } else if bytes < 1048576 {
            let mut s = u64_to_dec_str(bytes / 1024);
            s.append(".");
            let frac = u64_to_dec_str((bytes % 1024) * 10 / 1024);
            s.append(frac.as_str());
            s.append(" KB");
            s
        } else if bytes < 1073741824 {
            let mut s = u64_to_dec_str(bytes / 1048576);
            s.append(".");
            let frac = u64_to_dec_str((bytes % 1048576) * 10 / 1048576);
            s.append(frac.as_str());
            s.append(" MB");
            s
        } else {
            let mut s = u64_to_dec_str(bytes / 1073741824);
            s.append(".");
            let frac = u64_to_dec_str((bytes % 1073741824) * 10 / 1073741824);
            s.append(frac.as_str());
            s.append(" GB");
            s
        }
    }
}

} // verus!
