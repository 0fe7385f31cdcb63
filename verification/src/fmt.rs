//! Rendering byte counts as text: decimal numbers and coarse size labels
//! with one decimal digit, all specified over `Seq<char>`.

use vstd::prelude::*;
use vstd::string::StringExecFns;

verus! {

/// Bytes per kilobyte.
pub const KB: u64 = 1024;

/// Bytes per megabyte.
pub const MB: u64 = 1048576;

/// Bytes per gigabyte.
pub const GB: u64 = 1073741824;

/// The decimal digit character for `d`, which must be below ten.
pub open spec fn digit_char(d: int) -> char {
    if d == 0 {
        '0'
    } else if d == 1 {
        '1'
    } else if d == 2 {
        '2'
    } else if d == 3 {
        '3'
    } else if d == 4 {
        '4'
    } else if d == 5 {
        '5'
    } else if d == 6 {
        '6'
    } else if d == 7 {
        '7'
    } else if d == 8 {
        '8'
    } else {
        '9'
    }
}

/// The decimal rendering of `n`, most significant digit first, no leading
/// zeros (a lone zero for `n == 0`).
pub open spec fn dec_seq(n: nat) -> Seq<char>
    decreases n,
{
    if n < 10 {
        seq![digit_char(n as int)]
    } else {
        dec_seq(n / 10).push(digit_char((n % 10) as int))
    }
}

/// The label for `b` bytes scaled by `unit` with one decimal digit, e.g.
/// a whole part, a dot, and a tenths digit.
pub open spec fn one_decimal_seq(b: nat, unit: nat) -> Seq<char>
    recommends
        unit > 0,
{
    let tenths = b * 10 / unit;
    dec_seq(tenths / 10) + seq!['.', digit_char((tenths % 10) as int)]
}

/// The coarse size label for `b` bytes: scaled to GB, MB or KB with one
/// decimal digit, or a plain byte count below one KB.
pub open spec fn bytes_label(b: u64) -> Seq<char> {
    if b >= GB {
        one_decimal_seq(b as nat, GB as nat) + seq![' ', 'G', 'B']
    } else if b >= MB {
        one_decimal_seq(b as nat, MB as nat) + seq![' ', 'M', 'B']
    } else if b >= KB {
        one_decimal_seq(b as nat, KB as nat) + seq![' ', 'K', 'B']
    } else {
        dec_seq(b as nat) + seq![' ', 'B']
    }
}

/// The coarse progress label shown while a download is under way: both byte
/// counts rendered, or nothing outside mid-download conditions.
pub open spec fn speed_label_view(completed: u64, total: u64) -> Seq<char> {
    if total > 0 && completed > 0 && completed < total {
        bytes_label(completed) + seq![' ', '/', ' '] + bytes_label(total)
    } else {
        Seq::empty()
    }
}

fn digit_str(d: u64) -> (r: &'static str)
    requires
        d < 10,
    ensures
        r@ == seq![digit_char(d as int)],
{
    if d == 0 {
        proof {
            reveal_strlit("0");
            assert("0"@ =~= seq![digit_char(0)]);
        }
        "0"
    } else if d == 1 {
        proof {
            reveal_strlit("1");
            assert("1"@ =~= seq![digit_char(1)]);
        }
        "1"
    } else if d == 2 {
        proof {
            reveal_strlit("2");
            assert("2"@ =~= seq![digit_char(2)]);
        }
        "2"
    } else if d == 3 {
        proof {
            reveal_strlit("3");
            assert("3"@ =~= seq![digit_char(3)]);
        }
        "3"
    } else if d == 4 {
        proof {
            reveal_strlit("4");
            assert("4"@ =~= seq![digit_char(4)]);
        }
        "4"
    } else if d == 5 {
        proof {
            reveal_strlit("5");
            assert("5"@ =~= seq![digit_char(5)]);
        }
        "5"
    } else if d == 6 {
        proof {
            reveal_strlit("6");
            assert("6"@ =~= seq![digit_char(6)]);
        }
        "6"
    } else if d == 7 {
        proof {
            reveal_strlit("7");
            assert("7"@ =~= seq![digit_char(7)]);
        }
        "7"
    } else if d == 8 {
        proof {
            reveal_strlit("8");
            assert("8"@ =~= seq![digit_char(8)]);
        }
        "8"
    } else {
        proof {
            reveal_strlit("9");
            assert("9"@ =~= seq![digit_char(9)]);
        }
        "9"
    }
}

/// Render `n` in decimal.
pub fn u64_to_dec(n: u64) -> (r: String)
    ensures
        r@ == dec_seq(n as nat),
    decreases n,
{
    if n < 10 {
        String::from_str(digit_str(n))
    } else {
        let mut s = u64_to_dec(n / 10);
        s.append(digit_str(n % 10));
        proof {
            assert(dec_seq((n / 10) as nat).push(digit_char((n % 10) as int)) =~= dec_seq(
                (n / 10) as nat,
            ) + seq![digit_char((n % 10) as int)]);
        }
        s
    }
}

fn one_decimal(b: u64, unit: u64) -> (r: String)
    requires
        unit >= 1024,
    ensures
        r@ == one_decimal_seq(b as nat, unit as nat),
{
    let tenths_wide: u128 = (b as u128) * 10 / (unit as u128);
    proof {
        let x = (b as int) * 10;
        vstd::arithmetic::div_mod::lemma_div_is_ordered_by_denominator(x, 1024, unit as int);
        vstd::arithmetic::div_mod::lemma_div_is_ordered(x, 184467440737095516150, 1024);
        assert(tenths_wide <= u64::MAX);
    }
    let tenths: u64 = tenths_wide as u64;
    let mut s = u64_to_dec(tenths / 10);
    s.append(".");
    s.append(digit_str(tenths % 10));
    proof {
        reveal_strlit(".");
        let t = (b as nat) * 10 / (unit as nat);
        assert(tenths == t);
        assert(s@ =~= dec_seq(t / 10) + seq!['.', digit_char((t % 10) as int)]);
    }
    s
}

/// Render the coarse size label for `b` bytes, as [`bytes_label`] states it.
pub fn format_bytes(b: u64) -> (r: String)
    ensures
        r@ == bytes_label(b),
{
    if b >= GB {
        let mut s = one_decimal(b, GB);
        s.append(" GB");
        proof {
            reveal_strlit(" GB");
            assert(s@ =~= one_decimal_seq(b as nat, GB as nat) + seq![' ', 'G', 'B']);
        }
        s
    } else if b >= MB {
        let mut s = one_decimal(b, MB);
        s.append(" MB");
        proof {
            reveal_strlit(" MB");
            assert(s@ =~= one_decimal_seq(b as nat, MB as nat) + seq![' ', 'M', 'B']);
        }
        s
    } else if b >= KB {
        let mut s = one_decimal(b, KB);
        s.append(" KB");
        proof {
            reveal_strlit(" KB");
            assert(s@ =~= one_decimal_seq(b as nat, KB as nat) + seq![' ', 'K', 'B']);
        }
        s
    } else {
        let mut s = u64_to_dec(b);
        s.append(" B");
        proof {
            reveal_strlit(" B");
            assert(s@ =~= dec_seq(b as nat) + seq![' ', 'B']);
        }
        s
    }
}

/// Render the mid-download progress label, as [`speed_label_view`] states it.
pub fn speed_label(completed: u64, total: u64) -> (r: String)
    ensures
        r@ == speed_label_view(completed, total),
{
    if total > 0 && completed > 0 && completed < total {
        let mut s = format_bytes(completed);
        s.append(" / ");
        let t = format_bytes(total);
        s.append(t.as_str());
        proof {
            reveal_strlit(" / ");
            assert(s@ =~= bytes_label(completed) + seq![' ', '/', ' '] + bytes_label(total));
        }
        s
    } else {
        String::new()
    }
}

} // verus!
