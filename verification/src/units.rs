//! Decimal and unit-scaled rendering of integer quantities.
//!
//! The human-readable report and the live progress line show byte sizes,
//! latencies and fractions.  Everything here is integer arithmetic: sizes are
//! scaled to one decimal place against binary units, durations against
//! microsecond-based units, and fractions are carried in thousandths.

use vstd::prelude::*;

verus! {

/// The decimal digit character for `d` (`d < 10`).
pub open spec fn digit_char(d: nat) -> char {
    if d == 0 {
        '0'
    } else if d == 1 {
        '1'
    } else if d == 2 {
        '2'
    } else if d == 3 {
        '3'
    } else if d == 4 {
        '4'
    } else if d == 5 {
        '5'
    } else if d == 6 {
        '6'
    } else if d == 7 {
        '7'
    } else if d == 8 {
        '8'
    } else {
        '9'
    }
}

/// Decimal rendering of `n`, most significant digit first, no sign and no
/// leading zeros (`0` renders as `"0"`).
pub open spec fn dec_str(n: nat) -> Seq<char>
    decreases n,
{
    if n < 10 {
        seq![digit_char(n)]
    } else {
        dec_str(n / 10) + seq![digit_char(n % 10)]
    }
}

fn digit_str(d: u64) -> (r: &'static str)
    requires
        d < 10,
    ensures
        r@ == seq![digit_char(d as nat)],
{
    let r: &'static str = if d == 0 {
        "0"
    } else if d == 1 {
        "1"
    } else if d == 2 {
        "2"
    } else if d == 3 {
        "3"
    } else if d == 4 {
        "4"
    } else if d == 5 {
        "5"
    } else if d == 6 {
        "6"
    } else if d == 7 {
        "7"
    } else if d == 8 {
        "8"
    } else {
        "9"
    };
    proof {
        reveal_strlit("0");
        reveal_strlit("1");
        reveal_strlit("2");
        reveal_strlit("3");
        reveal_strlit("4");
        reveal_strlit("5");
        reveal_strlit("6");
        reveal_strlit("7");
        reveal_strlit("8");
        reveal_strlit("9");
        assert(r@ =~= seq![digit_char(d as nat)]);
    }
    r
}

/// Renders `n` in decimal.
pub fn u64_to_dec(n: u64) -> (r: String)
    ensures
        r@ == dec_str(n as nat),
    decreases n,
{
    if n < 10 {
        String::from_str(digit_str(n))
    } else {
        let hi = u64_to_dec(n / 10);
        hi.concat(digit_str(n % 10))
    }
}

/// `k` copies of the character `c`.
pub open spec fn repeat_char(c: char, k: nat) -> Seq<char>
    decreases k,
{
    if k == 0 {
        Seq::empty()
    } else {
        repeat_char(c, (k - 1) as nat) + seq![c]
    }
}

/// `s` left-padded with `c` up to width `w` (unchanged if already that wide).
pub open spec fn pad_left(s: Seq<char>, w: nat, c: char) -> Seq<char> {
    if s.len() >= w {
        s
    } else {
        repeat_char(c, (w - s.len()) as nat) + s
    }
}

fn spaces(k: usize) -> (r: String)
    ensures
        r@ == repeat_char(' ', k as nat),
{
    let mut r = String::new();
    let mut i: usize = 0;
    while i < k
        invariant
            i <= k,
            r@ == repeat_char(' ', i as nat),
        decreases k - i,
    {
        proof {
            reveal_strlit(" ");
            assert(" "@ =~= seq![' ']);
        }
        r.append(" ");
        i = i + 1;
    }
    r
}

fn zeros(k: usize) -> (r: String)
    ensures
        r@ == repeat_char('0', k as nat),
{
    let mut r = String::new();
    let mut i: usize = 0;
    while i < k
        invariant
            i <= k,
            r@ == repeat_char('0', i as nat),
        decreases k - i,
    {
        proof {
            reveal_strlit("0");
            assert("0"@ =~= seq!['0']);
        }
        r.append("0");
        i = i + 1;
    }
    r
}

/// Left-pads `s` with spaces to width `w`.
pub fn pad_left_spaces(s: String, w: usize) -> (r: String)
    ensures
        r@ == pad_left(s@, w as nat, ' '),
{
    let n = s.as_str().unicode_len();
    if n >= w {
        s
    } else {
        spaces(w - n).concat(s.as_str())
    }
}

/// Left-pads `s` with zeros to width `w`.
pub fn pad_left_zeros(s: String, w: usize) -> (r: String)
    ensures
        r@ == pad_left(s@, w as nat, '0'),
{
    let n = s.as_str().unicode_len();
    if n >= w {
        s
    } else {
        zeros(w - n).concat(s.as_str())
    }
}

/// `v / unit` to one decimal place, truncated: `"<int>.<tenths>"`.
pub open spec fn scaled1_str(v: nat, unit: nat) -> Seq<char>
    recommends
        unit > 0,
{
    dec_str(v / unit) + seq!['.'] + dec_str(((v % unit) * 10) / unit)
}

/// Byte sizes in human-readable form: plain decimal below 1024, otherwise one
/// decimal place against the largest binary unit not exceeding the value,
/// suffixed `K`/`M`/`G`/`T`/`P`/`E`.
pub open spec fn size_str(v: nat) -> Seq<char> {
    if v < 1024 {
        dec_str(v)
    } else if v < 1048576 {
        scaled1_str(v, 1024) + seq!['K']
    } else if v < 1073741824 {
        scaled1_str(v, 1048576) + seq!['M']
    } else if v < 1099511627776 {
        scaled1_str(v, 1073741824) + seq!['G']
    } else if v < 1125899906842624 {
        scaled1_str(v, 1099511627776) + seq!['T']
    } else if v < 1152921504606846976 {
        scaled1_str(v, 1125899906842624) + seq!['P']
    } else {
        scaled1_str(v, 1152921504606846976) + seq!['E']
    }
}

fn scaled1(v: u64, unit: u64, suffix: &str) -> (r: String)
    requires
        unit > 0,
        unit <= 1152921504606846976,
    ensures
        r@ == scaled1_str(v as nat, unit as nat) + suffix@,
{
    let whole = u64_to_dec(v / unit);
    let tenths = u64_to_dec((v % unit) * 10 / unit);
    proof {
        reveal_strlit(".");
        assert("."@ =~= seq!['.']);
    }
    whole.concat(".").concat(tenths.as_str()).concat(suffix)
}

/// Renders a byte size as [`size_str`] does.
pub fn format_size(v: u64) -> (r: String)
    ensures
        r@ == size_str(v as nat),
{
    let r = if v < 1024 {
        u64_to_dec(v)
    } else if v < 1048576 {
        scaled1(v, 1024, "K")
    } else if v < 1073741824 {
        scaled1(v, 1048576, "M")
    } else if v < 1099511627776 {
        scaled1(v, 1073741824, "G")
    } else if v < 1125899906842624 {
        scaled1(v, 1099511627776, "T")
    } else if v < 1152921504606846976 {
        scaled1(v, 1125899906842624, "P")
    } else {
        scaled1(v, 1152921504606846976, "E")
    };
    proof {
        reveal_strlit("K");
        reveal_strlit("M");
        reveal_strlit("G");
        reveal_strlit("T");
        reveal_strlit("P");
        reveal_strlit("E");
        assert(r@ =~= size_str(v as nat));
    }
    r
}

/// A byte size, or a dash where the reading is unavailable.
pub open spec fn size_str_dashed(v: Option<u64>) -> Seq<char> {
    match v {
        Some(x) => size_str(x as nat),
        None => seq!['-'],
    }
}

/// Renders an optional byte size as [`size_str_dashed`] does.
pub fn format_size_dashed(v: Option<u64>) -> (r: String)
    ensures
        r@ == size_str_dashed(v),
{
    match v {
        Some(x) => format_size(x),
        None => {
            proof {
                reveal_strlit("-");
                assert("-"@ =~= seq!['-']);
            }
            String::from_str("-")
        },
    }
}

/// Durations from microseconds: `u` below one millisecond, `m` below one
/// second, else `s`, scaled to one decimal place where a unit divides.
pub open spec fn dur_str(us: nat) -> Seq<char> {
    if us < 1000 {
        dec_str(us) + seq!['u']
    } else if us < 1000000 {
        scaled1_str(us, 1000) + seq!['m']
    } else {
        scaled1_str(us, 1000000) + seq!['s']
    }
}

/// Renders a duration as [`dur_str`] does.
pub fn format_duration(us: u64) -> (r: String)
    ensures
        r@ == dur_str(us as nat),
{
    let r = if us < 1000 {
        u64_to_dec(us).concat("u")
    } else if us < 1000000 {
        scaled1(us, 1000, "m")
    } else {
        scaled1(us, 1000000, "s")
    };
    proof {
        reveal_strlit("u");
        reveal_strlit("m");
        reveal_strlit("s");
        assert(r@ =~= dur_str(us as nat));
    }
    r
}

/// A duration, or a dash where the reading is unavailable.
pub open spec fn dur_str_dashed(v: Option<u64>) -> Seq<char> {
    match v {
        Some(x) => dur_str(x as nat),
        None => seq!['-'],
    }
}

/// Renders an optional duration as [`dur_str_dashed`] does.
pub fn format_duration_dashed(v: Option<u64>) -> (r: String)
    ensures
        r@ == dur_str_dashed(v),
{
    match v {
        Some(x) => format_duration(x),
        None => {
            proof {
                reveal_strlit("-");
                assert("-"@ =~= seq!['-']);
            }
            String::from_str("-")
        },
    }
}

/// A fraction held in thousandths, rendered to three decimal places.
pub open spec fn frac3_str(milli: nat) -> Seq<char> {
    dec_str(milli / 1000) + seq!['.'] + pad_left(dec_str(milli % 1000), 3, '0')
}

/// Renders a fraction in thousandths as [`frac3_str`] does.
pub fn format_frac3(milli: u64) -> (r: String)
    ensures
        r@ == frac3_str(milli as nat),
{
    let whole = u64_to_dec(milli / 1000);
    let part = pad_left_zeros(u64_to_dec(milli % 1000), 3);
    proof {
        reveal_strlit(".");
        assert("."@ =~= seq!['.']);
    }
    whole.concat(".").concat(part.as_str())
}

} // verus!
