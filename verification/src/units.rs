//! Capacity and memory quantities: parsing unit-suffixed values and
//! rendering byte counts, in exact integer arithmetic.
//!
//! A numeric part is a run of decimal digits; anything else (including a
//! fractional or signed value) reads as zero, and products saturate at the
//! machine bounds.

use vstd::prelude::*;
use crate::strfmt::{dec_str, ends_with, spec_find_char, str_ends_with, str_find_char, u128_to_string, u64_to_string};

verus! {

pub open spec fn is_digit(c: char) -> bool {
    48 <= c as int && c as int <= 57
}

pub open spec fn digit_val(c: char) -> int {
    c as int - 48
}

/// A non-empty, all-digit sequence.
pub open spec fn all_digits(s: Seq<char>) -> bool {
    s.len() > 0 && (forall|i: int| 0 <= i < s.len() ==> is_digit(s[i]))
}

/// The number an all-digit sequence denotes.
pub open spec fn digits_val(s: Seq<char>) -> int
    decreases s.len(),
{
    if s.len() == 0 {
        0
    } else {
        digits_val(s.drop_last()) * 10 + digit_val(s.last())
    }
}

/// The value a decimal string denotes, when it is all digits and fits.
pub open spec fn spec_parse_u64(s: Seq<char>) -> Option<int> {
    if all_digits(s) && digits_val(s) <= u64::MAX as int {
        Some(digits_val(s))
    } else {
        None
    }
}

proof fn lemma_digits_val_nonneg(s: Seq<char>)
    requires
        forall|i: int| 0 <= i < s.len() ==> is_digit(s[i]),
    ensures
        digits_val(s) >= 0,
    decreases s.len(),
{
    if s.len() > 0 {
        lemma_digits_val_nonneg(s.drop_last());
    }
}

proof fn lemma_digits_val_prefix_le(s: Seq<char>, i: int)
    requires
        forall|t: int| 0 <= t < s.len() ==> is_digit(s[t]),
        0 <= i <= s.len(),
    ensures
        digits_val(s.take(i)) <= digits_val(s),
    decreases s.len() - i,
{
    if i < s.len() {
        lemma_digits_val_prefix_le(s, i + 1);
        assert(s.take(i + 1).drop_last() =~= s.take(i));
        assert(s.take(i + 1).last() == s[i]);
        lemma_digits_val_nonneg(s.take(i));
    } else {
        assert(s.take(i) =~= s);
    }
}

/// Parses a decimal string: `Some` exactly when it is non-empty, all
/// digits, and fits a `u64`.
pub fn parse_u64_str(s: &str) -> (r: Option<u64>)
    ensures
        r is Some <==> spec_parse_u64(s@) is Some,
        r is Some ==> r->0 == spec_parse_u64(s@)->0,
{
    let n = s.unicode_len();
    if n == 0 {
        return None;
    }
    let mut acc: u64 = 0;
    let mut i: usize = 0;
    proof {
        assert(s@.take(0) =~= Seq::<char>::empty());
    }
    while i < n
        invariant
            i <= n,
            n == s@.len(),
            n > 0,
            forall|t: int| 0 <= t < i ==> is_digit(s@[t]),
            acc as int == digits_val(s@.take(i as int)),
        decreases n - i,
    {
        let c = s.get_char(i) as u32;
        if c < 48 || c > 57 {
            return None;
        }
        let d = (c - 48) as u64;
        proof {
            assert(s@.take(i + 1).drop_last() =~= s@.take(i as int));
            assert(s@.take(i + 1).last() == s@[i as int]);
        }
        let step = match acc.checked_mul(10) {
            Some(m) => m.checked_add(d),
            None => None,
        };
        match step {
            Some(v) => {
                acc = v;
            },
            None => {
                proof {
                    assert(digits_val(s@.take(i + 1)) > u64::MAX as int);
                    if all_digits(s@) {
                        lemma_digits_val_prefix_le(s@, i + 1);
                    }
                }
                return None;
            },
        }
        i += 1;
    }
    proof {
        assert(s@.take(n as int) =~= s@);
    }
    Some(acc)
}

/// Ten to the `k`.
pub open spec fn pow10(k: nat) -> int
    decreases k,
{
    if k == 0 {
        1int
    } else {
        10 * pow10((k - 1) as nat)
    }
}

proof fn lemma_pow10_pos(k: nat)
    ensures
        pow10(k) >= 1,
    decreases k,
{
    if k > 0 {
        lemma_pow10_pos((k - 1) as nat);
    }
}

proof fn lemma_pow10_17()
    ensures
        pow10(17) == 100_000_000_000_000_000,
{
    assert(pow10(0) == 1);
    assert(pow10(1) == 10);
    assert(pow10(2) == 100);
    assert(pow10(3) == 1000);
    assert(pow10(4) == 10_000);
    assert(pow10(5) == 100_000);
    assert(pow10(6) == 1_000_000);
    assert(pow10(7) == 10_000_000);
    assert(pow10(8) == 100_000_000);
    assert(pow10(9) == 1_000_000_000);
    assert(pow10(10) == 10_000_000_000);
    assert(pow10(11) == 100_000_000_000);
    assert(pow10(12) == 1_000_000_000_000);
    assert(pow10(13) == 10_000_000_000_000);
    assert(pow10(14) == 100_000_000_000_000);
    assert(pow10(15) == 1_000_000_000_000_000);
    assert(pow10(16) == 10_000_000_000_000_000);
    assert(pow10(17) == 100_000_000_000_000_000);
}

proof fn lemma_pow10_mono(a: nat, b: nat)
    requires
        a <= b,
    ensures
        pow10(a) <= pow10(b),
    decreases b,
{
    if a < b {
        lemma_pow10_mono(a, (b - 1) as nat);
        lemma_pow10_pos((b - 1) as nat);
    }
}

/// A `u64` clamped into `i64` range.
pub open spec fn clamp_i64(v: int) -> int {
    if v > i64::MAX as int {
        i64::MAX as int
    } else {
        v
    }
}

/// The bytes a numeric part denotes at a unit. A decimal fraction of up
/// to eighteen digits is honoured exactly, rounding down; anything else
/// that is not a plain `u64` number reads as nothing.
pub open spec fn spec_quantity_bytes(num: Seq<char>, unit: int) -> Option<int> {
    match spec_find_char(num, '.') {
        Some(i) => {
            let whole = num.take(i);
            let frac = num.skip(i + 1);
            if whole.len() == 0 && frac.len() == 0 {
                None
            } else if whole.len() > 0 && spec_parse_u64(whole) is None {
                None
            } else if frac.len() > 0 && spec_parse_u64(frac) is None {
                None
            } else if frac.len() > 18 {
                None
            } else {
                let w = if whole.len() == 0 {
                    0int
                } else {
                    spec_parse_u64(whole)->0
                };
                let f = if frac.len() == 0 {
                    0int
                } else {
                    spec_parse_u64(frac)->0
                };
                Some(w * unit + (f * unit) / pow10(frac.len()))
            }
        },
        None => match spec_parse_u64(num) {
            Some(v) => Some(v * unit),
            None => None,
        },
    }
}

/// Computes the bytes a numeric part denotes at a unit.
fn quantity_bytes(num: &str, unit: u64) -> (r: Option<u128>)
    requires
        0 < unit <= 0x4_0000_0000_0000,
    ensures
        r is Some <==> spec_quantity_bytes(num@, unit as int) is Some,
        r is Some ==> r->0 as int == spec_quantity_bytes(num@, unit as int)->0,
        r is Some ==> r->0 as int >= 0,
{
    let n = num.unicode_len();
    match str_find_char(num, '.') {
        Some(i) => {
            let whole_s = num.substring_char(0, i);
            let frac_s = num.substring_char(i + 1, n);
            proof {
                assert(whole_s@ =~= num@.take(i as int));
                assert(frac_s@ =~= num@.skip(i + 1));
            }
            let frac_len = n - (i + 1);
            if i == 0 && frac_len == 0 {
                return None;
            }
            let w: u64 = if i == 0 {
                0
            } else {
                match parse_u64_str(whole_s) {
                    Some(v) => v,
                    None => {
                        return None;
                    },
                }
            };
            if frac_len > 18 {
                return None;
            }
            let f: u64 = if frac_len == 0 {
                0
            } else {
                match parse_u64_str(frac_s) {
                    Some(v) => v,
                    None => {
                        return None;
                    },
                }
            };
            let mut den: u128 = 1;
            let mut j: usize = 0;
            while j < frac_len
                invariant
                    j <= frac_len <= 18,
                    den == pow10(j as nat),
                decreases frac_len - j,
            {
                proof {
                    lemma_pow10_mono(j as nat, 17);
                    lemma_pow10_17();
                }
                den = den * 10;
                j += 1;
            }
            proof {
                lemma_pow10_pos(frac_len as nat);
                assert((w as int) * (unit as int) <= 0xffff_ffff_ffff_ffff * 0x4_0000_0000_0000)
                    by (nonlinear_arith)
                    requires
                        0 <= w as int <= 0xffff_ffff_ffff_ffff,
                        0 <= unit as int <= 0x4_0000_0000_0000,
                ;
                assert((f as int) * (unit as int) <= 0xffff_ffff_ffff_ffff * 0x4_0000_0000_0000)
                    by (nonlinear_arith)
                    requires
                        0 <= f as int <= 0xffff_ffff_ffff_ffff,
                        0 <= unit as int <= 0x4_0000_0000_0000,
                ;
                assert((w as int) * (unit as int) >= 0) by (nonlinear_arith)
                    requires
                        w as int >= 0,
                        unit as int >= 0,
                ;
                assert((f as int) * (unit as int) >= 0) by (nonlinear_arith)
                    requires
                        f as int >= 0,
                        unit as int >= 0,
                ;
            }
            let scaled: u128 = ((f as u128) * (unit as u128)) / den;
            let total: u128 = (w as u128) * (unit as u128) + scaled;
            proof {
                vstd::arithmetic::div_mod::lemma_div_is_ordered_by_denominator(
                    (f as int) * (unit as int),
                    1,
                    pow10(frac_len as nat),
                );
            }
            Some(total)
        },
        None => match parse_u64_str(num) {
            Some(v) => {
                proof {
                    assert((v as int) * (unit as int)
                        <= 0xffff_ffff_ffff_ffff * 0x4_0000_0000_0000) by (nonlinear_arith)
                        requires
                            0 <= v as int <= 0xffff_ffff_ffff_ffff,
                            0 <= unit as int <= 0x4_0000_0000_0000,
                    ;
                    assert((v as int) * (unit as int) >= 0) by (nonlinear_arith)
                        requires
                            v as int >= 0,
                            unit as int >= 0,
                    ;
                }
                Some((v as u128) * (unit as u128))
            },
            None => None,
        },
    }
}

// ---------------------------------------------------------------------------
// Splitting a unit suffix
// ---------------------------------------------------------------------------

/// The numeric part and multiplier of a memory quantity: binary suffixes
/// `Ki`/`Mi`/`Gi`/`Ti`, decimal suffixes `K`/`k`/`M`/`m`/`G`/`g`, else one.
pub open spec fn spec_memory_unit(s: Seq<char>) -> (Seq<char>, int) {
    if ends_with(s, "Ki"@) {
        (s.take(s.len() - 2), 1024int)
    } else if ends_with(s, "Mi"@) {
        (s.take(s.len() - 2), 1024int * 1024)
    } else if ends_with(s, "Gi"@) {
        (s.take(s.len() - 2), 1024int * 1024 * 1024)
    } else if ends_with(s, "Ti"@) {
        (s.take(s.len() - 2), 1024int * 1024 * 1024 * 1024)
    } else if ends_with(s, "K"@) || ends_with(s, "k"@) {
        (s.take(s.len() - 1), 1000int)
    } else if ends_with(s, "M"@) || ends_with(s, "m"@) {
        (s.take(s.len() - 1), 1000int * 1000)
    } else if ends_with(s, "G"@) || ends_with(s, "g"@) {
        (s.take(s.len() - 1), 1000int * 1000 * 1000)
    } else {
        (s, 1int)
    }
}

/// The bytes a memory quantity denotes, clamped into `i64` range; zero
/// when the numeric part does not parse.
pub open spec fn spec_parse_memory(s: Seq<char>) -> int {
    let (num, unit) = spec_memory_unit(s);
    match spec_quantity_bytes(num, unit) {
        Some(b) => clamp_i64(b),
        None => 0,
    }
}

fn split_unit(mem: &str) -> (r: (String, i64))
    ensures
        r.0@ == spec_memory_unit(mem@).0,
        r.1 as int == spec_memory_unit(mem@).1,
        r.1 > 0,
{
    proof {
        reveal_strlit("Ki");
        reveal_strlit("Mi");
        reveal_strlit("Gi");
        reveal_strlit("Ti");
        reveal_strlit("K");
        reveal_strlit("k");
        reveal_strlit("M");
        reveal_strlit("m");
        reveal_strlit("G");
        reveal_strlit("g");
    }
    let n = mem.unicode_len();
    if str_ends_with(mem, "Ki") {
        (String::from_str(mem.substring_char(0, n - 2)), 1024)
    } else if str_ends_with(mem, "Mi") {
        (String::from_str(mem.substring_char(0, n - 2)), 1024 * 1024)
    } else if str_ends_with(mem, "Gi") {
        (String::from_str(mem.substring_char(0, n - 2)), 1024 * 1024 * 1024)
    } else if str_ends_with(mem, "Ti") {
        (String::from_str(mem.substring_char(0, n - 2)), 1024 * 1024 * 1024 * 1024)
    } else if str_ends_with(mem, "K") || str_ends_with(mem, "k") {
        (String::from_str(mem.substring_char(0, n - 1)), 1000)
    } else if str_ends_with(mem, "M") || str_ends_with(mem, "m") {
        (String::from_str(mem.substring_char(0, n - 1)), 1000 * 1000)
    } else if str_ends_with(mem, "G") || str_ends_with(mem, "g") {
        (String::from_str(mem.substring_char(0, n - 1)), 1000 * 1000 * 1000)
    } else {
        (String::from_str(mem), 1)
    }
}

/// Parses a memory quantity (`"512Mi"`, `"2Gi"`, `"1000k"`) to bytes.
pub fn parse_memory(mem: &str) -> (r: i64)
    ensures
        r as int == spec_parse_memory(mem@),
{
    let (num, unit) = split_unit(mem);
    match quantity_bytes(num.as_str(), unit as u64) {
        Some(t) => if t > 0x7fff_ffff_ffff_ffff {
            i64::MAX
        } else {
            t as i64
        },
        None => 0,
    }
}

/// Parses a storage capacity; same reading as `parse_memory`.
pub fn parse_capacity(cap: &str) -> (r: i64)
    ensures
        r as int == spec_parse_memory(cap@),
{
    parse_memory(cap)
}

/// The numeric part and multiplier with binary suffixes only
/// (`Ki`/`Mi`/`Gi`/`Ti`), else one.
pub open spec fn spec_binary_unit(s: Seq<char>) -> (Seq<char>, int) {
    if ends_with(s, "Ti"@) {
        (s.take(s.len() - 2), 1024int * 1024 * 1024 * 1024)
    } else if ends_with(s, "Gi"@) {
        (s.take(s.len() - 2), 1024int * 1024 * 1024)
    } else if ends_with(s, "Mi"@) {
        (s.take(s.len() - 2), 1024int * 1024)
    } else if ends_with(s, "Ki"@) {
        (s.take(s.len() - 2), 1024int)
    } else {
        (s, 1int)
    }
}

/// The bytes a binary-suffixed capacity denotes, clamped into `i64` range.
pub open spec fn spec_parse_capacity_to_bytes(s: Seq<char>) -> int {
    let (num, unit) = spec_binary_unit(s);
    match spec_quantity_bytes(num, unit) {
        Some(b) => clamp_i64(b),
        None => 0,
    }
}

/// Parses a binary-suffixed capacity (`"10Gi"`, `"500Mi"`) to bytes.
pub fn parse_capacity_to_bytes(capacity: &str) -> (r: i64)
    ensures
        r as int == spec_parse_capacity_to_bytes(capacity@),
{
    proof {
        reveal_strlit("Ki");
        reveal_strlit("Mi");
        reveal_strlit("Gi");
        reveal_strlit("Ti");
    }
    let n = capacity.unicode_len();
    let (num, unit): (String, i64) = if str_ends_with(capacity, "Ti") {
        (String::from_str(capacity.substring_char(0, n - 2)), 1024 * 1024 * 1024 * 1024)
    } else if str_ends_with(capacity, "Gi") {
        (String::from_str(capacity.substring_char(0, n - 2)), 1024 * 1024 * 1024)
    } else if str_ends_with(capacity, "Mi") {
        (String::from_str(capacity.substring_char(0, n - 2)), 1024 * 1024)
    } else if str_ends_with(capacity, "Ki") {
        (String::from_str(capacity.substring_char(0, n - 2)), 1024)
    } else {
        (String::from_str(capacity), 1)
    };
    match quantity_bytes(num.as_str(), unit as u64) {
        Some(t) => if t > 0x7fff_ffff_ffff_ffff {
            i64::MAX
        } else {
            t as i64
        },
        None => 0,
    }
}

/// The bytes a binary-suffixed capacity denotes, clamped into `u64` range.
pub open spec fn spec_parse_capacity_u64(s: Seq<char>) -> int {
    let (num, unit) = spec_binary_unit(s);
    match spec_quantity_bytes(num, unit) {
        Some(b) => if b > u64::MAX as int {
            u64::MAX as int
        } else {
            b
        },
        None => 0,
    }
}

/// Parses a binary-suffixed capacity to bytes, unsigned.
pub fn parse_capacity_u64(cap: &str) -> (r: u64)
    ensures
        r as int == spec_parse_capacity_u64(cap@),
{
    proof {
        reveal_strlit("Ki");
        reveal_strlit("Mi");
        reveal_strlit("Gi");
        reveal_strlit("Ti");
    }
    let n = cap.unicode_len();
    let (num, unit): (String, u64) = if str_ends_with(cap, "Ti") {
        (String::from_str(cap.substring_char(0, n - 2)), 1024 * 1024 * 1024 * 1024)
    } else if str_ends_with(cap, "Gi") {
        (String::from_str(cap.substring_char(0, n - 2)), 1024 * 1024 * 1024)
    } else if str_ends_with(cap, "Mi") {
        (String::from_str(cap.substring_char(0, n - 2)), 1024 * 1024)
    } else if str_ends_with(cap, "Ki") {
        (String::from_str(cap.substring_char(0, n - 2)), 1024)
    } else {
        (String::from_str(cap), 1)
    };
    proof {
        assert(spec_binary_unit(cap@) == (num@, unit as int));
    }
    match quantity_bytes(num.as_str(), unit) {
        Some(t) => if t > 0xffff_ffff_ffff_ffff {
            u64::MAX
        } else {
            t as u64
        },
        None => 0,
    }
}

// ---------------------------------------------------------------------------
// Fixed-point rendering
// ---------------------------------------------------------------------------

/// `v / unit` rounded half-up to one decimal place, rendered with one
/// digit after the point.
pub open spec fn spec_fmt_tenths(v: int, unit: int) -> Seq<char>
    recommends
        v >= 0,
        unit > 0,
{
    let t = (v * 20 + unit) / (2 * unit);
    dec_str((t / 10) as nat) + "."@ + dec_str((t % 10) as nat)
}

/// `v / unit` rounded half-up to a whole number, rendered in decimal.
pub open spec fn spec_fmt_whole(v: int, unit: int) -> Seq<char>
    recommends
        v >= 0,
        unit > 0,
{
    dec_str(((v * 2 + unit) / (2 * unit)) as nat)
}

/// Renders `v / unit` with one decimal place, rounding half-up.
pub fn fmt_tenths(v: i64, unit: i64) -> (s: String)
    requires
        0 <= v,
        0 < unit <= 0x4_0000_0000_0000,
    ensures
        s@ == spec_fmt_tenths(v as int, unit as int),
{
    let wide: u128 = (v as u128) * 20 + (unit as u128);
    let div: u128 = 2 * (unit as u128);
    let t: u128 = wide / div;
    let whole: u128 = t / 10;
    let frac: u64 = (t % 10) as u64;
    let mut s = u128_to_string(whole);
    s.append(".");
    let f = u64_to_string(frac);
    s.append(f.as_str());
    proof {
        reveal_strlit(".");
        assert(s@ =~= spec_fmt_tenths(v as int, unit as int));
    }
    s
}

/// Renders `v / unit` as a whole number, rounding half-up.
pub fn fmt_whole(v: i64, unit: i64) -> (s: String)
    requires
        0 <= v,
        0 < unit <= 0x4_0000_0000_0000,
    ensures
        s@ == spec_fmt_whole(v as int, unit as int),
{
    let wide: u128 = (v as u128) * 2 + (unit as u128);
    let div: u128 = 2 * (unit as u128);
    let t: u128 = wide / div;
    u128_to_string(t)
}

/// Byte-count rendering: `"{:.1}Ti"`, `"{:.1}Gi"`, `"{:.0}Mi"`, `"{:.0}Ki"`
/// by magnitude, else `"{}B"`; rounding is half-up.
pub open spec fn spec_format_bytes(b: int) -> Seq<char> {
    if b >= 0x100_0000_0000 {
        spec_fmt_tenths(b, 0x100_0000_0000) + "Ti"@
    } else if b >= 0x4000_0000 {
        spec_fmt_tenths(b, 0x4000_0000) + "Gi"@
    } else if b >= 0x10_0000 {
        spec_fmt_whole(b, 0x10_0000) + "Mi"@
    } else if b >= 0x400 {
        spec_fmt_whole(b, 0x400) + "Ki"@
    } else {
        crate::strfmt::dec_str_i(b) + "B"@
    }
}

/// Renders a byte count for display.
pub fn format_bytes(bytes: i64) -> (s: String)
    ensures
        s@ == spec_format_bytes(bytes as int),
{
    if bytes >= 0x100_0000_0000 {
        let mut s = fmt_tenths(bytes, 0x100_0000_0000);
        s.append("Ti");
        s
    } else if bytes >= 0x4000_0000 {
        let mut s = fmt_tenths(bytes, 0x4000_0000);
        s.append("Gi");
        s
    } else if bytes >= 0x10_0000 {
        let mut s = fmt_whole(bytes, 0x10_0000);
        s.append("Mi");
        s
    } else if bytes >= 0x400 {
        let mut s = fmt_whole(bytes, 0x400);
        s.append("Ki");
        s
    } else {
        let mut s = crate::strfmt::i64_to_string(bytes);
        s.append("B");
        s
    }
}

/// Node memory rendering: a `Gi` quantity is reprinted with one decimal,
/// an `Mi` quantity as a whole number, a `Ki` quantity is scaled up to
/// `Gi` (one decimal) or `Mi` (whole); anything else passes through.
pub open spec fn spec_format_memory(s: Seq<char>) -> Seq<char> {
    if ends_with(s, "Gi"@) {
        spec_fmt_tenths(parsed_scaled_or_zero(s.take(s.len() - 2), 10), 10) + "Gi"@
    } else if ends_with(s, "Mi"@) {
        spec_fmt_whole(parsed_scaled_or_zero(s.take(s.len() - 2), 10), 10) + "Mi"@
    } else if ends_with(s, "Ki"@) {
        let v = parsed_scaled_or_zero(s.take(s.len() - 2), 1);
        if v >= 0x10_0000 {
            spec_fmt_tenths(v, 0x10_0000) + "Gi"@
        } else {
            spec_fmt_whole(v, 0x400) + "Mi"@
        }
    } else {
        s
    }
}

/// The numeric part read at a scale, clamped into `i64` range; zero when
/// it does not parse.
pub open spec fn parsed_scaled_or_zero(num: Seq<char>, scale: int) -> int {
    match spec_quantity_bytes(num, scale) {
        Some(b) => clamp_i64(b),
        None => 0,
    }
}

fn parse_scaled(num: &str, scale: u64) -> (r: i64)
    requires
        0 < scale <= 0x4_0000_0000_0000,
    ensures
        r as int == parsed_scaled_or_zero(num@, scale as int),
        r >= 0,
{
    match quantity_bytes(num, scale) {
        Some(t) => if t > 0x7fff_ffff_ffff_ffff {
            i64::MAX
        } else {
            t as i64
        },
        None => 0,
    }
}

/// Renders a node memory quantity for display.
pub fn format_memory(ki_str: &str) -> (s: String)
    ensures
        s@ == spec_format_memory(ki_str@),
{
    proof {
        reveal_strlit("Ki");
        reveal_strlit("Mi");
        reveal_strlit("Gi");
    }
    let n = ki_str.unicode_len();
    if str_ends_with(ki_str, "Gi") {
        let v = parse_scaled(String::from_str(ki_str.substring_char(0, n - 2)).as_str(), 10);
        let mut s = fmt_tenths(v, 10);
        s.append("Gi");
        s
    } else if str_ends_with(ki_str, "Mi") {
        let v = parse_scaled(String::from_str(ki_str.substring_char(0, n - 2)).as_str(), 10);
        let mut s = fmt_whole(v, 10);
        s.append("Mi");
        s
    } else if str_ends_with(ki_str, "Ki") {
        let v = parse_scaled(String::from_str(ki_str.substring_char(0, n - 2)).as_str(), 1);
        if v >= 0x10_0000 {
            let mut s = fmt_tenths(v, 0x10_0000);
            s.append("Gi");
            s
        } else {
            let mut s = fmt_whole(v, 0x400);
            s.append("Mi");
            s
        }
    } else {
        String::from_str(ki_str)
    }
}

} // verus!
