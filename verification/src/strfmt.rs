//! Small verified string toolkit: decimal rendering, equality and
//! case-insensitive comparison, substring search, lexicographic order.

use vstd::prelude::*;

verus! {

// ---------------------------------------------------------------------------
// Decimal rendering
// ---------------------------------------------------------------------------

/// The character for one decimal digit.
pub open spec fn digit_char(d: int) -> char {
    if d == 0 {
        '0'
    } else if d == 1 {
        '1'
    } else if d == 2 {
        '2'
    } else if d == 3 {
        '3'
    } else if d == 4 {
        '4'
    } else if d == 5 {
        '5'
    } else if d == 6 {
        '6'
    } else if d == 7 {
        '7'
    } else if d == 8 {
        '8'
    } else {
        '9'
    }
}

/// Decimal rendering of a natural number, without leading zeros
/// (except for the number zero itself).
pub open spec fn dec_str(n: nat) -> Seq<char>
    decreases n,
{
    if n < 10 {
        seq![digit_char(n as int)]
    } else {
        dec_str(n / 10) + seq![digit_char((n % 10) as int)]
    }
}

/// Decimal rendering of an integer, with a leading minus sign when negative.
pub open spec fn dec_str_i(v: int) -> Seq<char> {
    if v < 0 {
        seq!['-'] + dec_str((-v) as nat)
    } else {
        dec_str(v as nat)
    }
}

fn digit_str(d: u64) -> (s: &'static str)
    requires
        d < 10,
    ensures
        s@ == seq![digit_char(d as int)],
{
    proof {
        reveal_strlit("0");
        reveal_strlit("1");
        reveal_strlit("2");
        reveal_strlit("3");
        reveal_strlit("4");
        reveal_strlit("5");
        reveal_strlit("6");
        reveal_strlit("7");
        reveal_strlit("8");
        reveal_strlit("9");
    }
    let s: &'static str = if d == 0 {
        "0"
    } else if d == 1 {
        "1"
    } else if d == 2 {
        "2"
    } else if d == 3 {
        "3"
    } else if d == 4 {
        "4"
    } else if d == 5 {
        "5"
    } else if d == 6 {
        "6"
    } else if d == 7 {
        "7"
    } else if d == 8 {
        "8"
    } else {
        "9"
    };
    proof {
        assert(s@ =~= seq![digit_char(d as int)]);
    }
    s
}

/// Renders a `u64` in decimal.
pub fn u64_to_string(n: u64) -> (s: String)
    ensures
        s@ == dec_str(n as nat),
{
    if n == 0 {
        let s = String::from_str(digit_str(0));
        proof {
            assert(s@ =~= dec_str(0));
        }
        return s;
    }
    let mut acc = String::new();
    let mut cur: u64 = n;
    proof {
        assert(dec_str(n as nat) =~= dec_str(n as nat) + acc@);
    }
    while cur > 0
        invariant
            if cur > 0 {
                dec_str(n as nat) == dec_str(cur as nat) + acc@
            } else {
                dec_str(n as nat) == acc@
            },
        decreases cur,
    {
        let d = cur % 10;
        let mut next = String::from_str(digit_str(d));
        next.append(acc.as_str());
        proof {
            if cur >= 10 {
                assert(dec_str(cur as nat) == dec_str((cur / 10) as nat) + seq![
                    digit_char((cur % 10) as int),
                ]);
                assert(dec_str((cur / 10) as nat) + (seq![digit_char((cur % 10) as int)] + acc@)
                    =~= (dec_str((cur / 10) as nat) + seq![digit_char((cur % 10) as int)]) + acc@);
            } else {
                assert(dec_str(cur as nat) =~= seq![digit_char((cur % 10) as int)]);
                assert(seq![digit_char((cur % 10) as int)] + acc@ =~= dec_str(cur as nat) + acc@);
            }
        }
        acc = next;
        cur = cur / 10;
    }
    acc
}

/// Renders a `u128` in decimal.
pub fn u128_to_string(n: u128) -> (s: String)
    ensures
        s@ == dec_str(n as nat),
{
    if n == 0 {
        let s = String::from_str(digit_str(0));
        proof {
            assert(s@ =~= dec_str(0));
        }
        return s;
    }
    let mut acc = String::new();
    let mut cur: u128 = n;
    proof {
        assert(dec_str(n as nat) =~= dec_str(n as nat) + acc@);
    }
    while cur > 0
        invariant
            if cur > 0 {
                dec_str(n as nat) == dec_str(cur as nat) + acc@
            } else {
                dec_str(n as nat) == acc@
            },
        decreases cur,
    {
        let d = (cur % 10) as u64;
        let mut next = String::from_str(digit_str(d));
        next.append(acc.as_str());
        proof {
            if cur >= 10 {
                assert(dec_str(cur as nat) == dec_str((cur / 10) as nat) + seq![
                    digit_char((cur % 10) as int),
                ]);
                assert(dec_str((cur / 10) as nat) + (seq![digit_char((cur % 10) as int)] + acc@)
                    =~= (dec_str((cur / 10) as nat) + seq![digit_char((cur % 10) as int)]) + acc@);
            } else {
                assert(dec_str(cur as nat) =~= seq![digit_char((cur % 10) as int)]);
                assert(seq![digit_char((cur % 10) as int)] + acc@ =~= dec_str(cur as nat) + acc@);
            }
        }
        acc = next;
        cur = cur / 10;
    }
    acc
}

/// Renders an `i64` in decimal, with a minus sign when negative.
pub fn i64_to_string(v: i64) -> (s: String)
    ensures
        s@ == dec_str_i(v as int),
{
    if v >= 0 {
        u64_to_string(v as u64)
    } else {
        let wide: i128 = v as i128;
        let mag: u64 = (-wide) as u64;
        let mut s = String::from_str("-");
        let rest = u64_to_string(mag);
        s.append(rest.as_str());
        proof {
            reveal_strlit("-");
            assert(s@ =~= seq!['-'] + dec_str((-(v as int)) as nat));
        }
        s
    }
}

/// Renders a `usize` in decimal.
pub fn usize_to_string(n: usize) -> (s: String)
    ensures
        s@ == dec_str(n as nat),
{
    u64_to_string(n as u64)
}

/// Renders an `i32` in decimal.
pub fn i32_to_string(v: i32) -> (s: String)
    ensures
        s@ == dec_str_i(v as int),
{
    i64_to_string(v as i64)
}

// ---------------------------------------------------------------------------
// Equality and case-insensitive comparison
// ---------------------------------------------------------------------------

/// Code point of a character with an ASCII upper-case letter folded to
/// its lower-case counterpart.
pub open spec fn lower_code(c: char) -> int {
    if 65 <= c as int && c as int <= 90 {
        c as int + 32
    } else {
        c as int
    }
}

/// The two sequences are equal up to ASCII case.
pub open spec fn eq_ci(a: Seq<char>, b: Seq<char>) -> bool {
    a.len() == b.len() && (forall|i: int| 0 <= i < a.len() ==> lower_code(a[i]) == lower_code(b[i]))
}

/// `n` occurs in `h` as a contiguous run, up to ASCII case.
pub open spec fn contains_ci(h: Seq<char>, n: Seq<char>) -> bool {
    exists|k: int| 0 <= k && k + n.len() <= h.len() && eq_ci(#[trigger] h.subrange(k, k + n.len()), n)
}

fn lower_code_x(c: char) -> (r: u32)
    ensures
        r as int == lower_code(c),
{
    let u = c as u32;
    if 65 <= u && u <= 90 {
        u + 32
    } else {
        u
    }
}

/// Character-wise string equality.
pub fn str_eq(a: &str, b: &str) -> (r: bool)
    ensures
        r == (a@ == b@),
{
    let alen = a.unicode_len();
    let blen = b.unicode_len();
    if alen != blen {
        return false;
    }
    let mut i: usize = 0;
    while i < alen
        invariant
            i <= alen,
            alen == a@.len(),
            alen == b@.len(),
            forall|j: int| 0 <= j < i ==> a@[j] == b@[j],
        decreases alen - i,
    {
        if a.get_char(i) != b.get_char(i) {
            return false;
        }
        i += 1;
    }
    proof {
        assert(a@ =~= b@);
    }
    true
}

/// String equality up to ASCII case.
pub fn str_eq_ci(a: &str, b: &str) -> (r: bool)
    ensures
        r == eq_ci(a@, b@),
{
    let alen = a.unicode_len();
    let blen = b.unicode_len();
    if alen != blen {
        return false;
    }
    let mut i: usize = 0;
    while i < alen
        invariant
            i <= alen,
            alen == a@.len(),
            alen == b@.len(),
            forall|j: int| 0 <= j < i ==> lower_code(a@[j]) == lower_code(b@[j]),
        decreases alen - i,
    {
        if lower_code_x(a.get_char(i)) != lower_code_x(b.get_char(i)) {
            return false;
        }
        i += 1;
    }
    true
}

/// Substring search up to ASCII case.
pub fn str_contains_ci(h: &str, n: &str) -> (r: bool)
    ensures
        r == contains_ci(h@, n@),
{
    let hlen = h.unicode_len();
    let nlen = n.unicode_len();
    if nlen > hlen {
        return false;
    }
    let mut k: usize = 0;
    while k <= hlen - nlen
        invariant
            hlen == h@.len(),
            nlen == n@.len(),
            nlen <= hlen,
            k <= hlen - nlen + 1,
            forall|k2: int|
                0 <= k2 < k ==> !eq_ci(#[trigger] h@.subrange(k2, k2 + n@.len()), n@),
        decreases hlen - nlen + 1 - k,
    {
        let mut j: usize = 0;
        let mut ok = true;
        while j < nlen
            invariant
                j <= nlen,
                k + nlen <= hlen,
                hlen == h@.len(),
                nlen == n@.len(),
                ok ==> forall|t: int| 0 <= t < j ==> lower_code(h@[k + t]) == lower_code(n@[t]),
                !ok ==> !eq_ci(h@.subrange(k as int, k + n@.len()), n@),
            decreases nlen - j,
        {
            if lower_code_x(h.get_char(k + j)) != lower_code_x(n.get_char(j)) {
                proof {
                    let sub = h@.subrange(k as int, k + n@.len());
                    assert(sub[j as int] == h@[k + j]);
                }
                ok = false;
                j = nlen;
            } else {
                j += 1;
            }
        }
        if ok {
            proof {
                let sub = h@.subrange(k as int, k + n@.len());
                assert forall|t: int| 0 <= t < n@.len() implies lower_code(sub[t]) == lower_code(
                    n@[t],
                ) by {
                    assert(sub[t] == h@[k + t]);
                }
                assert(eq_ci(sub, n@));
            }
            return true;
        }
        k += 1;
    }
    proof {
        assert forall|k2: int| 0 <= k2 && k2 + n@.len() <= h@.len() implies !eq_ci(
            #[trigger] h@.subrange(k2, k2 + n@.len()),
            n@,
        ) by {}
    }
    false
}

/// `n` occurs in `h` as a contiguous run.
pub open spec fn contains_sub(h: Seq<char>, n: Seq<char>) -> bool {
    exists|k: int| 0 <= k && k + n.len() <= h.len() && #[trigger] h.subrange(k, k + n.len()) == n
}

/// Substring search.
pub fn str_contains(h: &str, n: &str) -> (r: bool)
    ensures
        r == contains_sub(h@, n@),
{
    let hlen = h.unicode_len();
    let nlen = n.unicode_len();
    if nlen > hlen {
        return false;
    }
    if nlen == 0 {
        proof {
            assert(contains_sub(h@, n@)) by {
                assert(h@.subrange(0, 0 + n@.len() as int) =~= n@);
            }
        }
        return true;
    }
    let mut k: usize = 0;
    while k <= hlen - nlen
        invariant
            hlen == h@.len(),
            nlen == n@.len(),
            0 < nlen <= hlen,
            k <= hlen - nlen + 1,
            forall|k2: int| 0 <= k2 < k ==> #[trigger] h@.subrange(k2, k2 + n@.len()) != n@,
        decreases hlen - nlen + 1 - k,
    {
        let mut j: usize = 0;
        let mut ok = true;
        while j < nlen
            invariant
                j <= nlen,
                k + nlen <= hlen,
                hlen == h@.len(),
                nlen == n@.len(),
                ok ==> forall|t: int| 0 <= t < j ==> h@[k + t] == n@[t],
                !ok ==> h@.subrange(k as int, k + n@.len()) != n@,
            decreases nlen - j,
        {
            if h.get_char(k + j) != n.get_char(j) {
                proof {
                    let sub = h@.subrange(k as int, k + n@.len());
                    assert(sub[j as int] == h@[k + j]);
                }
                ok = false;
                j = nlen;
            } else {
                j += 1;
            }
        }
        if ok {
            proof {
                assert(h@.subrange(k as int, k + n@.len()) =~= n@);
            }
            return true;
        }
        k += 1;
    }
    false
}

/// An ASCII whitespace character.
pub open spec fn is_ws(c: char) -> bool {
    c == ' ' || c == '\t' || c == '\n' || c == '\r'
}

/// `s` without its leading whitespace.
pub open spec fn trim_front(s: Seq<char>) -> Seq<char>
    decreases s.len(),
{
    if s.len() > 0 && is_ws(s[0]) {
        trim_front(s.drop_first())
    } else {
        s
    }
}

/// `s` without its trailing whitespace.
pub open spec fn trim_back(s: Seq<char>) -> Seq<char>
    decreases s.len(),
{
    if s.len() > 0 && is_ws(s.last()) {
        trim_back(s.drop_last())
    } else {
        s
    }
}

/// `s` without leading and trailing ASCII whitespace.
pub open spec fn spec_trim(s: Seq<char>) -> Seq<char> {
    trim_back(trim_front(s))
}

proof fn lemma_trim_front_skip(s: Seq<char>, a: int)
    requires
        0 <= a <= s.len(),
        forall|t: int| 0 <= t < a ==> is_ws(s[t]),
        a < s.len() ==> !is_ws(s[a]),
    ensures
        trim_front(s) =~= s.skip(a),
    decreases a,
{
    if a == 0 {
        assert(s.skip(0) =~= s);
    } else {
        assert(is_ws(s[0]));
        lemma_trim_front_skip(s.drop_first(), a - 1);
        assert(s.drop_first().skip(a - 1) =~= s.skip(a));
    }
}

proof fn lemma_trim_back_take(s: Seq<char>, b: int)
    requires
        0 <= b <= s.len(),
        forall|t: int| b <= t < s.len() ==> is_ws(s[t]),
        b > 0 ==> !is_ws(s[b - 1]),
    ensures
        trim_back(s) =~= s.take(b),
    decreases s.len() - b,
{
    if b == s.len() {
        assert(s.take(b) =~= s);
    } else {
        assert(is_ws(s.last()));
        lemma_trim_back_take(s.drop_last(), b);
        assert(s.drop_last().take(b) =~= s.take(b));
    }
}

/// Strips leading and trailing ASCII whitespace.
pub fn str_trim(s: &str) -> (r: String)
    ensures
        r@ == spec_trim(s@),
{
    let n = s.unicode_len();
    let mut a: usize = 0;
    let mut found_front = false;
    while a < n && !found_front
        invariant
            a <= n,
            n == s@.len(),
            forall|t: int| 0 <= t < a ==> is_ws(s@[t]),
            found_front ==> a < n && !is_ws(s@[a as int]),
        decreases n - a + (if found_front {
            0int
        } else {
            1int
        }),
    {
        let c = s.get_char(a);
        if c == ' ' || c == '\t' || c == '\n' || c == '\r' {
            a += 1;
        } else {
            found_front = true;
        }
    }
    if !found_front {
        proof {
            lemma_trim_front_skip(s@, a as int);
            assert(trim_front(s@).len() == 0);
        }
        return String::new();
    }
    let mut b: usize = n;
    let mut found_back = false;
    while b > a && !found_back
        invariant
            a <= b <= n,
            n == s@.len(),
            a < n,
            !is_ws(s@[a as int]),
            forall|t: int| b <= t < n ==> is_ws(s@[t]),
            found_back ==> b > a && !is_ws(s@[b - 1]),
        decreases b + (if found_back {
            0int
        } else {
            1int
        }),
    {
        let c = s.get_char(b - 1);
        if c == ' ' || c == '\t' || c == '\n' || c == '\r' {
            b -= 1;
        } else {
            found_back = true;
        }
    }
    proof {
        if !found_back {
            assert(b == a);
            assert(is_ws(s@[a as int]));
            assert(false);
        }
        lemma_trim_front_skip(s@, a as int);
        assert(!is_ws(s@[a as int]));
        assert(b > a);
        assert(!is_ws(s@[b - 1]));
        lemma_trim_back_take(s@.skip(a as int), b - a);
        assert(s@.skip(a as int).take(b - a) =~= s@.subrange(a as int, b as int));
    }
    String::from_str(s.substring_char(a, b))
}

/// `s` starts with `pre`.
pub open spec fn starts_with(s: Seq<char>, pre: Seq<char>) -> bool {
    s.len() >= pre.len() && s.take(pre.len() as int) == pre
}

/// Decides whether a string starts with a prefix.
pub fn str_starts_with(s: &str, pre: &str) -> (r: bool)
    ensures
        r == starts_with(s@, pre@),
{
    let slen = s.unicode_len();
    let plen = pre.unicode_len();
    if plen > slen {
        return false;
    }
    let mut i: usize = 0;
    while i < plen
        invariant
            i <= plen,
            plen <= slen,
            slen == s@.len(),
            plen == pre@.len(),
            forall|j: int| 0 <= j < i ==> s@[j] == pre@[j],
        decreases plen - i,
    {
        if s.get_char(i) != pre.get_char(i) {
            proof {
                let sub = s@.take(pre@.len() as int);
                assert(sub[i as int] == s@[i as int]);
            }
            return false;
        }
        i += 1;
    }
    proof {
        assert(s@.take(pre@.len() as int) =~= pre@);
    }
    true
}

/// The first position of `c` in `s`, if any.
pub open spec fn spec_find_char(s: Seq<char>, c: char) -> Option<int>
    decreases s.len(),
{
    if s.len() == 0 {
        None
    } else if s[0] == c {
        Some(0)
    } else {
        match spec_find_char(s.drop_first(), c) {
            Some(i) => Some(i + 1),
            None => None,
        }
    }
}

proof fn lemma_find_char_props(s: Seq<char>, c: char)
    ensures
        match spec_find_char(s, c) {
            Some(i) => 0 <= i < s.len() && s[i] == c,
            None => true,
        },
    decreases s.len(),
{
    if s.len() > 0 && s[0] != c {
        lemma_find_char_props(s.drop_first(), c);
    }
}

/// Finds the first position of a character.
pub fn str_find_char(s: &str, c: char) -> (r: Option<usize>)
    ensures
        r is Some <==> spec_find_char(s@, c) is Some,
        r is Some ==> Some(r->0 as int) == spec_find_char(s@, c) && r->0 < s@.len() && s@[
            r->0 as int
        ] == c,
{
    let n = s.unicode_len();
    let mut i: usize = 0;
    proof {
        assert(s@.skip(0) =~= s@);
    }
    while i < n
        invariant
            i <= n,
            n == s@.len(),
            spec_find_char(s@, c) == (match spec_find_char(s@.skip(i as int), c) {
                Some(k) => Some(k + i),
                None => None,
            }),
        decreases n - i,
    {
        proof {
            assert(s@.skip(i as int)[0] == s@[i as int]);
            assert(s@.skip(i as int).drop_first() =~= s@.skip(i + 1));
        }
        if s.get_char(i) == c {
            return Some(i);
        }
        i += 1;
    }
    proof {
        assert(s@.skip(n as int).len() == 0);
    }
    None
}

/// `s` split at every occurrence of `c`; the separators are dropped and
/// empty pieces kept, as many pieces as separators plus one.
pub open spec fn spec_split(s: Seq<char>, c: char) -> Seq<Seq<char>>
    decreases s.len(),
{
    match spec_find_char(s, c) {
        Some(i) => if 0 <= i < s.len() {
            seq![s.take(i)] + spec_split(s.skip(i + 1), c)
        } else {
            seq![s]
        },
        None => seq![s],
    }
}

/// Splits a string at a character.
pub fn str_split_char(s: &str, c: char) -> (r: Vec<String>)
    ensures
        r@.map_values(|x: String| x@) == spec_split(s@, c),
    decreases s@.len(),
{
    proof {
        lemma_find_char_props(s@, c);
    }
    let n = s.unicode_len();
    match str_find_char(s, c) {
        Some(i) => {
            let head = String::from_str(s.substring_char(0, i));
            let tail = s.substring_char(i + 1, n);
            proof {
                assert(tail@ =~= s@.skip(i + 1));
                assert(head@ =~= s@.take(i as int));
            }
            let mut rest = str_split_char(tail, c);
            let ghost rest_view = rest@.map_values(|x: String| x@);
            rest.insert(0, head);
            proof {
                assert(rest@.map_values(|x: String| x@) =~= seq![s@.take(i as int)] + rest_view);
            }
            rest
        },
        None => {
            let mut r: Vec<String> = Vec::new();
            r.push(String::from_str(s));
            proof {
                assert(r@.map_values(|x: String| x@) =~= seq![s@]);
            }
            r
        },
    }
}

/// `s` without leading and trailing double quotes.
pub open spec fn trim_quotes_front(s: Seq<char>) -> Seq<char>
    decreases s.len(),
{
    if s.len() > 0 && s[0] == '"' {
        trim_quotes_front(s.drop_first())
    } else {
        s
    }
}

pub open spec fn trim_quotes_back(s: Seq<char>) -> Seq<char>
    decreases s.len(),
{
    if s.len() > 0 && s.last() == '"' {
        trim_quotes_back(s.drop_last())
    } else {
        s
    }
}

pub open spec fn spec_trim_quotes(s: Seq<char>) -> Seq<char> {
    trim_quotes_back(trim_quotes_front(s))
}

proof fn lemma_trim_quotes_front_skip(s: Seq<char>, a: int)
    requires
        0 <= a <= s.len(),
        forall|t: int| 0 <= t < a ==> s[t] == '"',
        a < s.len() ==> s[a] != '"',
    ensures
        trim_quotes_front(s) =~= s.skip(a),
    decreases a,
{
    if a == 0 {
        assert(s.skip(0) =~= s);
    } else {
        lemma_trim_quotes_front_skip(s.drop_first(), a - 1);
        assert(s.drop_first().skip(a - 1) =~= s.skip(a));
    }
}

proof fn lemma_trim_quotes_back_take(s: Seq<char>, b: int)
    requires
        0 <= b <= s.len(),
        forall|t: int| b <= t < s.len() ==> s[t] == '"',
        b > 0 ==> s[b - 1] != '"',
    ensures
        trim_quotes_back(s) =~= s.take(b),
    decreases s.len() - b,
{
    if b == s.len() {
        assert(s.take(b) =~= s);
    } else {
        lemma_trim_quotes_back_take(s.drop_last(), b);
        assert(s.drop_last().take(b) =~= s.take(b));
    }
}

/// Strips leading and trailing double quotes.
pub fn str_trim_quotes(s: &str) -> (r: String)
    ensures
        r@ == spec_trim_quotes(s@),
{
    let n = s.unicode_len();
    let mut a: usize = 0;
    let mut found_front = false;
    while a < n && !found_front
        invariant
            a <= n,
            n == s@.len(),
            forall|t: int| 0 <= t < a ==> s@[t] == '"',
            found_front ==> a < n && s@[a as int] != '"',
        decreases n - a + (if found_front {
            0int
        } else {
            1int
        }),
    {
        if s.get_char(a) == '"' {
            a += 1;
        } else {
            found_front = true;
        }
    }
    if !found_front {
        proof {
            lemma_trim_quotes_front_skip(s@, a as int);
            assert(trim_quotes_front(s@).len() == 0);
        }
        return String::new();
    }
    let mut b: usize = n;
    let mut found_back = false;
    while b > a && !found_back
        invariant
            a <= b <= n,
            n == s@.len(),
            a < n,
            s@[a as int] != '"',
            forall|t: int| b <= t < n ==> s@[t] == '"',
            found_back ==> b > a && s@[b - 1] != '"',
        decreases b + (if found_back {
            0int
        } else {
            1int
        }),
    {
        if s.get_char(b - 1) == '"' {
            b -= 1;
        } else {
            found_back = true;
        }
    }
    proof {
        if !found_back {
            assert(b == a);
            assert(s@[a as int] == '"');
            assert(false);
        }
        lemma_trim_quotes_front_skip(s@, a as int);
        lemma_trim_quotes_back_take(s@.skip(a as int), b - a);
        assert(s@.skip(a as int).take(b - a) =~= s@.subrange(a as int, b as int));
    }
    String::from_str(s.substring_char(a, b))
}

/// `s` ends in `suf`.
pub open spec fn ends_with(s: Seq<char>, suf: Seq<char>) -> bool {
    s.len() >= suf.len() && s.subrange(s.len() - suf.len(), s.len() as int) == suf
}

/// Decides whether a string ends in a suffix.
pub fn str_ends_with(s: &str, suf: &str) -> (r: bool)
    ensures
        r == ends_with(s@, suf@),
{
    let slen = s.unicode_len();
    let flen = suf.unicode_len();
    if flen > slen {
        return false;
    }
    let mut i: usize = 0;
    while i < flen
        invariant
            i <= flen,
            flen <= slen,
            slen == s@.len(),
            flen == suf@.len(),
            forall|j: int| 0 <= j < i ==> s@[s@.len() - suf@.len() + j] == suf@[j],
        decreases flen - i,
    {
        if s.get_char(slen - flen + i) != suf.get_char(i) {
            proof {
                let sub = s@.subrange(s@.len() - suf@.len(), s@.len() as int);
                assert(sub[i as int] == s@[s@.len() - suf@.len() + i]);
            }
            return false;
        }
        i += 1;
    }
    proof {
        assert(s@.subrange(s@.len() - suf@.len(), s@.len() as int) =~= suf@);
    }
    true
}

// ---------------------------------------------------------------------------
// Lexicographic order (by code point, as `str` ordering in Rust)
// ---------------------------------------------------------------------------

/// `a` is lexicographically at most `b`, comparing code points.
pub open spec fn lex_le(a: Seq<char>, b: Seq<char>) -> bool
    decreases a.len(),
{
    if a.len() == 0 {
        true
    } else if b.len() == 0 {
        false
    } else if (a[0] as int) < (b[0] as int) {
        true
    } else if (a[0] as int) > (b[0] as int) {
        false
    } else {
        lex_le(a.drop_first(), b.drop_first())
    }
}

/// `lex_le` is total: one direction always holds.
pub proof fn lemma_lex_le_total(a: Seq<char>, b: Seq<char>)
    ensures
        lex_le(a, b) || lex_le(b, a),
    decreases a.len(),
{
    if a.len() == 0 || b.len() == 0 {
    } else if a[0] as int == b[0] as int {
        lemma_lex_le_total(a.drop_first(), b.drop_first());
    }
}

/// `lex_le` is reflexive.
pub proof fn lemma_lex_le_refl(a: Seq<char>)
    ensures
        lex_le(a, a),
    decreases a.len(),
{
    if a.len() > 0 {
        lemma_lex_le_refl(a.drop_first());
    }
}

/// `lex_le` is transitive.
pub proof fn lemma_lex_le_trans(a: Seq<char>, b: Seq<char>, c: Seq<char>)
    requires
        lex_le(a, b),
        lex_le(b, c),
    ensures
        lex_le(a, c),
    decreases a.len(),
{
    if a.len() == 0 {
    } else if b.len() == 0 {
    } else if c.len() == 0 {
    } else {
        if a[0] as int == b[0] as int && b[0] as int == c[0] as int {
            lemma_lex_le_trans(a.drop_first(), b.drop_first(), c.drop_first());
        }
    }
}

/// `lex_le` is antisymmetric.
pub proof fn lemma_lex_le_antisym(a: Seq<char>, b: Seq<char>)
    requires
        lex_le(a, b),
        lex_le(b, a),
    ensures
        a == b,
    decreases a.len(),
{
    if a.len() == 0 {
        assert(b.len() == 0);
        assert(a =~= b);
    } else {
        assert(b.len() > 0);
        lemma_lex_le_antisym(a.drop_first(), b.drop_first());
        assert(a =~= seq![a[0]] + a.drop_first());
        assert(b =~= seq![b[0]] + b.drop_first());
    }
}

/// Lexicographic comparison of two strings.
pub fn str_le(a: &str, b: &str) -> (r: bool)
    ensures
        r == lex_le(a@, b@),
{
    let alen = a.unicode_len();
    let blen = b.unicode_len();
    let mut i: usize = 0;
    proof {
        assert(a@.skip(0) =~= a@);
        assert(b@.skip(0) =~= b@);
    }
    loop
        invariant
            i <= alen,
            i <= blen,
            alen == a@.len(),
            blen == b@.len(),
            lex_le(a@, b@) == lex_le(a@.skip(i as int), b@.skip(i as int)),
            lex_le(b@, a@) == lex_le(b@.skip(i as int), a@.skip(i as int)),
        decreases alen - i,
    {
        if i >= alen {
            proof {
                assert(a@.skip(i as int).len() == 0);
            }
            return true;
        }
        if i >= blen {
            proof {
                assert(b@.skip(i as int).len() == 0);
                assert(a@.skip(i as int).len() > 0);
            }
            return false;
        }
        let ca = a.get_char(i) as u32;
        let cb = b.get_char(i) as u32;
        if ca < cb {
            return true;
        }
        if ca > cb {
            return false;
        }
        proof {
            let sa = a@.skip(i as int);
            let sb = b@.skip(i as int);
            assert(sa[0] == a@[i as int]);
            assert(sb[0] == b@[i as int]);
            assert(sa.drop_first() =~= a@.skip(i + 1));
            assert(sb.drop_first() =~= b@.skip(i + 1));
        }
        i += 1;
    }
}

} // verus!
