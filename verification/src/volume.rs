//! Extracting the measured maximum volume from the encoder's diagnostic
//! output. The diagnostics carry a line like `max_volume: -5.0 dB`; the
//! first such occurrence — whitespace-tolerant around the number — yields
//! the measurement, in thousandths of a decibel. A matched number that is
//! not a plain decimal of at most nine digits before and three after the
//! point yields no measurement rather than a bogus one.
use vstd::prelude::*;

verus! {

/// The whitespace accepted around the number.
pub open spec fn spec_is_space(c: char) -> bool {
    c == ' ' || c == '\t' || c == '\n' || c == '\r' || c == '\u{b}' || c == '\u{c}'
}

/// A decimal digit (codepoints of `0` through `9`).
pub open spec fn spec_is_digit(c: char) -> bool {
    48 <= c as u32 <= 57
}

/// A digit's value.
pub open spec fn spec_digit_val(c: char) -> nat
    recommends
        spec_is_digit(c),
{
    (c as u32 - 48) as nat
}

/// A character the number token may hold: a digit or a point.
pub open spec fn spec_is_num_char(c: char) -> bool {
    spec_is_digit(c) || c == '.'
}

/// The end of the whitespace run starting at `j`.
pub open spec fn spec_ws_end(s: Seq<char>, j: int) -> int
    decreases s.len() - j,
{
    if j < 0 || j >= s.len() {
        j
    } else if spec_is_space(s[j]) {
        spec_ws_end(s, j + 1)
    } else {
        j
    }
}

/// The end of the number-character run starting at `j`.
pub open spec fn spec_num_end(s: Seq<char>, j: int) -> int
    decreases s.len() - j,
{
    if j < 0 || j >= s.len() {
        j
    } else if spec_is_num_char(s[j]) {
        spec_num_end(s, j + 1)
    } else {
        j
    }
}

/// The first point at or after `j`, or the end.
pub open spec fn spec_dot_pos(s: Seq<char>, j: int) -> int
    decreases s.len() - j,
{
    if j < 0 || j >= s.len() {
        j
    } else if s[j] == '.' {
        j
    } else {
        spec_dot_pos(s, j + 1)
    }
}

/// Whether the pattern `max_volume: <number> dB` sits at anchor `i`: the
/// literal, optional whitespace, an optional sign, at least one digit or
/// point, optional whitespace, then `dB`.
pub open spec fn spec_match_at(s: Seq<char>, i: int) -> bool {
    &&& 0 <= i
    &&& i + 11 <= s.len()
    &&& s.subrange(i, i + 11) == "max_volume:"@
    &&& {
        let k0 = spec_token_start(s, i);
        let k = spec_num_end(s, k0);
        &&& k > k0
        &&& {
            let m = spec_ws_end(s, k);
            &&& m + 2 <= s.len()
            &&& s.subrange(m, m + 2) == "dB"@
        }
    }
}

/// Whether the number at anchor `i` carries a minus sign.
pub open spec fn spec_neg_at(s: Seq<char>, i: int) -> bool {
    let j = spec_ws_end(s, i + 11);
    j < s.len() && s[j] == '-'
}

/// Where the number's digits start at anchor `i`, past sign and whitespace.
pub open spec fn spec_token_start(s: Seq<char>, i: int) -> int {
    let j = spec_ws_end(s, i + 11);
    if j < s.len() && s[j] == '-' {
        j + 1
    } else {
        j
    }
}

/// The number token at anchor `i`: its unsigned digits-and-point characters.
pub open spec fn spec_token_at(s: Seq<char>, i: int) -> Seq<char> {
    s.subrange(spec_token_start(s, i), spec_num_end(s, spec_token_start(s, i)))
}

/// The least anchor at or after `i` where the pattern matches.
pub open spec fn spec_first_match_from(s: Seq<char>, i: int) -> Option<int>
    decreases s.len() - i,
{
    if i < 0 || i >= s.len() {
        None
    } else if spec_match_at(s, i) {
        Some(i)
    } else {
        spec_first_match_from(s, i + 1)
    }
}

/// The value of a run of digits, most significant first.
pub open spec fn spec_digits_val(t: Seq<char>) -> nat
    decreases t.len(),
{
    if t.len() == 0 {
        0
    } else {
        spec_digits_val(t.drop_last()) * 10 + spec_digit_val(t.last())
    }
}

/// Ten to the `n`th, for the digit-count bounds.
pub open spec fn spec_pow10(n: nat) -> nat
    decreases n,
{
    if n == 0 {
        1
    } else {
        10 * spec_pow10((n - 1) as nat)
    }
}

/// What multiplies the fractional digits' value to bring it to thousandths.
pub open spec fn spec_frac_scale(l: nat) -> nat {
    if l == 0 {
        1000
    } else if l == 1 {
        100
    } else if l == 2 {
        10
    } else {
        1
    }
}

/// Whether a number token is a decimal this parser accepts: at most one
/// point, at least one digit, at most nine digits before the point and
/// three after it.
pub open spec fn spec_token_valid(t: Seq<char>) -> bool {
    let d = spec_dot_pos(t, 0);
    &&& d <= 9
    &&& (d < t.len() ==> t.len() <= d + 4)
    &&& (forall|q: int| d < q < t.len() ==> t[q] != '.')
    &&& (d >= 1 || t.len() >= d + 2)
}

/// A valid token's value in thousandths: the whole part scaled up, plus the
/// fractional digits brought to three places.
pub open spec fn spec_token_value(t: Seq<char>) -> nat {
    let d = spec_dot_pos(t, 0);
    let whole = t.subrange(0, d);
    let frac = if d < t.len() {
        t.subrange(d + 1, t.len() as int)
    } else {
        Seq::<char>::empty()
    };
    spec_digits_val(whole) * 1000 + spec_digits_val(frac) * spec_frac_scale(frac.len())
}

/// The measurement the diagnostics yield: the first anchor where the
/// pattern matches decides; a valid token there gives its signed value in
/// thousandths, anything else gives none.
pub open spec fn spec_extract_max_volume(s: Seq<char>) -> Option<int> {
    match spec_first_match_from(s, 0) {
        None => None,
        Some(i) => {
            let t = spec_token_at(s, i);
            if spec_token_valid(t) {
                Some(
                    if spec_neg_at(s, i) {
                        -(spec_token_value(t) as int)
                    } else {
                        spec_token_value(t) as int
                    },
                )
            } else {
                None
            }
        },
    }
}

/// Whether the characters of `pat` sit in `text` at position `i`.
fn has_prefix_at(text: &str, i: usize, pat: &str) -> (b: bool)
    requires
        i <= text@.len(),
    ensures
        b == (i + pat@.len() <= text@.len() && text@.subrange(i as int, i + pat@.len())
            == pat@),
{
    let n = text.unicode_len();
    let m = pat.unicode_len();
    if m > n - i {
        return false;
    }
    let mut q: usize = 0;
    while q < m
        invariant
            q <= m,
            i + m <= n,
            n == text@.len(),
            m == pat@.len(),
            forall|r: int| 0 <= r < q ==> text@[i + r] == pat@[r],
        decreases m - q,
    {
        if text.get_char(i + q) != pat.get_char(q) {
            proof {
                if text@.subrange(i as int, (i + m) as int) == pat@ {
                    assert(text@.subrange(i as int, (i + m) as int)[q as int] == text@[i + q]);
                    assert(false);
                }
            }
            return false;
        }
        q = q + 1;
    }
    proof {
        assert(text@.subrange(i as int, (i + m) as int) =~= pat@);
    }
    true
}

/// Whether `c` is accepted as whitespace.
fn char_is_space(c: char) -> (b: bool)
    ensures
        b == spec_is_space(c),
{
    c == ' ' || c == '\t' || c == '\n' || c == '\r' || c == '\u{b}' || c == '\u{c}'
}

/// Whether `c` is a decimal digit.
fn char_is_digit(c: char) -> (b: bool)
    ensures
        b == spec_is_digit(c),
{
    let u = c as u32;
    48 <= u && u <= 57
}

/// The end of the whitespace run starting at `j`.
fn skip_spaces(text: &str, j: usize) -> (r: usize)
    requires
        j <= text@.len(),
    ensures
        r == spec_ws_end(text@, j as int),
        j <= r <= text@.len(),
{
    let n = text.unicode_len();
    let mut cur = j;
    while cur < n && char_is_space(text.get_char(cur))
        invariant
            j <= cur <= n,
            n == text@.len(),
            spec_ws_end(text@, j as int) == spec_ws_end(text@, cur as int),
        decreases n - cur,
    {
        cur = cur + 1;
    }
    cur
}

/// The end of the number-character run starting at `j`.
fn skip_num_chars(text: &str, j: usize) -> (r: usize)
    requires
        j <= text@.len(),
    ensures
        r == spec_num_end(text@, j as int),
        j <= r <= text@.len(),
        forall|q: int| j <= q < r ==> spec_is_num_char(text@[q]),
{
    let n = text.unicode_len();
    let mut cur = j;
    while cur < n && char_is_num(text.get_char(cur))
        invariant
            j <= cur <= n,
            n == text@.len(),
            spec_num_end(text@, j as int) == spec_num_end(text@, cur as int),
            forall|q: int| j <= q < cur ==> spec_is_num_char(text@[q]),
        decreases n - cur,
    {
        cur = cur + 1;
    }
    cur
}

/// Whether `c` may stand in the number token.
fn char_is_num(c: char) -> (b: bool)
    ensures
        b == spec_is_num_char(c),
{
    char_is_digit(c) || c == '.'
}

/// Checks the pattern at anchor `i`; a match yields the sign and the number
/// token's bounds.
fn match_at(text: &str, i: usize) -> (r: Option<(bool, usize, usize)>)
    requires
        i <= text@.len(),
    ensures
        (r is Some) == spec_match_at(text@, i as int),
        (match r {
            Some((neg, k0, k)) => {
                &&& neg == spec_neg_at(text@, i as int)
                &&& k0 == spec_token_start(text@, i as int)
                &&& k == spec_num_end(text@, k0 as int)
                &&& i <= k0 < k <= text@.len()
                &&& (forall|q: int| k0 <= q < k ==> spec_is_num_char(text@[q]))
            },
            None => true,
        }),
{
    proof {
        reveal_strlit("max_volume:");
        reveal_strlit("dB");
    }
    let n = text.unicode_len();
    if !has_prefix_at(text, i, "max_volume:") {
        return None;
    }
    let j = skip_spaces(text, i + 11);
    let neg = j < n && text.get_char(j) == '-';
    let k0 = if neg {
        j + 1
    } else {
        j
    };
    let k = skip_num_chars(text, k0);
    if k == k0 {
        return None;
    }
    let m = skip_spaces(text, k);
    if !has_prefix_at(text, m, "dB") {
        return None;
    }
    Some((neg, k0, k))
}

/// Parses the unsigned number token into thousandths; `None` when the token
/// is not a decimal this parser accepts.
fn parse_token(tok: &str) -> (r: Option<u64>)
    requires
        1 <= tok@.len(),
        forall|q: int| 0 <= q < tok@.len() ==> spec_is_num_char(tok@[q]),
    ensures
        (if spec_token_valid(tok@) {
            r matches Some(v) && v == spec_token_value(tok@) && v <= 999999999999
        } else {
            r is None
        }),
{
    let n = tok.unicode_len();
    // locate the point
    let mut d: usize = 0;
    while d < n && tok.get_char(d) != '.'
        invariant
            0 <= d <= n,
            n == tok@.len(),
            spec_dot_pos(tok@, 0) == spec_dot_pos(tok@, d as int),
            forall|p: int| 0 <= p < d ==> tok@[p] != '.',
        decreases n - d,
    {
        d = d + 1;
    }
    proof {
        assert(spec_dot_pos(tok@, 0) == d);
    }
    if d > 9 {
        return None;
    }
    if d == 0 && n < 2 {
        return None;
    }
    if d < n {
        if n > d + 4 {
            return None;
        }
        // a second point makes the token invalid
        let mut q: usize = d + 1;
        while q < n
            invariant
                d + 1 <= q <= n,
                n == tok@.len(),
                spec_dot_pos(tok@, 0) == d as int,
                forall|p: int| d < p < q ==> tok@[p] != '.',
            decreases n - q,
        {
            if tok.get_char(q) == '.' {
                return None;
            }
            q = q + 1;
        }
    }
    proof {
        assert(spec_token_valid(tok@));
    }
    // whole part
    let mut acc: u64 = 0;
    let mut p: usize = 0;
    while p < d
        invariant
            0 <= p <= d <= 9,
            d <= n,
            n == tok@.len(),
            forall|q: int| 0 <= q < n ==> spec_is_num_char(tok@[q]),
            forall|q: int| 0 <= q < d ==> tok@[q] != '.',
            acc == spec_digits_val(tok@.subrange(0, p as int)),
            acc < spec_pow10(p as nat),
        decreases d - p,
    {
        let c = tok.get_char(p);
        let v = (c as u32 - 48) as u64;
        proof {
            assert(spec_is_digit(tok@[p as int]));
            assert(spec_pow10(p as nat) <= spec_pow10(9)) by {
                lemma_pow10_le(p as nat, 9);
            }
            lemma_pow10_vals();
            assert(tok@.subrange(0, p + 1 as int).drop_last() =~= tok@.subrange(0, p as int));
        }
        acc = acc * 10 + v;
        p = p + 1;
    }
    proof {
        assert(spec_pow10(d as nat) <= spec_pow10(9)) by {
            lemma_pow10_le(d as nat, 9);
        }
        lemma_pow10_vals();
        assert(tok@.subrange(0, d as int) == tok@.subrange(0, spec_dot_pos(tok@, 0)));
    }
    // fractional part
    let mut facc: u64 = 0;
    let mut flen: usize = 0;
    if d < n {
        let mut p2: usize = d + 1;
        while p2 < n
            invariant
                d + 1 <= p2 <= n,
                n <= d + 4,
                n == tok@.len(),
                forall|q: int| 0 <= q < n ==> spec_is_num_char(tok@[q]),
                forall|q: int| d < q < n ==> tok@[q] != '.',
                facc == spec_digits_val(tok@.subrange(d + 1 as int, p2 as int)),
                facc < spec_pow10((p2 - d - 1) as nat),
            decreases n - p2,
        {
            let c = tok.get_char(p2);
            let v = (c as u32 - 48) as u64;
            proof {
                assert(spec_is_digit(tok@[p2 as int]));
                assert(spec_pow10((p2 - d - 1) as nat) <= spec_pow10(3)) by {
                    lemma_pow10_le((p2 - d - 1) as nat, 3);
                }
                lemma_pow10_vals();
                assert(tok@.subrange(d + 1 as int, p2 + 1 as int).drop_last() =~= tok@.subrange(
                    d + 1 as int,
                    p2 as int,
                ));
            }
            facc = facc * 10 + v;
            p2 = p2 + 1;
        }
        flen = n - d - 1;
        proof {
            assert(spec_pow10(flen as nat) <= spec_pow10(3)) by {
                lemma_pow10_le(flen as nat, 3);
            }
        }
    }
    let scale: u64 = if flen == 0 {
        1000
    } else if flen == 1 {
        100
    } else if flen == 2 {
        10
    } else {
        1
    };
    proof {
        if d < n {
            assert(tok@.subrange(d + 1 as int, n as int) == tok@.subrange(
                spec_dot_pos(tok@, 0) + 1,
                tok@.len() as int,
            ));
        } else {
            assert(spec_digits_val(Seq::<char>::empty()) == 0);
        }
        lemma_frac_bound(facc as nat, flen as nat, scale as nat);
        lemma_pow10_vals();
        assert(spec_pow10(d as nat) <= spec_pow10(9)) by {
            lemma_pow10_le(d as nat, 9);
        }
    }
    Some(acc * 1000 + facc * scale)
}

/// The concrete powers of ten the token bounds rest on.
proof fn lemma_pow10_vals()
    ensures
        spec_pow10(3) == 1000,
        spec_pow10(9) == 1000000000,
{
    assert(spec_pow10(0) == 1);
    assert(spec_pow10(1) == 10);
    assert(spec_pow10(2) == 100);
    assert(spec_pow10(3) == 1000);
    assert(spec_pow10(4) == 10000);
    assert(spec_pow10(5) == 100000);
    assert(spec_pow10(6) == 1000000);
    assert(spec_pow10(7) == 10000000);
    assert(spec_pow10(8) == 100000000);
    assert(spec_pow10(9) == 1000000000);
}

/// Powers of ten grow with the exponent.
proof fn lemma_pow10_le(a: nat, b: nat)
    requires
        a <= b,
    ensures
        spec_pow10(a) <= spec_pow10(b),
    decreases b,
{
    if a < b {
        lemma_pow10_le(a, (b - 1) as nat);
    }
}

/// The scaled fractional value stays under one thousand.
proof fn lemma_frac_bound(facc: nat, flen: nat, scale: nat)
    requires
        flen <= 3,
        facc < spec_pow10(flen),
        scale == spec_frac_scale(flen),
        flen == 0 ==> facc == 0,
    ensures
        facc * scale <= 999,
{
    assert(spec_pow10(0) == 1);
    assert(spec_pow10(1) == 10);
    assert(spec_pow10(2) == 100);
    assert(spec_pow10(3) == 1000);
    if flen == 0 {
    } else if flen == 1 {
        assert(facc * scale <= 9 * 100);
    } else if flen == 2 {
        assert(facc * scale <= 99 * 10);
    } else {
        assert(facc * scale <= 999 * 1);
    }
}

/// Scans the diagnostic text for the first `max_volume: <number> dB`
/// occurrence and yields the measurement in thousandths of a decibel, or
/// `None` when there is no match or the matched number is not a decimal
/// this parser accepts.
pub fn extract_max_volume(text: &str) -> (r: Option<i64>)
    ensures
        (match spec_extract_max_volume(text@) {
            Some(v) => r matches Some(x) && x == v,
            None => r is None,
        }),
        (r matches Some(x) ==> -1000000000000 <= x <= 1000000000000),
{
    let n = text.unicode_len();
    let mut i: usize = 0;
    while i < n
        invariant
            0 <= i <= n,
            n == text@.len(),
            spec_first_match_from(text@, 0) == spec_first_match_from(text@, i as int),
        decreases n - i,
    {
        match match_at(text, i) {
            Some((neg, k0, k)) => {
                proof {
                    assert(spec_first_match_from(text@, i as int) == Some(i as int));
                }
                let tok = text.substring_char(k0, k);
                proof {
                    assert(tok@ == spec_token_at(text@, i as int));
                    assert(forall|q: int|
                        0 <= q < tok@.len() ==> spec_is_num_char(#[trigger] tok@[q]));
                }
                match parse_token(tok) {
                    Some(v) => {
                        let sv = v as i64;
                        if neg {
                            return Some(-sv);
                        } else {
                            return Some(sv);
                        }
                    },
                    None => {
                        return None;
                    },
                }
            },
            None => {
                i = i + 1;
            },
        }
    }
    None
}

} // verus!
