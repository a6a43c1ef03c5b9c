//! Decimal text: recognizing decimal digits and printing unsigned integers
//! in decimal notation.

use vstd::prelude::*;

verus! {

/// Whether `c` is an ASCII decimal digit.
pub open spec fn is_digit(c: char) -> bool {
    '0' <= c && c <= '9'
}

/// Numeric value of the digit `c`.
pub open spec fn digit_val(c: char) -> int {
    c as int - '0' as int
}

/// The digit character with value `d` (for `0 <= d <= 9`).
pub open spec fn digit_char(d: int) -> char {
    if d == 0 {
        '0'
    } else if d == 1 {
        '1'
    } else if d == 2 {
        '2'
    } else if d == 3 {
        '3'
    } else if d == 4 {
        '4'
    } else if d == 5 {
        '5'
    } else if d == 6 {
        '6'
    } else if d == 7 {
        '7'
    } else if d == 8 {
        '8'
    } else {
        '9'
    }
}

/// Decimal notation of `n`, most significant digit first, no leading zeros
/// (except for `n == 0`, written as one `'0'`).
pub open spec fn spec_dec(n: nat) -> Seq<char>
    decreases n,
{
    if n < 10 {
        seq![digit_char(n as int)]
    } else {
        spec_dec(n / 10) + seq![digit_char((n % 10) as int)]
    }
}

/// A one-character string slice holding the digit with value `d`.
pub fn digit_str(d: u64) -> (r: &'static str)
    requires
        d < 10,
    ensures
        r@ =~= seq![digit_char(d as int)],
{
    proof {
        reveal_strlit("0");
        reveal_strlit("1");
        reveal_strlit("2");
        reveal_strlit("3");
        reveal_strlit("4");
        reveal_strlit("5");
        reveal_strlit("6");
        reveal_strlit("7");
        reveal_strlit("8");
        reveal_strlit("9");
    }
    if d == 0 {
        "0"
    } else if d == 1 {
        "1"
    } else if d == 2 {
        "2"
    } else if d == 3 {
        "3"
    } else if d == 4 {
        "4"
    } else if d == 5 {
        "5"
    } else if d == 6 {
        "6"
    } else if d == 7 {
        "7"
    } else if d == 8 {
        "8"
    } else {
        "9"
    }
}

/// Prints `n` in decimal notation.
pub fn u64_to_dec(n: u64) -> (s: String)
    ensures
        s@ == spec_dec(n as nat),
    decreases n,
{
    if n < 10 {
        let d = digit_str(n);
        d.to_owned()
    } else {
        let mut s = u64_to_dec(n / 10);
        s.append(digit_str(n % 10));
        s
    }
}

/// Decimal notation is never empty.
proof fn lemma_spec_dec_len(n: nat)
    ensures
        spec_dec(n).len() >= 1,
    decreases n,
{
    if n >= 10 {
        lemma_spec_dec_len(n / 10);
    }
}

/// Two numbers with the same decimal notation are the same number.
pub proof fn lemma_spec_dec_injective(a: nat, b: nat)
    requires
        spec_dec(a) == spec_dec(b),
    ensures
        a == b,
    decreases a,
{
    lemma_spec_dec_len(a);
    lemma_spec_dec_len(b);
    if a < 10 && b < 10 {
        assert(spec_dec(a)[0] == digit_char(a as int));
        assert(spec_dec(b)[0] == digit_char(b as int));
    } else if a < 10 {
        lemma_spec_dec_len(b / 10);
        assert(spec_dec(b).len() >= 2);
        assert(spec_dec(a).len() == 1);
    } else if b < 10 {
        lemma_spec_dec_len(a / 10);
        assert(spec_dec(a).len() >= 2);
        assert(spec_dec(b).len() == 1);
    } else {
        assert(spec_dec(a).last() == digit_char((a % 10) as int));
        assert(spec_dec(b).last() == digit_char((b % 10) as int));
        assert(a % 10 == b % 10);
        assert(spec_dec(a).drop_last() =~= spec_dec(a / 10));
        assert(spec_dec(b).drop_last() =~= spec_dec(b / 10));
        lemma_spec_dec_injective(a / 10, b / 10);
    }
}

/// Ten to the power `k`.
pub open spec fn pow10(k: nat) -> nat
    decreases k,
{
    if k == 0 {
        1
    } else {
        10 * pow10((k - 1) as nat)
    }
}

/// Whether every character of `s` is a decimal digit.
pub open spec fn all_digits(s: Seq<char>) -> bool {
    forall|i: int| 0 <= i < s.len() ==> is_digit(#[trigger] s[i])
}

/// Value of a digit string read in base ten; the empty string counts as zero.
pub open spec fn digits_val(s: Seq<char>) -> int
    decreases s.len(),
{
    if s.len() == 0 {
        0
    } else {
        digits_val(s.drop_last()) * 10 + digit_val(s.last())
    }
}

proof fn lemma_digits_val_bounds(s: Seq<char>)
    requires
        all_digits(s),
    ensures
        0 <= digits_val(s) < pow10(s.len()),
    decreases s.len(),
{
    if s.len() > 0 {
        assert(all_digits(s.drop_last())) by {
            assert(forall|i: int|
                0 <= i < s.len() - 1 ==> #[trigger] s.drop_last()[i] == s[i]);
        }
        lemma_digits_val_bounds(s.drop_last());
        assert(is_digit(s.last()));
        assert(0 <= digit_val(s.last()) <= 9);
        assert(pow10(s.len()) == 10 * pow10((s.len() - 1) as nat));
    }
}

/// Number of fractional digits a parsed decimal keeps: digits beyond the
/// seventh after the point are dropped (truncated toward zero).
pub open spec fn frac_digits() -> nat {
    7
}

/// Value of a fractional digit string, scaled by `pow10(frac_digits())`:
/// only the first `frac_digits()` digits count.
pub open spec fn frac_val_scaled(f: Seq<char>) -> int {
    if f.len() >= frac_digits() {
        digits_val(f.take(frac_digits() as int))
    } else {
        digits_val(f) * pow10((frac_digits() - f.len()) as nat)
    }
}

/// The body of a decimal literal, after any sign: a run of digits, with
/// optionally one point somewhere in it, and at least one digit in all.
pub open spec fn body_ok(t: Seq<char>) -> bool {
    (t.len() >= 1 && all_digits(t)) || (t.len() >= 2 && exists|j: int|
        #![trigger t[j]]
        0 <= j < t.len() && t[j] == '.' && all_digits(t.take(j)) && all_digits(
            t.skip(j + 1),
        ))
}

/// Position of the point in a decimal body (meaningful when one is there).
pub open spec fn dot_index(t: Seq<char>) -> int {
    choose|j: int| 0 <= j < t.len() && t[j] == '.'
}

/// Value of a decimal body, scaled by `pow10(frac_digits())` and truncated
/// beyond `frac_digits()` fractional digits.
pub open spec fn body_val_scaled(t: Seq<char>) -> int {
    if all_digits(t) {
        digits_val(t) * pow10(frac_digits())
    } else {
        let j = dot_index(t);
        digits_val(t.take(j)) * pow10(frac_digits()) + frac_val_scaled(t.skip(j + 1))
    }
}

/// Whether `s` is a decimal literal: an optional sign, then a valid body.
pub open spec fn parse_ok(s: Seq<char>) -> bool {
    if s.len() >= 1 && (s[0] == '+' || s[0] == '-') {
        body_ok(s.skip(1))
    } else {
        body_ok(s)
    }
}

/// Whether the literal `s` carries a minus sign.
pub open spec fn parse_neg(s: Seq<char>) -> bool {
    s.len() >= 1 && s[0] == '-'
}

/// Magnitude of the literal `s`, scaled by `pow10(frac_digits())`.
pub open spec fn parse_mag(s: Seq<char>) -> int {
    if s.len() >= 1 && (s[0] == '+' || s[0] == '-') {
        body_val_scaled(s.skip(1))
    } else {
        body_val_scaled(s)
    }
}

/// Cap at which a parsed magnitude saturates. Any magnitude at or above it
/// stands for a fraction (or a percentage) far past `1.0`, which later
/// clamping sends to `1.0` anyway.
pub const MAG_CAP: u64 = 10_000_000_000;

/// `v` capped at `MAG_CAP`.
pub open spec fn sat_mag(v: int) -> int {
    if v > MAG_CAP as int {
        MAG_CAP as int
    } else {
        v
    }
}

proof fn lemma_pow10_vals()
    ensures
        pow10(0) == 1,
        pow10(1) == 10,
        pow10(2) == 100,
        pow10(3) == 1000,
        pow10(4) == 10000,
        pow10(5) == 100000,
        pow10(6) == 1000000,
        pow10(7) == 10000000,
{
    assert(pow10(0) == 1);
    assert(pow10(1) == 10);
    assert(pow10(2) == 100);
    assert(pow10(3) == 1000);
    assert(pow10(4) == 10000);
    assert(pow10(5) == 100000);
    assert(pow10(6) == 1000000);
    assert(pow10(7) == 10000000);
}

proof fn lemma_pow10_mono(a: nat, b: nat)
    requires
        a <= b,
    ensures
        pow10(a) <= pow10(b),
    decreases b,
{
    if a < b {
        lemma_pow10_mono(a, (b - 1) as nat);
        assert(pow10(b) == 10 * pow10((b - 1) as nat));
    }
}

/// Raises ten to the power `k`.
fn pow10_u64(k: u64) -> (r: u64)
    requires
        k <= 7,
    ensures
        r as int == pow10(k as nat),
{
    proof {
        lemma_pow10_vals();
    }
    let mut r: u64 = 1;
    let mut j: u64 = 0;
    while j < k
        invariant
            j <= k <= 7,
            r as int == pow10(j as nat),
        decreases k - j,
    {
        proof {
            lemma_pow10_vals();
            lemma_pow10_mono((j + 1) as nat, 7);
        }
        r = r * 10;
        j = j + 1;
    }
    r
}

/// The characters of `s`, as a vector.
fn chars_vec(s: &str) -> (v: Vec<char>)
    ensures
        v@ == s@,
{
    let n = s.unicode_len();
    let mut v: Vec<char> = Vec::new();
    let mut i: usize = 0;
    while i < n
        invariant
            i <= n,
            n == s@.len(),
            v@ == s@.take(i as int),
        decreases n - i,
    {
        let c = s.get_char(i);
        v.push(c);
        proof {
            assert(s@.take(i + 1) =~= s@.take(i as int).push(s@[i as int]));
        }
        i = i + 1;
    }
    proof {
        assert(s@.take(n as int) =~= s@);
    }
    v
}

/// Numeric value of the digit character `c`.
fn digit_of(c: char) -> (d: u64)
    requires
        is_digit(c),
    ensures
        d as int == digit_val(c),
        d <= 9,
{
    if c == '0' {
        0
    } else if c == '1' {
        1
    } else if c == '2' {
        2
    } else if c == '3' {
        3
    } else if c == '4' {
        4
    } else if c == '5' {
        5
    } else if c == '6' {
        6
    } else if c == '7' {
        7
    } else if c == '8' {
        8
    } else {
        9
    }
}
proof fn lemma_pow10_adds(a: nat, b: nat)
    ensures
        pow10(a + b) == pow10(a) * pow10(b),
    decreases a,
{
    if a == 0 {
        assert(pow10(0) == 1);
        assert(pow10(a + b) == pow10(b));
    } else {
        lemma_pow10_adds((a - 1) as nat, b);
        assert(pow10(a + b) == 10 * pow10((a + b - 1) as nat));
        assert(pow10((a + b - 1) as nat) == pow10((a - 1) as nat + b));
        assert(pow10(a) * pow10(b) == (10 * pow10((a - 1) as nat)) * pow10(b));
        assert((10 * pow10((a - 1) as nat)) * pow10(b) == 10 * (pow10((a - 1) as nat) * pow10(b)))
            by (nonlinear_arith);
    }
}

/// Scans the run of digits that starts at `from`, accumulating its value,
/// saturated at `MAG_CAP`. Returns the index past the run and the value.
fn scan_digits(v: &Vec<char>, from: usize) -> (r: (usize, u64))
    requires
        from <= v@.len(),
    ensures
        ({
            let (end, acc) = r;
            &&& from <= end <= v@.len()
            &&& all_digits(v@.subrange(from as int, end as int))
            &&& acc as int == sat_mag(digits_val(v@.subrange(from as int, end as int)))
            &&& acc <= MAG_CAP
            &&& (end < v@.len() ==> !is_digit(v@[end as int]))
        }),
{
    let n = v.len();
    let mut i = from;
    let mut acc: u64 = 0;
    while i < n && '0' <= v[i] && v[i] <= '9'
        invariant
            from <= i <= n,
            n == v@.len(),
            all_digits(v@.subrange(from as int, i as int)),
            acc as int == sat_mag(digits_val(v@.subrange(from as int, i as int))),
            acc <= MAG_CAP,
        decreases n - i,
    {
        let c = v[i];
        let d = digit_of(c);
        proof {
            let pre = v@.subrange(from as int, i as int);
            let post = v@.subrange(from as int, i + 1);
            assert(post =~= pre.push(v@[i as int]));
            assert(post.drop_last() =~= pre);
            assert(digits_val(post) == digits_val(pre) * 10 + digit_val(c));
            lemma_digits_val_bounds(pre);
            assert(all_digits(post)) by {
                assert(forall|k: int| 0 <= k < pre.len() ==> post[k] == #[trigger] pre[k]);
            }
        }
        if acc >= MAG_CAP {
            proof {
                let pre = v@.subrange(from as int, i as int);
                let post = v@.subrange(from as int, i + 1);
                assert(digits_val(pre) >= MAG_CAP as int);
                assert(digits_val(post) > MAG_CAP as int);
            }
            acc = MAG_CAP;
        } else {
            let x = acc * 10 + d;
            if x > MAG_CAP {
                acc = MAG_CAP;
            } else {
                acc = x;
            }
        }
        i = i + 1;
    }
    (i, acc)
}

/// Scans the run of digits that starts at `from`, keeping the value of the
/// first `frac_digits()` of them. Returns the index past the run, the kept
/// value, and how many digits were kept.
fn scan_frac(v: &Vec<char>, from: usize) -> (r: (usize, u64, u64))
    requires
        from <= v@.len(),
    ensures
        ({
            let (end, acc, cnt) = r;
            &&& from <= end <= v@.len()
            &&& all_digits(v@.subrange(from as int, end as int))
            &&& cnt as int == if end - from <= 7 {
                end - from
            } else {
                7int
            }
            &&& cnt <= 7
            &&& acc as int == digits_val(v@.subrange(from as int, from as int + cnt as int))
            &&& acc < 10_000_000
            &&& (end < v@.len() ==> !is_digit(v@[end as int]))
        }),
{
    let n = v.len();
    let mut i = from;
    let mut acc: u64 = 0;
    let mut cnt: u64 = 0;
    while i < n && '0' <= v[i] && v[i] <= '9'
        invariant
            from <= i <= n,
            n == v@.len(),
            cnt <= 7,
            cnt as int == if i - from <= 7 {
                i - from
            } else {
                7int
            },
            all_digits(v@.subrange(from as int, i as int)),
            acc as int == digits_val(v@.subrange(from as int, from as int + cnt as int)),
            acc < 10_000_000,
        decreases n - i,
    {
        let c = v[i];
        proof {
            let pre = v@.subrange(from as int, i as int);
            let post = v@.subrange(from as int, i + 1);
            assert(post =~= pre.push(v@[i as int]));
            assert(all_digits(post)) by {
                assert(forall|k: int| 0 <= k < pre.len() ==> post[k] == #[trigger] pre[k]);
            }
        }
        if cnt < 7 {
            let d = digit_of(c);
            proof {
                let kept = v@.subrange(from as int, from as int + cnt as int);
                let kept2 = v@.subrange(from as int, from as int + cnt as int + 1);
                assert(kept2 =~= kept.push(v@[i as int]));
                assert(kept2.drop_last() =~= kept);
                assert(digits_val(kept2) == digits_val(kept) * 10 + digit_val(c));
                assert(all_digits(kept2)) by {
                    assert(forall|k: int|
                        0 <= k < kept2.len() ==> kept2[k] == #[trigger] v@[from as int + k]);
                }
                lemma_digits_val_bounds(kept2);
                lemma_pow10_mono((cnt + 1) as nat, 7);
                lemma_pow10_vals();
            }
            acc = acc * 10 + d;
            cnt = cnt + 1;
        }
        i = i + 1;
    }
    (i, acc, cnt)
}

/// Where the scans stopped short of the end, no decomposition of the body
/// fits the grammar.
proof fn lemma_body_garbage(
    s: Seq<char>,
    start: int,
    int_end: int,
    has_dot: bool,
    frac_start: int,
    i: int,
)
    requires
        0 <= start <= int_end <= i < s.len(),
        all_digits(s.subrange(start, int_end)),
        !is_digit(s[i]),
        !has_dot ==> i == int_end && s[i] != '.',
        has_dot ==> int_end < s.len() && s[int_end] == '.' && frac_start == int_end + 1
            && frac_start <= i && all_digits(s.subrange(frac_start, i)),
    ensures
        !body_ok(s.skip(start)),
{
    let t = s.skip(start);
    let p = i - start;
    assert(forall|k: int| 0 <= k < t.len() ==> #[trigger] t[k] == s[start + k]);
    assert(!is_digit(t[p]));
    let iv = s.subrange(start, int_end);
    assert(forall|k: int| 0 <= k < int_end - start ==> is_digit(#[trigger] t[k])) by {
        assert(forall|k: int| 0 <= k < int_end - start ==> t[k] == #[trigger] iv[k]);
    }
    if !has_dot {
        assert(!body_ok(t)) by {
            if t.len() >= 1 && all_digits(t) {
                assert(is_digit(t[p]));
            } else if body_ok(t) {
                let j = choose|j: int|
                    #![trigger t[j]]
                    0 <= j < t.len() && t[j] == '.' && all_digits(t.take(j)) && all_digits(
                        t.skip(j + 1),
                    );
                if j < p {
                    assert(is_digit(t[j]));
                } else if j > p {
                    assert(t.take(j)[p] == t[p]);
                    assert(is_digit(t[p]));
                }
            }
        }
    } else {
        let jd = int_end - start;
        assert(t[jd] == '.');
        assert(p > jd);
        assert forall|k: int| jd < k < p implies is_digit(#[trigger] t[k]) by {
            let fr = s.subrange(frac_start, i);
            assert(t[k] == s[start + k]);
            assert(fr[k - jd - 1] == s[frac_start + (k - jd - 1)]);
            assert(is_digit(fr[k - jd - 1]));
        }
        assert(!body_ok(t)) by {
            if t.len() >= 1 && all_digits(t) {
                assert(is_digit(t[jd]));
            } else if body_ok(t) {
                let j = choose|j: int|
                    #![trigger t[j]]
                    0 <= j < t.len() && t[j] == '.' && all_digits(t.take(j)) && all_digits(
                        t.skip(j + 1),
                    );
                if j == jd {
                    assert(t.skip(j + 1)[p - j - 1] == t[p]);
                    assert(is_digit(t[p]));
                } else if j < jd {
                    assert(is_digit(t[j]));
                } else {
                    assert(t.take(j)[jd] == t[jd]);
                    assert(is_digit(t[jd]));
                }
            }
        }
    }
}

/// A body that is one run of digits is valid, and worth the run's value.
proof fn lemma_body_nodot(s: Seq<char>, start: int)
    requires
        0 <= start < s.len(),
        all_digits(s.subrange(start, s.len() as int)),
    ensures
        body_ok(s.skip(start)),
        body_val_scaled(s.skip(start)) == digits_val(s.subrange(start, s.len() as int)) * pow10(
            frac_digits(),
        ),
{
    let t = s.skip(start);
    assert(t =~= s.subrange(start, s.len() as int));
}

/// A body of digits, a point, and more digits is valid, and worth the
/// integer digits' value plus the scaled fractional digits' value.
proof fn lemma_body_dot(s: Seq<char>, start: int, dot: int)
    requires
        0 <= start <= dot < s.len(),
        s.len() - start >= 2,
        s[dot] == '.',
        all_digits(s.subrange(start, dot)),
        all_digits(s.subrange(dot + 1, s.len() as int)),
    ensures
        body_ok(s.skip(start)),
        body_val_scaled(s.skip(start)) == digits_val(s.subrange(start, dot)) * pow10(frac_digits())
            + frac_val_scaled(s.subrange(dot + 1, s.len() as int)),
{
    let t = s.skip(start);
    let j = dot - start;
    let iv = s.subrange(start, dot);
    let fv = s.subrange(dot + 1, s.len() as int);
    assert(forall|k: int| 0 <= k < t.len() ==> #[trigger] t[k] == s[start + k]);
    assert(t[j] == '.');
    assert(t.take(j) =~= iv);
    assert(t.skip(j + 1) =~= fv);
    assert(body_ok(t)) by {
        assert(0 <= j < t.len() && t[j] == '.' && all_digits(t.take(j)) && all_digits(
            t.skip(j + 1),
        ));
    }
    assert(!all_digits(t)) by {
        assert(!is_digit('.'));
    }
    let jc = dot_index(t);
    assert(0 <= jc < t.len() && t[jc] == '.') by {
        assert(0 <= j < t.len() && t[j] == '.');
    }
    assert(jc == j) by {
        if jc < j {
            assert(t.take(j)[jc] == t[jc]);
            assert(is_digit(t[jc]));
        } else if jc > j {
            assert(t.skip(j + 1)[jc - j - 1] == t[jc]);
            assert(is_digit(t[jc]));
        }
    }
}

/// The kept digits, padded with zeros up to `frac_digits()` places, are the
/// scaled value of the whole fractional run, and stay under one whole unit.
proof fn lemma_frac_val(f: Seq<char>, cnt: int, acc: int)
    requires
        all_digits(f),
        cnt == if f.len() <= 7 {
            f.len() as int
        } else {
            7int
        },
        acc == digits_val(f.take(cnt)),
    ensures
        0 <= acc * pow10((7 - cnt) as nat),
        frac_val_scaled(f) == acc * pow10((7 - cnt) as nat),
        acc * pow10((7 - cnt) as nat) < pow10(7),
{
    lemma_pow10_vals();
    assert(all_digits(f.take(cnt))) by {
        assert(forall|k: int| 0 <= k < cnt ==> f.take(cnt)[k] == #[trigger] f[k]);
    }
    lemma_digits_val_bounds(f.take(cnt));
    lemma_pow10_adds(cnt as nat, (7 - cnt) as nat);
    assert(acc * pow10((7 - cnt) as nat) >= 0 && acc * pow10((7 - cnt) as nat) < pow10(cnt as nat)
        * pow10((7 - cnt) as nat)) by (nonlinear_arith)
        requires
            0 <= acc < pow10(cnt as nat),
            pow10((7 - cnt) as nat) >= 1,
    ;
    if f.len() >= 7 {
        assert(frac_val_scaled(f) == digits_val(f.take(7)));
        assert(pow10(0) == 1);
    } else {
        assert(f.take(cnt) =~= f);
        assert(frac_val_scaled(f) == digits_val(f) * pow10((7 - f.len()) as nat));
    }
}

/// A valid body's scaled value is never negative.
pub proof fn lemma_body_val_nonneg(t: Seq<char>)
    requires
        body_ok(t),
    ensures
        body_val_scaled(t) >= 0,
{
    lemma_pow10_vals();
    if all_digits(t) {
        lemma_digits_val_bounds(t);
        assert(digits_val(t) * pow10(7) >= 0) by (nonlinear_arith)
            requires
                digits_val(t) >= 0,
                pow10(7) >= 1,
        ;
    } else {
        let j0 = choose|j: int|
            #![trigger t[j]]
            0 <= j < t.len() && t[j] == '.' && all_digits(t.take(j)) && all_digits(t.skip(j + 1));
        let jc = dot_index(t);
        assert(0 <= jc < t.len() && t[jc] == '.') by {
            assert(t[j0] == '.');
        }
        assert(jc == j0) by {
            if jc < j0 {
                assert(t.take(j0)[jc] == t[jc]);
                assert(is_digit(t[jc]));
            } else if jc > j0 {
                assert(t.skip(j0 + 1)[jc - j0 - 1] == t[jc]);
                assert(is_digit(t[jc]));
            }
        }
        lemma_digits_val_bounds(t.take(j0));
        assert(digits_val(t.take(j0)) * pow10(7) >= 0) by (nonlinear_arith)
            requires
                digits_val(t.take(j0)) >= 0,
                pow10(7) >= 1,
        ;
        let f = t.skip(j0 + 1);
        if f.len() >= 7 {
            assert(all_digits(f.take(7))) by {
                assert(forall|k: int| 0 <= k < 7 ==> f.take(7)[k] == #[trigger] f[k]);
            }
            lemma_digits_val_bounds(f.take(7));
        } else {
            lemma_digits_val_bounds(f);
            assert(digits_val(f) * pow10((7 - f.len()) as nat) >= 0) by (nonlinear_arith)
                requires
                    digits_val(f) >= 0,
                    pow10((7 - f.len()) as nat) >= 0,
            ;
        }
    }
}

/// Parses `s` as a signed decimal literal. Returns the sign and the
/// magnitude scaled by `pow10(frac_digits())`, truncated beyond
/// `frac_digits()` fractional digits and saturated at `MAG_CAP`.
pub fn parse_scaled(s: &str) -> (r: Option<(bool, u64)>)
    ensures
        r is Some <==> parse_ok(s@),
        r is Some ==> r.unwrap().0 == parse_neg(s@),
        r is Some ==> r.unwrap().1 as int == sat_mag(parse_mag(s@)),
{
    let v = chars_vec(s);
    let n = v.len();
    let mut i: usize = 0;
    let mut neg = false;
    if n >= 1 {
        let c0 = v[0];
        if c0 == '+' || c0 == '-' {
            neg = c0 == '-';
            i = 1;
        }
    }
    let start = i;
    let ghost t = s@.skip(start as int);
    proof {
        assert(neg == parse_neg(s@));
        if start == 0 {
            assert(t =~= s@);
        }
        assert(parse_ok(s@) == body_ok(t));
        assert(parse_mag(s@) == body_val_scaled(t));
    }
    let (int_end, int_acc) = scan_digits(&v, i);
    i = int_end;
    let mut has_dot = false;
    let mut frac_start = int_end;
    let mut frac_acc: u64 = 0;
    let mut frac_cnt: u64 = 0;
    if i < n && v[i] == '.' {
        has_dot = true;
        frac_start = int_end + 1;
        let (fe, fa, fc) = scan_frac(&v, frac_start);
        i = fe;
        frac_acc = fa;
        frac_cnt = fc;
    }
    if i < n {
        // a character that fits no part of the grammar
        proof {
            lemma_body_garbage(s@, start as int, int_end as int, has_dot, frac_start as int,
                i as int);
        }
        return None;
    }
    let int_len = int_end - start;
    let frac_len = i - frac_start;
    if int_len == 0 && (!has_dot || frac_len == 0) {
        // no digits at all
        proof {
            assert(!body_ok(t)) by {
                if !has_dot {
                    assert(t.len() == 0);
                } else {
                    assert(t.len() == 1);
                    assert(t[0] == '.');
                    assert(!is_digit('.'));
                }
            }
        }
        return None;
    }
    // the scans covered the whole body: assemble the scaled magnitude
    let ghost iv = s@.subrange(start as int, int_end as int);
    let ghost fv = s@.subrange(frac_start as int, n as int);
    proof {
        lemma_pow10_vals();
        lemma_digits_val_bounds(iv);
        if !has_dot {
            lemma_body_nodot(s@, start as int);
        } else {
            lemma_body_dot(s@, start as int, int_end as int);
            assert(fv.take(frac_cnt as int) =~= s@.subrange(
                frac_start as int,
                frac_start as int + frac_cnt as int,
            ));
            lemma_frac_val(fv, frac_cnt as int, frac_acc as int);
        }
    }
    let pad = 7 - frac_cnt;
    let frac7 = frac_acc * pow10_u64(pad);
    let base = int_acc * 10_000_000;
    let mag_raw = base + frac7;
    let mag = if mag_raw > MAG_CAP {
        MAG_CAP
    } else {
        mag_raw
    };
    proof {
        lemma_pow10_vals();
        let dv = digits_val(iv);
        let frv: int = if has_dot {
            frac_val_scaled(fv)
        } else {
            0
        };
        assert(frac7 as int == frv && 0 <= frv < pow10(7)) by {
            if !has_dot {
                assert(frac_acc == 0 && frac_cnt == 0);
            }
        }
        assert(body_val_scaled(t) == dv * pow10(7) + frv);
        if dv > MAG_CAP as int {
            assert(int_acc == MAG_CAP);
            assert(dv * pow10(7) >= dv) by (nonlinear_arith)
                requires
                    dv >= 0,
                    pow10(7) >= 1,
            ;
            assert(mag == MAG_CAP);
            assert(sat_mag(body_val_scaled(t)) == MAG_CAP as int);
        } else {
            assert(int_acc as int == dv);
            assert(mag_raw as int == body_val_scaled(t));
        }
    }
    Some((neg, mag))
}

} // verus!
