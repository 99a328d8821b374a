//! Text primitives shared by the admin forms: whitespace trimming with the
//! Unicode `White_Space` set, decimal parsing with `FromStr` semantics for
//! the integer widths the forms use, and decimal rendering.

use vstd::prelude::*;

verus! {

/// The Unicode `White_Space` property, which `str::trim` strips.
pub open spec fn is_ws(c: char) -> bool {
    let u = c as u32;
    ||| 0x09 <= u <= 0x0d
    ||| u == 0x20
    ||| u == 0x85
    ||| u == 0xa0
    ||| u == 0x1680
    ||| 0x2000 <= u <= 0x200a
    ||| u == 0x2028
    ||| u == 0x2029
    ||| u == 0x202f
    ||| u == 0x205f
    ||| u == 0x3000
}

/// Executable `is_ws`.
pub fn is_whitespace(c: char) -> (r: bool)
    ensures
        r == is_ws(c),
{
    let u = c as u32;
    (0x09 <= u && u <= 0x0d) || u == 0x20 || u == 0x85 || u == 0xa0 || u == 0x1680 || (0x2000 <= u
        && u <= 0x200a) || u == 0x2028 || u == 0x2029 || u == 0x202f || u == 0x205f || u == 0x3000
}

/// A sequence with leading and trailing whitespace removed.
pub open spec fn trim_seq(s: Seq<char>) -> Seq<char>
    decreases s.len(),
{
    if s.len() == 0 {
        s
    } else if is_ws(s[0]) {
        trim_seq(s.drop_first())
    } else if is_ws(s.last()) {
        trim_seq(s.drop_last())
    } else {
        s
    }
}

proof fn lemma_trim_front(s: Seq<char>, k: int)
    requires
        0 <= k <= s.len(),
        forall|i: int| 0 <= i < k ==> is_ws(#[trigger] s[i]),
    ensures
        trim_seq(s) == trim_seq(s.subrange(k, s.len() as int)),
    decreases k,
{
    if k > 0 {
        let t = s.drop_first();
        assert forall|i: int| 0 <= i < k - 1 implies is_ws(#[trigger] t[i]) by {
            assert(t[i] == s[i + 1]);
        }
        lemma_trim_front(t, k - 1);
        assert(t.subrange(k - 1, t.len() as int) =~= s.subrange(k, s.len() as int));
    } else {
        assert(s.subrange(0, s.len() as int) =~= s);
    }
}

proof fn lemma_trim_back(s: Seq<char>, j: int)
    requires
        1 <= j <= s.len(),
        !is_ws(s[0]),
        forall|i: int| j <= i < s.len() ==> is_ws(#[trigger] s[i]),
    ensures
        trim_seq(s) == trim_seq(s.subrange(0, j)),
    decreases s.len() - j,
{
    if j < s.len() {
        let t = s.drop_last();
        assert(is_ws(s[s.len() - 1]));
        assert forall|i: int| j <= i < t.len() implies is_ws(#[trigger] t[i]) by {
            assert(t[i] == s[i]);
        }
        lemma_trim_back(t, j);
        assert(t.subrange(0, j) =~= s.subrange(0, j));
    } else {
        assert(s.subrange(0, j) =~= s);
    }
}

/// Character-level trimming: the returned text is `trim_seq` of the input.
pub fn trim(s: &str) -> (r: String)
    ensures
        r@ == trim_seq(s@),
{
    let n = s.unicode_len();
    let mut i: usize = 0;
    while i < n && is_whitespace(s.get_char(i))
        invariant
            n == s@.len(),
            i <= n,
            forall|k: int| 0 <= k < i ==> is_ws(#[trigger] s@[k]),
        decreases n - i,
    {
        i = i + 1;
    }
    proof {
        lemma_trim_front(s@, i as int);
    }
    if i == n {
        proof {
            assert(s@.subrange(i as int, n as int).len() == 0);
        }
        return String::new();
    }
    let mut j: usize = n;
    while j > i + 1 && is_whitespace(s.get_char(j - 1))
        invariant
            n == s@.len(),
            i < n,
            i + 1 <= j <= n,
            forall|k: int| j <= k < n ==> is_ws(#[trigger] s@[k]),
        decreases j,
    {
        j = j - 1;
    }
    let ghost mid = s@.subrange(i as int, n as int);
    proof {
        assert(!is_ws(s@[i as int]));
        assert(mid[0] == s@[i as int]);
        assert forall|k: int| (j - i) <= k < mid.len() implies is_ws(#[trigger] mid[k]) by {
            assert(mid[k] == s@[k + i]);
        }
        lemma_trim_back(mid, (j - i) as int);
        let fin = mid.subrange(0, (j - i) as int);
        assert(fin =~= s@.subrange(i as int, j as int));
        assert(fin[0] == s@[i as int]);
        assert(fin.last() == s@[j - 1]);
        if j > i + 1 {
            assert(!is_ws(s@[j - 1]));
        }
    }
    let sub = s.substring_char(i, j);
    String::from_str(sub)
}


/// `c` is one of the ASCII digits `0`..`9`.
pub open spec fn is_digit(c: char) -> bool {
    '0' <= c <= '9'
}

/// The numeric value of a digit character.
pub open spec fn digit_value(c: char) -> int {
    (c as u32) - ('0' as u32)
}

/// Every character of `s` is a digit.
pub open spec fn all_digits(s: Seq<char>) -> bool {
    forall|i: int| 0 <= i < s.len() ==> is_digit(#[trigger] s[i])
}

/// The value of a digit string read in base ten.
pub open spec fn digits_value(s: Seq<char>) -> nat
    decreases s.len(),
{
    if s.len() == 0 {
        0
    } else {
        (digits_value(s.drop_last()) * 10 + digit_value(s.last())) as nat
    }
}

/// The integer that `FromStr` reads from `s`, before the width check: an
/// optional sign (`-` only when `signed`) followed by at least one digit.
pub open spec fn spec_parse_int(s: Seq<char>, signed: bool) -> Option<int> {
    if s.len() >= 2 && s[0] == '+' && all_digits(s.drop_first()) {
        Some(digits_value(s.drop_first()) as int)
    } else if signed && s.len() >= 2 && s[0] == '-' && all_digits(s.drop_first()) {
        Some(-(digits_value(s.drop_first()) as int))
    } else if s.len() >= 1 && all_digits(s) {
        Some(digits_value(s) as int)
    } else {
        None
    }
}

/// `str::parse::<i32>`.
pub open spec fn spec_parse_i32(s: Seq<char>) -> Option<i32> {
    match spec_parse_int(s, true) {
        Some(v) => if i32::MIN <= v <= i32::MAX { Some(v as i32) } else { None },
        None => None,
    }
}

/// `str::parse::<u32>`.
pub open spec fn spec_parse_u32(s: Seq<char>) -> Option<u32> {
    match spec_parse_int(s, false) {
        Some(v) => if 0 <= v <= u32::MAX { Some(v as u32) } else { None },
        None => None,
    }
}

/// `str::parse::<u64>`.
pub open spec fn spec_parse_u64(s: Seq<char>) -> Option<u64> {
    match spec_parse_int(s, false) {
        Some(v) => if 0 <= v <= u64::MAX { Some(v as u64) } else { None },
        None => None,
    }
}

proof fn lemma_digits_prefix_le(s: Seq<char>, k: int)
    requires
        0 <= k <= s.len(),
        all_digits(s),
    ensures
        digits_value(s.subrange(0, k)) <= digits_value(s),
    decreases s.len() - k,
{
    if k < s.len() {
        let t = s.drop_last();
        assert(all_digits(t)) by {
            assert forall|i: int| 0 <= i < t.len() implies is_digit(#[trigger] t[i]) by {
                assert(t[i] == s[i]);
            }
        }
        lemma_digits_prefix_le(t, k);
        assert(t.subrange(0, k) =~= s.subrange(0, k));
        assert(is_digit(s[s.len() - 1]));
    } else {
        assert(s.subrange(0, k) =~= s);
    }
}

/// Reads the digits of `s` from character `start` on; `Some(v)` exactly when
/// there is at least one character there, all of them digits, and their
/// value `v` does not exceed `bound`.
fn parse_digits(s: &str, start: usize, bound: u64) -> (r: Option<u64>)
    requires
        start <= s@.len(),
    ensures
        ({
            let d = s@.subrange(start as int, s@.len() as int);
            match r {
                Some(v) => d.len() >= 1 && all_digits(d) && v == digits_value(d) && v <= bound,
                None => !(d.len() >= 1 && all_digits(d) && digits_value(d) <= bound),
            }
        }),
{
    let n = s.unicode_len();
    let ghost d = s@.subrange(start as int, s@.len() as int);
    if start == n {
        return None;
    }
    let mut i: usize = start;
    let mut v: u64 = 0;
    while i < n
        invariant
            n == s@.len(),
            start <= i <= n,
            d == s@.subrange(start as int, n as int),
            all_digits(d.subrange(0, i - start)),
            v == digits_value(d.subrange(0, i - start)),
            v <= bound,
        decreases n - i,
    {
        let c = s.get_char(i);
        if !('0' <= c && c <= '9') {
            proof {
                assert(d[i - start] == c);
            }
            return None;
        }
        let dv = (c as u32 - '0' as u32) as u64;
        let ghost pre = d.subrange(0, i - start);
        let ghost nxt = d.subrange(0, i - start + 1);
        proof {
            assert(nxt.drop_last() =~= pre);
            assert(nxt.last() == c);
            assert(all_digits(nxt)) by {
                assert forall|k: int| 0 <= k < nxt.len() implies is_digit(#[trigger] nxt[k]) by {
                    if k < pre.len() {
                        assert(nxt[k] == pre[k]);
                    }
                }
            }
        }
        if dv > bound || v > (bound - dv) / 10 {
            proof {
                if dv <= bound {
                    let b = bound as int;
                    let x = dv as int;
                    let w = v as int;
                    assert(w * 10 + x > b) by (nonlinear_arith)
                        requires
                            w > (b - x) / 10,
                            0 <= x <= b,
                    ;
                }
                assert(digits_value(nxt) > bound);
                if all_digits(d) {
                    lemma_digits_prefix_le(d, i - start + 1);
                }
            }
            return None;
        }
        v = v * 10 + dv;
        i = i + 1;
    }
    proof {
        assert(d.subrange(0, n - start) =~= d);
    }
    Some(v)
}


/// `str::parse::<i32>` (the sign, digits and range rules of `FromStr`).
pub fn parse_i32(s: &str) -> (r: Option<i32>)
    ensures
        r == spec_parse_i32(s@),
{
    let n = s.unicode_len();
    if n == 0 {
        return None;
    }
    let c = s.get_char(0);
    if c == '+' || c == '-' {
        if n < 2 {
            return None;
        }
        let neg = c == '-';
        let bound: u64 = if neg { 2147483648 } else { 2147483647 };
        let m = parse_digits(s, 1, bound);
        proof {
            assert(s@.subrange(1, n as int) =~= s@.drop_first());
        }
        match m {
            Some(v) => {
                if neg {
                    Some((0 - v as i64) as i32)
                } else {
                    Some(v as i32)
                }
            },
            None => None,
        }
    } else {
        let m = parse_digits(s, 0, 2147483647);
        proof {
            assert(s@.subrange(0, n as int) =~= s@);
            assert(!is_digit('+') && !is_digit('-'));
            if s@.len() >= 2 && s@[0] == '+' {
                assert(false);
            }
        }
        match m {
            Some(v) => Some(v as i32),
            None => None,
        }
    }
}

/// Unsigned reading shared by `parse_u32` and `parse_u64`: value bounded by
/// `bound`, optional `+`, no `-`.
fn parse_unsigned(s: &str, bound: u64) -> (r: Option<u64>)
    ensures
        match spec_parse_int(s@, false) {
            Some(v) => if v <= bound { r == Some(v as u64) } else { r is None },
            None => r is None,
        },
{
    let n = s.unicode_len();
    if n == 0 {
        return None;
    }
    let c = s.get_char(0);
    if c == '+' {
        if n < 2 {
            return None;
        }
        proof {
            assert(s@.subrange(1, n as int) =~= s@.drop_first());
        }
        parse_digits(s, 1, bound)
    } else {
        proof {
            assert(s@.subrange(0, n as int) =~= s@);
            assert(!is_digit('+'));
        }
        parse_digits(s, 0, bound)
    }
}

/// `str::parse::<u32>`.
pub fn parse_u32(s: &str) -> (r: Option<u32>)
    ensures
        r == spec_parse_u32(s@),
{
    match parse_unsigned(s, 4294967295) {
        Some(v) => Some(v as u32),
        None => None,
    }
}

/// `str::parse::<u64>`.
pub fn parse_u64(s: &str) -> (r: Option<u64>)
    ensures
        r == spec_parse_u64(s@),
{
    parse_unsigned(s, 18446744073709551615)
}


/// The digit character for `d < 10`.
pub open spec fn digit_char(d: int) -> char {
    ((48 + d) as u8) as char
}

/// Base-ten rendering of a natural number, most significant digit first.
pub open spec fn spec_decimal(n: nat) -> Seq<char>
    decreases n,
{
    if n < 10 {
        seq![digit_char(n as int)]
    } else {
        spec_decimal(n / 10).push(digit_char((n % 10) as int))
    }
}

/// Rendering of an integer as `Display` writes it: a `-` before negative
/// values.
pub open spec fn spec_int_text(i: int) -> Seq<char> {
    if i < 0 {
        seq!['-'] + spec_decimal((-i) as nat)
    } else {
        spec_decimal(i as nat)
    }
}

fn push_decimal(v: &mut Vec<char>, n: u64)
    ensures
        final(v)@ == old(v)@ + spec_decimal(n as nat),
    decreases n,
{
    if n >= 10 {
        push_decimal(v, n / 10);
    }
    let d = (n % 10) as u8;
    v.push((48u8 + d) as char);
    proof {
        if n < 10 {
            assert(old(v)@ + spec_decimal(n as nat) =~= old(v)@.push(digit_char(n as int)));
        } else {
            assert(old(v)@ + spec_decimal(n as nat) =~= (old(v)@ + spec_decimal((n / 10) as nat)).push(
                digit_char((n % 10) as int),
            ));
        }
    }
}

/// `String: FromIterator<char>`: the string of the given characters, in
/// order.
#[verifier::external_body]
pub fn string_from_chars(cs: &Vec<char>) -> (r: String)
    ensures
        r@ == cs@,
{
    cs.iter().collect()
}

/// `u64::to_string`.
pub fn u64_text(n: u64) -> (r: String)
    ensures
        r@ == spec_decimal(n as nat),
{
    let mut v: Vec<char> = Vec::new();
    push_decimal(&mut v, n);
    proof {
        assert(Seq::<char>::empty() + spec_decimal(n as nat) =~= spec_decimal(n as nat));
    }
    string_from_chars(&v)
}

/// `i64::to_string` (also used for the narrower signed widths).
pub fn i64_text(n: i64) -> (r: String)
    ensures
        r@ == spec_int_text(n as int),
{
    let mut v: Vec<char> = Vec::new();
    if n < 0 {
        v.push('-');
        let m: u64 = if n == i64::MIN { 9223372036854775808u64 } else { (0 - n) as u64 };
        push_decimal(&mut v, m);
    } else {
        push_decimal(&mut v, n as u64);
        proof {
            assert(Seq::<char>::empty() + spec_decimal(n as nat) =~= spec_decimal(n as nat));
        }
    }
    string_from_chars(&v)
}


/// The text of a zero-padded decimal: `digits` preceded by zeros up to
/// `width` characters.
pub open spec fn zero_padded(digits: Seq<char>, width: nat) -> Seq<char> {
    if digits.len() >= width {
        digits
    } else {
        Seq::new((width - digits.len()) as nat, |i: int| '0') + digits
    }
}

pub(crate) fn push_zeros(out: &mut String, k: usize)
    ensures
        final(out)@ == old(out)@ + Seq::new(k as nat, |i: int| '0'),
{
    let mut i: usize = 0;
    while i < k
        invariant
            i <= k,
            out@ == old(out)@ + Seq::new(i as nat, |j: int| '0'),
        decreases k - i,
    {
        let ghost before = out@;
        out.append("0");
        proof {
            reveal_strlit("0");
            assert(out@ =~= old(out)@ + Seq::new((i + 1) as nat, |j: int| '0'));
        }
        i = i + 1;
    }
}

/// `n` in decimal, preceded by zeros up to `width` characters.
pub fn padded_text(n: u64, width: usize) -> (r: String)
    ensures
        r@ == zero_padded(spec_decimal(n as nat), width as nat),
{
    let digits = u64_text(n);
    let len = digits.unicode_len();
    let mut out = String::new();
    if len < width {
        push_zeros(&mut out, width - len);
    }
    out.append(digits.as_str());
    proof {
        if len >= width {
            assert(out@ =~= digits@);
        } else {
            assert(out@ =~= Seq::new((width - len) as nat, |i: int| '0') + digits@);
        }
    }
    out
}

/// Trimmed text has no whitespace at either end (or is empty).
pub proof fn lemma_trim_ends(s: Seq<char>)
    ensures
        trim_seq(s).len() == 0 || (!is_ws(trim_seq(s)[0]) && !is_ws(trim_seq(s).last())),
    decreases s.len(),
{
    if s.len() > 0 {
        if is_ws(s[0]) {
            lemma_trim_ends(s.drop_first());
        } else if is_ws(s.last()) {
            lemma_trim_ends(s.drop_last());
        }
    }
}

/// Trimming twice is trimming once: a value that was compared or sent
/// trimmed is unchanged by trimming it again.
pub proof fn lemma_trim_idempotent(s: Seq<char>)
    ensures
        trim_seq(trim_seq(s)) == trim_seq(s),
{
    lemma_trim_ends(s);
}

proof fn lemma_digit_char(d: int)
    requires
        0 <= d < 10,
    ensures
        is_digit(digit_char(d)),
        digit_value(digit_char(d)) == d,
        !is_ws(digit_char(d)),
        digit_char(d) != '+',
        digit_char(d) != '-',
{
    let c = digit_char(d);
    assert(c as u32 == 48 + d) by {
        let b: u8 = (48 + d) as u8;
        assert(b == 48 + d);
    }
}

/// The decimal rendering of `n` is a non-empty run of digits worth `n`.
pub proof fn lemma_decimal_digits(n: nat)
    ensures
        spec_decimal(n).len() >= 1,
        all_digits(spec_decimal(n)),
        digits_value(spec_decimal(n)) == n,
    decreases n,
{
    if n < 10 {
        lemma_digit_char(n as int);
        assert(spec_decimal(n).drop_last() =~= Seq::<char>::empty());
        assert(spec_decimal(n).last() == digit_char(n as int));
        assert(digits_value(spec_decimal(n)) == (digits_value(Seq::<char>::empty()) * 10 + digit_value(
            digit_char(n as int),
        )) as nat);
    } else {
        lemma_decimal_digits(n / 10);
        lemma_digit_char((n % 10) as int);
        let p = spec_decimal(n / 10);
        assert(spec_decimal(n).drop_last() =~= p);
        assert forall|i: int| 0 <= i < spec_decimal(n).len() implies is_digit(#[trigger] spec_decimal(n)[i]) by {
            if i < p.len() {
                assert(spec_decimal(n)[i] == p[i]);
            }
        }
        assert(spec_decimal(n).last() == digit_char((n % 10) as int));
        assert(digits_value(spec_decimal(n)) == (digits_value(p) * 10 + digit_value(
            digit_char((n % 10) as int),
        )) as nat);
        assert((n / 10) * 10 + n % 10 == n);
    }
}

/// A signed integer rendered as `Display` writes it reads back as itself
/// with `str::parse::<i32>` after trimming: what a form shows of a number
/// is sent back unchanged when it is not edited.
pub proof fn lemma_int_text_parses(n: i32)
    ensures
        trim_seq(spec_int_text(n as int)) == spec_int_text(n as int),
        spec_parse_i32(trim_seq(spec_int_text(n as int))) == Some(n),
{
    let t = spec_int_text(n as int);
    if n < 0 {
        let m = (-n) as nat;
        lemma_decimal_digits(m);
        let d = spec_decimal(m);
        assert(t.drop_first() =~= d);
        assert(t[0] == '-');
        assert(t.last() == d.last());
        lemma_digit_char(digit_value(d.last()));
        assert(d.last() == d[d.len() - 1]);
        assert(is_digit(d[d.len() - 1]));
        assert(!is_ws(t[0]));
        assert(!is_ws(t.last())) by {
            assert(is_digit(t.last()));
        }
    } else {
        lemma_decimal_digits(n as nat);
        assert(is_digit(t[0]));
        assert(is_digit(t[t.len() - 1]));
        assert(t.last() == t[t.len() - 1]);
    }
}

/// Character-wise equality of two strings.
pub fn str_eq(a: &str, b: &str) -> (r: bool)
    ensures
        r == (a@ == b@),
{
    let n = a.unicode_len();
    let m = b.unicode_len();
    if n != m {
        return false;
    }
    let mut i: usize = 0;
    while i < n
        invariant
            n == a@.len(),
            m == b@.len(),
            n == m,
            i <= n,
            forall|k: int| 0 <= k < i ==> a@[k] == b@[k],
        decreases n - i,
    {
        if a.get_char(i) != b.get_char(i) {
            return false;
        }
        i = i + 1;
    }
    proof {
        assert(a@ =~= b@);
    }
    true
}


/// Length of the run of non-whitespace characters that starts `s`.
pub open spec fn word_len(s: Seq<char>) -> nat
    decreases s.len(),
{
    if s.len() == 0 || is_ws(s[0]) {
        0
    } else {
        1 + word_len(s.drop_first())
    }
}

/// A word is never longer than its text, and starts with a character when
/// the text does not start with whitespace.
pub proof fn lemma_word_len_bound(s: Seq<char>)
    ensures
        word_len(s) <= s.len(),
        s.len() > 0 && !is_ws(s[0]) ==> word_len(s) >= 1,
    decreases s.len(),
{
    if s.len() > 0 && !is_ws(s[0]) {
        lemma_word_len_bound(s.drop_first());
    }
}

/// The words of `s` as `str::split_whitespace` yields them.
pub open spec fn words(s: Seq<char>) -> Seq<Seq<char>>
    decreases s.len(),
{
    if s.len() == 0 {
        Seq::empty()
    } else if is_ws(s[0]) {
        words(s.drop_first())
    } else {
        let n = word_len(s);
        proof {
            lemma_word_len_bound(s);
        }
        seq![s.subrange(0, n as int)] + words(s.subrange(n as int, s.len() as int))
    }
}

proof fn lemma_words_skip_ws(s: Seq<char>, k: int)
    requires
        0 <= k <= s.len(),
        forall|i: int| 0 <= i < k ==> is_ws(#[trigger] s[i]),
    ensures
        words(s) == words(s.subrange(k, s.len() as int)),
    decreases k,
{
    if k > 0 {
        let t = s.drop_first();
        assert forall|i: int| 0 <= i < k - 1 implies is_ws(#[trigger] t[i]) by {
            assert(t[i] == s[i + 1]);
        }
        lemma_words_skip_ws(t, k - 1);
        assert(t.subrange(k - 1, t.len() as int) =~= s.subrange(k, s.len() as int));
    } else {
        assert(s.subrange(0, s.len() as int) =~= s);
    }
}

proof fn lemma_word_len_is(s: Seq<char>, m: int)
    requires
        0 <= m <= s.len(),
        forall|i: int| 0 <= i < m ==> !is_ws(#[trigger] s[i]),
        m == s.len() || is_ws(s[m]),
    ensures
        word_len(s) == m,
    decreases m,
{
    if m > 0 {
        let t = s.drop_first();
        assert forall|i: int| 0 <= i < m - 1 implies !is_ws(#[trigger] t[i]) by {
            assert(t[i] == s[i + 1]);
        }
        if m < s.len() {
            assert(t[m - 1] == s[m]);
        }
        lemma_word_len_is(t, m - 1);
    }
}

/// Position of the first whitespace character at or after `i` (or the end).
fn skip_word(s: &str, i: usize, n: usize) -> (j: usize)
    requires
        n == s@.len(),
        i <= n,
    ensures
        i <= j <= n,
        forall|k: int| i <= k < j ==> !is_ws(#[trigger] s@[k]),
        j == n || is_ws(s@[j as int]),
{
    let mut j = i;
    while j < n && !is_whitespace(s.get_char(j))
        invariant
            n == s@.len(),
            i <= j <= n,
            forall|k: int| i <= k < j ==> !is_ws(#[trigger] s@[k]),
        decreases n - j,
    {
        j = j + 1;
    }
    j
}

/// Position of the first non-whitespace character at or after `i` (or
/// the end).
fn skip_space(s: &str, i: usize, n: usize) -> (j: usize)
    requires
        n == s@.len(),
        i <= n,
    ensures
        i <= j <= n,
        forall|k: int| i <= k < j ==> is_ws(#[trigger] s@[k]),
        j == n || !is_ws(s@[j as int]),
{
    let mut j = i;
    while j < n && is_whitespace(s.get_char(j))
        invariant
            n == s@.len(),
            i <= j <= n,
            forall|k: int| i <= k < j ==> is_ws(#[trigger] s@[k]),
        decreases n - j,
    {
        j = j + 1;
    }
    j
}

proof fn lemma_words_at(s: Seq<char>, a: int, b: int, c: int)
    requires
        0 <= a <= b <= c <= s.len(),
        forall|k: int| 0 <= k < a ==> is_ws(#[trigger] s[k]),
        a < s.len(),
        forall|k: int| a <= k < b ==> !is_ws(#[trigger] s[k]),
        b == s.len() || is_ws(s[b]),
        !is_ws(s[a]),
    ensures
        words(s) == seq![s.subrange(a, b)] + words(s.subrange(b, s.len() as int)),
{
    lemma_words_skip_ws(s, a);
    let t = s.subrange(a, s.len() as int);
    assert forall|k: int| 0 <= k < b - a implies !is_ws(#[trigger] t[k]) by {
        assert(t[k] == s[k + a]);
    }
    if b < s.len() {
        assert(t[b - a] == s[b]);
    }
    lemma_word_len_is(t, b - a);
    assert(t[0] == s[a]);
    assert(t.subrange(0, b - a) =~= s.subrange(a, b));
    assert(t.subrange(b - a, t.len() as int) =~= s.subrange(b, s.len() as int));
}

/// The second whitespace-separated word of `s`, when there is one
/// (`s.split_whitespace().nth(1)`).
pub fn second_word(s: &str) -> (r: Option<String>)
    ensures
        match r {
            Some(w) => words(s@).len() >= 2 && w@ == words(s@)[1],
            None => words(s@).len() < 2,
        },
{
    let n = s.unicode_len();
    let a = skip_space(s, 0, n);
    if a == n {
        proof {
            lemma_words_skip_ws(s@, a as int);
            assert(s@.subrange(a as int, n as int).len() == 0);
        }
        return None;
    }
    let b = skip_word(s, a, n);
    let c = skip_space(s, b, n);
    proof {
        lemma_words_at(s@, a as int, b as int, b as int);
        let rest = s@.subrange(b as int, n as int);
        assert forall|k: int| 0 <= k < c - b implies is_ws(#[trigger] rest[k]) by {
            assert(rest[k] == s@[k + b]);
        }
        lemma_words_skip_ws(rest, (c - b) as int);
        assert(rest.subrange((c - b) as int, rest.len() as int) =~= s@.subrange(c as int, n as int));
    }
    if c == n {
        proof {
            assert(s@.subrange(c as int, n as int).len() == 0);
        }
        return None;
    }
    let d = skip_word(s, c, n);
    proof {
        let tail = s@.subrange(c as int, n as int);
        assert forall|k: int| 0 <= k < d - c implies !is_ws(#[trigger] tail[k]) by {
            assert(tail[k] == s@[k + c]);
        }
        if d < n {
            assert(tail[d - c] == s@[d as int]);
        }
        assert(tail[0] == s@[c as int]);
        lemma_words_at(tail, 0, (d - c) as int, (d - c) as int);
        assert(tail.subrange(0, (d - c) as int) =~= s@.subrange(c as int, d as int));
    }
    let w = s.substring_char(c, d);
    Some(String::from_str(w))
}

} // verus!
