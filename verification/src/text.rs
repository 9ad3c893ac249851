//! Character-level helpers shared by the parsers of this crate: Unicode
//! whitespace, trimming, splitting, and decimal numerals.

use vstd::prelude::*;

verus! {

// ---------------------------------------------------------------- specs

/// `c` has the Unicode `White_Space` property (the set that `char::is_whitespace` tests).
pub open spec fn is_ws(c: char) -> bool {
    let n = c as u32;
    ||| 0x9 <= n <= 0xD
    ||| n == 0x20
    ||| n == 0x85
    ||| n == 0xA0
    ||| n == 0x1680
    ||| 0x2000 <= n <= 0x200A
    ||| n == 0x2028
    ||| n == 0x2029
    ||| n == 0x202F
    ||| n == 0x205F
    ||| n == 0x3000
}

/// `s` without its leading whitespace.
pub open spec fn trim_start(s: Seq<char>) -> Seq<char>
    decreases s.len(),
{
    if s.len() > 0 && is_ws(s[0]) {
        trim_start(s.drop_first())
    } else {
        s
    }
}

/// `s` without its trailing whitespace.
pub open spec fn trim_end(s: Seq<char>) -> Seq<char>
    decreases s.len(),
{
    if s.len() > 0 && is_ws(s.last()) {
        trim_end(s.drop_last())
    } else {
        s
    }
}

/// `s` without leading and trailing whitespace (what `str::trim` returns).
pub open spec fn trim(s: Seq<char>) -> Seq<char> {
    trim_end(trim_start(s))
}

pub open spec fn is_digit(c: char) -> bool {
    '0' <= c && c <= '9'
}

pub open spec fn all_digits(s: Seq<char>) -> bool {
    forall|i: int| 0 <= i < s.len() ==> #[trigger] is_digit(s[i])
}

/// The numeric value of the decimal digit `c`.
pub open spec fn digit_value(c: char) -> nat {
    (c as u32 - 48) as nat
}

/// The value of a string of decimal digits (most significant first).
pub open spec fn digits_value(s: Seq<char>) -> nat
    decreases s.len(),
{
    if s.len() == 0 {
        0
    } else {
        digits_value(s.drop_last()) * 10 + digit_value(s.last())
    }
}

/// The digit character of `d < 10`.
pub open spec fn digit_char(d: nat) -> char {
    (d + 48) as char
}

/// The shortest decimal numeral of `n`.
pub open spec fn decimal(n: nat) -> Seq<char>
    decreases n,
{
    if n < 10 {
        seq![digit_char(n)]
    } else {
        decimal(n / 10).push(digit_char(n % 10))
    }
}

/// The decimal numeral of a signed integer, with a leading `-` when negative.
pub open spec fn decimal_int(n: int) -> Seq<char> {
    if n < 0 {
        seq!['-'] + decimal((-n) as nat)
    } else {
        decimal(n as nat)
    }
}

/// A nonempty run of digits whose value is at most `max`.
pub open spec fn digits_up_to(s: Seq<char>, max: nat) -> Option<nat> {
    if s.len() > 0 && all_digits(s) && digits_value(s) <= max {
        Some(digits_value(s))
    } else {
        None
    }
}

/// `s` without one leading `+`, if it has one.
pub open spec fn drop_plus(s: Seq<char>) -> Seq<char> {
    if s.len() > 0 && s[0] == '+' {
        s.drop_first()
    } else {
        s
    }
}

/// What `str::parse::<u64>` gives: an optional `+`, then digits, in range.
pub open spec fn parse_u64_spec(s: Seq<char>) -> Option<u64> {
    match digits_up_to(drop_plus(s), u64::MAX as nat) {
        Some(v) => Some(v as u64),
        None => None,
    }
}

/// What `str::parse::<usize>` gives: an optional `+`, then digits, in range.
pub open spec fn parse_usize_spec(s: Seq<char>) -> Option<usize> {
    match digits_up_to(drop_plus(s), usize::MAX as nat) {
        Some(v) => Some(v as usize),
        None => None,
    }
}

/// What `str::parse::<i32>` gives: an optional `+` or `-`, then digits, in range.
pub open spec fn parse_i32_spec(s: Seq<char>) -> Option<i32> {
    if s.len() > 0 && s[0] == '-' {
        match digits_up_to(s.drop_first(), 0x8000_0000) {
            Some(v) => Some((-v) as i32),
            None => None,
        }
    } else {
        match digits_up_to(drop_plus(s), 0x7fff_ffff) {
            Some(v) => Some(v as i32),
            None => None,
        }
    }
}

/// The pieces of `s` between the occurrences of `sep` (what `str::split` yields).
pub open spec fn split_on(s: Seq<char>, sep: char) -> Seq<Seq<char>>
    decreases s.len(),
{
    if s.len() == 0 {
        seq![Seq::empty()]
    } else {
        let rest = split_on(s.drop_last(), sep);
        if s.last() == sep {
            rest.push(Seq::empty())
        } else {
            rest.update(rest.len() - 1, rest.last().push(s.last()))
        }
    }
}

// ---------------------------------------------------------------- lemmas

pub proof fn lemma_split_on_nonempty(s: Seq<char>, sep: char)
    ensures
        split_on(s, sep).len() >= 1,
    decreases s.len(),
{
    if s.len() > 0 {
        lemma_split_on_nonempty(s.drop_last(), sep);
    }
}

proof fn lemma_trim_start_skip(s: Seq<char>, i: int)
    requires
        0 <= i <= s.len(),
        forall|j: int| 0 <= j < i ==> is_ws(#[trigger] s[j]),
    ensures
        trim_start(s) == trim_start(s.subrange(i, s.len() as int)),
    decreases i,
{
    if i > 0 {
        assert(s.drop_first().subrange(i - 1, s.drop_first().len() as int) =~= s.subrange(
            i,
            s.len() as int,
        ));
        assert forall|j: int| 0 <= j < i - 1 implies is_ws(#[trigger] s.drop_first()[j]) by {
            assert(s.drop_first()[j] == s[j + 1]);
        }
        lemma_trim_start_skip(s.drop_first(), i - 1);
    } else {
        assert(s.subrange(0, s.len() as int) =~= s);
    }
}

proof fn lemma_trim_end_take(s: Seq<char>, k: int)
    requires
        0 <= k <= s.len(),
        forall|j: int| k <= j < s.len() ==> is_ws(#[trigger] s[j]),
    ensures
        trim_end(s) == trim_end(s.subrange(0, k)),
    decreases s.len() - k,
{
    if k < s.len() {
        assert(s.drop_last().subrange(0, k) =~= s.subrange(0, k));
        lemma_trim_end_take(s.drop_last(), k);
    } else {
        assert(s.subrange(0, k) =~= s);
    }
}

pub proof fn lemma_digits_value_push(s: Seq<char>, c: char)
    ensures
        digits_value(s.push(c)) == digits_value(s) * 10 + digit_value(c),
{
    assert(s.push(c).drop_last() =~= s);
}

/// A prefix of a run of digits has no greater value than the whole run.
pub proof fn lemma_digits_value_prefix(s: Seq<char>, k: int)
    requires
        0 <= k <= s.len(),
        all_digits(s),
    ensures
        digits_value(s.subrange(0, k)) <= digits_value(s),
    decreases s.len() - k,
{
    if k < s.len() {
        assert(s.drop_last().subrange(0, k) =~= s.subrange(0, k));
        assert forall|i: int| 0 <= i < s.drop_last().len() implies #[trigger] is_digit(
            s.drop_last()[i],
        ) by {
            assert(is_digit(s[i]));
        }
        lemma_digits_value_prefix(s.drop_last(), k);
        assert(digits_value(s) == digits_value(s.drop_last()) * 10 + digit_value(s.last()));
    } else {
        assert(s.subrange(0, k) =~= s);
    }
}

/// The numeral of `n` is a run of digits whose value is `n`.
pub proof fn lemma_decimal_digits(n: nat)
    ensures
        all_digits(decimal(n)),
        digits_value(decimal(n)) == n,
        decimal(n).len() >= 1,
        decimal(n)[0] != '+' && decimal(n)[0] != '-',
    decreases n,
{
    if n < 10 {
        assert(decimal(n) =~= seq![digit_char(n)]);
        assert(seq![digit_char(n)].drop_last() =~= Seq::<char>::empty());
        assert(digit_char(n) as u32 == n + 48);
        assert(digit_value(digit_char(n)) == n);
        assert(digits_value(Seq::<char>::empty()) == 0);
        assert(digits_value(seq![digit_char(n)]) == n);
        assert(is_digit(decimal(n)[0]));
    } else {
        lemma_decimal_digits(n / 10);
        let d = decimal(n / 10);
        lemma_digits_value_push(d, digit_char(n % 10));
        assert(digit_char(n % 10) as u32 == n % 10 + 48);
        assert(n == (n / 10) * 10 + n % 10);
        assert(digit_value(digit_char(n % 10)) == n % 10);
        assert(digits_value(decimal(n)) == n);
        assert forall|i: int| 0 <= i < decimal(n).len() implies #[trigger] is_digit(
            decimal(n)[i],
        ) by {
            if i < d.len() {
                assert(decimal(n)[i] == d[i]);
            }
        }
        assert(decimal(n)[0] == d[0]);
    }
}

/// Writing a 32-bit integer in decimal and parsing it back gives it again.
pub proof fn lemma_parse_decimal_i32(n: i32)
    ensures
        parse_i32_spec(decimal_int(n as int)) == Some(n),
{
    if n < 0 {
        let m = (-n) as nat;
        lemma_decimal_digits(m);
        let s = decimal_int(n as int);
        assert(s[0] == '-');
        assert(s.drop_first() =~= decimal(m));
    } else {
        lemma_decimal_digits(n as nat);
    }
}

/// Writing a 64-bit unsigned integer in decimal and parsing it back gives it again.
pub proof fn lemma_parse_decimal_u64(n: u64)
    ensures
        parse_u64_spec(decimal(n as nat)) == Some(n),
{
    lemma_decimal_digits(n as nat);
}

// ---------------------------------------------------------------- exec

/// Whether `c` is Unicode whitespace (as `char::is_whitespace` decides).
pub fn is_whitespace(c: char) -> (r: bool)
    ensures
        r == is_ws(c),
{
    let n = c as u32;
    (0x9 <= n && n <= 0xD) || n == 0x20 || n == 0x85 || n == 0xA0 || n == 0x1680 || (0x2000 <= n
        && n <= 0x200A) || n == 0x2028 || n == 0x2029 || n == 0x202F || n == 0x205F || n == 0x3000
}

/// The characters of `s`, in order.
pub fn chars_of(s: &str) -> (v: Vec<char>)
    ensures
        v@ == s@,
{
    broadcast use vstd::string::group_string_axioms;

    let mut v: Vec<char> = Vec::new();
    for c in it: s.chars()
        invariant
            v@ == it.seq().take(it.index()),
            it.seq() == s@,
    {
        v.push(c);
    }
    v
}

/// `String::push`: appends `c` to `s`, as its documentation says.
#[verifier::external_body]
fn push_char(s: &mut String, c: char)
    ensures
        final(s)@ == old(s)@.push(c),
{
    s.push(c)
}

/// Appends `t` to `s`.
pub fn push_str(s: &mut String, t: &str)
    ensures
        final(s)@ == old(s)@ + t@,
{
    s.append(t);
}

/// The string made of the characters `v[lo..hi]`.
pub fn string_from(v: &[char], lo: usize, hi: usize) -> (r: String)
    requires
        lo <= hi <= v@.len(),
    ensures
        r@ == v@.subrange(lo as int, hi as int),
{
    let mut r = String::new();
    let mut i = lo;
    while i < hi
        invariant
            lo <= i <= hi <= v@.len(),
            r@ == v@.subrange(lo as int, i as int),
        decreases hi - i,
    {
        push_char(&mut r, v[i]);
        assert(v@.subrange(lo as int, i + 1) =~= v@.subrange(lo as int, i as int).push(v@[i as int]));
        i += 1;
    }
    r
}

/// The bounds `lo..hi` of `v` with surrounding whitespace left out.
pub fn trim_bounds(v: &[char]) -> (r: (usize, usize))
    ensures
        r.0 <= r.1 <= v@.len(),
        v@.subrange(r.0 as int, r.1 as int) == trim(v@),
{
    let n = v.len();
    let mut lo: usize = 0;
    while lo < n && is_whitespace(v[lo])
        invariant
            lo <= n == v@.len(),
            forall|j: int| 0 <= j < lo ==> is_ws(#[trigger] v@[j]),
        decreases n - lo,
    {
        lo += 1;
    }
    proof {
        lemma_trim_start_skip(v@, lo as int);
        let t = v@.subrange(lo as int, n as int);
        if lo < n {
            assert(t[0] == v@[lo as int]);
        }
        assert(trim_start(t) == t);
    }
    let ghost t = v@.subrange(lo as int, n as int);
    let mut hi: usize = n;
    while hi > lo && is_whitespace(v[hi - 1])
        invariant
            lo <= hi <= n == v@.len(),
            t == v@.subrange(lo as int, n as int),
            forall|j: int| (hi - lo) <= j < t.len() ==> is_ws(#[trigger] t[j]),
        decreases hi - lo,
    {
        hi -= 1;
    }
    proof {
        lemma_trim_end_take(t, (hi - lo) as int);
        let u = t.subrange(0, (hi - lo) as int);
        assert(u =~= v@.subrange(lo as int, hi as int));
        if hi > lo {
            assert(u.last() == v@[hi - 1]);
        }
        assert(trim_end(u) == u);
    }
    (lo, hi)
}

/// `s` without leading and trailing whitespace (`str::trim`).
pub fn trim_str(s: &str) -> (r: String)
    ensures
        r@ == trim(s@),
{
    let v = chars_of(s);
    let (lo, hi) = trim_bounds(v.as_slice());
    string_from(v.as_slice(), lo, hi)
}

/// Whether `s` is empty or all whitespace.
pub fn is_blank(s: &str) -> (r: bool)
    ensures
        r == (trim(s@).len() == 0),
{
    let v = chars_of(s);
    let (lo, hi) = trim_bounds(v.as_slice());
    lo == hi
}

/// Whether the two strings hold the same characters.
pub fn same_chars(a: &str, b: &str) -> (r: bool)
    ensures
        r == (a@ == b@),
{
    let va = chars_of(a);
    let vb = chars_of(b);
    if va.len() != vb.len() {
        return false;
    }
    let mut i: usize = 0;
    while i < va.len()
        invariant
            va@ == a@,
            vb@ == b@,
            va@.len() == vb@.len(),
            i <= va@.len(),
            forall|j: int| 0 <= j < i ==> va@[j] == vb@[j],
        decreases va@.len() - i,
    {
        if va[i] != vb[i] {
            return false;
        }
        i += 1;
    }
    assert(va@ =~= vb@);
    true
}

/// The value of the digit run `v[lo..]` if it is nonempty, all digits, and at most `max`.
pub fn parse_digits(v: &[char], lo: usize, max: u64) -> (r: Option<u64>)
    requires
        lo <= v@.len(),
    ensures
        match digits_up_to(v@.subrange(lo as int, v@.len() as int), max as nat) {
            Some(x) => r == Some(x as u64),
            None => r is None,
        },
{
    let ghost s = v@.subrange(lo as int, v@.len() as int);
    let n = v.len();
    if lo == n {
        return None;
    }
    let mut acc: u64 = 0;
    let mut i = lo;
    while i < n
        invariant
            lo <= i <= n == v@.len(),
            s == v@.subrange(lo as int, n as int),
            acc as nat == digits_value(s.subrange(0, i - lo)),
            acc <= max,
            forall|j: int| 0 <= j < i - lo ==> #[trigger] is_digit(s[j]),
        decreases n - i,
    {
        let c = v[i];
        if !('0' <= c && c <= '9') {
            assert(!is_digit(s[i - lo]));
            return None;
        }
        let d = (c as u32 - 48) as u64;
        if d > max {
            proof {
                if all_digits(s) {
                    lemma_digits_value_prefix(s, i - lo + 1);
                }
                assert(s.subrange(0, i - lo + 1) =~= s.subrange(0, i - lo).push(c));
                lemma_digits_value_push(s.subrange(0, i - lo), c);
            }
            return None;
        }
        proof {
            assert(s.subrange(0, i - lo + 1) =~= s.subrange(0, i - lo).push(c));
            lemma_digits_value_push(s.subrange(0, i - lo), c);
        }
        if acc > (max - d) / 10 {
            // the value so far already exceeds `max`
            proof {
                assert((acc as int) * 10 + (d as int) > max) by (nonlinear_arith)
                    requires
                        acc > (max - d) / 10,
                        d <= 9,
                        d <= max,
                ;
                let k = i - lo + 1;
                if all_digits(s) {
                    lemma_digits_value_prefix(s, k);
                }
            }
            return None;
        }
        proof {
            assert((acc as int) * 10 + (d as int) <= max) by (nonlinear_arith)
                requires
                    acc <= (max - d) / 10,
                    d <= max,
            ;
        }
        acc = acc * 10 + d;
        i += 1;
    }
    assert(s.subrange(0, n - lo) =~= s);
    Some(acc)
}

/// `str::parse::<u64>`.
pub fn parse_u64(s: &str) -> (r: Option<u64>)
    ensures
        r == parse_u64_spec(s@),
{
    let v = chars_of(s);
    let lo: usize = if v.len() > 0 && v[0] == '+' { 1 } else { 0 };
    assert(v@.subrange(lo as int, v@.len() as int) =~= drop_plus(s@));
    parse_digits(v.as_slice(), lo, u64::MAX)
}

/// `str::parse::<usize>`.
pub fn parse_usize(s: &str) -> (r: Option<usize>)
    ensures
        r == parse_usize_spec(s@),
{
    let v = chars_of(s);
    let lo: usize = if v.len() > 0 && v[0] == '+' { 1 } else { 0 };
    assert(v@.subrange(lo as int, v@.len() as int) =~= drop_plus(s@));
    match parse_digits(v.as_slice(), lo, usize::MAX as u64) {
        Some(x) => Some(x as usize),
        None => None,
    }
}

/// `str::parse::<i32>`.
pub fn parse_i32(s: &str) -> (r: Option<i32>)
    ensures
        r == parse_i32_spec(s@),
{
    let v = chars_of(s);
    if v.len() > 0 && v[0] == '-' {
        assert(v@.subrange(1, v@.len() as int) =~= s@.drop_first());
        match parse_digits(v.as_slice(), 1, 0x8000_0000) {
            Some(x) => Some((0 - (x as i64)) as i32),
            None => None,
        }
    } else {
        let lo: usize = if v.len() > 0 && v[0] == '+' { 1 } else { 0 };
        assert(v@.subrange(lo as int, v@.len() as int) =~= drop_plus(s@));
        match parse_digits(v.as_slice(), lo, 0x7fff_ffff) {
            Some(x) => Some(x as i32),
            None => None,
        }
    }
}

/// The decimal numeral of `n` (`u64::to_string`).
pub fn format_u64(n: u64) -> (r: String)
    ensures
        r@ == decimal(n as nat),
    decreases n,
{
    if n < 10 {
        let mut r = String::new();
        push_char(&mut r, ((n as u8) + 48) as char);
        assert(r@ =~= decimal(n as nat));
        r
    } else {
        let mut r = format_u64(n / 10);
        push_char(&mut r, (((n % 10) as u8) + 48) as char);
        r
    }
}

/// The decimal numeral of `n` (`i64::to_string`).
pub fn format_i64(n: i64) -> (r: String)
    ensures
        r@ == decimal_int(n as int),
{
    if n < 0 {
        let m: u64 = if n == i64::MIN { 0x8000_0000_0000_0000 } else { (0 - n) as u64 };
        let mut r = String::new();
        push_char(&mut r, '-');
        let d = format_u64(m);
        push_str(&mut r, d.as_str());
        assert(r@ =~= decimal_int(n as int));
        r
    } else {
        format_u64(n as u64)
    }
}

/// The pieces of `v` between commas, each trimmed (the items of a comma-separated list).
pub fn split_and_trim(v: &[char], sep: char) -> (r: Vec<String>)
    ensures
        r@.len() == split_on(v@, sep).len(),
        forall|i: int| 0 <= i < r@.len() ==> #[trigger] r@[i]@ == trim(split_on(v@, sep)[i]),
{
    let mut r: Vec<String> = Vec::new();
    let mut start: usize = 0;
    let mut i: usize = 0;
    let n = v.len();
    while i < n
        invariant
            start <= i <= n == v@.len(),
            r@.len() + 1 == split_on(v@.subrange(0, i as int), sep).len(),
            forall|j: int| 0 <= j < r@.len() ==> #[trigger] r@[j]@ == trim(
                split_on(v@.subrange(0, i as int), sep)[j],
            ),
            split_on(v@.subrange(0, i as int), sep).last() == v@.subrange(
                start as int,
                i as int,
            ),
        decreases n - i,
    {
        let ghost prev = split_on(v@.subrange(0, i as int), sep);
        proof {
            assert(v@.subrange(0, i + 1).drop_last() =~= v@.subrange(0, i as int));
            lemma_split_on_nonempty(v@.subrange(0, i as int), sep);
        }
        if v[i] == sep {
            let piece = string_from(v, start, i);
            let (lo, hi) = trim_bounds(piece_chars(&piece).as_slice());
            let t = string_from(piece_chars(&piece).as_slice(), lo, hi);
            r.push(t);
            start = i + 1;
            assert(v@.subrange(start as int, i + 1) =~= Seq::<char>::empty());
        } else {
            assert(v@.subrange(start as int, i + 1) =~= v@.subrange(start as int, i as int).push(
                v@[i as int],
            ));
        }
        i += 1;
    }
    assert(v@.subrange(0, n as int) =~= v@);
    proof {
        lemma_split_on_nonempty(v@, sep);
    }
    let piece = string_from(v, start, n);
    let pc = piece_chars(&piece);
    let (lo, hi) = trim_bounds(pc.as_slice());
    let t = string_from(pc.as_slice(), lo, hi);
    r.push(t);
    r
}

fn piece_chars(s: &String) -> (v: Vec<char>)
    ensures
        v@ == s@,
{
    chars_of(s.as_str())
}

} // verus!
