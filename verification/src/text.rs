//! Character-sequence helpers shared by the prompt, transcript and protocol
//! code: Unicode whitespace trimming, ASCII case folding, substring search and
//! decimal rendering.
use vstd::prelude::*;
use vstd::string::*;

verus! {

/// `char::is_whitespace`: the characters with the Unicode `White_Space` property.
pub open spec fn is_ws(c: char) -> bool {
    let u = c as u32;
    ||| 0x09 <= u <= 0x0d
    ||| u == 0x20
    ||| u == 0x85
    ||| u == 0xa0
    ||| u == 0x1680
    ||| 0x2000 <= u <= 0x200a
    ||| u == 0x2028
    ||| u == 0x2029
    ||| u == 0x202f
    ||| u == 0x205f
    ||| u == 0x3000
}

/// Executable whitespace test.
pub fn char_is_ws(c: char) -> (r: bool)
    ensures
        r == is_ws(c),
{
    let u = c as u32;
    (0x09 <= u && u <= 0x0d) || u == 0x20 || u == 0x85 || u == 0xa0 || u == 0x1680 || (0x2000
        <= u && u <= 0x200a) || u == 0x2028 || u == 0x2029 || u == 0x202f || u == 0x205f || u
        == 0x3000
}

/// The characters of a string slice, in order.
pub fn chars_of(s: &str) -> (r: Vec<char>)
    ensures
        r@ == s@,
{
    let mut r: Vec<char> = Vec::new();
    for c in it: s.chars()
        invariant
            r@ == it.seq().take(it.index() as int),
            it.seq() == s@,
    {
        r.push(c);
    }
    r
}


/// `String::push`: appends one character to the string.
#[verifier::external_body]
pub(crate) fn push_char(s: &mut String, c: char)
    ensures
        final(s)@ == old(s)@.push(c),
{
    s.push(c);
}

/// A string holding exactly the given characters.
pub fn string_from_chars(cs: &[char]) -> (r: String)
    ensures
        r@ == cs@,
{
    let mut r = String::new();
    let n = cs.len();
    let mut i: usize = 0;
    while i < n
        invariant
            n == cs@.len(),
            i <= n,
            r@ == cs@.subrange(0, i as int),
        decreases n - i,
    {
        push_char(&mut r, cs[i]);
        assert(cs@.subrange(0, i + 1) == cs@.subrange(0, i as int).push(cs@[i as int]));
        i = i + 1;
    }
    assert(cs@.subrange(0, n as int) == cs@);
    r
}

/// An owned copy of a string slice.
pub fn owned(s: &str) -> (r: String)
    ensures
        r@ == s@,
{
    s.to_owned()
}

/// Character-wise equality of two string slices.
pub fn str_eq(a: &str, b: &str) -> (r: bool)
    ensures
        r == (a@ == b@),
{
    let ca = chars_of(a);
    let cb = chars_of(b);
    if ca.len() != cb.len() {
        return false;
    }
    let n = ca.len();
    let mut i: usize = 0;
    while i < n
        invariant
            n == ca@.len(),
            n == cb@.len(),
            ca@ == a@,
            cb@ == b@,
            i <= n,
            forall|k: int| 0 <= k < i ==> ca@[k] == cb@[k],
        decreases n - i,
    {
        if ca[i] != cb[i] {
            return false;
        }
        i = i + 1;
    }
    assert(ca@ =~= cb@);
    true
}

/// `str::trim_start`: the sequence without its leading whitespace.
pub open spec fn trim_start(s: Seq<char>) -> Seq<char>
    decreases s.len(),
{
    if s.len() > 0 && is_ws(s[0]) {
        trim_start(s.drop_first())
    } else {
        s
    }
}

/// `str::trim_end`: the sequence without its trailing whitespace.
pub open spec fn trim_end(s: Seq<char>) -> Seq<char>
    decreases s.len(),
{
    if s.len() > 0 && is_ws(s.last()) {
        trim_end(s.drop_last())
    } else {
        s
    }
}

/// `str::trim`: the sequence without leading and trailing whitespace.
pub open spec fn trim(s: Seq<char>) -> Seq<char> {
    trim_end(trim_start(s))
}

/// Every character of the sequence is whitespace.
pub open spec fn all_ws(s: Seq<char>) -> bool {
    forall|i: int| 0 <= i < s.len() ==> is_ws(#[trigger] s[i])
}

proof fn lemma_trim_start_suffix(s: Seq<char>, i: int)
    requires
        0 <= i <= s.len(),
        all_ws(s.subrange(0, i)),
    ensures
        trim_start(s) == trim_start(s.subrange(i, s.len() as int)),
    decreases i,
{
    if i > 0 {
        assert(is_ws(s.subrange(0, i)[0]));
        let t = s.drop_first();
        assert(all_ws(t.subrange(0, i - 1))) by {
            assert forall|k: int| 0 <= k < i - 1 implies is_ws(#[trigger] t.subrange(0, i - 1)[k]) by {
                assert(t.subrange(0, i - 1)[k] == s.subrange(0, i)[k + 1]);
            }
        }
        lemma_trim_start_suffix(t, i - 1);
        assert(t.subrange(i - 1, t.len() as int) =~= s.subrange(i, s.len() as int));
    } else {
        assert(s.subrange(0, s.len() as int) =~= s);
    }
}

proof fn lemma_trim_end_prefix(s: Seq<char>, j: int)
    requires
        0 <= j <= s.len(),
        all_ws(s.subrange(j, s.len() as int)),
    ensures
        trim_end(s) == trim_end(s.subrange(0, j)),
    decreases s.len() - j,
{
    if j < s.len() {
        assert(is_ws(s.subrange(j, s.len() as int)[s.len() - 1 - j]));
        let t = s.drop_last();
        assert(all_ws(t.subrange(j, t.len() as int))) by {
            assert forall|k: int| 0 <= k < t.len() - j implies is_ws(
                #[trigger] t.subrange(j, t.len() as int)[k],
            ) by {
                assert(t.subrange(j, t.len() as int)[k] == s.subrange(j, s.len() as int)[k]);
            }
        }
        lemma_trim_end_prefix(t, j);
        assert(t.subrange(0, j) =~= s.subrange(0, j));
    } else {
        assert(s.subrange(0, j) =~= s);
    }
}

/// The bounds `(start, end)` of the trimmed part of a character sequence.
pub fn trim_bounds(cs: &[char]) -> (r: (usize, usize))
    ensures
        r.0 <= r.1 <= cs@.len(),
        cs@.subrange(r.0 as int, r.1 as int) == trim(cs@),
{
    let n = cs.len();
    let mut i: usize = 0;
    while i < n && char_is_ws(cs[i])
        invariant
            n == cs@.len(),
            i <= n,
            all_ws(cs@.subrange(0, i as int)),
        decreases n - i,
    {
        assert(cs@.subrange(0, i + 1) =~= cs@.subrange(0, i as int).push(cs@[i as int]));
        i = i + 1;
    }
    proof {
        lemma_trim_start_suffix(cs@, i as int);
        let t = cs@.subrange(i as int, n as int);
        if t.len() > 0 {
            assert(t[0] == cs@[i as int]);
        }
        assert(trim_start(t) == t);
    }
    let mut j: usize = n;
    while j > i && char_is_ws(cs[j - 1])
        invariant
            n == cs@.len(),
            i <= j <= n,
            all_ws(cs@.subrange(j as int, n as int)),
        decreases j,
    {
        assert(cs@.subrange(j - 1, n as int) =~= seq![cs@[j - 1]] + cs@.subrange(j as int, n as int));
        j = j - 1;
    }
    proof {
        let t = cs@.subrange(i as int, n as int);
        assert(t.subrange(j - i, t.len() as int) =~= cs@.subrange(j as int, n as int));
        lemma_trim_end_prefix(t, j - i);
        let u = t.subrange(0, j - i);
        assert(u =~= cs@.subrange(i as int, j as int));
        if u.len() > 0 {
            assert(u.last() == cs@[j - 1]);
        }
        assert(trim_end(u) == u);
    }
    (i, j)
}

/// `str::trim` into an owned string.
pub fn trimmed(s: &str) -> (r: String)
    ensures
        r@ == trim(s@),
{
    let cs = chars_of(s);
    let (i, j) = trim_bounds(cs.as_slice());
    let mut r = String::new();
    let mut k: usize = i;
    while k < j
        invariant
            cs@ == s@,
            i <= k <= j <= cs@.len(),
            r@ == cs@.subrange(i as int, k as int),
        decreases j - k,
    {
        push_char(&mut r, cs[k]);
        assert(cs@.subrange(i as int, k + 1) =~= cs@.subrange(i as int, k as int).push(cs@[k as int]));
        k = k + 1;
    }
    r
}

/// `s.trim().is_empty()`: the string is empty or whitespace only.
pub fn is_blank(s: &str) -> (r: bool)
    ensures
        r == (trim(s@).len() == 0),
{
    let cs = chars_of(s);
    let (i, j) = trim_bounds(cs.as_slice());
    i == j
}

/// `p` occurs in `s` at position `i`.
pub open spec fn occurs_at(s: Seq<char>, p: Seq<char>, i: int) -> bool {
    0 <= i && i + p.len() <= s.len() && s.subrange(i, i + p.len()) == p
}

/// `str::contains` with a string pattern.
pub open spec fn contains_seq(s: Seq<char>, p: Seq<char>) -> bool {
    exists|i: int| #[trigger] occurs_at(s, p, i)
}

/// `str::starts_with` with a string pattern.
pub open spec fn starts_with(s: Seq<char>, p: Seq<char>) -> bool {
    occurs_at(s, p, 0)
}

/// Whether `p` occurs in `cs` at position `i`.
pub fn occurs_at_exec(cs: &[char], p: &[char], i: usize) -> (r: bool)
    ensures
        r == occurs_at(cs@, p@, i as int),
{
    if i > cs.len() || p.len() > cs.len() - i {
        return false;
    }
    let m = p.len();
    let mut k: usize = 0;
    while k < m
        invariant
            m == p@.len(),
            i + m <= cs.len(),
            k <= m,
            forall|t: int| 0 <= t < k ==> cs@[i + t] == p@[t],
        decreases m - k,
    {
        if cs[i + k] != p[k] {
            assert(cs@.subrange(i as int, i + m)[k as int] != p@[k as int]);
            return false;
        }
        k = k + 1;
    }
    assert(cs@.subrange(i as int, i + m) =~= p@);
    true
}

/// `s.starts_with(p)`.
pub fn str_starts_with(s: &str, p: &str) -> (r: bool)
    ensures
        r == starts_with(s@, p@),
{
    let cs = chars_of(s);
    let ps = chars_of(p);
    occurs_at_exec(cs.as_slice(), ps.as_slice(), 0)
}

/// Substring search over character slices.
pub fn chars_contain(cs: &[char], ps: &[char]) -> (r: bool)
    ensures
        r == contains_seq(cs@, ps@),
{
    let n = cs.len();
    let mut i: usize = 0;
    while i < n
        invariant
            n == cs@.len(),
            i <= n,
            forall|t: int| 0 <= t < i ==> !occurs_at(cs@, ps@, t),
        decreases n - i,
    {
        if occurs_at_exec(cs, ps, i) {
            return true;
        }
        i = i + 1;
    }
    if occurs_at_exec(cs, ps, n) {
        return true;
    }
    assert forall|t: int| !occurs_at(cs@, ps@, t) by {
        if 0 <= t < n {
        } else if t > n {
        }
    }
    false
}

/// `s.contains(p)`.
pub fn str_contains(s: &str, p: &str) -> (r: bool)
    ensures
        r == contains_seq(s@, p@),
{
    let cs = chars_of(s);
    let ps = chars_of(p);
    chars_contain(cs.as_slice(), ps.as_slice())
}

/// `char::to_ascii_lowercase`.
pub open spec fn ascii_lower_char(c: char) -> char {
    if 'A' <= c <= 'Z' {
        ((c as u32) + 32) as char
    } else {
        c
    }
}

/// `str::to_ascii_lowercase`.
pub open spec fn ascii_lower(s: Seq<char>) -> Seq<char> {
    s.map_values(|c: char| ascii_lower_char(c))
}

/// Executable `char::to_ascii_lowercase`.
pub fn char_ascii_lower(c: char) -> (r: char)
    ensures
        r == ascii_lower_char(c),
{
    if 'A' <= c && c <= 'Z' {
        let u = (c as u8) + 32;
        u as char
    } else {
        c
    }
}

/// `s.to_ascii_lowercase()`.
pub fn str_ascii_lower(s: &str) -> (r: String)
    ensures
        r@ == ascii_lower(s@),
{
    let cs = chars_of(s);
    let n = cs.len();
    let mut r = String::new();
    let mut i: usize = 0;
    while i < n
        invariant
            n == cs@.len(),
            cs@ == s@,
            i <= n,
            r@ == ascii_lower(s@.subrange(0, i as int)),
        decreases n - i,
    {
        let c = char_ascii_lower(cs[i]);
        push_char(&mut r, c);
        assert(ascii_lower(s@.subrange(0, i + 1)) =~= ascii_lower(s@.subrange(0, i as int)).push(c));
        i = i + 1;
    }
    assert(s@.subrange(0, n as int) =~= s@);
    r
}

/// The decimal digit character for `d < 10`.
pub open spec fn digit_char(d: nat) -> char {
    ((d + 48) as u32) as char
}

/// The decimal rendering of a natural number, without sign or leading zeros.
pub open spec fn decimal(n: nat) -> Seq<char>
    decreases n,
{
    if n < 10 {
        seq![digit_char(n)]
    } else {
        decimal(n / 10).push(digit_char(n % 10))
    }
}

/// The decimal rendering of `n` is a non-empty run of digits that reads back as `n`.
pub proof fn lemma_decimal(n: nat)
    ensures
        decimal(n).len() >= 1,
        all_digits(decimal(n)),
        digits_value(decimal(n)) == n,
    decreases n,
{
    let c = digit_char(n % 10);
    assert((c as u32) == (n % 10) + 48);
    if n >= 10 {
        lemma_decimal(n / 10);
        let d = decimal(n);
        assert(d.drop_last() =~= decimal(n / 10));
        assert forall|i: int| 0 <= i < d.len() implies is_digit(#[trigger] d[i]) by {
            if i < d.len() - 1 {
                assert(d[i] == decimal(n / 10)[i]);
            }
        }
        assert((n / 10) * 10 + n % 10 == n) by (nonlinear_arith);
        assert(d.last() == c);
        assert(digits_value(d) == digits_value(d.drop_last()) * 10 + ((c as u32) - 48) as nat);
    } else {
        let d = decimal(n);
        assert(d.drop_last() =~= Seq::<char>::empty());
        assert(d.last() == c);
        assert(digits_value(d) == digits_value(d.drop_last()) * 10 + ((c as u32) - 48) as nat);
    }
}

/// Appends the decimal rendering of `n`.
pub fn push_decimal(s: &mut String, n: u128)
    ensures
        final(s)@ == old(s)@ + decimal(n as nat),
    decreases n,
{
    if n >= 10 {
        push_decimal(s, n / 10);
    }
    let d = (n % 10) as u8;
    let c = (d + 48) as char;
    assert(c == digit_char((n % 10) as nat));
    push_char(s, c);
}

/// The decimal rendering of `n` as a string.
pub fn decimal_string(n: u128) -> (r: String)
    ensures
        r@ == decimal(n as nat),
{
    let mut r = String::new();
    push_decimal(&mut r, n);
    r
}

/// An ASCII decimal digit.
pub open spec fn is_digit(c: char) -> bool {
    '0' <= c <= '9'
}

/// The number written by a sequence of decimal digits.
pub open spec fn digits_value(s: Seq<char>) -> nat
    decreases s.len(),
{
    if s.len() == 0 {
        0
    } else {
        digits_value(s.drop_last()) * 10 + ((s.last() as u32) - 48) as nat
    }
}

/// The sequence without a leading `+`.
pub open spec fn strip_plus(s: Seq<char>) -> Seq<char> {
    if s.len() > 0 && s[0] == '+' {
        s.drop_first()
    } else {
        s
    }
}

/// Every character is an ASCII decimal digit.
pub open spec fn all_digits(d: Seq<char>) -> bool {
    forall|i: int| 0 <= i < d.len() ==> is_digit(#[trigger] d[i])
}

/// The digits of an unsigned integer literal as `FromStr` for unsigned
/// integers reads it: an optional `+` followed by at least one ASCII digit.
pub open spec fn unsigned_digits(s: Seq<char>) -> Option<Seq<char>> {
    let d = strip_plus(s);
    if d.len() > 0 && all_digits(d) {
        Some(d)
    } else {
        None
    }
}

/// `str::parse` into an unsigned integer type whose largest value is `max`.
pub open spec fn parse_unsigned(s: Seq<char>, max: nat) -> Option<nat> {
    match unsigned_digits(s) {
        Some(d) => if digits_value(d) <= max {
            Some(digits_value(d))
        } else {
            None
        },
        None => None,
    }
}

proof fn lemma_digits_value_prefix(s: Seq<char>, k: int)
    requires
        0 <= k <= s.len(),
        forall|i: int| 0 <= i < s.len() ==> is_digit(#[trigger] s[i]),
    ensures
        digits_value(s.subrange(0, k)) <= digits_value(s),
    decreases s.len() - k,
{
    if k < s.len() {
        let t = s.drop_last();
        assert forall|i: int| 0 <= i < t.len() implies is_digit(#[trigger] t[i]) by {
            assert(t[i] == s[i]);
        }
        lemma_digits_value_prefix(t, k);
        assert(t.subrange(0, k) =~= s.subrange(0, k));
        assert(digits_value(t) <= digits_value(s)) by {
            assert(is_digit(s.last()));
        }
    } else {
        assert(s.subrange(0, k) =~= s);
    }
}

/// Parses an unsigned integer no larger than `max`, as `str::parse` does.
pub fn parse_unsigned_chars(cs: &[char], max: u64) -> (r: Option<u64>)
    ensures
        match r {
            Some(v) => parse_unsigned(cs@, max as nat) == Some(v as nat),
            None => parse_unsigned(cs@, max as nat) is None,
        },
{
    let n = cs.len();
    let start: usize = if n > 0 && cs[0] == '+' {
        1
    } else {
        0
    };
    let ghost d = strip_plus(cs@);
    assert(d =~= cs@.subrange(start as int, n as int));
    if start >= n {
        return None;
    }
    let mut acc: u64 = 0;
    let mut i: usize = start;
    assert(cs@.subrange(start as int, start as int) =~= Seq::<char>::empty());
    while i < n
        invariant
            n == cs@.len(),
            start < n,
            start <= i <= n,
            d == cs@.subrange(start as int, n as int),
            d == strip_plus(cs@),
            acc == digits_value(cs@.subrange(start as int, i as int)),
            acc <= max,
            forall|k: int| start <= k < i ==> is_digit(#[trigger] cs@[k]),
        decreases n - i,
    {
        let c = cs[i];
        if !('0' <= c && c <= '9') {
            assert(!is_digit(d[i - start]));
            assert(!all_digits(d));
            return None;
        }
        let dv = ((c as u32) - 48) as u64;
        assert(cs@.subrange(start as int, i + 1).drop_last() =~= cs@.subrange(start as int, i as int));
        if dv > max || acc > (max - dv) / 10 {
            proof {
                assert(acc * 10 + dv > max) by (nonlinear_arith)
                    requires
                        dv > max || acc > (max - dv) / 10,
                        dv <= 9,
                        acc >= 0,
                ;
                if all_digits(d) {
                    lemma_digits_value_prefix(d, i + 1 - start);
                    assert(d.subrange(0, i + 1 - start) =~= cs@.subrange(start as int, i + 1));
                }
            }
            return None;
        }
        proof {
            assert(acc * 10 + dv <= max) by (nonlinear_arith)
                requires
                    acc <= (max - dv) / 10,
                    dv <= max,
            ;
        }
        acc = acc * 10 + dv;
        i = i + 1;
    }
    assert(all_digits(d)) by {
        assert forall|k: int| 0 <= k < d.len() implies is_digit(#[trigger] d[k]) by {
            assert(d[k] == cs@[start + k]);
        }
    }
    Some(acc)
}

/// Joins the parts with the separator between consecutive parts.
pub open spec fn join(parts: Seq<Seq<char>>, sep: Seq<char>) -> Seq<char>
    decreases parts.len(),
{
    if parts.len() == 0 {
        Seq::empty()
    } else if parts.len() == 1 {
        parts[0]
    } else {
        join(parts.drop_last(), sep) + sep + parts.last()
    }
}

/// The characters of each string.
pub open spec fn strings_view(v: Seq<String>) -> Seq<Seq<char>> {
    v.map_values(|s: String| s@)
}

/// `parts.join(sep)`.
pub fn join_strings(parts: &Vec<String>, sep: &str) -> (r: String)
    ensures
        r@ == join(strings_view(parts@), sep@),
{
    let mut r = String::new();
    let n = parts.len();
    let mut i: usize = 0;
    while i < n
        invariant
            n == parts@.len(),
            i <= n,
            r@ == join(strings_view(parts@.subrange(0, i as int)), sep@),
        decreases n - i,
    {
        let ghost before = strings_view(parts@.subrange(0, i as int));
        let ghost after = strings_view(parts@.subrange(0, i + 1));
        assert(after.drop_last() =~= before);
        if i > 0 {
            r.append(sep);
        }
        r.append(parts[i].as_str());
        assert(r@ =~= join(after, sep@));
        i = i + 1;
    }
    assert(parts@.subrange(0, n as int) =~= parts@);
    r
}

proof fn lemma_trim_start_shape(s: Seq<char>)
    ensures
        exists|i: int|
            0 <= i <= s.len() && trim_start(s) == s.subrange(i, s.len() as int) && all_ws(
                s.subrange(0, i),
            ) && (i < s.len() ==> !is_ws(s[i])),
    decreases s.len(),
{
    if s.len() > 0 && is_ws(s[0]) {
        let t = s.drop_first();
        lemma_trim_start_shape(t);
        let i = choose|i: int|
            0 <= i <= t.len() && trim_start(t) == t.subrange(i, t.len() as int) && all_ws(
                t.subrange(0, i),
            ) && (i < t.len() ==> !is_ws(t[i]));
        assert(t.subrange(i, t.len() as int) =~= s.subrange(i + 1, s.len() as int));
        assert forall|k: int| 0 <= k < i + 1 implies is_ws(#[trigger] s.subrange(0, i + 1)[k]) by {
            if k > 0 {
                assert(s.subrange(0, i + 1)[k] == t.subrange(0, i)[k - 1]);
            }
        }
        assert(i + 1 < s.len() ==> s[i + 1] == t[i]);
    } else {
        assert(s.subrange(0, s.len() as int) =~= s);
        assert(s.subrange(0, 0) =~= Seq::<char>::empty());
    }
}

proof fn lemma_trim_end_shape(s: Seq<char>)
    ensures
        exists|j: int|
            0 <= j <= s.len() && trim_end(s) == s.subrange(0, j) && all_ws(
                s.subrange(j, s.len() as int),
            ) && (j > 0 ==> !is_ws(s[j - 1])),
    decreases s.len(),
{
    if s.len() > 0 && is_ws(s.last()) {
        let t = s.drop_last();
        lemma_trim_end_shape(t);
        let j = choose|j: int|
            0 <= j <= t.len() && trim_end(t) == t.subrange(0, j) && all_ws(
                t.subrange(j, t.len() as int),
            ) && (j > 0 ==> !is_ws(t[j - 1]));
        assert(t.subrange(0, j) =~= s.subrange(0, j));
        assert forall|k: int| 0 <= k < s.len() - j implies is_ws(
            #[trigger] s.subrange(j, s.len() as int)[k],
        ) by {
            if j + k < t.len() {
                assert(s.subrange(j, s.len() as int)[k] == t.subrange(j, t.len() as int)[k]);
            }
        }
        assert(j > 0 ==> s[j - 1] == t[j - 1]);
    } else {
        assert(s.subrange(0, s.len() as int) =~= s);
        assert(s.subrange(s.len() as int, s.len() as int) =~= Seq::<char>::empty());
    }
}

/// Law: trimming removes exactly the leading and trailing whitespace: the
/// result is the part of `s` between `i` and `j`, everything before `i` and
/// after `j` is whitespace, and the result, when not empty, neither starts
/// nor ends with whitespace.
pub proof fn law_trim_removes_only_surrounding_whitespace(s: Seq<char>)
    ensures
        exists|i: int, j: int|
            0 <= i <= j <= s.len() && trim(s) == s.subrange(i, j) && all_ws(s.subrange(0, i))
                && all_ws(s.subrange(j, s.len() as int)) && (i < j ==> !is_ws(s[i]) && !is_ws(
                s[j - 1],
            )),
{
    lemma_trim_start_shape(s);
    let i = choose|i: int|
        0 <= i <= s.len() && trim_start(s) == s.subrange(i, s.len() as int) && all_ws(
            s.subrange(0, i),
        ) && (i < s.len() ==> !is_ws(s[i]));
    let t = s.subrange(i, s.len() as int);
    lemma_trim_end_shape(t);
    let j = choose|j: int|
        0 <= j <= t.len() && trim_end(t) == t.subrange(0, j) && all_ws(t.subrange(j, t.len() as int))
            && (j > 0 ==> !is_ws(t[j - 1]));
    assert(t.subrange(0, j) =~= s.subrange(i, i + j));
    assert(t.subrange(j, t.len() as int) =~= s.subrange(i + j, s.len() as int));
    if j > 0 {
        assert(t[0] == s[i]);
        assert(t[j - 1] == s[i + j - 1]);
        if j == 1 {
        } else {
            assert(!is_ws(t[0])) by {
                if is_ws(t[0]) {
                    assert(s[i] == t[0]);
                }
            }
        }
    }
    assert(0 <= i <= i + j <= s.len() && trim(s) == s.subrange(i, i + j));
}

/// Law: a number written in decimal reads back as itself, whenever it is
/// within the bound.
pub proof fn law_decimal_reads_back(n: nat, max: nat)
    ensures
        n <= max ==> parse_unsigned(decimal(n), max) == Some(n),
        n > max ==> parse_unsigned(decimal(n), max) is None,
{
    lemma_decimal(n);
    let d = decimal(n);
    assert(is_digit(d[0]));
    assert(strip_plus(d) == d);
}

} // verus!
