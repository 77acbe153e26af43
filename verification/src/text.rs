//! Character-level text functions with their specifications: ASCII case
//! folding, Unicode whitespace trimming, substring search, and decimal
//! rendering and parsing of unsigned integers.
use vstd::prelude::*;
use vstd::string::*;

verus! {

/// The characters of `s`, one by one.
pub fn chars_of(s: &str) -> (v: Vec<char>)
    ensures
        v@ == s@,
{
    let n = s.unicode_len();
    let mut v: Vec<char> = Vec::new();
    let mut i: usize = 0;
    while i < n
        invariant
            n == s@.len(),
            i <= n,
            v@ == s@.subrange(0, i as int),
        decreases n - i,
    {
        let c = s.get_char(i);
        v.push(c);
        i = i + 1;
        assert(v@ =~= s@.subrange(0, i as int));
    }
    assert(v@ =~= s@);
    v
}

/// Collects characters into a `String` (std's `FromIterator<&char>` for
/// `String`): the string holds exactly the characters of `v`, in order.
#[verifier::external_body]
pub(crate) fn string_of(v: &Vec<char>) -> (s: String)
    ensures
        s@ == v@,
{
    String::from_iter(v.iter())
}

/// A `String` holding the characters of `s`.
pub fn owned(s: &str) -> (r: String)
    ensures
        r@ == s@,
{
    String::from_str(s)
}

/// `a` followed by `b`.
pub fn concat2(a: &str, b: &str) -> (r: String)
    ensures
        r@ == a@ + b@,
{
    let mut r = String::from_str(a);
    r.append(b);
    r
}

/// `a`, `b` and `c` one after the other.
pub fn concat3(a: &str, b: &str, c: &str) -> (r: String)
    ensures
        r@ == a@ + b@ + c@,
{
    let mut r = String::from_str(a);
    r.append(b);
    r.append(c);
    r
}

/// Whether two texts hold the same characters.
pub fn str_eq(a: &str, b: &str) -> (r: bool)
    ensures
        r == (a@ == b@),
{
    let x = chars_of(a);
    let y = chars_of(b);
    if x.len() != y.len() {
        return false;
    }
    let mut i: usize = 0;
    while i < x.len()
        invariant
            x@ == a@,
            y@ == b@,
            x.len() == y.len(),
            i <= x.len(),
            forall|j: int| 0 <= j < i ==> x@[j] == y@[j],
        decreases x.len() - i,
    {
        if x[i] != y[i] {
            return false;
        }
        i = i + 1;
    }
    assert(x@ =~= y@);
    true
}

/// Unicode `White_Space`, the set that `char::is_whitespace` tests.
pub open spec fn is_ws(c: char) -> bool {
    let u = c as u32;
    ||| 0x9 <= u <= 0xD
    ||| u == 0x20
    ||| u == 0x85
    ||| u == 0xA0
    ||| u == 0x1680
    ||| 0x2000 <= u <= 0x200A
    ||| u == 0x2028
    ||| u == 0x2029
    ||| u == 0x202F
    ||| u == 0x205F
    ||| u == 0x3000
}

pub fn is_whitespace(c: char) -> (r: bool)
    ensures
        r == is_ws(c),
{
    let u = c as u32;
    (0x9 <= u && u <= 0xD) || u == 0x20 || u == 0x85 || u == 0xA0 || u == 0x1680 || (0x2000 <= u
        && u <= 0x200A) || u == 0x2028 || u == 0x2029 || u == 0x202F || u == 0x205F || u == 0x3000
}

pub open spec fn is_ascii_upper(c: char) -> bool {
    'A' <= c <= 'Z'
}

pub open spec fn is_ascii_lower(c: char) -> bool {
    'a' <= c <= 'z'
}

pub open spec fn is_ascii_digit(c: char) -> bool {
    '0' <= c <= '9'
}

pub open spec fn is_ascii_alpha(c: char) -> bool {
    is_ascii_upper(c) || is_ascii_lower(c)
}

pub open spec fn is_ascii_alnum(c: char) -> bool {
    is_ascii_alpha(c) || is_ascii_digit(c)
}

/// ASCII lowercase of one character; every other character is kept.
pub open spec fn lower_char(c: char) -> char {
    if is_ascii_upper(c) {
        ((c as u32) + 32) as char
    } else {
        c
    }
}

/// ASCII lowercase of a text (`str::to_ascii_lowercase`).
pub open spec fn lower(s: Seq<char>) -> Seq<char> {
    s.map_values(|c: char| lower_char(c))
}

pub fn to_lower_char(c: char) -> (r: char)
    ensures
        r == lower_char(c),
{
    if 'A' <= c && c <= 'Z' {
        let u = (c as u32) + 32;
        assert(0x61 <= u <= 0x7a);
        let b = u as u8;
        b as char
    } else {
        c
    }
}

pub fn to_ascii_lowercase(s: &str) -> (r: String)
    ensures
        r@ == lower(s@),
{
    let v = chars_of(s);
    let mut out: Vec<char> = Vec::new();
    let mut i: usize = 0;
    while i < v.len()
        invariant
            v@ == s@,
            i <= v.len(),
            out@ == lower(s@).subrange(0, i as int),
        decreases v.len() - i,
    {
        out.push(to_lower_char(v[i]));
        i = i + 1;
        assert(out@ =~= lower(s@).subrange(0, i as int));
    }
    assert(out@ =~= lower(s@));
    string_of(&out)
}

/// `s` without its leading whitespace.
pub open spec fn trim_start(s: Seq<char>) -> Seq<char>
    decreases s.len(),
{
    if s.len() > 0 && is_ws(s[0]) {
        trim_start(s.drop_first())
    } else {
        s
    }
}

/// `s` without its trailing whitespace.
pub open spec fn trim_end(s: Seq<char>) -> Seq<char>
    decreases s.len(),
{
    if s.len() > 0 && is_ws(s.last()) {
        trim_end(s.drop_last())
    } else {
        s
    }
}

/// `s` without leading and trailing whitespace (`str::trim`).
pub open spec fn trim(s: Seq<char>) -> Seq<char> {
    trim_end(trim_start(s))
}

proof fn lemma_trim_start_from(s: Seq<char>, i: int)
    requires
        0 <= i <= s.len(),
        forall|j: int| 0 <= j < i ==> is_ws(s[j]),
    ensures
        trim_start(s) == trim_start(s.subrange(i, s.len() as int)),
    decreases i,
{
    if i > 0 {
        assert(s.drop_first() =~= s.subrange(1, s.len() as int));
        let t = s.drop_first();
        assert forall|j: int| 0 <= j < i - 1 implies is_ws(t[j]) by {
            assert(t[j] == s[j + 1]);
        }
        lemma_trim_start_from(t, i - 1);
        assert(t.subrange(i - 1, t.len() as int) =~= s.subrange(i, s.len() as int));
    } else {
        assert(s.subrange(0, s.len() as int) =~= s);
    }
}

proof fn lemma_trim_end_to(s: Seq<char>, k: int)
    requires
        0 <= k <= s.len(),
        forall|j: int| k <= j < s.len() ==> is_ws(s[j]),
    ensures
        trim_end(s) == trim_end(s.subrange(0, k)),
    decreases s.len() - k,
{
    if k < s.len() {
        let t = s.drop_last();
        assert forall|j: int| k <= j < t.len() implies is_ws(t[j]) by {
            assert(t[j] == s[j]);
        }
        lemma_trim_end_to(t, k);
        assert(t.subrange(0, k) =~= s.subrange(0, k));
    } else {
        assert(s.subrange(0, k) =~= s);
    }
}

/// Index of the first character of `v` from `i` on that is not whitespace.
fn skip_ws(v: &Vec<char>, i: usize) -> (r: usize)
    requires
        i <= v.len(),
    ensures
        i <= r <= v.len(),
        forall|j: int| i <= j < r ==> is_ws(v@[j]),
        r < v.len() ==> !is_ws(v@[r as int]),
{
    let mut k = i;
    while k < v.len() && is_whitespace(v[k])
        invariant
            i <= k <= v.len(),
            forall|j: int| i <= j < k ==> is_ws(v@[j]),
        decreases v.len() - k,
    {
        k = k + 1;
    }
    k
}

/// `str::trim_start`.
pub fn trim_start_str(s: &str) -> (r: String)
    ensures
        r@ == trim_start(s@),
{
    let v = chars_of(s);
    let a = skip_ws(&v, 0);
    proof {
        lemma_trim_start_from(s@, a as int);
        let t = s@.subrange(a as int, s@.len() as int);
        if t.len() > 0 {
            assert(t[0] == s@[a as int]);
        }
    }
    let mut out: Vec<char> = Vec::new();
    let mut i = a;
    while i < v.len()
        invariant
            v@ == s@,
            a <= i <= v.len(),
            out@ == s@.subrange(a as int, i as int),
        decreases v.len() - i,
    {
        out.push(v[i]);
        i = i + 1;
        assert(out@ =~= s@.subrange(a as int, i as int));
    }
    string_of(&out)
}

/// `str::trim`.
pub fn trim_str(s: &str) -> (r: String)
    ensures
        r@ == trim(s@),
{
    let v = chars_of(s);
    let a = skip_ws(&v, 0);
    let mut b = v.len();
    while b > a && is_whitespace(v[b - 1])
        invariant
            v@ == s@,
            a <= b <= v.len(),
            forall|j: int| b <= j < v.len() ==> is_ws(v@[j]),
        decreases b,
    {
        b = b - 1;
    }
    let ghost t = s@.subrange(a as int, s@.len() as int);
    proof {
        lemma_trim_start_from(s@, a as int);
        if t.len() > 0 {
            assert(t[0] == s@[a as int]);
        }
        assert(trim_start(t) == t);
        assert forall|j: int| (b - a) <= j < t.len() implies is_ws(t[j]) by {
            assert(t[j] == s@[j + a]);
        }
        lemma_trim_end_to(t, b - a);
        let u = t.subrange(0, b - a);
        if u.len() > 0 {
            assert(u.last() == s@[b - 1]);
        }
        assert(trim_end(u) == u);
        assert(u =~= s@.subrange(a as int, b as int));
    }
    let mut out: Vec<char> = Vec::new();
    let mut i = a;
    while i < b
        invariant
            v@ == s@,
            a <= i <= b <= v.len(),
            out@ == s@.subrange(a as int, i as int),
        decreases b - i,
    {
        out.push(v[i]);
        i = i + 1;
        assert(out@ =~= s@.subrange(a as int, i as int));
    }
    string_of(&out)
}

/// `needle` occurs in `hay` at position `i`.
pub open spec fn occurs_at(hay: Seq<char>, needle: Seq<char>, i: int) -> bool {
    0 <= i && i + needle.len() <= hay.len() && hay.subrange(i, i + needle.len()) == needle
}

/// `needle` occurs somewhere in `hay` (`str::contains`).
pub open spec fn contains(hay: Seq<char>, needle: Seq<char>) -> bool {
    exists|i: int| occurs_at(hay, needle, i)
}

/// `hay` begins with `needle` (`str::starts_with`).
pub open spec fn starts_with(hay: Seq<char>, needle: Seq<char>) -> bool {
    occurs_at(hay, needle, 0)
}

fn matches_at(h: &Vec<char>, n: &Vec<char>, i: usize) -> (r: bool)
    requires
        i + n.len() <= h.len(),
    ensures
        r == occurs_at(h@, n@, i as int),
{
    let mut j: usize = 0;
    while j < n.len()
        invariant
            i + n.len() <= h.len(),
            j <= n.len(),
            forall|k: int| 0 <= k < j ==> h@[i + k] == n@[k],
        decreases n.len() - j,
    {
        if h[i + j] != n[j] {
            assert(h@.subrange(i as int, i + n.len())[j as int] != n@[j as int]);
            return false;
        }
        j = j + 1;
    }
    assert(h@.subrange(i as int, i + n.len()) =~= n@);
    true
}

pub fn find_str(hay: &str, needle: &str) -> (r: Option<usize>)
    ensures
        r is None <==> !contains(hay@, needle@),
        r matches Some(i) ==> occurs_at(hay@, needle@, i as int) && forall|j: int|
            0 <= j < i ==> !occurs_at(hay@, needle@, j),
{
    let h = chars_of(hay);
    let n = chars_of(needle);
    if n.len() > h.len() {
        assert forall|j: int| !occurs_at(hay@, needle@, j) by {}
        return None;
    }
    if n.len() == 0 {
        assert(h@.subrange(0, 0) =~= n@);
        assert(occurs_at(hay@, needle@, 0));
        return Some(0);
    }
    let mut i: usize = 0;
    while i <= h.len() - n.len()
        invariant
            h@ == hay@,
            n@ == needle@,
            0 < n.len() <= h.len(),
            i <= h.len() - n.len() + 1,
            forall|j: int| 0 <= j < i ==> !occurs_at(hay@, needle@, j),
        decreases h.len() - n.len() + 1 - i,
    {
        if matches_at(&h, &n, i) {
            return Some(i);
        }
        i = i + 1;
    }
    None
}

pub fn contains_str(hay: &str, needle: &str) -> (r: bool)
    ensures
        r == contains(hay@, needle@),
{
    find_str(hay, needle).is_some()
}

pub fn starts_with_str(hay: &str, needle: &str) -> (r: bool)
    ensures
        r == starts_with(hay@, needle@),
{
    let h = chars_of(hay);
    let n = chars_of(needle);
    if n.len() > h.len() {
        return false;
    }
    matches_at(&h, &n, 0)
}

/// The decimal digit for `d < 10`.
pub open spec fn digit_char(d: nat) -> char {
    ((d + 48) as u32) as char
}

/// Decimal rendering of `n` without leading zeros (`u64::to_string`).
pub open spec fn decimal(n: nat) -> Seq<char>
    decreases n,
{
    if n < 10 {
        seq![digit_char(n)]
    } else {
        decimal(n / 10).push(digit_char(n % 10))
    }
}

pub fn decimal_string(n: u64) -> (r: String)
    ensures
        r@ == decimal(n as nat),
{
    let mut rev: Vec<char> = Vec::new();
    let mut m = n;
    let ghost mut tail: Seq<char> = Seq::empty();
    while m >= 10
        invariant
            m <= n,
            decimal(n as nat) == decimal(m as nat) + tail,
            rev@ == tail.reverse(),
        decreases m,
    {
        let d = m % 10;
        let c = ((d as u8) + 48) as char;
        assert(c == digit_char(d as nat));
        proof {
            assert(decimal(m as nat) == decimal((m / 10) as nat).push(c));
            assert(decimal(m as nat) + tail =~= decimal((m / 10) as nat) + (seq![c] + tail));
        }
        rev.push(c);
        proof {
            assert(rev@ =~= (seq![c] + tail).reverse());
            tail = seq![c] + tail;
        }
        m = m / 10;
    }
    let c = ((m as u8) + 48) as char;
    assert(c == digit_char(m as nat));
    assert(decimal(m as nat) == seq![c]);
    rev.push(c);
    proof {
        assert(rev@ =~= (seq![c] + tail).reverse());
        tail = seq![c] + tail;
    }
    assert(tail == decimal(n as nat));
    let mut out: Vec<char> = Vec::new();
    let mut i = rev.len();
    while i > 0
        invariant
            i <= rev.len(),
            rev@ == tail.reverse(),
            out@ == tail.subrange(0, (rev.len() - i) as int),
        decreases i,
    {
        i = i - 1;
        out.push(rev[i]);
        assert(out@ =~= tail.subrange(0, (rev.len() - i) as int));
    }
    assert(out@ =~= tail);
    string_of(&out)
}

/// The decimal rendering of a number is made of ASCII digits and reads back
/// as the number.
pub proof fn lemma_decimal_digits(n: nat)
    ensures
        all_digits(decimal(n)),
        decimal(n).len() > 0,
        digits_value(decimal(n)) == n,
    decreases n,
{
    let c = digit_char(n % 10);
    assert(((n % 10 + 48) as u32) as char as u32 == (n % 10 + 48) as u32);
    if n >= 10 {
        lemma_decimal_digits(n / 10);
        let d = decimal(n / 10);
        assert(decimal(n) == d.push(c));
        assert(decimal(n).drop_last() =~= d);
        assert forall|i: int| 0 <= i < decimal(n).len() implies is_ascii_digit(#[trigger] decimal(n)[i]) by {
            if i < d.len() {
                assert(decimal(n)[i] == d[i]);
            }
        }
        assert(digits_value(decimal(n)) == digits_value(d) * 10 + ((c as u32) - 48) as nat);
        assert((n / 10) * 10 + n % 10 == n);
    } else {
        assert(decimal(n).drop_last() =~= Seq::<char>::empty());
        assert(digits_value(decimal(n)) == digits_value(Seq::<char>::empty()) * 10 + ((c as u32) - 48) as nat);
    }
}

/// The value of a sequence of decimal digits.
pub open spec fn digits_value(s: Seq<char>) -> nat
    decreases s.len(),
{
    if s.len() == 0 {
        0
    } else {
        digits_value(s.drop_last()) * 10 + ((s.last() as u32) - 48) as nat
    }
}

pub open spec fn all_digits(s: Seq<char>) -> bool {
    forall|i: int| 0 <= i < s.len() ==> is_ascii_digit(#[trigger] s[i])
}

proof fn lemma_digits_value_mono(s: Seq<char>, k: int)
    requires
        0 <= k <= s.len(),
        all_digits(s),
    ensures
        digits_value(s.subrange(0, k)) <= digits_value(s),
    decreases s.len() - k,
{
    if k < s.len() {
        let t = s.drop_last();
        assert(all_digits(t));
        lemma_digits_value_mono(t, k);
        assert(t.subrange(0, k) =~= s.subrange(0, k));
    } else {
        assert(s.subrange(0, k) =~= s);
    }
}

/// Value of the decimal digits `v[from..to]`, or `None` when it exceeds `max`.
pub fn digits_value_upto(v: &Vec<char>, from: usize, to: usize, max: u64) -> (r: Option<u64>)
    requires
        from <= to <= v.len(),
        all_digits(v@.subrange(from as int, to as int)),
    ensures
        r is Some <==> digits_value(v@.subrange(from as int, to as int)) <= max,
        r matches Some(x) ==> x as nat == digits_value(v@.subrange(from as int, to as int)),
{
    let ghost s = v@.subrange(from as int, to as int);
    let mut acc: u64 = 0;
    let mut i = from;
    while i < to
        invariant
            from <= i <= to <= v.len(),
            s == v@.subrange(from as int, to as int),
            all_digits(s),
            acc as nat == digits_value(v@.subrange(from as int, i as int)),
            acc <= max,
        decreases to - i,
    {
        let ghost p = v@.subrange(from as int, i as int);
        let ghost q = v@.subrange(from as int, i + 1);
        assert(q.drop_last() =~= p);
        assert(q.last() == s[i - from]);
        let d = ((v[i] as u32) - 48) as u64;
        assert(digits_value(q) == digits_value(p) * 10 + d);
        let next: u128 = (acc as u128) * 10 + (d as u128);
        if next > max as u128 {
            proof {
                assert(s.subrange(0, i + 1 - from) =~= q);
                lemma_digits_value_mono(s, i + 1 - from);
            }
            return None;
        }
        acc = next as u64;
        i = i + 1;
    }
    Some(acc)
}


/// The value of an unsigned decimal text as std's `FromStr` for unsigned
/// integers reads it: an optional `+`, then one or more ASCII digits.
pub open spec fn unsigned_text_value(s: Seq<char>) -> Option<nat> {
    let d = if s.len() > 0 && s[0] == '+' {
        s.drop_first()
    } else {
        s
    };
    if d.len() > 0 && all_digits(d) {
        Some(digits_value(d))
    } else {
        None
    }
}

/// Parses an unsigned decimal text whose value may not exceed `max`
/// (`str::parse` for `u16`, `u32` and `u64`).
pub fn parse_unsigned(s: &str, max: u64) -> (r: Option<u64>)
    ensures
        r is Some <==> (unsigned_text_value(s@) matches Some(x) && x <= max),
        r matches Some(x) ==> unsigned_text_value(s@) == Some(x as nat),
{
    let v = chars_of(s);
    let from: usize = if v.len() > 0 && v[0] == '+' {
        1
    } else {
        0
    };
    let ghost d = if s@.len() > 0 && s@[0] == '+' {
        s@.drop_first()
    } else {
        s@
    };
    assert(d =~= s@.subrange(from as int, s@.len() as int));
    if from >= v.len() {
        assert(s@.subrange(from as int, s@.len() as int).len() == 0);
        return None;
    }
    let mut i = from;
    while i < v.len()
        invariant
            v@ == s@,
            from <= i <= v.len(),
            forall|j: int| from <= j < i ==> is_ascii_digit(v@[j]),
            d == s@.subrange(from as int, s@.len() as int),
            d == (if s@.len() > 0 && s@[0] == '+' {
                s@.drop_first()
            } else {
                s@
            }),
        decreases v.len() - i,
    {
        if !('0' <= v[i] && v[i] <= '9') {
            proof {
                assert(d[i - from] == v@[i as int]);
            }
            return None;
        }
        i = i + 1;
    }
    proof {
        let d = s@.subrange(from as int, s@.len() as int);
        assert forall|j: int| 0 <= j < d.len() implies is_ascii_digit(#[trigger] d[j]) by {
            assert(d[j] == v@[j + from]);
        }
    }
    digits_value_upto(&v, from, v.len(), max)
}

/// Index of the first `'\n'` in `s`, if any.
pub open spec fn newline_index(s: Seq<char>) -> Option<int>
    decreases s.len(),
{
    if s.len() == 0 {
        None
    } else if s[0] == '\n' {
        Some(0)
    } else {
        match newline_index(s.drop_first()) {
            Some(i) => Some(i + 1),
            None => None,
        }
    }
}

/// The pieces of `s` between line feeds, in order; a text without line feeds
/// is one piece.
pub open spec fn segments(s: Seq<char>) -> Seq<Seq<char>>
    decreases s.len(),
{
    match newline_index(s) {
        None => seq![s],
        Some(i) => if 0 <= i < s.len() {
            seq![s.subrange(0, i)] + segments(s.subrange(i + 1, s.len() as int))
        } else {
            seq![s]
        },
    }
}

proof fn lemma_newline_index(s: Seq<char>, k: int)
    requires
        0 <= k <= s.len(),
        forall|j: int| 0 <= j < k ==> s[j] != '\n',
    ensures
        k < s.len() && s[k] == '\n' ==> newline_index(s) == Some(k),
        k == s.len() ==> newline_index(s) is None,
    decreases k,
{
    if k > 0 {
        let t = s.drop_first();
        assert forall|j: int| 0 <= j < k - 1 implies t[j] != '\n' by {
            assert(t[j] == s[j + 1]);
        }
        lemma_newline_index(t, k - 1);
        if k < s.len() {
            assert(t[k - 1] == s[k]);
        }
    }
}

/// The pieces of `s` between line feeds.
pub fn split_newlines(s: &str) -> (r: Vec<String>)
    ensures
        r@.len() == segments(s@).len(),
        forall|i: int| 0 <= i < r@.len() ==> #[trigger] r@[i]@ == segments(s@)[i],
{
    let v = chars_of(s);
    let mut out: Vec<String> = Vec::new();
    let ghost mut done: Seq<Seq<char>> = Seq::empty();
    let mut start: usize = 0;
    let mut cur: Vec<char> = Vec::new();
    let mut i: usize = 0;
    assert(s@.subrange(0, s@.len() as int) =~= s@);
    assert(done + segments(s@) =~= segments(s@));
    while i < v.len()
        invariant
            v@ == s@,
            start <= i <= v.len(),
            cur@ == s@.subrange(start as int, i as int),
            forall|j: int| start <= j < i ==> s@[j] != '\n',
            segments(s@) == done + segments(s@.subrange(start as int, s@.len() as int)),
            out@.len() == done.len(),
            forall|j: int| 0 <= j < out@.len() ==> #[trigger] out@[j]@ == done[j],
        decreases v.len() - i,
    {
        if v[i] == '\n' {
            let ghost t = s@.subrange(start as int, s@.len() as int);
            proof {
                assert forall|j: int| 0 <= j < i - start implies t[j] != '\n' by {
                    assert(t[j] == s@[j + start]);
                }
                assert(t[i - start] == s@[i as int]);
                lemma_newline_index(t, i - start);
                assert(t.subrange(0, i - start) =~= cur@);
                assert(t.subrange(i - start + 1, t.len() as int) =~= s@.subrange(
                    i + 1,
                    s@.len() as int,
                ));
                assert(segments(t) == seq![cur@] + segments(s@.subrange(i + 1, s@.len() as int)));
            }
            let piece = string_of(&cur);
            out.push(piece);
            proof {
                assert(done + segments(t) =~= done.push(cur@) + segments(
                    s@.subrange(i + 1, s@.len() as int),
                ));
                done = done.push(cur@);
            }
            cur = Vec::new();
            start = i + 1;
            i = i + 1;
            assert(cur@ =~= s@.subrange(start as int, i as int));
        } else {
            cur.push(v[i]);
            i = i + 1;
            assert(cur@ =~= s@.subrange(start as int, i as int));
        }
    }
    let ghost t = s@.subrange(start as int, s@.len() as int);
    proof {
        assert forall|j: int| 0 <= j < t.len() implies t[j] != '\n' by {
            assert(t[j] == s@[j + start]);
        }
        lemma_newline_index(t, t.len() as int);
        assert(t =~= cur@);
    }
    let piece = string_of(&cur);
    out.push(piece);
    proof {
        assert(segments(s@) =~= done.push(cur@));
    }
    out
}

/// The longest prefix of `s` made of ASCII digits.
pub open spec fn digit_prefix(s: Seq<char>) -> Seq<char>
    decreases s.len(),
{
    if s.len() > 0 && is_ascii_digit(s[0]) {
        seq![s[0]] + digit_prefix(s.drop_first())
    } else {
        Seq::empty()
    }
}

pub proof fn lemma_digit_prefix(s: Seq<char>, k: int)
    requires
        0 <= k <= s.len(),
        forall|j: int| 0 <= j < k ==> is_ascii_digit(s[j]),
        k == s.len() || !is_ascii_digit(s[k]),
    ensures
        digit_prefix(s) == s.subrange(0, k),
    decreases k,
{
    if k > 0 {
        let t = s.drop_first();
        assert forall|j: int| 0 <= j < k - 1 implies is_ascii_digit(t[j]) by {
            assert(t[j] == s[j + 1]);
        }
        if k < s.len() {
            assert(t[k - 1] == s[k]);
        }
        lemma_digit_prefix(t, k - 1);
        assert(seq![s[0]] + t.subrange(0, k - 1) =~= s.subrange(0, k));
    } else {
        assert(s.subrange(0, 0) =~= Seq::<char>::empty());
    }
}

/// End of the run of ASCII digits in `v` that starts at `from`.
pub fn digit_run_end(v: &Vec<char>, from: usize) -> (r: usize)
    requires
        from <= v.len(),
    ensures
        from <= r <= v.len(),
        digit_prefix(v@.subrange(from as int, v@.len() as int)) == v@.subrange(from as int, r as int),
        all_digits(v@.subrange(from as int, r as int)),
{
    let mut k = from;
    while k < v.len() && '0' <= v[k] && v[k] <= '9'
        invariant
            from <= k <= v.len(),
            forall|j: int| from <= j < k ==> is_ascii_digit(v@[j]),
        decreases v.len() - k,
    {
        k = k + 1;
    }
    proof {
        let t = v@.subrange(from as int, v@.len() as int);
        assert forall|j: int| 0 <= j < k - from implies is_ascii_digit(t[j]) by {
            assert(t[j] == v@[j + from]);
        }
        if k < v.len() {
            assert(t[k - from] == v@[k as int]);
        }
        lemma_digit_prefix(t, k - from);
        assert(t.subrange(0, k - from) =~= v@.subrange(from as int, k as int));
    }
    k
}

/// The first position at which `needle` occurs in `hay`.
pub open spec fn first_occurrence(hay: Seq<char>, needle: Seq<char>) -> Option<int> {
    if contains(hay, needle) {
        Some(
            choose|i: int|
                occurs_at(hay, needle, i) && forall|j: int| 0 <= j < i ==> !occurs_at(hay, needle, j),
        )
    } else {
        None
    }
}

/// The position found by [`find_str`] is the first occurrence.
pub proof fn lemma_first_occurrence(hay: Seq<char>, needle: Seq<char>, i: int)
    requires
        occurs_at(hay, needle, i),
        forall|j: int| 0 <= j < i ==> !occurs_at(hay, needle, j),
    ensures
        first_occurrence(hay, needle) == Some(i),
{
    let k = choose|k: int|
        occurs_at(hay, needle, k) && forall|j: int| 0 <= j < k ==> !occurs_at(hay, needle, j);
    assert(occurs_at(hay, needle, k));
    if k < i {
        assert(!occurs_at(hay, needle, k));
    }
    if i < k {
        assert(!occurs_at(hay, needle, i));
    }
}

/// The characters of `s` with every `from` replaced by `to`.
pub open spec fn replace_char(s: Seq<char>, from: char, to: char) -> Seq<char> {
    s.map_values(|c: char| if c == from { to } else { c })
}

/// `s` without its leading `c` characters (`str::trim_start_matches`).
pub open spec fn strip_leading(s: Seq<char>, c: char) -> Seq<char>
    decreases s.len(),
{
    if s.len() > 0 && s[0] == c {
        strip_leading(s.drop_first(), c)
    } else {
        s
    }
}

proof fn lemma_strip_leading(s: Seq<char>, c: char, k: int)
    requires
        0 <= k <= s.len(),
        forall|j: int| 0 <= j < k ==> s[j] == c,
        k == s.len() || s[k] != c,
    ensures
        strip_leading(s, c) == s.subrange(k, s.len() as int),
    decreases k,
{
    if k > 0 {
        let t = s.drop_first();
        assert forall|j: int| 0 <= j < k - 1 implies t[j] == c by {
            assert(t[j] == s[j + 1]);
        }
        if k < s.len() {
            assert(t[k - 1] == s[k]);
        }
        lemma_strip_leading(t, c, k - 1);
        assert(t.subrange(k - 1, t.len() as int) =~= s.subrange(k, s.len() as int));
    } else {
        assert(s.subrange(0, s.len() as int) =~= s);
    }
}

/// `v[from..]` with every `from_c` replaced by `to_c`, then without leading `strip` characters.
pub fn replace_then_strip(v: &Vec<char>, from: usize, from_c: char, to_c: char, strip: char) -> (r: Vec<char>)
    requires
        from <= v.len(),
    ensures
        r@ == strip_leading(replace_char(v@.subrange(from as int, v@.len() as int), from_c, to_c), strip),
{
    let ghost rep = replace_char(v@.subrange(from as int, v@.len() as int), from_c, to_c);
    let mut out: Vec<char> = Vec::new();
    let mut i = from;
    while i < v.len()
        invariant
            from <= i <= v.len(),
            rep == replace_char(v@.subrange(from as int, v@.len() as int), from_c, to_c),
            rep.len() == v@.len() - from,
            out@ == rep.subrange(0, i - from),
        decreases v.len() - i,
    {
        let c = if v[i] == from_c {
            to_c
        } else {
            v[i]
        };
        assert(rep[i - from] == c);
        out.push(c);
        i = i + 1;
        assert(out@ =~= rep.subrange(0, i - from));
    }
    assert(out@ =~= rep);
    let mut k: usize = 0;
    while k < out.len() && out[k] == strip
        invariant
            k <= out.len(),
            forall|j: int| 0 <= j < k ==> out@[j] == strip,
        decreases out.len() - k,
    {
        k = k + 1;
    }
    proof {
        lemma_strip_leading(out@, strip, k as int);
    }
    let mut res: Vec<char> = Vec::new();
    let mut j = k;
    while j < out.len()
        invariant
            k <= j <= out.len(),
            res@ == out@.subrange(k as int, j as int),
        decreases out.len() - j,
    {
        res.push(out[j]);
        j = j + 1;
        assert(res@ =~= out@.subrange(k as int, j as int));
    }
    res
}

/// The texts of `ls` separated by `sep`.
pub open spec fn join(ls: Seq<Seq<char>>, sep: Seq<char>) -> Seq<char>
    decreases ls.len(),
{
    if ls.len() == 0 {
        Seq::empty()
    } else if ls.len() == 1 {
        ls[0]
    } else {
        join(ls.drop_last(), sep) + sep + ls.last()
    }
}

/// The text that std's `{:?}` formatting gives for a string: the string in
/// double quotes, with the characters that `char::escape_debug` escapes written
/// as escapes.
pub uninterp spec fn debug_text(s: Seq<char>) -> Seq<char>;

/// std's `Debug` for `str` (`format!("{:?}", s)`); its contract only names the
/// result, as a function of the characters of `s`.
#[verifier::external_body]
pub(crate) fn debug_quoted(s: &str) -> (r: String)
    ensures
        r@ == debug_text(s@),
{
    format!("{:?}", s)
}

} // verus!
