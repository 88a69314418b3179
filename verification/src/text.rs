//! Plain-text helpers: whitespace splitting, splitting on a separator,
//! joining, decimal numbers and lowercasing, each with its model over
//! `Seq<char>`.
use vstd::prelude::*;

verus! {

/// The view of every string of a sequence.
pub open spec fn views(v: Seq<String>) -> Seq<Seq<char>> {
    v.map_values(|s: String| s@)
}

/// `c` has the Unicode White_Space property (the set `char::is_whitespace` tests).
pub open spec fn is_white(c: char) -> bool {
    let n = c as u32;
    (9 <= n && n <= 13) || n == 32 || n == 0x85 || n == 0xa0 || n == 0x1680 || (0x2000 <= n
        && n <= 0x200a) || n == 0x2028 || n == 0x2029 || n == 0x202f || n == 0x205f || n == 0x3000
}

/// `std::string::String::push` appends one character.
pub assume_specification[ String::push ](s: &mut String, ch: char)
    ensures
        final(s)@ == old(s)@.push(ch),
;

/// The lowercase mapping of a string, as `str::to_lowercase` computes it
/// (Unicode's full case mapping, which the standard library documents but
/// which is not written out here).
pub uninterp spec fn lowercase(s: Seq<char>) -> Seq<char>;

/// `str::to_lowercase`: its result is the lowercase mapping of the argument.
pub assume_specification[ str::to_lowercase ](s: &str) -> (r: String)
    ensures
        r@ == lowercase(s@),
;

/// Whether `c` is white space.
pub fn is_white_char(c: char) -> (b: bool)
    ensures
        b == is_white(c),
{
    let n = c as u32;
    (9 <= n && n <= 13) || n == 32 || n == 0x85 || n == 0xa0 || n == 0x1680 || (0x2000 <= n
        && n <= 0x200a) || n == 0x2028 || n == 0x2029 || n == 0x202f || n == 0x205f || n == 0x3000
}

/// The characters of `s`, in order.
pub fn chars_of(s: &str) -> (v: Vec<char>)
    ensures
        v@ == s@,
{
    let mut v: Vec<char> = Vec::new();
    for c in it: s.chars()
        invariant
            v@ == it.seq().take(it.index() as int),
            it.seq() == s@,
    {
        v.push(c);
    }
    v
}

/// A string holding the characters of `v` from `lo` to `hi`.
pub fn string_of(v: &Vec<char>, lo: usize, hi: usize) -> (s: String)
    requires
        lo <= hi <= v.len(),
    ensures
        s@ == v@.subrange(lo as int, hi as int),
{
    let mut s = String::new();
    let mut i = lo;
    while i < hi
        invariant
            lo <= i <= hi <= v.len(),
            s@ == v@.subrange(lo as int, i as int),
        decreases hi - i,
    {
        s.push(v[i]);
        i = i + 1;
    }
    s
}

/// Copy of a string slice.
pub fn owned(s: &str) -> (r: String)
    ensures
        r@ == s@,
{
    s.to_owned()
}

/// `a` and `b` hold the same characters.
pub fn same_text(a: &str, b: &str) -> (r: bool)
    ensures
        r == (a@ == b@),
{
    let x = chars_of(a);
    let y = chars_of(b);
    if x.len() != y.len() {
        return false;
    }
    let mut i: usize = 0;
    while i < x.len()
        invariant
            x@ == a@,
            y@ == b@,
            x.len() == y.len(),
            i <= x.len(),
            forall|k: int| 0 <= k < i ==> x@[k] == y@[k],
        decreases x.len() - i,
    {
        if x[i] != y[i] {
            return false;
        }
        i = i + 1;
    }
    assert(x@ =~= y@);
    true
}

/// Concatenation of two strings.
pub fn concat2(a: &str, b: &str) -> (r: String)
    ensures
        r@ == a@ + b@,
{
    let mut r = a.to_owned();
    r.append(b);
    r
}

/// Concatenation of three strings.
pub fn concat3(a: &str, b: &str, c: &str) -> (r: String)
    ensures
        r@ == a@ + b@ + c@,
{
    let mut r = a.to_owned();
    r.append(b);
    r.append(c);
    r
}

/// Concatenation of four strings.
pub fn concat4(a: &str, b: &str, c: &str, d: &str) -> (r: String)
    ensures
        r@ == a@ + b@ + c@ + d@,
{
    let mut r = a.to_owned();
    r.append(b);
    r.append(c);
    r.append(d);
    r
}

// ---------------------------------------------------------------------------
// Whitespace-separated words
/// The index where the word starting at `i` ends (the first white space
/// character at or after `i`, or the end).
pub open spec fn word_end(s: Seq<char>, i: int) -> int
    decreases s.len() - i,
{
    if i < 0 || i >= s.len() || is_white(s[i]) {
        i
    } else {
        word_end(s, i + 1)
    }
}

/// A word runs from `i` to `word_end(s, i)`, over characters that are not
/// white space.
proof fn lemma_word_end(s: Seq<char>, i: int)
    requires
        0 <= i <= s.len(),
    ensures
        i <= word_end(s, i) <= s.len(),
        word_end(s, i) == s.len() || is_white(s[word_end(s, i)]),
        forall|k: int| i <= k < word_end(s, i) ==> !is_white(#[trigger] s[k]),
        i < s.len() && !is_white(s[i]) ==> i < word_end(s, i),
    decreases s.len() - i,
{
    if i < s.len() && !is_white(s[i]) {
        lemma_word_end(s, i + 1);
    }
}

/// The words of `s` from index `i` on: maximal runs of characters that are
/// not white space, in order (what `str::split_whitespace` yields).
pub open spec fn words_from(s: Seq<char>, i: int) -> Seq<Seq<char>>
    decreases s.len() - i,
{
    if i < 0 || i >= s.len() {
        seq![]
    } else if is_white(s[i]) {
        words_from(s, i + 1)
    } else {
        let j = word_end(s, i);
        if j <= i || j > s.len() {
            seq![]
        } else {
            seq![s.subrange(i, j)] + words_from(s, j)
        }
    }
}

/// The whitespace-separated words of `s`.
pub open spec fn words(s: Seq<char>) -> Seq<Seq<char>> {
    words_from(s, 0)
}

/// `str::split_whitespace`, collected.
pub fn split_words(s: &str) -> (r: Vec<String>)
    ensures
        views(r@) == words(s@),
{
    let v = chars_of(s);
    let n = v.len();
    let mut r: Vec<String> = Vec::new();
    let mut i: usize = 0;
    while i < n
        invariant
            v@ == s@,
            n == v.len(),
            i <= n,
            words(s@) == views(r@) + words_from(s@, i as int),
        decreases n - i,
    {
        if is_white_char(v[i]) {
            i = i + 1;
        } else {
            let start = i;
            proof {
                lemma_word_end(s@, start as int);
            }
            while i < n && !is_white_char(v[i])
                invariant
                    v@ == s@,
                    n == v.len(),
                    start <= i <= n,
                    word_end(s@, start as int) == word_end(s@, i as int),
                decreases n - i,
            {
                i = i + 1;
            }
            let w = string_of(&v, start, i);
            proof {
                lemma_word_end(s@, i as int);
                assert(views(r@.push(w)) =~= views(r@).push(w@));
            }
            r.push(w);
        }
    }
    r
}

// ---------------------------------------------------------------------------
// Splitting on a separator
/// `sep` occurs in `s` at index `k`.
pub open spec fn occurs_at(s: Seq<char>, sep: Seq<char>, k: int) -> bool {
    0 <= k && k + sep.len() <= s.len() && s.subrange(k, k + sep.len()) == sep
}

/// The pieces of `s` between leftmost non-overlapping occurrences of `sep`,
/// scanning from index `i`, the current piece having begun at `start`.
pub open spec fn split_scan(s: Seq<char>, sep: Seq<char>, start: int, i: int) -> Seq<Seq<char>>
    decreases s.len() - i,
{
    if sep.len() == 0 || i < start || start < 0 || i + sep.len() > s.len() {
        seq![s.subrange(start, s.len() as int)]
    } else if occurs_at(s, sep, i) {
        seq![s.subrange(start, i)] + split_scan(s, sep, i + sep.len(), i + sep.len())
    } else {
        split_scan(s, sep, start, i + 1)
    }
}

/// The pieces of `s` between leftmost non-overlapping occurrences of the
/// non-empty `sep` (what `str::split` yields for a string pattern).
pub open spec fn split(s: Seq<char>, sep: Seq<char>) -> Seq<Seq<char>> {
    split_scan(s, sep, 0, 0)
}

/// `v` holds `sep` at index `k`.
fn matches_at(v: &Vec<char>, sep: &Vec<char>, k: usize) -> (b: bool)
    requires
        k + sep.len() <= v.len(),
    ensures
        b == occurs_at(v@, sep@, k as int),
{
    let mut j: usize = 0;
    while j < sep.len()
        invariant
            k + sep.len() <= v.len(),
            j <= sep.len(),
            forall|t: int| 0 <= t < j ==> v@[k + t] == sep@[t],
        decreases sep.len() - j,
    {
        if v[k + j] != sep[j] {
            assert(v@.subrange(k as int, k + sep.len())[j as int] != sep@[j as int]);
            return false;
        }
        j = j + 1;
    }
    assert(v@.subrange(k as int, k + sep.len()) =~= sep@);
    true
}

/// `str::split` on a non-empty string pattern, collected.
pub fn split_on(s: &str, sep: &str) -> (r: Vec<String>)
    requires
        sep@.len() > 0,
    ensures
        views(r@) == split(s@, sep@),
        r@.len() >= 1,
{
    let v = chars_of(s);
    let p = chars_of(sep);
    let n = v.len();
    let m = p.len();
    let mut r: Vec<String> = Vec::new();
    let mut start: usize = 0;
    let mut i: usize = 0;
    while m <= n && i <= n - m
        invariant
            v@ == s@,
            p@ == sep@,
            n == v.len(),
            m == p.len(),
            m > 0,
            start <= i,
            i <= n,
            split(s@, sep@) == views(r@) + split_scan(s@, sep@, start as int, i as int),
        decreases n - i,
    {
        if matches_at(&v, &p, i) {
            let piece = string_of(&v, start, i);
            proof {
                assert(views(r@.push(piece)) =~= views(r@).push(piece@));
                assert(views(r@).push(piece@) + split_scan(s@, sep@, (i + m) as int, (i + m) as int)
                    =~= views(r@) + (seq![piece@] + split_scan(s@, sep@, (i + m) as int, (i + m) as int)));
            }
            r.push(piece);
            i = i + m;
            start = i;
        } else {
            i = i + 1;
        }
    }
    let last = string_of(&v, start, n);
    proof {
        assert(views(r@.push(last)) =~= views(r@).push(last@));
        assert(views(r@) + seq![last@] =~= views(r@).push(last@));
    }
    r.push(last);
    r
}

// ---------------------------------------------------------------------------
// Joining
/// The pieces in order with `sep` between each two of them.
pub open spec fn join(parts: Seq<Seq<char>>, sep: Seq<char>) -> Seq<char>
    decreases parts.len(),
{
    if parts.len() == 0 {
        seq![]
    } else if parts.len() == 1 {
        parts[0]
    } else {
        join(parts.drop_last(), sep) + sep + parts.last()
    }
}

/// The strings of `parts[lo..hi]` joined with `sep` (`[String]::join`).
pub fn join_range(parts: &Vec<String>, lo: usize, hi: usize, sep: &str) -> (r: String)
    requires
        lo <= hi <= parts.len(),
    ensures
        r@ == join(views(parts@.subrange(lo as int, hi as int)), sep@),
{
    let mut r = String::new();
    let mut i = lo;
    while i < hi
        invariant
            lo <= i <= hi <= parts.len(),
            r@ == join(views(parts@.subrange(lo as int, i as int)), sep@),
        decreases hi - i,
    {
        let ghost before = views(parts@.subrange(lo as int, i as int));
        let ghost after = views(parts@.subrange(lo as int, i + 1));
        assert(after.drop_last() =~= before);
        if i != lo {
            r.append(sep);
        }
        r.append(parts[i].as_str());
        i = i + 1;
    }
    r
}

/// The strings of `parts` joined with `sep` (`[String]::join`).
pub fn join_all(parts: &Vec<String>, sep: &str) -> (r: String)
    ensures
        r@ == join(views(parts@), sep@),
{
    assert(parts@.subrange(0, parts@.len() as int) =~= parts@);
    join_range(parts, 0, parts.len(), sep)
}

/// The strings of `parts` from index `lo` on, joined with `sep`.
pub fn join_from(parts: &Vec<String>, lo: usize, sep: &str) -> (r: String)
    requires
        lo <= parts.len(),
    ensures
        r@ == join(views(parts@.skip(lo as int)), sep@),
{
    assert(parts@.subrange(lo as int, parts@.len() as int) =~= parts@.skip(lo as int));
    join_range(parts, lo, parts.len(), sep)
}


// ---------------------------------------------------------------------------
// Decimal numbers
/// `c` is an ASCII digit.
pub open spec fn is_digit(c: char) -> bool {
    48 <= (c as u32) && (c as u32) <= 57
}

/// The ASCII digit of a value below ten.
pub open spec fn digit_char(d: nat) -> char {
    ((d + 48) as u32) as char
}

/// The value of a string of ASCII digits.
pub open spec fn digits_value(d: Seq<char>) -> nat
    decreases d.len(),
{
    if d.len() == 0 {
        0
    } else {
        digits_value(d.drop_last()) * 10 + ((d.last() as u32) - 48) as nat
    }
}

/// Every character of `d` is an ASCII digit.
pub open spec fn all_digits(d: Seq<char>) -> bool {
    forall|i: int| 0 <= i < d.len() ==> is_digit(#[trigger] d[i])
}

/// The decimal notation of `n`, without leading zeros.
pub open spec fn decimal(n: nat) -> Seq<char>
    decreases n,
{
    if n < 10 {
        seq![digit_char(n)]
    } else {
        decimal(n / 10).push(digit_char(n % 10))
    }
}

/// The decimal notation of an integer, with `-` before a negative one.
pub open spec fn signed_decimal(n: int) -> Seq<char> {
    if n < 0 {
        seq!['-'] + decimal((-n) as nat)
    } else {
        decimal(n as nat)
    }
}

/// The digits that an unsigned `from_str` reads: all of `s`, less one
/// leading `+`.
pub open spec fn unsigned_digits(s: Seq<char>) -> Seq<char> {
    if s.len() > 0 && s[0] == '+' {
        s.drop_first()
    } else {
        s
    }
}

/// What `from_str` of an unsigned integer type whose largest value is `max`
/// gives: an optional `+` and then one or more ASCII digits whose value is at
/// most `max`.
pub open spec fn parse_unsigned(s: Seq<char>, max: nat) -> Option<nat> {
    let d = unsigned_digits(s);
    if d.len() > 0 && all_digits(d) && digits_value(d) <= max {
        Some(digits_value(d))
    } else {
        None
    }
}

/// What `from_str` of a signed integer type with range `min..=max` gives:
/// an optional `+` or `-` and then one or more ASCII digits, whose value
/// lies in the range.
pub open spec fn parse_signed(s: Seq<char>, min: int, max: int) -> Option<int> {
    if s.len() > 0 && s[0] == '-' {
        let d = s.drop_first();
        if d.len() > 0 && all_digits(d) && min <= -(digits_value(d) as int) {
            Some(-(digits_value(d) as int))
        } else {
            None
        }
    } else {
        match parse_unsigned(s, max as nat) {
            Some(v) => if max >= 0 { Some(v as int) } else { None },
            None => None,
        }
    }
}

/// A prefix of a digit string is worth at most the whole string.
proof fn lemma_digits_value_prefix(d: Seq<char>, k: int)
    requires
        0 <= k <= d.len(),
        all_digits(d),
    ensures
        digits_value(d.take(k)) <= digits_value(d),
    decreases d.len() - k,
{
    if k < d.len() {
        let t = d.take(k + 1);
        assert(t.drop_last() =~= d.take(k));
        lemma_digits_value_prefix(d, k + 1);
    } else {
        assert(d.take(k) =~= d);
    }
}

/// The decimal notation of a value is digits worth the value.
proof fn lemma_decimal_digits(n: nat)
    ensures
        all_digits(decimal(n)),
        digits_value(decimal(n)) == n,
        decimal(n).len() > 0,
        decimal(n)[0] != '+',
        decimal(n)[0] != '-',
    decreases n,
{
    let c = digit_char(n % 10);
    assert(c as u32 == (n % 10) + 48);
    if n < 10 {
        assert(n % 10 == n);
        assert(decimal(n).drop_last() =~= Seq::<char>::empty());
        assert(decimal(n).last() == c);
        assert(digits_value(decimal(n)) == digits_value(Seq::<char>::empty()) * 10 + ((c as u32) - 48) as nat);
    } else {
        lemma_decimal_digits(n / 10);
        let p = decimal(n / 10);
        assert(decimal(n).drop_last() =~= p);
        assert(n == (n / 10) * 10 + n % 10);
        assert(decimal(n).last() == c);
        assert forall|i: int| 0 <= i < decimal(n).len() implies is_digit(#[trigger] decimal(n)[i]) by {
            if i < p.len() {
                assert(decimal(n)[i] == p[i]);
            }
        }
    }
}

/// Reading back the decimal notation of a value gives the value.
pub proof fn lemma_parse_decimal(n: nat, max: nat)
    requires
        n <= max,
    ensures
        parse_unsigned(decimal(n), max) == Some(n),
{
    lemma_decimal_digits(n);
}

/// The ASCII digit of a value below ten.
pub fn digit_of(d: u64) -> (c: char)
    requires
        d < 10,
    ensures
        c == digit_char(d as nat),
        is_digit(c),
{
    let b: u8 = (d as u8) + 48;
    b as char
}

/// The decimal notation of `n` (`u64::to_string`).
pub fn decimal_string(n: u64) -> (s: String)
    ensures
        s@ == decimal(n as nat),
    decreases n,
{
    if n < 10 {
        let mut s = String::new();
        s.push(digit_of(n));
        s
    } else {
        let mut s = decimal_string(n / 10);
        s.push(digit_of(n % 10));
        s
    }
}

/// The decimal notation of `n` (`i64::to_string`).
pub fn signed_decimal_string(n: i64) -> (s: String)
    ensures
        s@ == signed_decimal(n as int),
{
    if n < 0 {
        let m: u64 = if n == i64::MIN {
            9223372036854775808u64
        } else {
            (-n) as u64
        };
        let mut s = String::new();
        s.push('-');
        let t = decimal_string(m);
        s.append(t.as_str());
        s
    } else {
        decimal_string(n as u64)
    }
}

/// Reads the digits `v[lo..]`: `None` where one is not an ASCII digit,
/// where there are none, or where the value exceeds `max`.
fn read_digits(v: &Vec<char>, lo: usize, max: u64) -> (r: Option<u64>)
    requires
        lo <= v.len(),
    ensures
        ({
            let d = v@.skip(lo as int);
            r == (if d.len() > 0 && all_digits(d) && digits_value(d) <= max {
                Some(digits_value(d) as u64)
            } else {
                None
            })
        }),
{
    let ghost d = v@.skip(lo as int);
    if lo == v.len() {
        return None;
    }
    if !all_digits_from(v, lo) {
        return None;
    }
    let mut acc: u64 = 0;
    let mut i = lo;
    while i < v.len()
        invariant
            lo <= i <= v.len(),
            d == v@.skip(lo as int),
            all_digits(d.take(i - lo)),
            all_digits(d),
            acc == digits_value(d.take(i - lo)),
            acc <= max,
        decreases v.len() - i,
    {
        let c = v[i];
        let ghost t = d.take(i - lo + 1);
        assert(t.drop_last() =~= d.take(i - lo));
        assert(t.last() == c);
        let cu = c as u32;
        if !(48 <= cu && cu <= 57) {
            assert(!is_digit(d[i - lo]));
            return None;
        }
        let dv: u64 = (cu - 48) as u64;
        if dv > max {
            proof {
                lemma_digits_value_prefix(d, i - lo + 1);
            }
            return None;
        }
        if acc > (max - dv) / 10 {
            proof {
                assert(acc * 10 + dv > max) by (nonlinear_arith)
                    requires acc > (max - dv) / 10, dv <= 9, dv <= max;
                lemma_digits_value_prefix(d, i - lo + 1);
            }
            return None;
        }
        proof {
            assert((acc * 10 + dv) <= max) by (nonlinear_arith)
                requires acc <= (max - dv) / 10, dv <= max;
            assert forall|k: int| 0 <= k < t.len() implies is_digit(#[trigger] t[k]) by {
                if k < t.len() - 1 {
                    assert(t[k] == d.take(i - lo)[k]);
                }
            }
        }
        acc = acc * 10 + dv;
        i = i + 1;
    }
    assert(d.take(i - lo) =~= d);
    Some(acc)
}

/// Every character of `v[lo..]` is an ASCII digit.
fn all_digits_from(v: &Vec<char>, lo: usize) -> (b: bool)
    requires
        lo <= v.len(),
    ensures
        b == all_digits(v@.skip(lo as int)),
{
    let mut i = lo;
    while i < v.len()
        invariant
            lo <= i <= v.len(),
            forall|k: int| lo <= k < i ==> is_digit(#[trigger] v@[k]),
        decreases v.len() - i,
    {
        let cu = v[i] as u32;
        if !(48 <= cu && cu <= 57) {
            assert(!is_digit(v@.skip(lo as int)[i - lo]));
            return false;
        }
        i = i + 1;
    }
    assert forall|k: int| 0 <= k < v@.skip(lo as int).len() implies is_digit(
        #[trigger] v@.skip(lo as int)[k],
    ) by {
        assert(v@.skip(lo as int)[k] == v@[lo + k]);
    }
    true
}

/// `from_str` for an unsigned integer type whose largest value is `max`.
pub fn parse_unsigned_str(s: &str, max: u64) -> (r: Option<u64>)
    ensures
        r == (match parse_unsigned(s@, max as nat) {
            Some(v) => Some(v as u64),
            None => None,
        }),
{
    let v = chars_of(s);
    let lo: usize = if v.len() > 0 && v[0] == '+' {
        1
    } else {
        0
    };
    assert(v@.skip(lo as int) =~= unsigned_digits(s@));
    read_digits(&v, lo, max)
}

/// `u16::from_str`.
pub fn parse_u16(s: &str) -> (r: Option<u16>)
    ensures
        r == (match parse_unsigned(s@, u16::MAX as nat) {
            Some(v) => Some(v as u16),
            None => None,
        }),
{
    match parse_unsigned_str(s, 65535) {
        Some(v) => Some(v as u16),
        None => None,
    }
}

/// `u64::from_str`.
pub fn parse_u64(s: &str) -> (r: Option<u64>)
    ensures
        r == (match parse_unsigned(s@, u64::MAX as nat) {
            Some(v) => Some(v as u64),
            None => None,
        }),
{
    parse_unsigned_str(s, u64::MAX)
}

/// `usize::from_str`.
pub fn parse_usize(s: &str) -> (r: Option<usize>)
    ensures
        r == (match parse_unsigned(s@, usize::MAX as nat) {
            Some(v) => Some(v as usize),
            None => None,
        }),
{
    match parse_unsigned_str(s, usize::MAX as u64) {
        Some(v) => Some(v as usize),
        None => None,
    }
}

/// `i64::from_str`.
pub fn parse_i64(s: &str) -> (r: Option<i64>)
    ensures
        r == (match parse_signed(s@, i64::MIN as int, i64::MAX as int) {
            Some(v) => Some(v as i64),
            None => None,
        }),
{
    let v = chars_of(s);
    if v.len() > 0 && v[0] == '-' {
        assert(v@.skip(1) =~= s@.drop_first());
        match read_digits(&v, 1, 9223372036854775808u64) {
            Some(m) => {
                if m == 9223372036854775808u64 {
                    Some(i64::MIN)
                } else {
                    Some(-(m as i64))
                }
            },
            None => None,
        }
    } else {
        assert(v@.skip(if v.len() > 0 && v[0] == '+' { 1 } else { 0 }) =~= unsigned_digits(s@));
        let lo: usize = if v.len() > 0 && v[0] == '+' {
            1
        } else {
            0
        };
        match read_digits(&v, lo, 9223372036854775807u64) {
            Some(m) => Some(m as i64),
            None => None,
        }
    }
}

} // verus!
