//! Character-level helpers on strings: the views that contracts speak of and
//! the verified loops that compute them.

use vstd::prelude::*;

verus! {

broadcast use vstd::string::group_string_axioms;

/// The characters of a string slice, in order.
pub fn chars_of(s: &str) -> (v: Vec<char>)
    ensures
        v@ == s@,
{
    let mut v: Vec<char> = Vec::new();
    for c in it: s.chars()
        invariant
            v@ == it.seq().take(it.index() as int),
            it.seq() == s@,
    {
        v.push(c);
    }
    v
}


/// ASCII lowercasing of one character; other characters are left as they are.
pub open spec fn ascii_lower_char(c: char) -> char {
    if 'A' <= c && c <= 'Z' {
        ((c as u32) + 32) as char
    } else {
        c
    }
}

/// ASCII lowercasing of a whole text, character by character.
pub open spec fn ascii_lower(s: Seq<char>) -> Seq<char> {
    s.map_values(|c: char| ascii_lower_char(c))
}

/// `needle` occurs in `hay` starting at position `i`.
pub open spec fn occurs_at(hay: Seq<char>, needle: Seq<char>, i: int) -> bool {
    &&& 0 <= i
    &&& i + needle.len() <= hay.len()
    &&& hay.subrange(i, i + needle.len()) == needle
}

/// `needle` occurs somewhere in `hay`.
pub open spec fn contains_text(hay: Seq<char>, needle: Seq<char>) -> bool {
    exists|i: int| occurs_at(hay, needle, i)
}

/// Whether the ASCII-lowercased `h` equals `n`.
pub fn lower_char_eq(h: char, n: char) -> (r: bool)
    ensures
        r == (ascii_lower_char(h) == n),
{
    if 'A' <= h && h <= 'Z' {
        let lowered: u32 = (h as u32) + 32;
        assert(((h as u32) + 32) as char == n <==> lowered == (n as u32));
        lowered == (n as u32)
    } else {
        h == n
    }
}

/// Whether `needle` occurs in the ASCII-lowercased `hay`.
pub fn contains_lowered(hay: &Vec<char>, needle: &Vec<char>) -> (r: bool)
    ensures
        r == contains_text(ascii_lower(hay@), needle@),
{
    let ghost lower = ascii_lower(hay@);
    let m = hay.len();
    let n = needle.len();
    if n > m {
        assert forall|i: int| !occurs_at(lower, needle@, i) by {}
        return false;
    }
    let mut i: usize = 0;
    while i <= m - n
        invariant
            m == hay.len(),
            n == needle.len(),
            n <= m,
            i <= m - n + 1,
            lower == ascii_lower(hay@),
            forall|j: int| 0 <= j < i ==> !occurs_at(lower, needle@, j),
        decreases m - i,
    {
        let mut k: usize = 0;
        let mut same = true;
        while k < n && same
            invariant
                m == hay.len(),
                n == needle.len(),
                i + n <= m,
                k <= n,
                lower == ascii_lower(hay@),
                same <==> forall|q: int| 0 <= q < k ==> lower[i + q] == needle@[q],
            decreases n - k,
        {
            if !lower_char_eq(hay[i + k], needle[k]) {
                same = false;
            }
            k += 1;
        }
        if same {
            assert(lower.subrange(i as int, i + n) =~= needle@);
            assert(occurs_at(lower, needle@, i as int));
            return true;
        }
        assert(!occurs_at(lower, needle@, i as int)) by {
            if occurs_at(lower, needle@, i as int) {
                let q = choose|q: int| 0 <= q < k && lower[i + q] != needle@[q];
                assert(lower.subrange(i as int, i + n)[q] == lower[i + q]);
            }
        }
        i += 1;
    }
    assert forall|j: int| !occurs_at(lower, needle@, j) by {
        if 0 <= j < i {
        } else {
        }
    }
    false
}

/// Lowercasing twice is lowercasing once.
pub proof fn lemma_ascii_lower_idempotent(s: Seq<char>)
    ensures
        ascii_lower(ascii_lower(s)) == ascii_lower(s),
{
    assert forall|i: int| 0 <= i < s.len() implies ascii_lower_char(ascii_lower_char(s[i]))
        == ascii_lower_char(s[i]) by {
        let c = s[i];
        if 'A' <= c && c <= 'Z' {
            let x: u32 = ((c as u32) + 32) as u32;
            assert(97 <= x <= 122);
            assert((x as char) as u32 == x);
        }
    }
    assert(ascii_lower(ascii_lower(s)) =~= ascii_lower(s));
}

/// `s` with every trailing `c` removed.
pub open spec fn trim_end_char(s: Seq<char>, c: char) -> Seq<char>
    decreases s.len(),
{
    if s.len() > 0 && s.last() == c {
        trim_end_char(s.drop_last(), c)
    } else {
        s
    }
}

/// `s` with every leading `c` removed.
pub open spec fn trim_start_char(s: Seq<char>, c: char) -> Seq<char>
    decreases s.len(),
{
    if s.len() > 0 && s[0] == c {
        trim_start_char(s.drop_first(), c)
    } else {
        s
    }
}

/// The string slice without its trailing `c` characters.
pub fn trim_end_matches_char(s: &str, c: char) -> (r: &str)
    ensures
        r@ == trim_end_char(s@, c),
{
    let v = chars_of(s);
    let mut k = v.len();
    assert(s@.subrange(0, k as int) =~= s@);
    while k > 0 && v[k - 1] == c
        invariant
            k <= v.len(),
            v@ == s@,
            trim_end_char(s@, c) == trim_end_char(s@.subrange(0, k as int), c),
        decreases k,
    {
        assert(s@.subrange(0, k as int).drop_last() =~= s@.subrange(0, k - 1));
        k -= 1;
    }
    s.substring_char(0, k)
}

/// The string slice without its leading `c` characters.
pub fn trim_start_matches_char(s: &str, c: char) -> (r: &str)
    ensures
        r@ == trim_start_char(s@, c),
{
    let v = chars_of(s);
    let n = v.len();
    let mut k: usize = 0;
    assert(s@.subrange(0, n as int) =~= s@);
    while k < n && v[k] == c
        invariant
            k <= n,
            n == v.len(),
            v@ == s@,
            trim_start_char(s@, c) == trim_start_char(s@.subrange(k as int, n as int), c),
        decreases n - k,
    {
        assert(s@.subrange(k as int, n as int).drop_first() =~= s@.subrange(k + 1, n as int));
        k += 1;
    }
    s.substring_char(k, n)
}

/// The characters with the Unicode `White_Space` property, which is what
/// `str::trim` removes.
pub open spec fn is_unicode_whitespace(c: char) -> bool {
    let u = c as u32;
    (0x9 <= u <= 0xD) || u == 0x20 || u == 0x85 || u == 0xA0 || u == 0x1680 || (0x2000 <= u
        <= 0x200A) || u == 0x2028 || u == 0x2029 || u == 0x202F || u == 0x205F || u == 0x3000
}

/// `s` without its leading whitespace.
pub open spec fn trim_start_whitespace(s: Seq<char>) -> Seq<char>
    decreases s.len(),
{
    if s.len() > 0 && is_unicode_whitespace(s[0]) {
        trim_start_whitespace(s.drop_first())
    } else {
        s
    }
}

/// `s` without its trailing whitespace.
pub open spec fn trim_end_whitespace(s: Seq<char>) -> Seq<char>
    decreases s.len(),
{
    if s.len() > 0 && is_unicode_whitespace(s.last()) {
        trim_end_whitespace(s.drop_last())
    } else {
        s
    }
}

/// `s` without its leading and trailing whitespace, as `str::trim` makes it.
pub open spec fn trim_whitespace(s: Seq<char>) -> Seq<char> {
    trim_end_whitespace(trim_start_whitespace(s))
}

/// Whether `c` has the Unicode `White_Space` property.
pub fn char_is_whitespace(c: char) -> (r: bool)
    ensures
        r == is_unicode_whitespace(c),
{
    let u = c as u32;
    (0x9 <= u && u <= 0xD) || u == 0x20 || u == 0x85 || u == 0xA0 || u == 0x1680 || (0x2000 <= u
        && u <= 0x200A) || u == 0x2028 || u == 0x2029 || u == 0x202F || u == 0x205F || u == 0x3000
}

/// The characters of `s` without leading and trailing whitespace.
pub fn trimmed_chars(s: &str) -> (r: Vec<char>)
    ensures
        r@ == trim_whitespace(s@),
{
    let v = chars_of(s);
    let n = v.len();
    let mut start: usize = 0;
    assert(s@.subrange(0, n as int) =~= s@);
    while start < n && char_is_whitespace(v[start])
        invariant
            start <= n,
            n == v.len(),
            v@ == s@,
            trim_start_whitespace(s@) == trim_start_whitespace(s@.subrange(start as int, n as int)),
        decreases n - start,
    {
        assert(s@.subrange(start as int, n as int).drop_first() =~= s@.subrange(
            start + 1,
            n as int,
        ));
        start += 1;
    }
    let ghost front = s@.subrange(start as int, n as int);
    assert(trim_start_whitespace(s@) == front);
    let mut end = n;
    assert(front.subrange(0, (end - start) as int) =~= front);
    while end > start && char_is_whitespace(v[end - 1])
        invariant
            start <= end <= n,
            n == v.len(),
            v@ == s@,
            front == s@.subrange(start as int, n as int),
            trim_end_whitespace(front) == trim_end_whitespace(
                front.subrange(0, (end - start) as int),
            ),
        decreases end,
    {
        assert(front.subrange(0, (end - start) as int).drop_last() =~= front.subrange(
            0,
            (end - 1 - start) as int,
        ));
        end -= 1;
    }
    let mut r: Vec<char> = Vec::new();
    let mut i = start;
    while i < end
        invariant
            start <= i <= end <= n,
            n == v.len(),
            v@ == s@,
            r@ == s@.subrange(start as int, i as int),
        decreases end - i,
    {
        r.push(v[i]);
        assert(r@ =~= s@.subrange(start as int, i + 1));
        i += 1;
    }
    assert(front.subrange(0, (end - start) as int) =~= s@.subrange(start as int, end as int));
    r
}

/// Whether two character vectors hold the same characters.
pub fn chars_equal(a: &Vec<char>, b: &Vec<char>) -> (r: bool)
    ensures
        r == (a@ == b@),
{
    if a.len() != b.len() {
        return false;
    }
    let mut i: usize = 0;
    while i < a.len()
        invariant
            i <= a.len(),
            a.len() == b.len(),
            forall|j: int| 0 <= j < i ==> a@[j] == b@[j],
        decreases a.len() - i,
    {
        if a[i] != b[i] {
            return false;
        }
        i += 1;
    }
    assert(a@ =~= b@);
    true
}

/// The decimal character of a digit below ten.
pub open spec fn digit_char(d: nat) -> char {
    ((48 + d) as u32) as char
}

/// The decimal digits of a natural number, without leading zeros.
pub open spec fn decimal_digits(n: nat) -> Seq<char>
    decreases n,
{
    if n < 10 {
        seq![digit_char(n)]
    } else {
        decimal_digits(n / 10) + seq![digit_char(n % 10)]
    }
}

/// The decimal text of an integer, with a leading `-` when it is negative, as
/// `to_string` writes it.
pub open spec fn decimal_text(v: int) -> Seq<char> {
    if v < 0 {
        seq!['-'] + decimal_digits((-v) as nat)
    } else {
        decimal_digits(v as nat)
    }
}

fn digit_str(d: u64) -> (r: &'static str)
    requires
        d < 10,
    ensures
        r@ == seq![digit_char(d as nat)],
{
    proof {
        reveal_strlit("0");
        reveal_strlit("1");
        reveal_strlit("2");
        reveal_strlit("3");
        reveal_strlit("4");
        reveal_strlit("5");
        reveal_strlit("6");
        reveal_strlit("7");
        reveal_strlit("8");
        reveal_strlit("9");
    }
    match d {
        0 => "0",
        1 => "1",
        2 => "2",
        3 => "3",
        4 => "4",
        5 => "5",
        6 => "6",
        7 => "7",
        8 => "8",
        _ => "9",
    }
}

/// The decimal digits of an unsigned number.
pub fn decimal_u64(n: u64) -> (r: String)
    ensures
        r@ == decimal_digits(n as nat),
    decreases n,
{
    if n < 10 {
        digit_str(n).to_string()
    } else {
        let mut s = decimal_u64(n / 10);
        s.append(digit_str(n % 10));
        s
    }
}

/// The decimal text of a signed number, as `to_string` writes it.
pub fn decimal_i64(v: i64) -> (r: String)
    ensures
        r@ == decimal_text(v as int),
{
    if v < 0 {
        let magnitude: u64 = if v == i64::MIN {
            9223372036854775808u64
        } else {
            (-v) as u64
        };
        let mut s = "-".to_string();
        proof {
            reveal_strlit("-");
        }
        let digits = decimal_u64(magnitude);
        s.append(digits.as_str());
        s
    } else {
        decimal_u64(v as u64)
    }
}

/// The text of a boolean, as `to_string` writes it.
pub open spec fn bool_text(b: bool) -> Seq<char> {
    if b {
        "true"@
    } else {
        "false"@
    }
}

/// The text of a boolean, as `to_string` writes it.
pub fn bool_string(b: bool) -> (r: String)
    ensures
        r@ == bool_text(b),
{
    if b {
        "true".to_string()
    } else {
        "false".to_string()
    }
}

/// Trimming trailing `c` twice is trimming once, and the result does not end
/// with `c`.
pub proof fn lemma_trim_end_char(s: Seq<char>, c: char)
    ensures
        trim_end_char(trim_end_char(s, c), c) == trim_end_char(s, c),
        trim_end_char(s, c).len() > 0 ==> trim_end_char(s, c).last() != c,
        trim_end_char(s.push(c), c) == trim_end_char(s, c),
    decreases s.len(),
{
    assert(s.push(c).drop_last() =~= s);
    if s.len() > 0 && s.last() == c {
        lemma_trim_end_char(s.drop_last(), c);
    }
}

/// Trimming leading `c` ignores one more leading `c`.
pub proof fn lemma_trim_start_char(s: Seq<char>, c: char)
    ensures
        trim_start_char(seq![c] + s, c) == trim_start_char(s, c),
{
    assert((seq![c] + s).drop_first() =~= s);
}

/// ASCII lowercasing keeps the length, turns each upper-case ASCII letter into
/// the lower-case letter 32 code points above it, and leaves every other
/// character as it is.
pub proof fn lemma_ascii_lower_meaning(s: Seq<char>)
    ensures
        ascii_lower(s).len() == s.len(),
        forall|i: int|
            0 <= i < s.len() ==> {
                &&& ('A' <= s[i] <= 'Z') ==> (#[trigger] ascii_lower(s)[i]) as u32 == s[i] as u32
                    + 32
                &&& !('A' <= s[i] <= 'Z') ==> ascii_lower(s)[i] == s[i]
            },
{
    assert forall|i: int| 0 <= i < s.len() implies ('A' <= s[i] <= 'Z') ==> (
    #[trigger] ascii_lower(s)[i]) as u32 == s[i] as u32 + 32 by {
        if 'A' <= s[i] <= 'Z' {
            let x: u32 = ((s[i] as u32) + 32) as u32;
            assert((x as char) as u32 == x);
        }
    }
}

/// A text occurs in any text that holds it, wherever it stands, and only in
/// texts at least as long as itself.
pub proof fn lemma_contains_text_anywhere(before: Seq<char>, needle: Seq<char>, after: Seq<char>)
    ensures
        contains_text(before + needle + after, needle),
        forall|hay: Seq<char>| #[trigger] contains_text(hay, needle) ==> needle.len() <= hay.len(),
{
    let hay = before + needle + after;
    assert(hay.subrange(before.len() as int, (before.len() + needle.len()) as int) =~= needle);
    assert(occurs_at(hay, needle, before.len() as int));
}

/// The number that a text of decimal digits denotes.
pub open spec fn digits_value(s: Seq<char>) -> int
    decreases s.len(),
{
    if s.len() == 0 {
        0
    } else {
        digits_value(s.drop_last()) * 10 + (s.last() as u32 - 48)
    }
}

/// The decimal digits of `n` are digits, denote `n`, and have no leading zero.
pub proof fn lemma_decimal_digits_meaning(n: nat)
    ensures
        decimal_digits(n).len() > 0,
        forall|i: int|
            0 <= i < decimal_digits(n).len() ==> '0' <= #[trigger] decimal_digits(n)[i] <= '9',
        digits_value(decimal_digits(n)) == n,
        n > 0 ==> decimal_digits(n)[0] != '0',
    decreases n,
{
    let d = (n % 10) as nat;
    let x: u32 = (48 + d) as u32;
    assert((x as char) as u32 == x);
    if n < 10 {
        assert(decimal_digits(n) =~= seq![digit_char(n)]);
        assert(seq![digit_char(n)].drop_last() =~= Seq::<char>::empty());
        assert(n % 10 == n);
        assert(digit_char(n) as u32 == 48 + n);
        assert(digits_value(decimal_digits(n)) == digits_value(Seq::<char>::empty()) * 10 + (
        digit_char(n) as u32 - 48));
    } else {
        lemma_decimal_digits_meaning(n / 10);
        let front = decimal_digits(n / 10);
        assert(decimal_digits(n) == front + seq![digit_char(d)]);
        assert((front + seq![digit_char(d)]).drop_last() =~= front);
        assert((n / 10) * 10 + n % 10 == n) by (nonlinear_arith);
        assert(digit_char(d) as u32 == 48 + d);
        assert(digits_value(decimal_digits(n)) == digits_value(front) * 10 + (digit_char(d) as u32
            - 48));
        assert forall|i: int| 0 <= i < decimal_digits(n).len() implies '0' <= #[trigger] decimal_digits(
            n,
        )[i] <= '9' by {
            if i < front.len() {
                assert(decimal_digits(n)[i] == front[i]);
            }
        }
        assert(decimal_digits(n)[0] == front[0]);
    }
}

/// The decimal text of an integer is `-` followed by the digits of its
/// magnitude when it is negative, and its digits otherwise.
pub proof fn lemma_decimal_text_meaning(v: int)
    ensures
        v >= 0 ==> digits_value(decimal_text(v)) == v && decimal_text(v)[0] != '-',
        v < 0 ==> decimal_text(v)[0] == '-' && digits_value(decimal_text(v).drop_first()) == -v,
        forall|i: int|
            (if v < 0 {
                1int
            } else {
                0int
            }) <= i < decimal_text(v).len() ==> '0' <= #[trigger] decimal_text(v)[i] <= '9',
{
    if v < 0 {
        lemma_decimal_digits_meaning((-v) as nat);
        assert((seq!['-'] + decimal_digits((-v) as nat)).drop_first() =~= decimal_digits(
            (-v) as nat,
        ));
        assert forall|i: int| 1 <= i < decimal_text(v).len() implies '0' <= #[trigger] decimal_text(
            v,
        )[i] <= '9' by {
            assert(decimal_text(v)[i] == decimal_digits((-v) as nat)[i - 1]);
        }
    } else {
        lemma_decimal_digits_meaning(v as nat);
    }
}

/// Trimming whitespace removes only whitespace, and only from the two ends:
/// the result is a contiguous part of the text, and it neither starts nor
/// ends with whitespace.
pub proof fn lemma_trim_whitespace_meaning(s: Seq<char>)
    ensures
        exists|a: int, b: int|
            0 <= a <= b <= s.len() && trim_whitespace(s) == s.subrange(a, b) && (forall|i: int|
                0 <= i < a ==> is_unicode_whitespace(#[trigger] s[i])) && (forall|i: int|
                b <= i < s.len() ==> is_unicode_whitespace(#[trigger] s[i])),
        trim_whitespace(s).len() > 0 ==> !is_unicode_whitespace(trim_whitespace(s)[0])
            && !is_unicode_whitespace(trim_whitespace(s).last()),
{
    let a = lemma_trim_start_whitespace(s);
    let t = s.subrange(a, s.len() as int);
    let b = lemma_trim_end_whitespace(t);
    assert(t.subrange(0, b) =~= s.subrange(a, a + b));
    assert forall|i: int| a + b <= i < s.len() implies is_unicode_whitespace(#[trigger] s[i]) by {
        assert(s[i] == t[i - a]);
    }
    if trim_whitespace(s).len() > 0 {
        assert(trim_whitespace(s)[0] == t[0]);
    }
}

proof fn lemma_trim_start_whitespace(s: Seq<char>) -> (a: int)
    ensures
        0 <= a <= s.len(),
        trim_start_whitespace(s) == s.subrange(a, s.len() as int),
        forall|i: int| 0 <= i < a ==> is_unicode_whitespace(#[trigger] s[i]),
        a < s.len() ==> !is_unicode_whitespace(s[a]),
    decreases s.len(),
{
    if s.len() > 0 && is_unicode_whitespace(s[0]) {
        let r = lemma_trim_start_whitespace(s.drop_first());
        assert(s.drop_first().subrange(r, s.len() - 1) =~= s.subrange(r + 1, s.len() as int));
        assert forall|i: int| 0 <= i < r + 1 implies is_unicode_whitespace(#[trigger] s[i]) by {
            if i > 0 {
                assert(s[i] == s.drop_first()[i - 1]);
            }
        }
        if r + 1 < s.len() {
            assert(s[r + 1] == s.drop_first()[r]);
        }
        r + 1
    } else {
        assert(s.subrange(0, s.len() as int) =~= s);
        0
    }
}

proof fn lemma_trim_end_whitespace(s: Seq<char>) -> (b: int)
    ensures
        0 <= b <= s.len(),
        trim_end_whitespace(s) == s.subrange(0, b),
        forall|i: int| b <= i < s.len() ==> is_unicode_whitespace(#[trigger] s[i]),
        b > 0 ==> !is_unicode_whitespace(s[b - 1]),
    decreases s.len(),
{
    if s.len() > 0 && is_unicode_whitespace(s.last()) {
        let r = lemma_trim_end_whitespace(s.drop_last());
        assert(s.drop_last().subrange(0, r) =~= s.subrange(0, r));
        assert forall|i: int| r <= i < s.len() implies is_unicode_whitespace(#[trigger] s[i]) by {
            if i < s.len() - 1 {
                assert(s[i] == s.drop_last()[i]);
            }
        }
        if r > 0 {
            assert(s[r - 1] == s.drop_last()[r - 1]);
        }
        r
    } else {
        assert(s.subrange(0, s.len() as int) =~= s);
        s.len() as int
    }
}

} // verus!
