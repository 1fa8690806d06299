//! Character-sequence helpers shared by the identity, version and protocol parsers.
//!
//! Strings are handled as sequences of `char`s: the specifications speak of `Seq<char>`
//! (the view of `str` and `String`), and the executable helpers work on `[char]` slices.
use vstd::prelude::*;

verus! {

/// Collects the characters of a string slice into a vector.
pub fn chars_of(s: &str) -> (r: Vec<char>)
    ensures
        r@ == s@,
{
    let mut r: Vec<char> = Vec::new();
    for c in it: s.chars()
        invariant
            r@ == it.seq().take(it.index() as int),
            it.seq() == s@,
    {
        r.push(c);
    }
    r
}

/// `std::string::String::push`: appends one character to the end of the string.
#[verifier::external_body]
pub(crate) fn string_push(s: &mut String, c: char)
    ensures
        final(s)@ == old(s)@.push(c),
{
    s.push(c);
}

/// Builds a `String` holding exactly the given characters.
pub fn string_from_chars(cs: &[char]) -> (r: String)
    ensures
        r@ == cs@,
{
    let mut r = String::new();
    let mut i: usize = 0;
    while i < cs.len()
        invariant
            0 <= i <= cs@.len(),
            r@ == cs@.subrange(0, i as int),
        decreases cs@.len() - i,
    {
        string_push(&mut r, cs[i]);
        assert(cs@.subrange(0, i + 1) == cs@.subrange(0, i as int).push(cs@[i as int]));
        i = i + 1;
    }
    assert(cs@.subrange(0, cs@.len() as int) == cs@);
    r
}

/// Appends the characters of `cs` to `s`.
pub fn string_extend(s: &mut String, cs: &[char])
    ensures
        final(s)@ == old(s)@ + cs@,
{
    let ghost start = s@;
    let mut i: usize = 0;
    while i < cs.len()
        invariant
            0 <= i <= cs@.len(),
            s@ == start + cs@.subrange(0, i as int),
        decreases cs@.len() - i,
    {
        string_push(s, cs[i]);
        assert(cs@.subrange(0, i + 1) == cs@.subrange(0, i as int).push(cs@[i as int]));
        i = i + 1;
    }
    assert(cs@.subrange(0, cs@.len() as int) == cs@);
}

/// Appends the characters of a string slice to `s`.
pub fn string_extend_str(s: &mut String, t: &str)
    ensures
        final(s)@ == old(s)@ + t@,
{
    let cs = chars_of(t);
    string_extend(s, cs.as_slice());
}

/// Whether `i` is the position of the first occurrence of `c` in `s`.
pub open spec fn is_first_index(s: Seq<char>, c: char, i: int) -> bool {
    &&& 0 <= i < s.len()
    &&& s[i] == c
    &&& forall|j: int| 0 <= j < i ==> s[j] != c
}

/// Whether `i` is the position of the last occurrence of `c` in `s`.
pub open spec fn is_last_index(s: Seq<char>, c: char, i: int) -> bool {
    &&& 0 <= i < s.len()
    &&& s[i] == c
    &&& forall|j: int| i < j < s.len() ==> s[j] != c
}

/// Position of the first occurrence of `c` in `s` (as `str::find` with a `char` pattern).
pub open spec fn spec_find(s: Seq<char>, c: char) -> Option<int> {
    if exists|i: int| is_first_index(s, c, i) {
        Some(choose|i: int| is_first_index(s, c, i))
    } else {
        None
    }
}

/// Position of the last occurrence of `c` in `s` (as `str::rfind` with a `char` pattern).
pub open spec fn spec_rfind(s: Seq<char>, c: char) -> Option<int> {
    if exists|i: int| is_last_index(s, c, i) {
        Some(choose|i: int| is_last_index(s, c, i))
    } else {
        None
    }
}

/// The first occurrence of a character is unique, so `spec_find` names it.
pub proof fn lemma_find_is(s: Seq<char>, c: char, i: int)
    requires
        is_first_index(s, c, i),
    ensures
        spec_find(s, c) == Some(i),
{
    let k = choose|k: int| is_first_index(s, c, k);
    assert(is_first_index(s, c, k));
    if k < i {
        assert(s[k] != c);
    }
    if i < k {
        assert(s[i] != c);
    }
}

/// A character that does not occur has no first occurrence.
pub proof fn lemma_find_none(s: Seq<char>, c: char)
    requires
        forall|j: int| 0 <= j < s.len() ==> s[j] != c,
    ensures
        spec_find(s, c) is None,
{
}

/// What `spec_find` reports when it finds something.
pub proof fn lemma_find_some(s: Seq<char>, c: char)
    ensures
        spec_find(s, c) matches Some(i) ==> is_first_index(s, c, i),
        spec_find(s, c) is None ==> forall|j: int| 0 <= j < s.len() ==> s[j] != c,
{
    if spec_find(s, c) is None {
        assert forall|j: int| 0 <= j < s.len() implies s[j] != c by {
            if s[j] == c {
                // the first occurrence at or before j exists
                let w = first_occurrence_witness(s, c, j);
                assert(is_first_index(s, c, w));
            }
        }
    }
}

/// Given any occurrence at `j`, finds the first occurrence.
proof fn first_occurrence_witness(s: Seq<char>, c: char, j: int) -> (w: int)
    requires
        0 <= j < s.len(),
        s[j] == c,
    ensures
        is_first_index(s, c, w),
    decreases j,
{
    if exists|k: int| 0 <= k < j && s[k] == c {
        let k = choose|k: int| 0 <= k < j && s[k] == c;
        first_occurrence_witness(s, c, k)
    } else {
        j
    }
}

/// Given any occurrence at `j`, finds the last occurrence.
proof fn last_occurrence_witness(s: Seq<char>, c: char, j: int) -> (w: int)
    requires
        0 <= j < s.len(),
        s[j] == c,
    ensures
        is_last_index(s, c, w),
    decreases s.len() - j,
{
    if exists|k: int| j < k < s.len() && s[k] == c {
        let k = choose|k: int| j < k < s.len() && s[k] == c;
        last_occurrence_witness(s, c, k)
    } else {
        j
    }
}

/// The last occurrence of a character is unique, so `spec_rfind` names it.
pub proof fn lemma_rfind_is(s: Seq<char>, c: char, i: int)
    requires
        is_last_index(s, c, i),
    ensures
        spec_rfind(s, c) == Some(i),
{
    let k = choose|k: int| is_last_index(s, c, k);
    assert(is_last_index(s, c, k));
    if k < i {
        assert(s[i] != c);
    }
    if i < k {
        assert(s[k] != c);
    }
}

/// What `spec_rfind` reports.
pub proof fn lemma_rfind_some(s: Seq<char>, c: char)
    ensures
        spec_rfind(s, c) matches Some(i) ==> is_last_index(s, c, i),
        spec_rfind(s, c) is None ==> forall|j: int| 0 <= j < s.len() ==> s[j] != c,
{
    if spec_rfind(s, c) is None {
        assert forall|j: int| 0 <= j < s.len() implies s[j] != c by {
            if s[j] == c {
                let w = last_occurrence_witness(s, c, j);
                assert(is_last_index(s, c, w));
            }
        }
    }
}

/// Finds the first occurrence of `c` in `s`.
pub fn find_char(s: &[char], c: char) -> (r: Option<usize>)
    ensures
        match r {
            Some(i) => spec_find(s@, c) == Some(i as int) && is_first_index(s@, c, i as int),
            None => spec_find(s@, c) is None && forall|j: int| 0 <= j < s@.len() ==> s@[j] != c,
        },
{
    let mut i: usize = 0;
    while i < s.len()
        invariant
            0 <= i <= s@.len(),
            forall|j: int| 0 <= j < i ==> s@[j] != c,
        decreases s@.len() - i,
    {
        if s[i] == c {
            proof {
                lemma_find_is(s@, c, i as int);
            }
            return Some(i);
        }
        i = i + 1;
    }
    None
}

/// Finds the last occurrence of `c` in `s`.
pub fn rfind_char(s: &[char], c: char) -> (r: Option<usize>)
    ensures
        match r {
            Some(i) => spec_rfind(s@, c) == Some(i as int) && is_last_index(s@, c, i as int),
            None => spec_rfind(s@, c) is None && forall|j: int| 0 <= j < s@.len() ==> s@[j] != c,
        },
{
    let mut i: usize = s.len();
    while i > 0
        invariant
            0 <= i <= s@.len(),
            forall|j: int| i <= j < s@.len() ==> s@[j] != c,
        decreases i,
    {
        if s[i - 1] == c {
            proof {
                lemma_rfind_is(s@, c, i - 1);
            }
            return Some(i - 1);
        }
        i = i - 1;
    }
    None
}

/// Whether `p` is a prefix of `s`.
pub open spec fn is_prefix(p: Seq<char>, s: Seq<char>) -> bool {
    p.len() <= s.len() && s.subrange(0, p.len() as int) == p
}

/// Whether `p` is a suffix of `s`.
pub open spec fn is_suffix(p: Seq<char>, s: Seq<char>) -> bool {
    p.len() <= s.len() && s.subrange(s.len() - p.len(), s.len() as int) == p
}

/// Whether the two character slices are equal.
pub fn chars_eq(a: &[char], b: &[char]) -> (r: bool)
    ensures
        r == (a@ == b@),
{
    if a.len() != b.len() {
        return false;
    }
    let mut i: usize = 0;
    while i < a.len()
        invariant
            a@.len() == b@.len(),
            0 <= i <= a@.len(),
            forall|j: int| 0 <= j < i ==> a@[j] == b@[j],
        decreases a@.len() - i,
    {
        if a[i] != b[i] {
            return false;
        }
        i = i + 1;
    }
    assert(a@ == b@);
    true
}

/// Whether two strings are equal.
pub fn str_eq(a: &str, b: &str) -> (r: bool)
    ensures
        r == (a@ == b@),
{
    let ca = chars_of(a);
    let cb = chars_of(b);
    chars_eq(ca.as_slice(), cb.as_slice())
}

/// Whether `a` comes before `b` when both are compared from position `i` on: at the first
/// position where they differ the smaller character comes first, and a string that ends first
/// comes first.
pub open spec fn chars_less_from(a: Seq<char>, b: Seq<char>, i: int) -> bool
    decreases a.len() - i,
{
    if i >= a.len() {
        i < b.len()
    } else if i >= b.len() {
        false
    } else if a[i] != b[i] {
        (a[i] as u32) < (b[i] as u32)
    } else {
        chars_less_from(a, b, i + 1)
    }
}

/// Whether `a` comes strictly before `b` in the order of `String`'s `Ord`: lexicographic by
/// character, which for UTF-8 text is the order of its bytes.
pub open spec fn chars_less(a: Seq<char>, b: Seq<char>) -> bool {
    chars_less_from(a, b, 0)
}

/// The order is transitive.
pub proof fn lemma_chars_less_from_transitive(a: Seq<char>, b: Seq<char>, c: Seq<char>, i: int)
    requires
        0 <= i <= a.len(),
        i <= b.len(),
        i <= c.len(),
        chars_less_from(a, b, i),
        chars_less_from(b, c, i),
    ensures
        chars_less_from(a, c, i),
    decreases a.len() - i,
{
    if i < a.len() && i < b.len() && i < c.len() && a[i] == b[i] && b[i] == c[i] {
        lemma_chars_less_from_transitive(a, b, c, i + 1);
    }
}

/// No string comes before itself.
pub proof fn lemma_chars_less_from_irreflexive(a: Seq<char>, i: int)
    requires
        0 <= i <= a.len(),
    ensures
        !chars_less_from(a, a, i),
    decreases a.len() - i,
{
    if i < a.len() {
        lemma_chars_less_from_irreflexive(a, i + 1);
    }
}

/// Whether `a` comes strictly before `b` (see [`chars_less`]).
pub fn chars_lt(a: &[char], b: &[char]) -> (r: bool)
    ensures
        r == chars_less(a@, b@),
{
    let mut i: usize = 0;
    while i < a.len() && i < b.len()
        invariant
            i <= a@.len(),
            i <= b@.len(),
            chars_less(a@, b@) == chars_less_from(a@, b@, i as int),
        decreases a@.len() - i,
    {
        if a[i] != b[i] {
            return (a[i] as u32) < (b[i] as u32);
        }
        i = i + 1;
    }
    i < b.len()
}

/// Whether `p` occurs in `s` (as `str::contains` with a string pattern).
pub open spec fn contains_sub(s: Seq<char>, p: Seq<char>) -> bool {
    exists|i: int| 0 <= i && i + p.len() <= s.len() && #[trigger] s.subrange(i, i + p.len()) == p
}

/// Whether `p` occurs in `s` (see [`contains_sub`]).
pub fn chars_contain(s: &[char], p: &[char]) -> (r: bool)
    ensures
        r == contains_sub(s@, p@),
{
    if p.len() > s.len() {
        return false;
    }
    if p.len() == 0 {
        assert(s@.subrange(0int, 0int + p@.len()) =~= p@);
        return true;
    }
    let mut i: usize = 0;
    while i <= s.len() - p.len()
        invariant
            1 <= p@.len() <= s@.len(),
            i <= s@.len() - p@.len() + 1,
            forall|j: int| 0 <= j < i ==> #[trigger] s@.subrange(j, j + p@.len()) != p@,
        decreases s@.len() - p@.len() + 1 - i,
    {
        if chars_eq(&s[i..i + p.len()], p) {
            return true;
        }
        assert(i < s.len());
        i = i + 1;
    }
    false
}

/// The pieces of `s` between occurrences of `c` (as `str::split` with a `char` pattern): always
/// at least one piece, which may be empty.
pub open spec fn split_on(s: Seq<char>, c: char) -> Seq<Seq<char>>
    decreases s.len(),
{
    if s.len() == 0 {
        seq![seq![]]
    } else {
        let prev = split_on(s.drop_last(), c);
        if s.last() == c {
            prev.push(seq![])
        } else {
            prev.update(prev.len() - 1, prev.last().push(s.last()))
        }
    }
}

/// The models of some strings.
pub open spec fn strings_view(v: Seq<String>) -> Seq<Seq<char>> {
    v.map_values(|s: String| s@)
}

/// Splits `s` at each `c` (see [`split_on`]).
pub fn split_chars(s: &[char], c: char) -> (r: Vec<String>)
    ensures
        strings_view(r@) == split_on(s@, c),
{
    let mut parts: Vec<String> = Vec::new();
    let mut cur = String::new();
    let mut i: usize = 0;
    assert(strings_view(parts@).push(cur@) =~= split_on(s@.subrange(0, 0), c));
    while i < s.len()
        invariant
            i <= s@.len(),
            strings_view(parts@).push(cur@) == split_on(s@.subrange(0, i as int), c),
        decreases s@.len() - i,
    {
        let x = s[i];
        let ghost before = s@.subrange(0, i as int);
        let ghost after = s@.subrange(0, i + 1);
        assert(after.drop_last() =~= before);
        assert(after.last() == x);
        let ghost old_parts = parts@;
        let ghost old_cur = cur@;
        if x == c {
            let done = cur;
            parts.push(done);
            cur = String::new();
            assert(strings_view(parts@) =~= strings_view(old_parts).push(old_cur));
            assert(strings_view(parts@).push(cur@) =~= split_on(after, c));
        } else {
            string_push(&mut cur, x);
            assert(strings_view(parts@).push(cur@) =~= strings_view(old_parts).push(old_cur).update(
                old_parts.len() as int,
                old_cur.push(x),
            ));
        }
        i = i + 1;
    }
    assert(s@.subrange(0, s@.len() as int) =~= s@);
    parts.push(cur);
    parts
}

/// Whether `p` is a prefix of `s`.
pub fn starts_with(s: &[char], p: &[char]) -> (r: bool)
    ensures
        r == is_prefix(p@, s@),
{
    if p.len() > s.len() {
        return false;
    }
    chars_eq(&s[0..p.len()], p)
}

/// Whether `p` is a suffix of `s`.
pub fn ends_with(s: &[char], p: &[char]) -> (r: bool)
    ensures
        r == is_suffix(p@, s@),
{
    if p.len() > s.len() {
        return false;
    }
    chars_eq(&s[s.len() - p.len()..s.len()], p)
}

/// Value of an ASCII decimal digit character.
pub open spec fn digit_value(c: char) -> nat {
    (c as nat - '0' as nat) as nat
}

/// Whether `c` is an ASCII decimal digit.
pub open spec fn is_digit(c: char) -> bool {
    '0' <= c && c <= '9'
}

/// Whether every character of `s` is an ASCII decimal digit.
pub open spec fn all_digits(s: Seq<char>) -> bool {
    forall|i: int| 0 <= i < s.len() ==> is_digit(#[trigger] s[i])
}

/// The number written by a string of decimal digits (most significant first).
pub open spec fn decimal_value(s: Seq<char>) -> nat
    decreases s.len(),
{
    if s.len() == 0 {
        0
    } else {
        decimal_value(s.drop_last()) * 10 + digit_value(s.last())
    }
}

/// `usize::from_str`: an optional leading `+` followed by at least one decimal digit,
/// giving a value that fits in a `usize`.
pub open spec fn spec_parse_usize(s: Seq<char>) -> Option<usize> {
    let digits = if s.len() > 0 && s[0] == '+' {
        s.drop_first()
    } else {
        s
    };
    if digits.len() == 0 || !all_digits(digits) || decimal_value(digits) > usize::MAX {
        None
    } else {
        Some(decimal_value(digits) as usize)
    }
}

/// A longer digit string never denotes a smaller number.
pub proof fn lemma_decimal_value_prefix(s: Seq<char>, n: int)
    requires
        0 <= n <= s.len(),
    ensures
        decimal_value(s.subrange(0, n)) <= decimal_value(s),
    decreases s.len() - n,
{
    if n < s.len() {
        lemma_decimal_value_prefix(s, n + 1);
        let t = s.subrange(0, n + 1);
        assert(t.drop_last() == s.subrange(0, n));
    } else {
        assert(s.subrange(0, n) == s);
    }
}

/// Parses a string of decimal digits with an optional leading `+` into a `usize`,
/// as `usize::from_str` does.
pub fn parse_usize(s: &[char]) -> (r: Option<usize>)
    ensures
        r == spec_parse_usize(s@),
{
    let start: usize = if s.len() > 0 && s[0] == '+' {
        1
    } else {
        0
    };
    let ghost digits = s@.subrange(start as int, s@.len() as int);
    assert(digits == (if s@.len() > 0 && s@[0] == '+' { s@.drop_first() } else { s@ }));
    if start == s.len() {
        return None;
    }
    let mut value: usize = 0;
    let mut i: usize = start;
    while i < s.len()
        invariant
            start <= i <= s@.len(),
            start < s@.len(),
            digits == s@.subrange(start as int, s@.len() as int),
            digits == (if s@.len() > 0 && s@[0] == '+' { s@.drop_first() } else { s@ }),
            all_digits(s@.subrange(start as int, i as int)),
            value as nat == decimal_value(s@.subrange(start as int, i as int)),
        decreases s@.len() - i,
    {
        let c = s[i];
        if !('0' <= c && c <= '9') {
            assert(digits[i - start] == c);
            assert(!all_digits(digits));
            return None;
        }
        let ghost prev = s@.subrange(start as int, i as int);
        let ghost next = s@.subrange(start as int, i + 1);
        assert(next.drop_last() == prev);
        assert(next.last() == c);
        let d = (c as u32 - '0' as u32) as usize;
        if value > (usize::MAX - d) / 10 {
            proof {
                let v = value as int;
                let dd = d as int;
                let m = usize::MAX as int;
                assert(v * 10 + dd > m) by (nonlinear_arith)
                    requires v > (m - dd) / 10, 0 <= dd <= 9, m >= 9;
                assert(decimal_value(next) == decimal_value(prev) * 10 + digit_value(c));
                assert(digit_value(c) == d);
                assert(decimal_value(next) > usize::MAX);
                assert(next == digits.subrange(0, i + 1 - start));
                lemma_decimal_value_prefix(digits, i + 1 - start);
            }
            return None;
        }
        value = value * 10 + d;
        i = i + 1;
        assert(all_digits(next)) by {
            assert forall|k: int| 0 <= k < next.len() implies is_digit(#[trigger] next[k]) by {
                if k < prev.len() {
                    assert(next[k] == prev[k]);
                }
            }
        }
    }
    Some(value)
}

/// The character for a decimal digit value below ten.
pub open spec fn digit_char(d: nat) -> char {
    ('0' as nat + d) as char
}

/// The shortest decimal rendering of `n` (as `usize`'s `Display`).
pub open spec fn decimal_digits(n: nat) -> Seq<char>
    decreases n,
{
    if n < 10 {
        seq![digit_char(n)]
    } else {
        decimal_digits(n / 10).push(digit_char(n % 10))
    }
}

/// Reading back a rendered number gives the number.
pub proof fn lemma_decimal_digits_value(n: nat)
    ensures
        all_digits(decimal_digits(n)),
        decimal_value(decimal_digits(n)) == n,
        decimal_digits(n).len() >= 1,
        is_digit(decimal_digits(n)[0]),
    decreases n,
{
    assert(digit_value(digit_char(n % 10)) == n % 10);
    if n < 10 {
        let s = decimal_digits(n);
        assert(s.drop_last() =~= Seq::<char>::empty());
        assert(decimal_value(s) == decimal_value(s.drop_last()) * 10 + digit_value(s.last()));
    } else {
        lemma_decimal_digits_value(n / 10);
        let s = decimal_digits(n);
        assert(decimal_value(s) == decimal_value(s.drop_last()) * 10 + digit_value(s.last()));
        assert(s.drop_last() == decimal_digits(n / 10));
        assert(all_digits(s)) by {
            assert forall|k: int| 0 <= k < s.len() implies is_digit(#[trigger] s[k]) by {
                if k < s.len() - 1 {
                    assert(s[k] == decimal_digits(n / 10)[k]);
                }
            }
        }
    }
}

/// Parsing the rendering of a number gives back the number.
pub proof fn lemma_parse_decimal_digits(n: usize)
    ensures
        spec_parse_usize(decimal_digits(n as nat)) == Some(n),
{
    lemma_decimal_digits_value(n as nat);
}

/// Appends the decimal rendering of `n` to `out`.
pub fn push_decimal(out: &mut String, n: usize)
    ensures
        final(out)@ == old(out)@ + decimal_digits(n as nat),
    decreases n,
{
    if n >= 10 {
        push_decimal(out, n / 10);
    }
    let d = (n % 10) as u8;
    let c = (48u8 + d) as char;
    string_push(out, c);
    assert(c == digit_char((n % 10) as nat));
    if n >= 10 {
        assert(decimal_digits(n as nat) == decimal_digits((n / 10) as nat).push(digit_char((n % 10) as nat)));
    } else {
        assert(n % 10 == n);
    }
}

/// The decimal rendering of `n` as a new `String`.
pub fn decimal_string(n: usize) -> (r: String)
    ensures
        r@ == decimal_digits(n as nat),
{
    let mut r = String::new();
    push_decimal(&mut r, n);
    r
}

/// The lower-case character for a hexadecimal digit value below sixteen.
pub open spec fn hex_digit_char(d: nat) -> char {
    if d < 10 {
        ('0' as nat + d) as char
    } else {
        ('a' as nat + (d - 10)) as char
    }
}

/// The last `n` hexadecimal digits of `v`, most significant first, in lower case (as the `{:0n$x}`
/// format renders a value below sixteen to the power `n`).
pub open spec fn hex_digits_fixed(v: nat, n: nat) -> Seq<char>
    decreases n,
{
    if n == 0 {
        seq![]
    } else {
        hex_digits_fixed(v / 16, (n - 1) as nat).push(hex_digit_char(v % 16))
    }
}

/// Appends the last `n` hexadecimal digits of `v` to `out` (see [`hex_digits_fixed`]).
pub fn push_hex_fixed(out: &mut String, v: u64, n: usize)
    ensures
        final(out)@ == old(out)@ + hex_digits_fixed(v as nat, n as nat),
    decreases n,
{
    if n == 0 {
        assert(old(out)@ + hex_digits_fixed(v as nat, 0) =~= old(out)@);
        return;
    }
    push_hex_fixed(out, v / 16, n - 1);
    let d = (v % 16) as u8;
    let c = if d < 10 {
        (48u8 + d) as char
    } else {
        (97u8 + (d - 10)) as char
    };
    string_push(out, c);
    assert(c == hex_digit_char((v % 16) as nat));
}

/// The value of a hexadecimal digit character (either case), as `char::to_digit(16)` reads it.
pub open spec fn hex_char_value(c: char) -> Option<nat> {
    if '0' <= c && c <= '9' {
        Some((c as nat - '0' as nat) as nat)
    } else if 'a' <= c && c <= 'f' {
        Some((c as nat - 'a' as nat + 10) as nat)
    } else if 'A' <= c && c <= 'F' {
        Some((c as nat - 'A' as nat + 10) as nat)
    } else {
        None
    }
}

/// Whether every character of `s` is a hexadecimal digit.
pub open spec fn all_hex_chars(s: Seq<char>) -> bool {
    forall|i: int| 0 <= i < s.len() ==> (#[trigger] hex_char_value(s[i])) is Some
}

/// The number written by hexadecimal digit characters, most significant first.
pub open spec fn hex_chars_value(s: Seq<char>) -> nat
    decreases s.len(),
{
    if s.len() == 0 {
        0
    } else {
        hex_chars_value(s.drop_last()) * 16 + hex_char_value(s.last())->0
    }
}

/// Decodes one hexadecimal digit character.
pub fn hex_char_digit(c: char) -> (r: Option<u8>)
    ensures
        match r {
            Some(v) => hex_char_value(c) == Some(v as nat) && v < 16,
            None => hex_char_value(c) is None,
        },
{
    if '0' <= c && c <= '9' {
        Some((c as u32 - '0' as u32) as u8)
    } else if 'a' <= c && c <= 'f' {
        Some((c as u32 - 'a' as u32 + 10) as u8)
    } else if 'A' <= c && c <= 'F' {
        Some((c as u32 - 'A' as u32 + 10) as u8)
    } else {
        None
    }
}

/// The upper-case character for a hexadecimal digit value below sixteen.
pub open spec fn upper_hex_digit_char(d: nat) -> char {
    if d < 10 {
        ('0' as nat + d) as char
    } else {
        ('A' as nat + (d - 10)) as char
    }
}

/// The last `n` hexadecimal digits of `v`, most significant first, in upper case (as the
/// `{:0n$X}` format renders a value below sixteen to the power `n`).
pub open spec fn upper_hex_digits_fixed(v: nat, n: nat) -> Seq<char>
    decreases n,
{
    if n == 0 {
        seq![]
    } else {
        upper_hex_digits_fixed(v / 16, (n - 1) as nat).push(upper_hex_digit_char(v % 16))
    }
}

/// Appends the last `n` upper-case hexadecimal digits of `v` to `out`.
pub fn push_upper_hex_fixed(out: &mut String, v: u64, n: usize)
    ensures
        final(out)@ == old(out)@ + upper_hex_digits_fixed(v as nat, n as nat),
    decreases n,
{
    if n == 0 {
        assert(old(out)@ + upper_hex_digits_fixed(v as nat, 0) =~= old(out)@);
        return;
    }
    push_upper_hex_fixed(out, v / 16, n - 1);
    let d = (v % 16) as u8;
    let c = if d < 10 {
        (48u8 + d) as char
    } else {
        (65u8 + (d - 10)) as char
    };
    string_push(out, c);
    assert(c == upper_hex_digit_char((v % 16) as nat));
}

/// Names joined with `", "` between them.
pub open spec fn join_names(names: Seq<Seq<char>>) -> Seq<char>
    decreases names.len(),
{
    if names.len() == 0 {
        seq![]
    } else if names.len() == 1 {
        names[0]
    } else {
        join_names(names.drop_last()) + ", "@ + names.last()
    }
}

/// The names of the flags that `bits` holds, in the order of the table.
pub open spec fn flag_names(bits: u64, table: Seq<(u64, Seq<char>)>) -> Seq<Seq<char>>
    decreases table.len(),
{
    if table.len() == 0 {
        seq![]
    } else {
        let rest = flag_names(bits, table.drop_last());
        if bits & table.last().0 == table.last().0 {
            rest.push(table.last().1)
        } else {
            rest
        }
    }
}

/// The models of a table of flags and their names.
pub open spec fn flag_table_view(t: Seq<(u64, &str)>) -> Seq<(u64, Seq<char>)> {
    t.map_values(|p: (u64, &str)| (p.0, p.1@))
}

/// The names of the flags that `bits` holds, joined with `", "` (see [`flag_names`]).
pub fn flags_to_string(bits: u64, table: &[(u64, &str)]) -> (r: String)
    ensures
        r@ == join_names(flag_names(bits, flag_table_view(table@))),
{
    let ghost tv = flag_table_view(table@);
    let mut r = String::new();
    let mut count: usize = 0;
    let mut k: usize = 0;
    while k < table.len()
        invariant
            k <= table@.len(),
            tv == flag_table_view(table@),
            tv.len() == table@.len(),
            r@ == join_names(flag_names(bits, tv.subrange(0, k as int))),
            count as nat == flag_names(bits, tv.subrange(0, k as int)).len(),
            count <= k,
        decreases table@.len() - k,
    {
        let (flag, name) = table[k];
        let ghost before = tv.subrange(0, k as int);
        let ghost after = tv.subrange(0, k + 1);
        assert(after.drop_last() =~= before);
        assert(after.last() == tv[k as int]);
        assert(tv[k as int] == (flag, name@));
        if bits & flag == flag {
            if count > 0 {
                string_extend_str(&mut r, ", ");
            }
            string_extend_str(&mut r, name);
            proof {
                let names = flag_names(bits, after);
                assert(names.drop_last() =~= flag_names(bits, before));
                if count == 0 {
                    assert(r@ =~= name@);
                } else {
                    assert(r@ =~= join_names(flag_names(bits, before)) + ", "@ + name@);
                }
            }
            count = count + 1;
        }
        k = k + 1;
    }
    assert(tv.subrange(0, table@.len() as int) =~= tv);
    r
}

/// Unicode `White_Space` (what `char::is_whitespace` and `str::trim` test).
pub open spec fn is_whitespace(c: char) -> bool {
    ||| ('\u{9}' <= c && c <= '\u{d}')
    ||| c == ' '
    ||| c == '\u{85}'
    ||| c == '\u{a0}'
    ||| c == '\u{1680}'
    ||| ('\u{2000}' <= c && c <= '\u{200a}')
    ||| c == '\u{2028}'
    ||| c == '\u{2029}'
    ||| c == '\u{202f}'
    ||| c == '\u{205f}'
    ||| c == '\u{3000}'
}

/// Whether `s` is empty once surrounding whitespace is trimmed.
pub open spec fn all_whitespace(s: Seq<char>) -> bool {
    forall|i: int| 0 <= i < s.len() ==> is_whitespace(#[trigger] s[i])
}

/// Whether a character is Unicode `White_Space`.
pub fn char_is_whitespace(c: char) -> (r: bool)
    ensures
        r == is_whitespace(c),
{
    ('\u{9}' <= c && c <= '\u{d}') || c == ' ' || c == '\u{85}' || c == '\u{a0}' || c == '\u{1680}'
        || ('\u{2000}' <= c && c <= '\u{200a}') || c == '\u{2028}' || c == '\u{2029}' || c == '\u{202f}'
        || c == '\u{205f}' || c == '\u{3000}'
}

/// Whether every character of `s` is whitespace (so that `str::trim` leaves nothing).
pub fn is_blank(s: &[char]) -> (r: bool)
    ensures
        r == all_whitespace(s@),
{
    let mut i: usize = 0;
    while i < s.len()
        invariant
            0 <= i <= s@.len(),
            forall|j: int| 0 <= j < i ==> is_whitespace(#[trigger] s@[j]),
        decreases s@.len() - i,
    {
        if !char_is_whitespace(s[i]) {
            return false;
        }
        i = i + 1;
    }
    true
}

/// What `str::to_lowercase` returns for a string with the given characters: the Unicode
/// lowercase mapping of each character in turn.
pub uninterp spec fn spec_to_lowercase(s: Seq<char>) -> Seq<char>;

/// Whether lower-casing leaves a character as it is: an ASCII character that is not an upper-case
/// letter (the Unicode lowercase mapping of such a character is the character itself).
pub open spec fn lowercase_fixed(c: char) -> bool {
    (c as u32) < 0x80 && ((c as u32) < 0x41 || (c as u32) > 0x5a)
}

/// `str::to_lowercase`; its result depends on the characters of `s` alone, and a string of
/// characters that lower-casing leaves as they are (ASCII, no upper-case letter) comes back
/// unchanged.
#[verifier::external_body]
pub(crate) fn to_lowercase(s: &str) -> (r: String)
    ensures
        r@ == spec_to_lowercase(s@),
        (forall|i: int| 0 <= i < s@.len() ==> lowercase_fixed(#[trigger] s@[i])) ==> r@ == s@,
{
    s.to_lowercase()
}

} // verus!
