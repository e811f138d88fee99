//! Character-level string operations with exact specifications.
use vstd::prelude::*;
use vstd::string::StrSliceExecFns;

verus! {

/// ASCII case folding of one character, as a code point.
pub open spec fn fold_ascii(c: char) -> u32 {
    let x = c as u32;
    if 65 <= x && x <= 90 {
        (x + 32) as u32
    } else {
        x
    }
}

/// Two strings match ignoring the case of ASCII letters.
pub open spec fn eq_ignore_ascii_case_spec(a: Seq<char>, b: Seq<char>) -> bool {
    &&& a.len() == b.len()
    &&& forall|i: int| 0 <= i < a.len() ==> fold_ascii(#[trigger] a[i]) == fold_ascii(b[i])
}

fn fold_char(c: char) -> (r: u32)
    ensures
        r == fold_ascii(c),
{
    let x: u32 = c as u32;
    if 65 <= x && x <= 90 {
        x + 32
    } else {
        x
    }
}

/// Compares two strings, ignoring the case of ASCII letters.
pub fn eq_ignore_ascii_case(a: &str, b: &str) -> (r: bool)
    ensures
        r == eq_ignore_ascii_case_spec(a@, b@),
{
    let n: usize = a.unicode_len();
    let m: usize = b.unicode_len();
    if n != m {
        return false;
    }
    let mut i: usize = 0;
    while i < n
        invariant
            n == a@.len(),
            m == b@.len(),
            n == m,
            i <= n,
            forall|j: int| 0 <= j < i ==> fold_ascii(#[trigger] a@[j]) == fold_ascii(b@[j]),
        decreases n - i,
    {
        if fold_char(a.get_char(i)) != fold_char(b.get_char(i)) {
            return false;
        }
        i += 1;
    }
    true
}

/// Exact equality of two string slices.
pub fn text_eq(a: &str, b: &str) -> (r: bool)
    ensures
        r == (a@ == b@),
{
    let n: usize = a.unicode_len();
    let m: usize = b.unicode_len();
    if n != m {
        return false;
    }
    let mut i: usize = 0;
    while i < n
        invariant
            n == a@.len(),
            m == b@.len(),
            n == m,
            i <= n,
            forall|j: int| 0 <= j < i ==> #[trigger] a@[j] == b@[j],
        decreases n - i,
    {
        if a.get_char(i) != b.get_char(i) {
            return false;
        }
        i += 1;
    }
    assert(a@ =~= b@);
    true
}

/// The Unicode `White_Space` property.
pub open spec fn is_white_space(c: char) -> bool {
    let x = c as u32;
    ||| 9 <= x && x <= 13
    ||| x == 32
    ||| x == 0x85
    ||| x == 0xA0
    ||| x == 0x1680
    ||| 0x2000 <= x && x <= 0x200A
    ||| x == 0x2028
    ||| x == 0x2029
    ||| x == 0x202F
    ||| x == 0x205F
    ||| x == 0x3000
}

fn white_space(c: char) -> (r: bool)
    ensures
        r == is_white_space(c),
{
    let x: u32 = c as u32;
    (9 <= x && x <= 13) || x == 32 || x == 0x85 || x == 0xA0 || x == 0x1680 || (0x2000 <= x
        && x <= 0x200A) || x == 0x2028 || x == 0x2029 || x == 0x202F || x == 0x205F || x == 0x3000
}

/// `s` without its leading white space.
pub open spec fn trim_start_spec(s: Seq<char>) -> Seq<char>
    decreases s.len(),
{
    if s.len() > 0 && is_white_space(s[0]) {
        trim_start_spec(s.drop_first())
    } else {
        s
    }
}

/// `s` without its trailing white space.
pub open spec fn trim_end_spec(s: Seq<char>) -> Seq<char>
    decreases s.len(),
{
    if s.len() > 0 && is_white_space(s.last()) {
        trim_end_spec(s.drop_last())
    } else {
        s
    }
}

/// `s` without leading and trailing white space.
pub open spec fn trim_spec(s: Seq<char>) -> Seq<char> {
    trim_end_spec(trim_start_spec(s))
}

/// Removes leading and trailing Unicode white space.
pub fn trim(s: &str) -> (r: &str)
    ensures
        r@ == trim_spec(s@),
{
    let n: usize = s.unicode_len();
    let mut i: usize = 0;
    assert(s@.skip(0) =~= s@);
    while i < n && white_space(s.get_char(i))
        invariant
            n == s@.len(),
            i <= n,
            trim_start_spec(s@) == trim_start_spec(s@.skip(i as int)),
        decreases n - i,
    {
        assert(s@.skip(i as int).drop_first() =~= s@.skip(i + 1));
        i += 1;
    }
    assert(trim_start_spec(s@) == s@.subrange(i as int, n as int)) by {
        assert(s@.skip(i as int) =~= s@.subrange(i as int, n as int));
    }
    let mut j: usize = n;
    while j > i && white_space(s.get_char(j - 1))
        invariant
            n == s@.len(),
            i <= j <= n,
            trim_end_spec(s@.subrange(i as int, n as int)) == trim_end_spec(
                s@.subrange(i as int, j as int),
            ),
        decreases j,
    {
        assert(s@.subrange(i as int, j as int).drop_last() =~= s@.subrange(
            i as int,
            j - 1,
        ));
        j -= 1;
    }
    s.substring_char(i, j)
}

/// `s` without the trailing occurrences of `c`.
pub open spec fn trim_end_char_spec(s: Seq<char>, c: char) -> Seq<char>
    decreases s.len(),
{
    if s.len() > 0 && s.last() == c {
        trim_end_char_spec(s.drop_last(), c)
    } else {
        s
    }
}

/// Removes every trailing occurrence of `c`.
pub fn trim_end_char(s: &str, c: char) -> (r: &str)
    ensures
        r@ == trim_end_char_spec(s@, c),
{
    let n: usize = s.unicode_len();
    let mut j: usize = n;
    assert(s@.take(n as int) =~= s@);
    while j > 0 && s.get_char(j - 1) == c
        invariant
            n == s@.len(),
            j <= n,
            trim_end_char_spec(s@, c) == trim_end_char_spec(s@.take(j as int), c),
        decreases j,
    {
        assert(s@.take(j as int).drop_last() =~= s@.take(j - 1));
        j -= 1;
    }
    assert(s@.take(n as int) =~= s@);
    s.substring_char(0, j)
}

/// The index of the last occurrence of `c` in `s`.
pub open spec fn last_index_of(s: Seq<char>, c: char) -> Option<int>
    decreases s.len(),
{
    if s.len() == 0 {
        None
    } else if s.last() == c {
        Some(s.len() - 1)
    } else {
        last_index_of(s.drop_last(), c)
    }
}

pub proof fn lemma_last_index_of_bounds(s: Seq<char>, c: char)
    ensures
        last_index_of(s, c) matches Some(k) ==> 0 <= k < s.len() && s[k] == c,
    decreases s.len(),
{
    if s.len() > 0 && s.last() != c {
        lemma_last_index_of_bounds(s.drop_last(), c);
    }
}

/// Finds the last occurrence of `c` in `s`.
pub fn rfind_char(s: &str, c: char) -> (r: Option<usize>)
    ensures
        r matches Some(k) ==> last_index_of(s@, c) == Some(k as int),
        r is None ==> last_index_of(s@, c) is None,
{
    let n: usize = s.unicode_len();
    let mut j: usize = n;
    assert(s@.take(n as int) =~= s@);
    while j > 0
        invariant
            n == s@.len(),
            j <= n,
            last_index_of(s@, c) == last_index_of(s@.take(j as int), c),
        decreases j,
    {
        if s.get_char(j - 1) == c {
            return Some(j - 1);
        }
        assert(s@.take(j as int).drop_last() =~= s@.take(j - 1));
        j -= 1;
    }
    None
}

/// The text after the last `c`, or all of `s` where `c` does not occur.
pub open spec fn after_last_spec(s: Seq<char>, c: char) -> Seq<char> {
    match last_index_of(s, c) {
        Some(k) => s.skip(k + 1),
        None => s,
    }
}

/// The text after the last `c`, or all of `s` where `c` does not occur.
pub fn after_last(s: &str, c: char) -> (r: &str)
    ensures
        r@ == after_last_spec(s@, c),
{
    proof {
        lemma_last_index_of_bounds(s@, c);
    }
    let n: usize = s.unicode_len();
    match rfind_char(s, c) {
        Some(k) => s.substring_char(k + 1, n),
        None => s,
    }
}

/// The text before the last `c`, where `c` occurs.
pub open spec fn before_last_spec(s: Seq<char>, c: char) -> Option<Seq<char>> {
    match last_index_of(s, c) {
        Some(k) => Some(s.take(k)),
        None => None,
    }
}

/// The text before the last `c`, where `c` occurs.
pub fn before_last(s: &str, c: char) -> (r: Option<&str>)
    ensures
        r matches Some(t) ==> before_last_spec(s@, c) == Some(t@),
        r is None ==> before_last_spec(s@, c) is None,
{
    proof {
        lemma_last_index_of_bounds(s@, c);
    }
    match rfind_char(s, c) {
        Some(k) => Some(s.substring_char(0, k)),
        None => None,
    }
}

/// `s` without the prefix `p`, where `s` starts with `p`.
pub open spec fn strip_prefix_spec(s: Seq<char>, p: Seq<char>) -> Option<Seq<char>> {
    if p.len() <= s.len() && s.take(p.len() as int) == p {
        Some(s.skip(p.len() as int))
    } else {
        None
    }
}

/// `s` without the prefix `p`, where `s` starts with `p`.
pub fn strip_prefix<'a>(s: &'a str, p: &str) -> (r: Option<&'a str>)
    ensures
        r matches Some(t) ==> strip_prefix_spec(s@, p@) == Some(t@),
        r is None ==> strip_prefix_spec(s@, p@) is None,
{
    let n: usize = s.unicode_len();
    let m: usize = p.unicode_len();
    if m > n {
        return None;
    }
    let mut i: usize = 0;
    while i < m
        invariant
            n == s@.len(),
            m == p@.len(),
            m <= n,
            i <= m,
            forall|j: int| 0 <= j < i ==> #[trigger] s@[j] == p@[j],
        decreases m - i,
    {
        if s.get_char(i) != p.get_char(i) {
            assert(s@.take(m as int)[i as int] != p@[i as int]);
            return None;
        }
        i += 1;
    }
    assert(s@.take(m as int) =~= p@);
    Some(s.substring_char(m, n))
}

/// `p` occurs in `s` as a contiguous run of characters.
pub open spec fn contains_spec(s: Seq<char>, p: Seq<char>) -> bool {
    exists|i: int| 0 <= i && i + p.len() <= s.len() && #[trigger] s.subrange(i, i + p.len()) == p
}

/// Whether `p` occurs in `s`.
pub fn contains_text(s: &str, p: &str) -> (r: bool)
    ensures
        r == contains_spec(s@, p@),
{
    let n: usize = s.unicode_len();
    let m: usize = p.unicode_len();
    if m > n {
        assert forall|i: int| 0 <= i && i + p@.len() <= s@.len() implies #[trigger] s@.subrange(
            i,
            i + p@.len(),
        ) != p@ by {}
        return false;
    }
    let mut k: usize = 0;
    loop
        invariant
            n == s@.len(),
            m == p@.len(),
            m <= n,
            k <= n - m,
            forall|i: int| 0 <= i < k ==> #[trigger] s@.subrange(i, i + m) != p@,
        decreases n - m - k,
    {
        let mut j: usize = 0;
        let mut same: bool = true;
        while j < m
            invariant
                n == s@.len(),
                m == p@.len(),
                k + m <= n,
                j <= m,
                same ==> forall|t: int| 0 <= t < j ==> #[trigger] s@[k + t] == p@[t],
                !same ==> s@.subrange(k as int, k + m) != p@,
            decreases m - j,
        {
            if same && s.get_char(k + j) != p.get_char(j) {
                assert(s@.subrange(k as int, k + m)[j as int] != p@[j as int]);
                same = false;
            }
            j += 1;
        }
        if same {
            assert forall|t: int| 0 <= t < m implies #[trigger] s@.subrange(k as int, k + m)[t]
                == p@[t] by {
                assert(s@[k + t] == p@[t]);
            }
            assert(s@.subrange(k as int, k + m) =~= p@);
            return true;
        }
        if k == n - m {
            return false;
        }
        k += 1;
    }
}

/// The first `n` characters of `s`, or all of `s` where it is shorter.
pub open spec fn take_chars_spec(s: Seq<char>, n: nat) -> Seq<char> {
    if s.len() <= n {
        s
    } else {
        s.take(n as int)
    }
}

/// The first `n` characters of `s`, or all of `s` where it is shorter.
pub fn take_chars(s: &str, n: usize) -> (r: String)
    ensures
        r@ == take_chars_spec(s@, n as nat),
{
    let len: usize = s.unicode_len();
    if len <= n {
        assert(s@.subrange(0, len as int) =~= s@);
        String::from_str(s.substring_char(0, len))
    } else {
        String::from_str(s.substring_char(0, n))
    }
}

/// The decimal digit character for `d < 10`.
pub open spec fn digit_char(d: nat) -> char {
    if d == 0 {
        '0'
    } else if d == 1 {
        '1'
    } else if d == 2 {
        '2'
    } else if d == 3 {
        '3'
    } else if d == 4 {
        '4'
    } else if d == 5 {
        '5'
    } else if d == 6 {
        '6'
    } else if d == 7 {
        '7'
    } else if d == 8 {
        '8'
    } else {
        '9'
    }
}

/// The decimal representation of `n`, without sign or leading zeros.
pub open spec fn decimal_spec(n: nat) -> Seq<char>
    decreases n,
{
    if n < 10 {
        seq![digit_char(n)]
    } else {
        decimal_spec(n / 10).push(digit_char(n % 10))
    }
}

fn digit_text(d: u64) -> (r: String)
    requires
        d < 10,
    ensures
        r@ == seq![digit_char(d as nat)],
{
    let digits: &str = "0123456789";
    proof {
        reveal_strlit("0123456789");
    }
    let t: &str = digits.substring_char(d as usize, (d + 1) as usize);
    assert(t@ =~= seq![digit_char(d as nat)]);
    String::from_str(t)
}

/// Formats `n` in decimal.
pub fn decimal(n: u64) -> (r: String)
    ensures
        r@ == decimal_spec(n as nat),
    decreases n,
{
    if n < 10 {
        digit_text(n)
    } else {
        let mut head: String = decimal(n / 10);
        let last: String = digit_text(n % 10);
        head.append(last.as_str());
        head
    }
}

/// A character is an ASCII decimal digit.
pub open spec fn is_digit(c: char) -> bool {
    48 <= (c as u32) && (c as u32) <= 57
}

/// The value of a run of decimal digits.
pub open spec fn digits_value(s: Seq<char>) -> nat
    decreases s.len(),
{
    if s.len() == 0 {
        0
    } else {
        digits_value(s.drop_last()) * 10 + ((s.last() as u32) - 48) as nat
    }
}

/// `s` without one leading `+`, where it has one.
pub open spec fn strip_plus(s: Seq<char>) -> Seq<char> {
    if s.len() > 0 && s[0] == '+' {
        s.drop_first()
    } else {
        s
    }
}

/// Every character of `s` is an ASCII decimal digit.
pub open spec fn all_digits(s: Seq<char>) -> bool {
    forall|i: int| 0 <= i < s.len() ==> is_digit(#[trigger] s[i])
}

/// The digits of an unsigned integer literal: an optional `+`, then one or
/// more ASCII digits and nothing else.
pub open spec fn unsigned_digits(s: Seq<char>) -> Option<Seq<char>> {
    if strip_plus(s).len() > 0 && all_digits(strip_plus(s)) {
        Some(strip_plus(s))
    } else {
        None
    }
}

/// The `u16` that `s` spells, if it spells one.
pub open spec fn parse_u16_spec(s: Seq<char>) -> Option<u16> {
    match unsigned_digits(s) {
        Some(d) => if digits_value(d) <= 65535 {
            Some(digits_value(d) as u16)
        } else {
            None
        },
        None => None,
    }
}

pub open spec fn min_nat(a: nat, b: nat) -> nat {
    if a <= b {
        a
    } else {
        b
    }
}

/// Parses an unsigned 16-bit decimal integer.
pub fn parse_u16(s: &str) -> (r: Option<u16>)
    ensures
        r == parse_u16_spec(s@),
{
    let n: usize = s.unicode_len();
    let mut start: usize = 0;
    if n > 0 && s.get_char(0) == '+' {
        start = 1;
    }
    let ghost body: Seq<char> = s@.skip(start as int);
    assert(body =~= strip_plus(s@));
    if start == n {
        return None;
    }
    let mut acc: u32 = 0;
    let mut i: usize = start;
    while i < n
        invariant
            n == s@.len(),
            start <= i <= n,
            start < n,
            body == s@.skip(start as int),
            body == strip_plus(s@),
            forall|j: int| 0 <= j < i - start ==> is_digit(#[trigger] body[j]),
            acc == min_nat(digits_value(body.take(i - start)), 65536),
        decreases n - i,
    {
        let c: char = s.get_char(i);
        let x: u32 = c as u32;
        if x < 48 || x > 57 {
            assert(body[i - start] == c);
            assert(!is_digit(body[i - start]));
            assert(!all_digits(body));
            assert(unsigned_digits(s@) is None);
            return None;
        }
        assert(body.take(i - start + 1).drop_last() =~= body.take(i - start));
        let next: u32 = acc * 10 + (x - 48);
        acc = if next > 65536 {
            65536
        } else {
            next
        };
        i += 1;
    }
    assert(body.take(n - start) =~= body);
    if acc > 65535 {
        None
    } else {
        Some(acc as u16)
    }
}

proof fn lemma_decimal_shape(n: nat)
    ensures
        decimal_spec(n).len() > 0,
        decimal_spec(n)[0] != '+',
        forall|i: int| 0 <= i < decimal_spec(n).len() ==> is_digit(#[trigger] decimal_spec(n)[i]),
        digits_value(decimal_spec(n)) == n,
    decreases n,
{
    assert(forall|d: nat| d < 10 ==> (digit_char(d) as u32) - 48 == d);
    let d = decimal_spec(n);
    if n >= 10 {
        lemma_decimal_shape(n / 10);
        assert(d.drop_last() =~= decimal_spec(n / 10));
        assert(n == (n / 10) * 10 + n % 10);
    } else {
        assert(d.drop_last() =~= Seq::<char>::empty());
        assert(digits_value(d.drop_last()) == 0);
    }
}

/// Formatting a `u16` in decimal and parsing it back gives the same value.
pub proof fn lemma_u16_decimal_round_trip(p: u16)
    ensures
        parse_u16_spec(decimal_spec(p as nat)) == Some(p),
{
    lemma_decimal_shape(p as nat);
    assert(unsigned_digits(decimal_spec(p as nat)) == Some(decimal_spec(p as nat)));
}

/// The pieces of `s` between occurrences of `sep`; there is always at least one.
pub open spec fn split_spec(s: Seq<char>, sep: char) -> Seq<Seq<char>>
    decreases s.len(),
{
    if s.len() == 0 {
        seq![Seq::<char>::empty()]
    } else {
        let prev = split_spec(s.drop_last(), sep);
        if s.last() == sep {
            prev.push(Seq::<char>::empty())
        } else {
            prev.update(prev.len() - 1, prev.last().push(s.last()))
        }
    }
}

/// Each piece trimmed of white space, keeping only the pieces that are not
/// empty after trimming.
pub open spec fn trimmed_nonempty(parts: Seq<Seq<char>>) -> Seq<Seq<char>>
    decreases parts.len(),
{
    if parts.len() == 0 {
        Seq::empty()
    } else {
        let rest = trimmed_nonempty(parts.drop_last());
        let t = trim_spec(parts.last());
        if t.len() > 0 {
            rest.push(t)
        } else {
            rest
        }
    }
}

/// The comma-separated list that `s` spells: the pieces between separators,
/// trimmed, with empty pieces dropped.
pub open spec fn list_spec(s: Seq<char>, sep: char) -> Seq<Seq<char>> {
    trimmed_nonempty(split_spec(s, sep))
}

/// Splits `s` at every `sep`, trims each piece and keeps those that are not empty.
pub fn split_trimmed(s: &str, sep: char) -> (r: Vec<String>)
    ensures
        r.deep_view() == list_spec(s@, sep),
{
    let n: usize = s.unicode_len();
    let mut out: Vec<String> = Vec::new();
    let mut start: usize = 0;
    let mut i: usize = 0;
    let ghost mut done: Seq<Seq<char>> = Seq::empty();
    assert(s@.take(0) =~= Seq::<char>::empty());
    assert(split_spec(s@.take(0), sep) =~= done.push(s@.subrange(0, 0)));
    while i < n
        invariant
            n == s@.len(),
            start <= i <= n,
            split_spec(s@.take(i as int), sep) == done.push(s@.subrange(start as int, i as int)),
            out.deep_view() == trimmed_nonempty(done),
        decreases n - i,
    {
        let c: char = s.get_char(i);
        let ghost prev = split_spec(s@.take(i as int), sep);
        assert(s@.take(i + 1).drop_last() =~= s@.take(i as int));
        assert(s@.take(i + 1).last() == c);
        if c == sep {
            let piece: &str = trim(s.substring_char(start, i));
            proof {
                assert(done.push(s@.subrange(start as int, i as int)).drop_last() =~= done);
            }
            if piece.unicode_len() > 0 {
                out.push(String::from_str(piece));
            }
            proof {
                done = done.push(s@.subrange(start as int, i as int));
                assert(out.deep_view() =~= trimmed_nonempty(done));
                assert(s@.subrange(i + 1, i + 1) =~= Seq::<char>::empty());
                assert(split_spec(s@.take(i + 1), sep) =~= done.push(
                    s@.subrange(i + 1, i + 1),
                ));
            }
            start = i + 1;
        } else {
            proof {
                assert(s@.subrange(start as int, i + 1) =~= s@.subrange(
                    start as int,
                    i as int,
                ).push(c));
                assert(split_spec(s@.take(i + 1), sep) =~= done.push(
                    s@.subrange(start as int, i + 1),
                ));
            }
        }
        i += 1;
    }
    let piece: &str = trim(s.substring_char(start, n));
    proof {
        assert(s@.take(n as int) =~= s@);
        assert(done.push(s@.subrange(start as int, n as int)).drop_last() =~= done);
    }
    if piece.unicode_len() > 0 {
        out.push(String::from_str(piece));
    }
    proof {
        assert(out.deep_view() =~= list_spec(s@, sep));
    }
    out
}

/// The index of the first occurrence of `c` in `s`.
pub open spec fn first_index_of(s: Seq<char>, c: char) -> Option<int>
    decreases s.len(),
{
    if s.len() == 0 {
        None
    } else if s[0] == c {
        Some(0)
    } else {
        match first_index_of(s.drop_first(), c) {
            Some(k) => Some(k + 1),
            None => None,
        }
    }
}

/// The text before the first `c`, or all of `s` where `c` does not occur.
pub open spec fn before_first_spec(s: Seq<char>, c: char) -> Seq<char> {
    match first_index_of(s, c) {
        Some(k) => s.take(k),
        None => s,
    }
}

proof fn lemma_first_index_step(s: Seq<char>, c: char, i: int)
    requires
        0 <= i < s.len(),
        forall|j: int| 0 <= j < i ==> s[j] != c,
    ensures
        s[i] == c ==> first_index_of(s, c) == Some(i),
    decreases i,
{
    if i > 0 {
        lemma_first_index_step(s.drop_first(), c, i - 1);
    }
}

proof fn lemma_first_index_none(s: Seq<char>, c: char)
    requires
        forall|j: int| 0 <= j < s.len() ==> s[j] != c,
    ensures
        first_index_of(s, c) is None,
    decreases s.len(),
{
    if s.len() > 0 {
        lemma_first_index_none(s.drop_first(), c);
    }
}

/// The text before the first `c`, or all of `s` where `c` does not occur.
pub fn before_first(s: &str, c: char) -> (r: &str)
    ensures
        r@ == before_first_spec(s@, c),
{
    let n: usize = s.unicode_len();
    let mut i: usize = 0;
    while i < n
        invariant
            n == s@.len(),
            i <= n,
            forall|j: int| 0 <= j < i ==> s@[j] != c,
        decreases n - i,
    {
        if s.get_char(i) == c {
            proof {
                lemma_first_index_step(s@, c, i as int);
            }
            return s.substring_char(0, i);
        }
        i += 1;
    }
    proof {
        lemma_first_index_none(s@, c);
    }
    assert(s@.subrange(0, n as int) =~= s@);
    s
}


/// In `ns + c + rest` where `rest` holds no `c`, the last `c` is the one
/// after `ns`: the text before it is `ns` and the text after it is `rest`.
pub proof fn lemma_split_at_last(ns: Seq<char>, c: char, rest: Seq<char>)
    requires
        forall|i: int| 0 <= i < rest.len() ==> rest[i] != c,
    ensures
        last_index_of(ns + seq![c] + rest, c) == Some(ns.len() as int),
        before_last_spec(ns + seq![c] + rest, c) == Some(ns),
        after_last_spec(ns + seq![c] + rest, c) == rest,
    decreases rest.len(),
{
    let s = ns + seq![c] + rest;
    if rest.len() == 0 {
        assert(s.drop_last() =~= ns);
    } else {
        assert(s.last() == rest.last());
        assert(s.drop_last() =~= ns + seq![c] + rest.drop_last());
        lemma_split_at_last(ns, c, rest.drop_last());
    }
    assert(s.take(ns.len() as int) =~= ns);
    assert(s.skip(ns.len() as int + 1) =~= rest);
}


/// Text that does not end with `c` is left as it is by trimming `c` off its end.
pub proof fn lemma_trim_end_absent(s: Seq<char>, c: char)
    requires
        s.len() == 0 || s.last() != c,
    ensures
        trim_end_char_spec(s, c) == s,
{
}

/// Trimming `c` off the end of `s` followed by any number of `c` gives `s`
/// back, where `s` does not end with `c`.
pub proof fn lemma_trim_end_repeated(s: Seq<char>, c: char, n: nat)
    requires
        s.len() == 0 || s.last() != c,
    ensures
        trim_end_char_spec(s + Seq::new(n, |i: int| c), c) == s,
    decreases n,
{
    if n > 0 {
        let t = s + Seq::new(n, |i: int| c);
        assert(t.drop_last() =~= s + Seq::new((n - 1) as nat, |i: int| c));
        lemma_trim_end_repeated(s, c, (n - 1) as nat);
    } else {
        assert(s + Seq::new(0, |i: int| c) =~= s);
    }
}

/// A text that starts with `p` loses exactly `p` when `p` is stripped; a
/// text shorter than `p` does not start with it.
pub proof fn lemma_strip_own_prefix(p: Seq<char>, rest: Seq<char>)
    ensures
        strip_prefix_spec(p + rest, p) == Some(rest),
        forall|t: Seq<char>| t.len() < p.len() ==> #[trigger] strip_prefix_spec(t, p) is None,
{
    assert((p + rest).take(p.len() as int) =~= p);
    assert((p + rest).skip(p.len() as int) =~= rest);
}


/// The first `n` characters of a text are a prefix of it, as long as the
/// text where it is shorter and exactly `n` long otherwise.
pub proof fn lemma_take_chars_prefix(s: Seq<char>, n: nat)
    ensures
        take_chars_spec(s, n).len() == if s.len() <= n {
            s.len()
        } else {
            n
        },
        forall|i: int| 0 <= i < take_chars_spec(s, n).len() ==> #[trigger] take_chars_spec(s, n)[i]
            == s[i],
{
}

/// In `a + c + b` where `a` holds no `c`, the text before the first `c` is
/// `a`; a text without `c` is its own.
pub proof fn lemma_before_first(a: Seq<char>, c: char, b: Seq<char>)
    requires
        forall|i: int| 0 <= i < a.len() ==> a[i] != c,
    ensures
        before_first_spec(a + seq![c] + b, c) == a,
        before_first_spec(a, c) == a,
{
    let s = a + seq![c] + b;
    assert forall|j: int| 0 <= j < a.len() implies s[j] != c by {
        assert(s[j] == a[j]);
    }
    lemma_first_index_step(s, c, a.len() as int);
    assert(s.take(a.len() as int) =~= a);
    lemma_first_index_none(a, c);
}

/// A text in which `p` occurs at some place contains `p`; every text
/// contains the empty text.
pub proof fn lemma_contains_occurrence(a: Seq<char>, p: Seq<char>, b: Seq<char>)
    ensures
        contains_spec(a + p + b, p),
        contains_spec(a, Seq::<char>::empty()),
{
    let s = a + p + b;
    assert(s.subrange(a.len() as int, (a.len() + p.len()) as int) =~= p);
    let e = Seq::<char>::empty();
    assert(a.subrange(0, (0 + e.len()) as int) =~= e);
}

/// A port written with a leading `+` parses as the same port, as `u16`
/// parsing does; an empty text is no port.
pub proof fn lemma_u16_plus_sign(p: u16)
    ensures
        parse_u16_spec(seq!['+'] + decimal_spec(p as nat)) == Some(p),
        parse_u16_spec(Seq::<char>::empty()) is None,
{
    lemma_u16_decimal_round_trip(p);
    lemma_decimal_shape(p as nat);
    assert((seq!['+'] + decimal_spec(p as nat)).drop_first() =~= decimal_spec(p as nat));
}

} // verus!
