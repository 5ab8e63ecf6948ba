//! Characters and strings: the small vocabulary that the other modules share.

use vstd::prelude::*;
use vstd::string::*;

verus! {

/// The characters with Unicode's `White_Space` property.
pub open spec fn white_space(c: char) -> bool {
    ||| '\u{9}' <= c <= '\u{d}'
    ||| c == '\u{20}'
    ||| c == '\u{85}'
    ||| c == '\u{a0}'
    ||| c == '\u{1680}'
    ||| '\u{2000}' <= c <= '\u{200a}'
    ||| '\u{2028}' <= c <= '\u{2029}'
    ||| c == '\u{202f}'
    ||| c == '\u{205f}'
    ||| c == '\u{3000}'
}

/// `s` without its leading white space.
pub open spec fn trimmed_start(s: Seq<char>) -> Seq<char>
    decreases s.len(),
{
    if s.len() > 0 && white_space(s[0]) {
        trimmed_start(s.drop_first())
    } else {
        s
    }
}

/// `s` without its trailing white space.
pub open spec fn trimmed_end(s: Seq<char>) -> Seq<char>
    decreases s.len(),
{
    if s.len() > 0 && white_space(s.last()) {
        trimmed_end(s.drop_last())
    } else {
        s
    }
}

/// `s` without the white space at either end.
pub open spec fn trimmed(s: Seq<char>) -> Seq<char> {
    trimmed_end(trimmed_start(s))
}

/// Whether `c` is white space.
pub fn is_white_space(c: char) -> (r: bool)
    ensures
        r == white_space(c),
{
    ('\u{9}' <= c && c <= '\u{d}') || c == '\u{20}' || c == '\u{85}' || c == '\u{a0}' || c
        == '\u{1680}' || ('\u{2000}' <= c && c <= '\u{200a}') || ('\u{2028}' <= c && c
        <= '\u{2029}') || c == '\u{202f}' || c == '\u{205f}' || c == '\u{3000}'
}

/// The characters of `s`, in order.
pub fn chars_of(s: &str) -> (r: Vec<char>)
    ensures
        r@ == s@,
{
    let mut out: Vec<char> = Vec::new();
    for c in it: s.chars()
        invariant
            out@ == it.seq().take(it.index()),
            it.seq() == s@,
    {
        out.push(c);
    }
    out
}

/// `s` without the white space at either end.
pub fn trim(s: &str) -> (r: &str)
    ensures
        r@ == trimmed(s@),
{
    let chars = chars_of(s);
    let n: usize = chars.len();
    let mut from: usize = 0;
    assert(s@.skip(0) =~= s@);
    while from < n && is_white_space(chars[from])
        invariant
            chars@ == s@,
            n == chars@.len(),
            from <= n,
            trimmed_start(s@) == trimmed_start(s@.skip(from as int)),
        decreases n - from,
    {
        assert(s@.skip(from as int).drop_first() =~= s@.skip(from + 1));
        from = from + 1;
    }
    let mut to: usize = n;
    let ghost head = s@.skip(from as int);
    assert(trimmed_start(s@) == head);
    while from < to && is_white_space(chars[to - 1])
        invariant
            chars@ == s@,
            n == chars@.len(),
            from <= to <= n,
            head == s@.skip(from as int),
            trimmed_end(head) == trimmed_end(s@.subrange(from as int, to as int)),
        decreases to,
    {
        assert(s@.subrange(from as int, to as int).drop_last() =~= s@.subrange(
            from as int,
            to - 1,
        ));
        to = to - 1;
    }
    s.substring_char(from, to)
}

/// The first `max_chars` characters of `s`, or all of it where it has no more.
pub open spec fn clipped(s: Seq<char>, max_chars: nat) -> Seq<char> {
    if s.len() <= max_chars {
        s
    } else {
        s.take(max_chars as int)
    }
}

/// The digit that stands for `n`, of the sixteen hexadecimal ones.
pub open spec fn digit_char(n: int) -> char {
    "0123456789abcdef"@[n]
}

/// `n` in decimal notation.
pub open spec fn decimal(n: nat) -> Seq<char>
    decreases n,
{
    if n < 10 {
        seq![digit_char(n as int)]
    } else {
        decimal(n / 10).push(digit_char((n % 10) as int))
    }
}

/// `bytes` as lower-case hexadecimal digits, two to a byte, high half first.
pub open spec fn hex(bytes: Seq<u8>) -> Seq<char>
    decreases bytes.len(),
{
    if bytes.len() == 0 {
        seq![]
    } else {
        hex(bytes.drop_last()) + seq![
            digit_char(bytes.last() as int / 16),
            digit_char(bytes.last() as int % 16),
        ]
    }
}

/// Whether `c` is one of the sixteen digits that `digit_char` gives.
pub open spec fn lower_hex_char(c: char) -> bool {
    '0' <= c <= '9' || 'a' <= c <= 'f'
}

proof fn lemma_digit_char(n: int)
    requires
        0 <= n < 16,
    ensures
        lower_hex_char(digit_char(n)),
{
    reveal_strlit("0123456789abcdef");
}

/// Hexadecimal notation takes two digits to a byte and uses no other character.
pub proof fn law_hex_shape(bytes: Seq<u8>)
    ensures
        hex(bytes).len() == 2 * bytes.len(),
        forall|i: int| 0 <= i < hex(bytes).len() ==> lower_hex_char(#[trigger] hex(bytes)[i]),
    decreases bytes.len(),
{
    if bytes.len() > 0 {
        law_hex_shape(bytes.drop_last());
        lemma_digit_char(bytes.last() as int / 16);
        lemma_digit_char(bytes.last() as int % 16);
    }
}

/// Different byte strings have different hexadecimal notations.
pub proof fn law_hex_injective(a: Seq<u8>, b: Seq<u8>)
    requires
        hex(a) == hex(b),
    ensures
        a == b,
    decreases a.len(),
{
    law_hex_shape(a);
    law_hex_shape(b);
    if a.len() > 0 {
        let ha = hex(a);
        let hb = hex(b);
        assert(hex(a.drop_last()) =~= ha.take(ha.len() - 2)) by {
            law_hex_shape(a.drop_last());
        }
        assert(hex(b.drop_last()) =~= hb.take(hb.len() - 2)) by {
            law_hex_shape(b.drop_last());
        }
        law_hex_injective(a.drop_last(), b.drop_last());
        reveal_strlit("0123456789abcdef");
        assert(ha[ha.len() - 2] == digit_char(a.last() as int / 16));
        assert(hb[hb.len() - 2] == digit_char(b.last() as int / 16));
        assert(ha[ha.len() - 1] == digit_char(a.last() as int % 16));
        assert(hb[hb.len() - 1] == digit_char(b.last() as int % 16));
        lemma_digit_injective(a.last() as int / 16, b.last() as int / 16);
        lemma_digit_injective(a.last() as int % 16, b.last() as int % 16);
        assert(a =~= a.drop_last().push(a.last()));
        assert(b =~= b.drop_last().push(b.last()));
    } else {
        assert(a =~= b);
    }
}

proof fn lemma_digit_injective(m: int, n: int)
    requires
        0 <= m < 16,
        0 <= n < 16,
        digit_char(m) == digit_char(n),
    ensures
        m == n,
{
    reveal_strlit("0123456789abcdef");
}

/// Appends the digit for `n`.
fn push_digit(out: &mut String, n: usize)
    requires
        n < 16,
    ensures
        final(out)@ == old(out)@.push(digit_char(n as int)),
{
    proof {
        reveal_strlit("0123456789abcdef");
    }
    let digit = "0123456789abcdef".substring_char(n, n + 1);
    assert(digit@ =~= seq![digit_char(n as int)]);
    out.append(digit);
    assert(out@ =~= old(out)@.push(digit_char(n as int)));
}

/// `n` in decimal notation.
pub fn decimal_text(n: u64) -> (r: String)
    ensures
        r@ == decimal(n as nat),
    decreases n,
{
    let mut out = if n < 10 {
        String::new()
    } else {
        decimal_text(n / 10)
    };
    push_digit(&mut out, (n % 10) as usize);
    assert(n < 10 ==> out@ =~= seq![digit_char(n as int)]);
    out
}

/// `bytes` as lower-case hexadecimal digits, two to a byte.
pub fn hex_text(bytes: &[u8]) -> (r: String)
    ensures
        r@ == hex(bytes@),
{
    let mut out = String::new();
    let n: usize = bytes.len();
    let mut i: usize = 0;
    while i < n
        invariant
            n == bytes@.len(),
            i <= n,
            out@ == hex(bytes@.take(i as int)),
        decreases n - i,
    {
        let ghost before = out@;
        push_digit(&mut out, (bytes[i] / 16) as usize);
        push_digit(&mut out, (bytes[i] % 16) as usize);
        proof {
            let next = bytes@.take(i + 1);
            assert(next.drop_last() =~= bytes@.take(i as int));
            assert(out@ =~= before + seq![
                digit_char(bytes@[i as int] as int / 16),
                digit_char(bytes@[i as int] as int % 16),
            ]);
        }
        i = i + 1;
    }
    assert(bytes@.take(n as int) =~= bytes@);
    out
}

/// Whether the two strings hold the same characters.
pub fn same_text(a: &str, b: &str) -> (r: bool)
    ensures
        r == (a@ == b@),
{
    a.to_owned() == b.to_owned()
}

/// Whether `s` ends in `suffix`.
pub open spec fn has_suffix(s: Seq<char>, suffix: Seq<char>) -> bool {
    s.len() >= suffix.len() && s.skip(s.len() - suffix.len()) == suffix
}

/// Whether `s` ends in `suffix`.
pub fn ends_with(s: &str, suffix: &str) -> (r: bool)
    ensures
        r == has_suffix(s@, suffix@),
{
    let n: usize = s.unicode_len();
    let k: usize = suffix.unicode_len();
    if n < k {
        return false;
    }
    let tail = s.substring_char(n - k, n);
    assert(tail@ =~= s@.skip(n - k));
    same_text(tail, suffix)
}

/// `c` with an ASCII capital letter turned into the small one.
pub open spec fn ascii_lower(c: char) -> char {
    if 'A' <= c <= 'Z' {
        ((c as u32) + 32) as char
    } else {
        c
    }
}

/// Whether the two strings are equal but for the case of ASCII letters.
pub open spec fn equal_ignoring_case(a: Seq<char>, b: Seq<char>) -> bool {
    &&& a.len() == b.len()
    &&& forall|i: int| #![trigger a[i]] 0 <= i < a.len() ==> ascii_lower(a[i]) == ascii_lower(b[i])
}

/// The code point of `c`, that of the small letter for an ASCII capital.
fn lower_code(c: char) -> (r: u32)
    ensures
        r == ascii_lower(c) as u32,
{
    if 'A' <= c && c <= 'Z' {
        c as u32 + 32
    } else {
        c as u32
    }
}

/// Whether the two strings are equal but for the case of ASCII letters.
pub fn eq_ignore_ascii_case(a: &str, b: &str) -> (r: bool)
    ensures
        r == equal_ignoring_case(a@, b@),
{
    let x = chars_of(a);
    let y = chars_of(b);
    if x.len() != y.len() {
        return false;
    }
    let mut i: usize = 0;
    while i < x.len()
        invariant
            x@ == a@,
            y@ == b@,
            x@.len() == y@.len(),
            i <= x@.len(),
            forall|j: int|
                #![trigger x@[j]]
                0 <= j < i ==> ascii_lower(x@[j]) == ascii_lower(y@[j]),
        decreases x@.len() - i,
    {
        if lower_code(x[i]) != lower_code(y[i]) {
            assert(ascii_lower(a@[i as int]) != ascii_lower(b@[i as int]));
            return false;
        }
        i = i + 1;
    }
    true
}

/// What an optional string holds.
pub open spec fn text_view(s: Option<String>) -> Option<Seq<char>> {
    match s {
        Some(t) => Some(t@),
        None => None,
    }
}

proof fn lemma_trimmed_start(s: Seq<char>)
    ensures
        trimmed_start(s).len() <= s.len(),
        trimmed_start(s) == s.skip(s.len() - trimmed_start(s).len()),
        forall|i: int|
            0 <= i < s.len() - trimmed_start(s).len() ==> white_space(#[trigger] s[i]),
        trimmed_start(s).len() > 0 ==> !white_space(trimmed_start(s)[0]),
    decreases s.len(),
{
    if s.len() > 0 && white_space(s[0]) {
        let rest = s.drop_first();
        lemma_trimmed_start(rest);
        assert(trimmed_start(s) =~= s.skip(s.len() - trimmed_start(s).len()));
        assert forall|i: int| 0 <= i < s.len() - trimmed_start(s).len() implies white_space(
            #[trigger] s[i],
        ) by {
            if i > 0 {
                assert(white_space(rest[i - 1]));
            }
        }
    } else {
        assert(s.skip(0) =~= s);
    }
}

proof fn lemma_trimmed_end(s: Seq<char>)
    ensures
        trimmed_end(s).len() <= s.len(),
        trimmed_end(s) == s.take(trimmed_end(s).len() as int),
        forall|i: int| trimmed_end(s).len() <= i < s.len() ==> white_space(#[trigger] s[i]),
        trimmed_end(s).len() > 0 ==> !white_space(trimmed_end(s).last()),
    decreases s.len(),
{
    if s.len() > 0 && white_space(s.last()) {
        let front = s.drop_last();
        lemma_trimmed_end(front);
        assert(trimmed_end(s) =~= s.take(trimmed_end(s).len() as int));
        assert forall|i: int| trimmed_end(s).len() <= i < s.len() implies white_space(
            #[trigger] s[i],
        ) by {
            if i < front.len() {
                assert(white_space(front[i]));
            }
        }
    } else {
        assert(s.take(s.len() as int) =~= s);
    }
}

/// Trimming cuts white space off both ends and nothing else, and leaves none there to cut.
pub proof fn law_trim(s: Seq<char>) -> (from: int)
    ensures
        0 <= from <= s.len() - trimmed(s).len(),
        trimmed(s) == s.subrange(from, from + trimmed(s).len()),
        forall|i: int| 0 <= i < from ==> white_space(#[trigger] s[i]),
        forall|i: int| from + trimmed(s).len() <= i < s.len() ==> white_space(#[trigger] s[i]),
        trimmed(s).len() > 0 ==> !white_space(trimmed(s)[0]) && !white_space(trimmed(s).last()),
{
    let head = trimmed_start(s);
    lemma_trimmed_start(s);
    lemma_trimmed_end(head);
    let from = s.len() - head.len();
    assert(trimmed(s) =~= s.subrange(from, from + trimmed(s).len()));
    assert forall|i: int| from + trimmed(s).len() <= i < s.len() implies white_space(
        #[trigger] s[i],
    ) by {
        assert(white_space(head[i - from]));
    }
    if trimmed(s).len() > 0 {
        assert(trimmed(s)[0] == head[0]);
    }
    from
}

/// A string without white space at its ends is left as it is.
pub proof fn law_trim_leaves(s: Seq<char>)
    requires
        s.len() > 0 ==> !white_space(s[0]) && !white_space(s.last()),
    ensures
        trimmed(s) == s,
{
}

/// Trimming twice is trimming once.
pub proof fn law_trim_twice(s: Seq<char>)
    ensures
        trimmed(trimmed(s)) == trimmed(s),
{
    let from = law_trim(s);
    law_trim_leaves(trimmed(s));
}

/// Clipping keeps the start of a string, as much as asked for where there is as much and all of it
/// otherwise, and is done once.
pub proof fn law_clip(s: Seq<char>, max_chars: nat)
    ensures
        clipped(s, max_chars).len() == if s.len() < max_chars {
            s.len()
        } else {
            max_chars
        },
        forall|i: int| 0 <= i < clipped(s, max_chars).len() ==> clipped(s, max_chars)[i] == s[i],
        clipped(s, max_chars).is_prefix_of(s),
        s.len() <= max_chars ==> clipped(s, max_chars) == s,
        clipped(clipped(s, max_chars), max_chars) == clipped(s, max_chars),
{
}

/// The number that a string of decimal digits stands for.
pub open spec fn digits_value(s: Seq<char>) -> int
    decreases s.len(),
{
    if s.len() == 0 {
        0
    } else {
        10 * digits_value(s.drop_last()) + (s.last() as u32 - '0' as u32)
    }
}

/// Decimal notation stands for its number, uses digits alone and starts with no idle zero.
pub proof fn law_decimal(n: nat)
    ensures
        digits_value(decimal(n)) == n,
        decimal(n).len() >= 1,
        n < 10 ==> decimal(n).len() == 1,
        10 <= n < 100 ==> decimal(n).len() == 2,
        n >= 1 ==> decimal(n)[0] != '0',
        forall|i: int| 0 <= i < decimal(n).len() ==> '0' <= #[trigger] decimal(n)[i] <= '9',
    decreases n,
{
    reveal_strlit("0123456789abcdef");
    if n < 10 {
        assert(decimal(n).drop_last() =~= seq![]);
        assert(digits_value(Seq::<char>::empty()) == 0);
    } else {
        law_decimal(n / 10);
        assert(decimal(n).drop_last() =~= decimal(n / 10));
    }
}

/// The number that a hexadecimal digit stands for.
pub open spec fn hex_value(c: char) -> int {
    if '0' <= c <= '9' {
        c as u32 - '0' as u32
    } else {
        c as u32 - 'a' as u32 + 10
    }
}

/// Two hexadecimal digits stand for each byte, in order: first its high half, then its low one.
pub proof fn law_hex_digits(bytes: Seq<u8>, i: int)
    requires
        0 <= i < bytes.len(),
    ensures
        hex(bytes).len() == 2 * bytes.len(),
        hex_value(hex(bytes)[2 * i]) == bytes[i] as int / 16,
        hex_value(hex(bytes)[2 * i + 1]) == bytes[i] as int % 16,
    decreases bytes.len(),
{
    law_hex_shape(bytes);
    law_hex_shape(bytes.drop_last());
    reveal_strlit("0123456789abcdef");
    if i < bytes.len() - 1 {
        law_hex_digits(bytes.drop_last(), i);
    }
}

/// A string ends in exactly those that something stands before.
pub proof fn law_suffix(s: Seq<char>, suffix: Seq<char>)
    ensures
        has_suffix(s, suffix) <==> exists|head: Seq<char>| s == #[trigger] (head + suffix),
{
    if has_suffix(s, suffix) {
        assert(s =~= s.take(s.len() - suffix.len()) + suffix);
    }
    if exists|head: Seq<char>| s == #[trigger] (head + suffix) {
        let head = choose|head: Seq<char>| s == #[trigger] (head + suffix);
        assert(s.skip(s.len() - suffix.len()) =~= suffix);
    }
}

/// Two strings are equal but for case where, place by place, they hold the same character or the
/// capital and the small form of the same ASCII letter.
pub proof fn law_case(a: Seq<char>, b: Seq<char>)
    ensures
        equal_ignoring_case(a, b) <==> a.len() == b.len() && forall|i: int|
            #![trigger a[i]]
            0 <= i < a.len() ==> a[i] == b[i] || ('A' <= a[i] <= 'Z' && b[i] as u32 == a[i] as u32
                + 32) || ('A' <= b[i] <= 'Z' && a[i] as u32 == b[i] as u32 + 32),
{
    assert forall|i: int| #![trigger a[i]] 0 <= i < a.len() && a.len() == b.len() implies (
    ascii_lower(a[i]) == ascii_lower(b[i]) <==> a[i] == b[i] || ('A' <= a[i] <= 'Z' && b[i] as u32
        == a[i] as u32 + 32) || ('A' <= b[i] <= 'Z' && a[i] as u32 == b[i] as u32 + 32)) by {
        assert(ascii_lower(a[i]) as u32 == if 'A' <= a[i] <= 'Z' {
            a[i] as u32 + 32
        } else {
            a[i] as int
        });
        assert(ascii_lower(b[i]) as u32 == if 'A' <= b[i] <= 'Z' {
            b[i] as u32 + 32
        } else {
            b[i] as int
        });
    }
}

/// What an optional string holds is what is in it.
pub proof fn law_text_view(s: Option<String>)
    ensures
        text_view(s) is Some <==> s is Some,
        s matches Some(t) ==> text_view(s) == Some(t@),
{
}

} // verus!
