//! Text as the daemon reads and prints it: decimal numbers, surrounding white
//! space, left-aligned table cells.

use vstd::prelude::*;
use vstd::slice::slice_subrange;
use vstd::string::*;

verus! {

// ----- white space -----

/// The code points with the Unicode property White_Space.
pub open spec fn is_white_space(c: char) -> bool {
    let p = c as u32;
    ||| 0x09 <= p <= 0x0d
    ||| p == 0x20
    ||| p == 0x85
    ||| p == 0xa0
    ||| p == 0x1680
    ||| 0x2000 <= p <= 0x200a
    ||| p == 0x2028
    ||| p == 0x2029
    ||| p == 0x202f
    ||| p == 0x205f
    ||| p == 0x3000
}

/// `s` without its leading white space.
pub open spec fn trim_start(s: Seq<char>) -> Seq<char>
    decreases s.len(),
{
    if s.len() > 0 && is_white_space(s[0]) {
        trim_start(s.drop_first())
    } else {
        s
    }
}

/// `s` without its trailing white space.
pub open spec fn trim_end(s: Seq<char>) -> Seq<char>
    decreases s.len(),
{
    if s.len() > 0 && is_white_space(s.last()) {
        trim_end(s.drop_last())
    } else {
        s
    }
}

/// `s` without its leading and trailing white space.
pub open spec fn trimmed(s: Seq<char>) -> Seq<char> {
    trim_end(trim_start(s))
}

fn white_space(c: char) -> (r: bool)
    ensures
        r == is_white_space(c),
{
    let p: u32 = c as u32;
    (0x09 <= p && p <= 0x0d) || p == 0x20 || p == 0x85 || p == 0xa0 || p == 0x1680 || (0x2000 <= p
        && p <= 0x200a) || p == 0x2028 || p == 0x2029 || p == 0x202f || p == 0x205f || p == 0x3000
}

/// Removes leading and trailing white space.
pub fn trim(s: &[char]) -> (r: &[char])
    ensures
        r@ == trimmed(s@),
{
    let mut from: usize = 0;
    assert(s@.subrange(0, s@.len() as int) =~= s@);
    while from < s.len() && white_space(s[from])
        invariant
            0 <= from <= s@.len(),
            trim_start(s@) == trim_start(s@.subrange(from as int, s@.len() as int)),
        decreases s@.len() - from,
    {
        assert(s@.subrange(from as int, s@.len() as int).drop_first() =~= s@.subrange(
            from + 1,
            s@.len() as int,
        ));
        from += 1;
    }
    let ghost rest = s@.subrange(from as int, s@.len() as int);
    assert(trim_start(s@) == rest);
    let mut to: usize = s.len();
    while from < to && white_space(s[to - 1])
        invariant
            0 <= from <= to <= s@.len(),
            trim_end(rest) == trim_end(s@.subrange(from as int, to as int)),
        decreases to,
    {
        assert(s@.subrange(from as int, to as int).drop_last() =~= s@.subrange(
            from as int,
            to - 1,
        ));
        to -= 1;
    }
    slice_subrange(s, from, to)
}

// ----- decimal numbers -----

pub open spec fn is_digit(c: char) -> bool {
    '0' as u32 <= c as u32 <= '9' as u32
}

pub open spec fn all_digits(s: Seq<char>) -> bool {
    forall|i: int| 0 <= i < s.len() ==> is_digit(#[trigger] s[i])
}

/// The number that the digits `s` write in base ten.
pub open spec fn decimal_value(s: Seq<char>) -> nat
    decreases s.len(),
{
    if s.len() == 0 {
        0
    } else {
        decimal_value(s.drop_last()) * 10 + (s.last() as u32 - '0' as u32) as nat
    }
}

/// The digits of a number: what may follow one `+` sign.
pub open spec fn unsigned_part(s: Seq<char>) -> Seq<char> {
    if s.len() > 0 && s[0] == '+' {
        s.drop_first()
    } else {
        s
    }
}

/// The `u32` that `s` writes: an optional `+`, then one digit or more and
/// nothing else, with a value in range.
pub open spec fn u32_of(s: Seq<char>) -> Option<u32> {
    let digits = unsigned_part(s);
    if digits.len() > 0 && all_digits(digits) && decimal_value(digits) <= u32::MAX {
        Some(decimal_value(digits) as u32)
    } else {
        None
    }
}

proof fn lemma_decimal_value_grows(s: Seq<char>, n: int)
    requires
        0 <= n <= s.len(),
        all_digits(s),
    ensures
        decimal_value(s.take(n)) <= decimal_value(s),
    decreases s.len() - n,
{
    if n < s.len() {
        lemma_decimal_value_grows(s, n + 1);
        assert(s.take(n + 1).drop_last() =~= s.take(n));
    } else {
        assert(s.take(n) =~= s);
    }
}

/// Reads a decimal `u32`.
pub fn parse_u32(s: &[char]) -> (r: Option<u32>)
    ensures
        r == u32_of(s@),
{
    let start: usize = if s.len() > 0 && s[0] == '+' {
        1
    } else {
        0
    };
    let ghost digits = unsigned_part(s@);
    assert(digits =~= s@.subrange(start as int, s@.len() as int));
    if start == s.len() {
        return None;
    }
    let mut value: u32 = 0;
    let mut i: usize = start;
    while i < s.len()
        invariant
            0 <= start <= i <= s@.len(),
            digits == s@.subrange(start as int, s@.len() as int),
            digits == unsigned_part(s@),
            digits.len() > 0,
            all_digits(digits.take(i - start)),
            value == decimal_value(digits.take(i - start)),
        decreases s@.len() - i,
    {
        let c: u32 = s[i] as u32;
        assert(digits[i - start] == s@[i as int]);
        if c < 48 || 57 < c {
            return None;
        }
        let ghost head = digits.take(i - start);
        let ghost next = digits.take(i + 1 - start);
        assert(next.drop_last() =~= head);
        assert(next.last() == s@[i as int]);
        let wide: u64 = value as u64 * 10 + (c - 48) as u64;
        assert(wide == decimal_value(next));
        assert(all_digits(next)) by {
            assert forall|j: int| 0 <= j < next.len() implies is_digit(#[trigger] next[j]) by {
                if j < head.len() {
                    assert(next[j] == head[j]);
                }
            }
        }
        if wide > u32::MAX as u64 {
            proof {
                if all_digits(digits) {
                    lemma_decimal_value_grows(digits, i + 1 - start);
                }
            }
            return None;
        }
        value = wide as u32;
        i += 1;
    }
    assert(digits.take(i - start) =~= digits);
    Some(value)
}

/// The digit that writes `d`.
pub open spec fn digit_char(d: nat) -> char {
    (d + '0' as u32) as char
}

/// The decimal form of `n`, without leading zeros.
pub open spec fn decimal(n: nat) -> Seq<char>
    decreases n,
{
    if n < 10 {
        seq![digit_char(n)]
    } else {
        decimal(n / 10).push(digit_char(n % 10))
    }
}

fn digit_str(d: u64) -> (r: &'static str)
    requires
        d < 10,
    ensures
        r@ == seq![digit_char(d as nat)],
{
    proof {
        reveal_strlit("0");
        reveal_strlit("1");
        reveal_strlit("2");
        reveal_strlit("3");
        reveal_strlit("4");
        reveal_strlit("5");
        reveal_strlit("6");
        reveal_strlit("7");
        reveal_strlit("8");
        reveal_strlit("9");
    }
    let r = if d == 0 {
        "0"
    } else if d == 1 {
        "1"
    } else if d == 2 {
        "2"
    } else if d == 3 {
        "3"
    } else if d == 4 {
        "4"
    } else if d == 5 {
        "5"
    } else if d == 6 {
        "6"
    } else if d == 7 {
        "7"
    } else if d == 8 {
        "8"
    } else {
        "9"
    };
    assert(r@ =~= seq![digit_char(d as nat)]);
    r
}

/// Writes `n` in base ten.
pub fn to_decimal(n: u64) -> (r: String)
    ensures
        r@ == decimal(n as nat),
    decreases n,
{
    if n < 10 {
        digit_str(n).to_owned()
    } else {
        let mut r = to_decimal(n / 10);
        r.append(digit_str(n % 10));
        assert(r@ =~= decimal(n as nat));
        r
    }
}

proof fn lemma_decimal_digits(n: nat)
    ensures
        decimal(n).len() > 0,
        all_digits(decimal(n)),
        decimal_value(decimal(n)) == n,
    decreases n,
{
    reveal_with_fuel(decimal_value, 2);
    if n < 10 {
        assert(decimal(n).drop_last() =~= Seq::<char>::empty());
    } else {
        lemma_decimal_digits(n / 10);
        assert(decimal(n).drop_last() =~= decimal(n / 10));
        assert forall|i: int| 0 <= i < decimal(n).len() implies is_digit(
            #[trigger] decimal(n)[i],
        ) by {
            if i < decimal(n / 10).len() {
                assert(decimal(n)[i] == decimal(n / 10)[i]);
            }
        }
    }
}

pub open spec fn all_white_space(s: Seq<char>) -> bool {
    forall|i: int| 0 <= i < s.len() ==> is_white_space(#[trigger] s[i])
}

proof fn lemma_trim_start_drops(before: Seq<char>, s: Seq<char>)
    requires
        all_white_space(before),
        s.len() > 0,
        !is_white_space(s[0]),
    ensures
        trim_start(before + s) == s,
    decreases before.len(),
{
    if before.len() == 0 {
        assert(before + s =~= s);
    } else {
        assert((before + s)[0] == before[0]);
        assert((before + s).drop_first() =~= before.drop_first() + s);
        lemma_trim_start_drops(before.drop_first(), s);
    }
}

proof fn lemma_trim_end_drops(s: Seq<char>, after: Seq<char>)
    requires
        all_white_space(after),
        s.len() > 0,
        !is_white_space(s.last()),
    ensures
        trim_end(s + after) == s,
    decreases after.len(),
{
    if after.len() == 0 {
        assert(s + after =~= s);
    } else {
        assert((s + after).last() == after.last());
        assert((s + after).drop_last() =~= s + after.drop_last());
        lemma_trim_end_drops(s, after.drop_last());
    }
}

/// Reading gives back what was written: the decimal form of any `u32`, with
/// any white space around it, reads as that number.
pub proof fn law_decimal_reads_back(n: u32, before: Seq<char>, after: Seq<char>)
    requires
        all_white_space(before),
        all_white_space(after),
    ensures
        u32_of(trimmed(before + decimal(n as nat) + after)) == Some(n),
{
    let d = decimal(n as nat);
    lemma_decimal_digits(n as nat);
    assert(is_digit(d[0]) && is_digit(d.last()));
    assert(before + d + after =~= before + (d + after));
    lemma_trim_start_drops(before, d + after);
    lemma_trim_end_drops(d, after);
    assert(unsigned_part(d) == d);
}

/// What is white space and what is not: the blank, the line ends and the tabs are; a
/// printing ASCII character is not, nor is anything beyond U+3000.
pub proof fn law_white_space_extent(c: char)
    ensures
        c == ' ' || c == '\t' || c == '\n' || c == '\r' ==> is_white_space(c),
        0x21 <= c as u32 <= 0x7e ==> !is_white_space(c),
        c as u32 > 0x3000 ==> !is_white_space(c),
{
}

proof fn lemma_trim_start_splits(s: Seq<char>)
    ensures
        trim_start(s).len() <= s.len(),
        all_white_space(s.take(s.len() - trim_start(s).len())),
        s == s.take(s.len() - trim_start(s).len()) + trim_start(s),
        trim_start(s).len() > 0 ==> !is_white_space(trim_start(s)[0]),
    decreases s.len(),
{
    if s.len() > 0 && is_white_space(s[0]) {
        let rest = s.drop_first();
        lemma_trim_start_splits(rest);
        let n = s.len() - trim_start(s).len();
        assert forall|i: int| 0 <= i < s.take(n).len() implies is_white_space(
            #[trigger] s.take(n)[i],
        ) by {
            if i > 0 {
                assert(rest.take(n - 1)[i - 1] == s.take(n)[i]);
            }
        }
        assert(s =~= s.take(n) + trim_start(s)) by {
            assert forall|i: int| n <= i < s.len() implies s[i] == trim_start(s)[i - n] by {
                assert(rest[i - 1] == (rest.take(n - 1) + trim_start(rest))[i - 1]);
            }
        }
    } else {
        assert(s =~= s.take(0) + s);
    }
}

proof fn lemma_trim_end_splits(s: Seq<char>)
    ensures
        trim_end(s).len() <= s.len(),
        trim_end(s) == s.take(trim_end(s).len() as int),
        all_white_space(s.skip(trim_end(s).len() as int)),
        trim_end(s).len() > 0 ==> !is_white_space(trim_end(s).last()),
    decreases s.len(),
{
    if s.len() > 0 && is_white_space(s.last()) {
        let rest = s.drop_last();
        lemma_trim_end_splits(rest);
        let n = trim_end(s).len() as int;
        assert(trim_end(s) =~= s.take(n));
        assert forall|i: int| 0 <= i < s.skip(n).len() implies is_white_space(
            #[trigger] s.skip(n)[i],
        ) by {
            if i + n < s.len() - 1 {
                assert(rest.skip(n)[i] == s.skip(n)[i]);
            }
        }
    } else {
        assert(s.take(s.len() as int) =~= s);
    }
}

/// Trimming takes white space off both ends, all of it and nothing else: what is left
/// stands in the text between white space, and neither begins nor ends with any.
pub proof fn law_trimmed_is_the_core(s: Seq<char>)
    ensures
        exists|before: Seq<char>, after: Seq<char>|
            all_white_space(before) && all_white_space(after) && s == #[trigger] (before + trimmed(s)
                + after),
        trimmed(s).len() > 0 ==> !is_white_space(trimmed(s)[0]) && !is_white_space(
            trimmed(s).last(),
        ),
{
    lemma_trim_start_splits(s);
    let rest = trim_start(s);
    lemma_trim_end_splits(rest);
    let before = s.take(s.len() - rest.len());
    let after = rest.skip(trimmed(s).len() as int);
    assert(s =~= before + trimmed(s) + after);
}

/// Trimming finds what was put between white space.
pub proof fn law_trimmed_undoes_padding(before: Seq<char>, s: Seq<char>, after: Seq<char>)
    requires
        all_white_space(before),
        all_white_space(after),
        s.len() > 0,
        !is_white_space(s[0]),
        !is_white_space(s.last()),
    ensures
        trimmed(before + s + after) == s,
{
    assert(before + s + after =~= before + (s + after));
    lemma_trim_start_drops(before, s + after);
    lemma_trim_end_drops(s, after);
}

/// The character writes a digit of its own: `0` to `9` in ASCII.
pub open spec fn is_ascii_digit(c: char) -> bool {
    0x30 <= c as u32 <= 0x39
}

/// One character is a number exactly if it is one of the ten digits, and then the
/// number of that digit; no character and a sign alone are none.
pub proof fn law_one_digit_reads_as_itself(c: char)
    ensures
        u32_of(seq![c]) == (if is_ascii_digit(c) {
            Some((c as u32 - 0x30) as u32)
        } else {
            None
        }),
        u32_of(Seq::empty()) is None,
{
    reveal_with_fuel(decimal_value, 2);
    let s = seq![c];
    assert(s.drop_last() =~= Seq::<char>::empty());
    assert(s.drop_first() =~= Seq::<char>::empty());
    if is_ascii_digit(c) {
        assert(all_digits(s));
    } else {
        assert(!is_digit(s[0]));
    }
}

/// One more digit multiplies a number by ten and adds the digit, as long as the result
/// fits; a digit behind what is no number, or too large a one, makes none, but for a
/// sign or nothing before it.
pub proof fn law_one_more_digit(s: Seq<char>, c: char)
    requires
        s.len() > 0,
        s != seq!['+'],
        is_ascii_digit(c),
    ensures
        u32_of(s.push(c)) == match u32_of(s) {
            Some(n) => if n * 10 + (c as u32 - 0x30) <= u32::MAX {
                Some((n * 10 + (c as u32 - 0x30)) as u32)
            } else {
                None
            },
            None => None,
        },
{
    let longer = s.push(c);
    let digits = unsigned_part(s);
    assert(unsigned_part(longer) =~= digits.push(c));
    assert(digits.push(c).drop_last() =~= digits);
    if s[0] == '+' && s.len() == 1 {
        assert(s =~= seq!['+']);
    }
    if all_digits(digits) {
        assert forall|i: int| 0 <= i < digits.push(c).len() implies is_digit(
            #[trigger] digits.push(c)[i],
        ) by {
            if i < digits.len() {
                assert(digits.push(c)[i] == digits[i]);
            }
        }
    } else {
        let i = choose|i: int| 0 <= i < digits.len() && !is_digit(#[trigger] digits[i]);
        assert(digits.push(c)[i] == digits[i]);
    }
}

/// One `+` in front makes no difference to a number, and makes none of what is none.
pub proof fn law_plus_sign_is_optional(s: Seq<char>)
    requires
        s.len() == 0 || s[0] != '+',
    ensures
        u32_of(seq!['+'] + s) == u32_of(s),
{
    assert((seq!['+'] + s).drop_first() =~= s);
}

/// A character that is no digit is in no number, unless it is a `+` in front.
pub proof fn law_numbers_hold_digits_only(s: Seq<char>, i: int)
    requires
        0 <= i < s.len(),
        !is_ascii_digit(s[i]),
        i > 0 || s[0] != '+',
    ensures
        u32_of(s) is None,
{
    let digits = unsigned_part(s);
    if s[0] == '+' {
        assert(digits[i - 1] == s[i]);
    } else {
        assert(digits[i] == s[i]);
    }
}

/// The decimal form of a number has its last digit last and the form of its tenth
/// before it; it has no leading zero.
pub proof fn law_decimal_digit_by_digit(n: nat, d: nat)
    requires
        d < 10,
    ensures
        decimal(d) == seq![(0x30 + d) as char],
        n > 0 ==> decimal(n * 10 + d) == decimal(n).push((0x30 + d) as char),
        n > 0 ==> decimal(n)[0] != '0',
    decreases n,
{
    assert((n * 10 + d) / 10 == n);
    assert((n * 10 + d) % 10 == d);
    if n >= 10 {
        law_decimal_digit_by_digit(n / 10, d);
        lemma_decimal_digits(n / 10);
        assert(decimal(n)[0] == decimal(n / 10)[0]);
    }
}

// ----- whole strings -----

/// The characters of a string.
pub fn chars_of(s: &str) -> (r: Vec<char>)
    ensures
        r@ == s@,
{
    let mut r: Vec<char> = Vec::new();
    for c in it: s.chars()
        invariant
            it.seq() == s@,
            r@ == s@.take(it.index() as int),
    {
        r.push(c);
        assert(s@.take(it.index() as int).push(c) =~= s@.take(it.index() as int + 1));
    }
    assert(s@.take(s@.len() as int) =~= s@);
    r
}

/// Whether two byte strings are equal.
pub fn same_bytes(a: &[u8], b: &[u8]) -> (r: bool)
    ensures
        r == (a@ == b@),
{
    if a.len() != b.len() {
        return false;
    }
    let mut i: usize = 0;
    while i < a.len()
        invariant
            0 <= i <= a@.len() == b@.len(),
            forall|j: int| 0 <= j < i ==> a@[j] == b@[j],
        decreases a@.len() - i,
    {
        if a[i] != b[i] {
            return false;
        }
        i += 1;
    }
    assert(a@ =~= b@);
    true
}

/// Whether two strings are equal.
pub fn same_text(a: &str, b: &str) -> (r: bool)
    ensures
        r == (a@ == b@),
{
    let r = same_bytes(a.as_bytes(), b.as_bytes());
    proof {
        vstd::utf8::encode_utf8_decode_utf8(a@);
        vstd::utf8::encode_utf8_decode_utf8(b@);
    }
    r
}

/// The concatenation of two strings.
pub fn joined(a: &str, b: &str) -> (r: String)
    ensures
        r@ == a@ + b@,
{
    let mut r = a.to_owned();
    r.append(b);
    r
}

/// `n` blanks.
pub open spec fn blanks(n: nat) -> Seq<char> {
    Seq::new(n, |i: int| ' ')
}

/// `s` left-aligned in a cell of `width` characters; a longer `s` is kept whole.
pub open spec fn left_aligned(s: Seq<char>, width: nat) -> Seq<char> {
    if s.len() < width {
        s + blanks((width - s.len()) as nat)
    } else {
        s
    }
}

/// A cell holds its text whole and in front, is as wide as its column unless the text
/// is wider, and is blank behind the text.
pub proof fn law_cell_is_text_and_blanks(s: Seq<char>, width: nat)
    ensures
        left_aligned(s, width).len() == (if s.len() < width {
            width
        } else {
            s.len()
        }),
        left_aligned(s, width).take(s.len() as int) == s,
        forall|i: int|
            s.len() <= i < left_aligned(s, width).len() ==> #[trigger] left_aligned(s, width)[i]
                == ' ',
{
    assert(left_aligned(s, width).take(s.len() as int) =~= s);
}

/// Pads `s` on the right to `width` characters.
pub fn align_left(s: &str, width: usize) -> (r: String)
    ensures
        r@ == left_aligned(s@, width as nat),
{
    proof {
        reveal_strlit(" ");
    }
    let mut r = s.to_owned();
    let mut len: usize = s.unicode_len();
    assert(r@ =~= s@ + blanks(0));
    while len < width
        invariant
            s@.len() <= len,
            len <= width || len == s@.len(),
            r@ == s@ + blanks((len - s@.len()) as nat),
            " "@ =~= seq![' '],
        decreases width - len,
    {
        r.append(" ");
        assert(r@ =~= s@ + blanks((len + 1 - s@.len()) as nat));
        len += 1;
    }
    assert(s@ + blanks(0) =~= s@);
    r
}

} // verus!
