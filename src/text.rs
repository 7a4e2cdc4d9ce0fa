use vstd::prelude::*;

verus! {

/// Whether `char::is_whitespace` holds of a character (the Unicode White_Space property).
pub uninterp spec fn white_space(c: char) -> bool;

/// Relies on `char::is_whitespace`: whether the character has the Unicode White_Space
/// property; its documentation shows that a space and a newline have it.
#[verifier::external_body]
fn is_whitespace(c: char) -> (r: bool)
    ensures
        r == white_space(c),
        (c == ' ' || c == '\n') ==> r,
{
    c.is_whitespace()
}

/// The text without its leading white space.
pub open spec fn trim_start(s: Seq<char>) -> Seq<char>
    decreases s.len(),
{
    if s.len() > 0 && white_space(s[0]) {
        trim_start(s.drop_first())
    } else {
        s
    }
}

/// The text without its trailing white space.
pub open spec fn trim_end(s: Seq<char>) -> Seq<char>
    decreases s.len(),
{
    if s.len() > 0 && white_space(s.last()) {
        trim_end(s.drop_last())
    } else {
        s
    }
}

/// The text without leading and trailing white space.
pub open spec fn trimmed(s: Seq<char>) -> Seq<char> {
    trim_end(trim_start(s))
}

/// Removes leading and trailing white space.
pub fn trim(s: &str) -> (r: &str)
    ensures
        r@ == trimmed(s@),
{
    let n = s.unicode_len();
    let mut i: usize = 0;
    assert(s@.subrange(0, n as int) =~= s@);
    while i < n && is_whitespace(s.get_char(i))
        invariant
            n == s@.len(),
            i <= n,
            trim_start(s@) == trim_start(s@.subrange(i as int, n as int)),
        decreases n - i,
    {
        assert(s@.subrange(i as int, n as int).drop_first() =~= s@.subrange(i + 1, n as int));
        i += 1;
    }
    assert(trim_start(s@) == s@.subrange(i as int, n as int));
    let mut j: usize = n;
    while j > i && is_whitespace(s.get_char(j - 1))
        invariant
            n == s@.len(),
            i <= j <= n,
            trimmed(s@) == trim_end(s@.subrange(i as int, j as int)),
        decreases j,
    {
        assert(s@.subrange(i as int, j as int).drop_last() =~= s@.subrange(i as int, j - 1));
        j -= 1;
    }
    s.substring_char(i, j)
}

/// An ASCII decimal digit.
pub open spec fn is_digit(c: char) -> bool {
    '0' <= c && c <= '9'
}

/// Every character is an ASCII decimal digit.
pub open spec fn all_digits(s: Seq<char>) -> bool {
    forall|i: int| 0 <= i < s.len() ==> is_digit(#[trigger] s[i])
}

/// The value of one digit.
pub open spec fn digit_value(c: char) -> nat {
    (c as int - '0' as int) as nat
}

/// The value of a string of digits, read in base ten.
pub open spec fn digits_value(s: Seq<char>) -> nat
    decreases s.len(),
{
    if s.len() == 0 {
        0
    } else {
        digits_value(s.drop_last()) * 10 + digit_value(s.last())
    }
}

/// A number of digits never reads less than a prefix of them.
pub proof fn lemma_digits_value_prefix(s: Seq<char>, k: int)
    requires
        0 <= k <= s.len(),
    ensures
        digits_value(s.subrange(0, k)) <= digits_value(s),
    decreases s.len(),
{
    if k < s.len() {
        assert(s.drop_last().subrange(0, k) =~= s.subrange(0, k));
        lemma_digits_value_prefix(s.drop_last(), k);
    } else {
        assert(s.subrange(0, k) =~= s);
    }
}

/// The digits of an unsigned number: the text without one leading plus sign.
pub open spec fn unsigned_digits(s: Seq<char>) -> Seq<char> {
    if s.len() > 0 && s[0] == '+' {
        s.drop_first()
    } else {
        s
    }
}

/// The `u32` that a text denotes: an optional plus sign and one or more digits,
/// whose value fits in 32 bits.
pub open spec fn u32_of(s: Seq<char>) -> Option<u32> {
    let d = unsigned_digits(s);
    if d.len() > 0 && all_digits(d) && digits_value(d) <= u32::MAX {
        Some(digits_value(d) as u32)
    } else {
        None
    }
}

/// Reads the digits `s[from..to]` as a `u32`, when the value fits.
pub fn digits_to_u32(s: &str, from: usize, to: usize) -> (r: Option<u32>)
    requires
        from <= to <= s@.len(),
        all_digits(s@.subrange(from as int, to as int)),
    ensures
        r == (if digits_value(s@.subrange(from as int, to as int)) <= u32::MAX {
            Some(digits_value(s@.subrange(from as int, to as int)) as u32)
        } else {
            None::<u32>
        }),
{
    let ghost d = s@.subrange(from as int, to as int);
    let mut value: u64 = 0;
    let mut i: usize = from;
    while i < to
        invariant
            from <= i <= to <= s@.len(),
            d == s@.subrange(from as int, to as int),
            all_digits(d),
            value == digits_value(s@.subrange(from as int, i as int)),
            value <= u32::MAX,
        decreases to - i,
    {
        let c = s.get_char(i);
        assert(d[i - from] == c);
        assert(is_digit(c));
        let digit = (c as u32 - '0' as u32) as u64;
        assert(s@.subrange(from as int, i + 1).drop_last() =~= s@.subrange(from as int, i as int));
        value = value * 10 + digit;
        if value > u32::MAX as u64 {
            proof {
                assert(d.subrange(0, i + 1 - from) =~= s@.subrange(from as int, i + 1));
                lemma_digits_value_prefix(d, i + 1 - from);
            }
            return None;
        }
        i += 1;
    }
    Some(value as u32)
}

/// Parses an unsigned 32-bit number: an optional plus sign and decimal digits.
pub fn parse_u32(s: &str) -> (r: Option<u32>)
    ensures
        r == u32_of(s@),
{
    let n = s.unicode_len();
    let mut start: usize = 0;
    if n > 0 && s.get_char(0) == '+' {
        start = 1;
    }
    assert(unsigned_digits(s@) =~= s@.subrange(start as int, n as int));
    if start == n {
        return None;
    }
    let mut i: usize = start;
    while i < n
        invariant
            n == s@.len(),
            start <= i <= n,
            unsigned_digits(s@) == s@.subrange(start as int, n as int),
            forall|j: int| start <= j < i ==> is_digit(#[trigger] s@[j]),
        decreases n - i,
    {
        let c = s.get_char(i);
        if !('0' <= c && c <= '9') {
            assert(!is_digit(s@.subrange(start as int, n as int)[i - start]));
            return None;
        }
        i += 1;
    }
    assert(all_digits(s@.subrange(start as int, n as int)));
    digits_to_u32(s, start, n)
}

/// The decimal digits, in order.
pub open spec fn digit_chars() -> Seq<char> {
    seq!['0', '1', '2', '3', '4', '5', '6', '7', '8', '9']
}

/// The decimal writing of a number, without leading zeros.
pub open spec fn decimal(n: nat) -> Seq<char>
    decreases n,
{
    if n < 10 {
        seq![digit_chars()[n as int]]
    } else {
        decimal(n / 10) + seq![digit_chars()[(n % 10) as int]]
    }
}

/// Appends the digit for `d` (below ten).
fn push_digit(out: &mut String, d: usize)
    requires
        d < 10,
    ensures
        final(out)@ == old(out)@ + seq![digit_chars()[d as int]],
{
    let digits = "0123456789";
    proof {
        reveal_strlit("0123456789");
    }
    let one = digits.substring_char(d, d + 1);
    assert(one@ =~= seq![digit_chars()[d as int]]);
    out.append(one);
}

/// Writes a number in decimal.
pub fn decimal_text(n: usize) -> (r: String)
    ensures
        r@ == decimal(n as nat),
    decreases n,
{
    if n < 10 {
        let mut out = String::new();
        push_digit(&mut out, n);
        assert(out@ =~= decimal(n as nat));
        out
    } else {
        let mut out = decimal_text(n / 10);
        push_digit(&mut out, n % 10);
        out
    }
}

} // verus!
