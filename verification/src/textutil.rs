use vstd::prelude::*;
use vstd::string::StrSliceExecFns;

verus! {

/// Whether `c` is one of the ten ASCII digits.
pub open spec fn spec_is_digit(c: char) -> bool {
    48 <= c as u32 <= 57
}

/// The numeric value of an ASCII digit.
pub open spec fn spec_digit_val(c: char) -> int {
    c as u32 - 48
}

pub open spec fn spec_all_digits(s: Seq<char>) -> bool {
    forall|i: int| 0 <= i < s.len() ==> spec_is_digit(#[trigger] s[i])
}

/// The value of a digit string read in base ten.
pub open spec fn spec_digits_val(s: Seq<char>) -> int
    decreases s.len(),
{
    if s.len() == 0 {
        0int
    } else {
        spec_digits_val(s.drop_last()) * 10 + spec_digit_val(s.last())
    }
}

/// Ten to the `n`.
pub open spec fn spec_pow10(n: nat) -> int
    decreases n,
{
    if n == 0 {
        1int
    } else {
        10 * spec_pow10((n - 1) as nat)
    }
}

/// A digit string's value is bounded by ten to its length.
pub proof fn lemma_digits_val_bound(s: Seq<char>)
    requires
        spec_all_digits(s),
    ensures
        0 <= spec_digits_val(s) < spec_pow10(s.len()),
    decreases s.len(),
{
    if s.len() > 0 {
        assert(spec_all_digits(s.drop_last()));
        lemma_digits_val_bound(s.drop_last());
        assert(spec_digit_val(s.last()) <= 9);
    }
}

/// Whether `c` is an ASCII digit.
pub fn is_ascii_digit(c: char) -> (r: bool)
    ensures
        r == spec_is_digit(c),
{
    let u = c as u32;
    48 <= u && u <= 57
}

/// The number of digits this library will read from an input buffer; the
/// largest accepted value, 10^18 - 1, comfortably fits an `i64`.
pub const MAX_PARSE_DIGITS: usize = 18;

/// Reads a buffered digit string as a base-ten number.  Returns the value
/// exactly when the buffer is non-empty, at most `MAX_PARSE_DIGITS` long,
/// and made of ASCII digits only.
pub fn parse_digits(chars: &Vec<char>) -> (r: Option<i64>)
    ensures
        r is Some <==> (1 <= chars@.len() <= MAX_PARSE_DIGITS && spec_all_digits(chars@)),
        r matches Some(v) ==> v == spec_digits_val(chars@),
{
    if chars.len() == 0 || chars.len() > MAX_PARSE_DIGITS {
        return None;
    }
    let ghost s = chars@;
    proof {
        lemma_pow10_increases(0, MAX_PARSE_DIGITS as nat);
    }
    let mut acc: i64 = 0;
    let mut i: usize = 0;
    while i < chars.len()
        invariant
            0 <= i <= chars@.len(),
            chars@ == s,
            1 <= chars@.len() <= MAX_PARSE_DIGITS,
            spec_all_digits(s.take(i as int)),
            acc == spec_digits_val(s.take(i as int)),
            0 <= acc < spec_pow10(i as nat),
            spec_pow10(i as nat) <= spec_pow10(MAX_PARSE_DIGITS as nat),
        decreases chars@.len() - i,
    {
        let c = chars[i];
        if !is_ascii_digit(c) {
            assert(!spec_all_digits(s));
            return None;
        }
        let d: i64 = (c as u32 - 48) as i64;
        proof {
            assert(s.take(i as int + 1).drop_last() =~= s.take(i as int));
            assert(spec_pow10(i as nat + 1) == 10 * spec_pow10(i as nat));
            lemma_pow10_increases(i as nat + 1, MAX_PARSE_DIGITS as nat);
            lemma_pow10_at_parse_cap();
        }
        acc = acc * 10 + d;
        i = i + 1;
    }
    proof {
        assert(s.take(chars@.len() as int) =~= s);
    }
    Some(acc)
}

/// The numeric value of ten to the parse-length cap.
pub proof fn lemma_pow10_at_parse_cap()
    ensures
        spec_pow10(MAX_PARSE_DIGITS as nat) == 1_000_000_000_000_000_000,
{
    reveal_with_fuel(spec_pow10, 20);
}

/// `spec_pow10` is monotone.
pub proof fn lemma_pow10_increases(a: nat, b: nat)
    requires
        a <= b,
    ensures
        spec_pow10(a) <= spec_pow10(b),
    decreases b,
{
    if a < b {
        lemma_pow10_increases(a, (b - 1) as nat);
        assert(spec_pow10(b) == 10 * spec_pow10((b - 1) as nat));
        assert(spec_pow10((b - 1) as nat) >= 1) by {
            lemma_pow10_increases(0, (b - 1) as nat);
        }
    }
}

/// The decimal digit character for a value below ten.
pub open spec fn spec_digit_char(d: int) -> char {
    ((d + 48) as u8) as char
}

/// The decimal rendering of a non-negative number, most significant digit
/// first, with no leading zeros (a lone zero for zero).
pub open spec fn spec_u64_string(n: int) -> Seq<char>
    decreases n,
{
    if n < 10 {
        seq![spec_digit_char(if n < 0 { 0int } else { n })]
    } else {
        spec_u64_string(n / 10).push(spec_digit_char(n % 10))
    }
}

/// Appends the decimal digits of `n` to `out`.
pub fn push_u64_digits(n: u64, out: &mut Vec<char>)
    ensures
        final(out)@ == old(out)@ + spec_u64_string(n as int),
    decreases n,
{
    if n < 10 {
        let c = (n as u8 + 48) as char;
        out.push(c);
        assert(out@ =~= old(out)@ + spec_u64_string(n as int));
    } else {
        push_u64_digits(n / 10, out);
        let c = ((n % 10) as u8 + 48) as char;
        out.push(c);
        assert(out@ =~= old(out)@ + spec_u64_string(n as int));
    }
}

/// The decimal rendering of `n`.
pub fn u64_to_string(n: u64) -> (s: String)
    ensures
        s@ == spec_u64_string(n as int),
{
    let mut digits: Vec<char> = Vec::new();
    push_u64_digits(n, &mut digits);
    assert(digits@ =~= spec_u64_string(n as int));
    string_from_chars(&digits)
}

/// Relies on std's `FromIterator<char>` implementation for `String`:
/// collecting characters yields the string of exactly those characters in
/// order.
#[verifier::external_body]
pub fn string_from_chars(chars: &Vec<char>) -> (s: String)
    ensures
        s@ == chars@,
{
    chars.iter().collect()
}

/// Whether two strings hold the same characters.
pub fn str_eq(a: &str, b: &str) -> (r: bool)
    ensures
        r == (a@ == b@),
{
    let la = a.unicode_len();
    let lb = b.unicode_len();
    if la != lb {
        return false;
    }
    let mut i: usize = 0;
    while i < la
        invariant
            a@.len() == la,
            b@.len() == lb,
            la == lb,
            0 <= i <= la,
            forall|j: int| 0 <= j < i ==> a@[j] == b@[j],
        decreases la - i,
    {
        if a.get_char(i) != b.get_char(i) {
            return false;
        }
        i = i + 1;
    }
    proof {
        assert(a@ =~= b@);
    }
    true
}

} // verus!
