//! Numbers written in digits.

use vstd::prelude::*;
use vstd::utf8::*;

use crate::text;

verus! {

/// The value of a hexadecimal digit; 16 for every other byte.
pub open spec fn digit_value(b: u8) -> nat {
    if 0x30 <= b <= 0x39 {
        (b - 0x30) as nat
    } else if 0x61 <= b <= 0x66 {
        (b - 0x57) as nat
    } else if 0x41 <= b <= 0x46 {
        (b - 0x37) as nat
    } else {
        16
    }
}

/// Whether every byte is a digit of the radix.
pub open spec fn all_digits(s: Seq<u8>, radix: nat) -> bool {
    forall|i: int| 0 <= i < s.len() ==> #[trigger] digit_value(s[i]) < radix
}

/// The number that a sequence of digits writes, most significant first.
pub open spec fn digits_value(s: Seq<u8>, radix: nat) -> nat
    decreases s.len(),
{
    if s.len() == 0 {
        0
    } else {
        digits_value(s.drop_last(), radix) * radix + digit_value(s.last())
    }
}

/// The number that `s` writes: one digit or more, and at most `max`.
pub open spec fn number(s: Seq<u8>, radix: nat, max: nat) -> Option<nat> {
    if s.len() > 0 && all_digits(s, radix) && digits_value(s, radix) <= max {
        Some(digits_value(s, radix))
    } else {
        None
    }
}

/// The value of a digit.
pub fn digit(b: u8) -> (r: u8)
    ensures
        r as nat == digit_value(b),
        r <= 16,
{
    if 0x30 <= b && b <= 0x39 {
        b - 0x30
    } else if 0x61 <= b && b <= 0x66 {
        b - 0x57
    } else if 0x41 <= b && b <= 0x46 {
        b - 0x37
    } else {
        16
    }
}

/// Leaving off trailing digits never makes a number greater.
proof fn lemma_prefix_value(s: Seq<u8>, radix: nat, n: int)
    requires
        radix >= 1,
        0 <= n <= s.len(),
    ensures
        digits_value(s.take(n), radix) <= digits_value(s, radix),
    decreases s.len() - n,
{
    if n < s.len() {
        lemma_prefix_value(s, radix, n + 1);
        assert(s.take(n + 1).drop_last() =~= s.take(n));
        let v = digits_value(s.take(n), radix);
        assert(v * radix >= v) by (nonlinear_arith)
            requires
                radix >= 1,
                v >= 0,
        ;
    } else {
        assert(s.take(n) =~= s);
    }
}

/// Reads a number that consists of digits only.
pub fn parse_number(s: &[u8], radix: u8, max: u32) -> (r: Option<u32>)
    requires
        2 <= radix <= 16,
    ensures
        r matches Some(v) ==> number(s@, radix as nat, max as nat) == Some(v as nat),
        r is None ==> number(s@, radix as nat, max as nat) is None,
{
    let n: usize = s.len();
    if n == 0 {
        return None;
    }
    let mut value: u64 = 0;
    let mut i: usize = 0;
    while i < n
        invariant
            n == s@.len(),
            i <= n,
            2 <= radix <= 16,
            value <= max,
            value == digits_value(s@.take(i as int), radix as nat),
            forall|j: int| 0 <= j < i ==> #[trigger] digit_value(s@[j]) < radix,
        decreases n - i,
    {
        let d: u8 = digit(s[i]);
        if d >= radix {
            assert(digit_value(s@[i as int]) >= radix);
            return None;
        }
        assert(value * radix <= 0xFFFF_FFFF * 16) by (nonlinear_arith)
            requires
                value <= 0xFFFF_FFFF,
                radix <= 16,
        ;
        let next: u64 = value * (radix as u64) + d as u64;
        assert(s@.take(i + 1).drop_last() =~= s@.take(i as int));
        assert(next == digits_value(s@.take(i + 1), radix as nat));
        if next > max as u64 {
            proof {
                lemma_prefix_value(s@, radix as nat, i + 1);
            }
            return None;
        }
        value = next;
        i = i + 1;
    }
    assert(s@.take(n as int) =~= s@);
    Some(value as u32)
}

/// The number that the text of an unsigned integer writes, as std's `FromStr`
/// for the unsigned integers reads it: an optional plus sign, then one digit
/// or more.
pub open spec fn unsigned_of(s: Seq<char>, max: nat) -> Option<nat> {
    let b = encode_utf8(s);
    if b.len() > 0 && b[0] == 0x2B {
        number(b.skip(1), 10, max)
    } else {
        number(b, 10, max)
    }
}

/// The number that `s` writes, if it writes one that is at most `max`.
pub fn parse_unsigned(s: &str, max: u32) -> (r: Option<u32>)
    ensures
        r matches Some(v) ==> unsigned_of(s@, max as nat) == Some(v as nat) && v <= max,
        r is None ==> unsigned_of(s@, max as nat) is None,
{
    let b = s.as_bytes();
    if b.len() > 0 && b[0] == 0x2B {
        let digits = vstd::slice::slice_subrange(b, 1, b.len());
        assert(digits@ =~= b@.skip(1));
        parse_number(digits, 10, max)
    } else {
        parse_number(b, 10, max)
    }
}

// ---------------------------------------------------------------------------
// Reading what was written
// ---------------------------------------------------------------------------

proof fn lemma_digit_char(d: nat)
    requires
        d < 10,
    ensures
        (text::digit_char(d) as u32) == 0x30 + d,
        digit_value((text::digit_char(d) as u32) as u8) == d,
{
}

/// The text of a number in decimal is ASCII, is not empty, starts with a digit,
/// and its digits write that number.
proof fn lemma_dec_digits(n: nat)
    ensures
        text::dec(n).len() > 0,
        is_ascii_chars(text::dec(n)),
        ({
            let b = Seq::new(text::dec(n).len(), |i: int| text::dec(n)[i] as u8);
            all_digits(b, 10) && digits_value(b, 10) == n && b[0] != 0x2B
        }),
    decreases n,
{
    let s = text::dec(n);
    let b = Seq::new(s.len(), |i: int| s[i] as u8);
    if n < 10 {
        lemma_digit_char(n);
        assert(s =~= seq![text::digit_char(n)]);
        assert(b.drop_last() =~= Seq::<u8>::empty());
        assert(digits_value(b.drop_last(), 10) == 0);
        assert(b.last() == (text::digit_char(n) as u8));
    } else {
        let head = text::dec(n / 10);
        let hb = Seq::new(head.len(), |i: int| head[i] as u8);
        lemma_dec_digits(n / 10);
        lemma_digit_char(n % 10);
        assert(s =~= head.push(text::digit_char(n % 10)));
        assert(b.drop_last() =~= hb);
        assert(b.last() == (text::digit_char(n % 10) as u8));
        assert(b[0] == hb[0]);
        assert forall|i: int| 0 <= i < b.len() implies #[trigger] digit_value(b[i]) < 10 by {
            if i < hb.len() {
                assert(b[i] == hb[i]);
                assert(digit_value(hb[i]) < 10);
            }
        }
        assert forall|i: int| 0 <= i < s.len() implies (#[trigger] s[i] as u32) < 128 by {
            if i < head.len() {
                assert(s[i] == head[i]);
            }
        }
    }
}

/// Reading a number back from its decimal text gives the number.
pub proof fn lemma_read_back(n: nat, max: nat)
    requires
        n <= max,
    ensures
        unsigned_of(text::dec(n), max) == Some(n),
{
    lemma_dec_digits(n);
    is_ascii_chars_encode_utf8(text::dec(n));
    let b = Seq::new(text::dec(n).len(), |i: int| text::dec(n)[i] as u8);
    assert(encode_utf8(text::dec(n)) =~= b);
}

/// Whether bytes are decimal digits, at least one, that amount to at most `max`.
pub open spec fn digits_within(b: Seq<u8>, max: nat) -> bool {
    &&& b.len() > 0
    &&& forall|i: int| 0 <= i < b.len() ==> 0x30 <= #[trigger] b[i] <= 0x39
    &&& digits_value(b, 10) <= max
}

proof fn lemma_digits_within(b: Seq<u8>, max: nat)
    ensures
        number(b, 10, max) is Some <==> digits_within(b, max),
        number(b, 10, max) is Some ==> number(b, 10, max)->0 == digits_value(b, 10),
{
    if all_digits(b, 10) {
        assert forall|i: int| 0 <= i < b.len() implies 0x30 <= #[trigger] b[i] <= 0x39 by {
            assert(digit_value(b[i]) < 10);
        }
    }
    if forall|i: int| 0 <= i < b.len() ==> 0x30 <= #[trigger] b[i] <= 0x39 {
        assert forall|i: int| 0 <= i < b.len() implies #[trigger] digit_value(b[i]) < 10 by {
            assert(0x30 <= b[i] <= 0x39);
        }
    }
}

/// What is read as a number is digits, after a plus sign or not, that amount to at most the
/// limit; every such text is read, as what its digits amount to.
pub proof fn lemma_numbers_are_digits(s: Seq<char>, max: nat)
    ensures
        ({
            let b = encode_utf8(s);
            let signed = b.len() > 0 && b[0] == 0x2B;
            &&& signed ==> (unsigned_of(s, max) is Some <==> digits_within(b.skip(1), max))
            &&& !signed ==> (unsigned_of(s, max) is Some <==> digits_within(b, max))
            &&& signed && unsigned_of(s, max) is Some ==> unsigned_of(s, max)->0 == digits_value(
                b.skip(1),
                10,
            )
            &&& !signed && unsigned_of(s, max) is Some ==> unsigned_of(s, max)->0 == digits_value(
                b,
                10,
            )
        }),
{
    let b = encode_utf8(s);
    lemma_digits_within(b, max);
    if b.len() > 0 {
        lemma_digits_within(b.skip(1), max);
    }
}

/// The decimal text of a number, as bytes: digits, the first of them zero only in zero
/// itself, that amount to the number.
pub proof fn lemma_decimal_bytes(n: nat)
    ensures
        is_ascii_chars(text::dec(n)),
        ({
            let b = Seq::new(text::dec(n).len(), |i: int| text::dec(n)[i] as u8);
            &&& b.len() > 0
            &&& forall|i: int| 0 <= i < b.len() ==> 0x30 <= #[trigger] b[i] <= 0x39
            &&& all_digits(b, 10)
            &&& digits_value(b, 10) == n
            &&& n >= 1 ==> b[0] != 0x30
            &&& n < 10 ==> b.len() == 1
            &&& n < 1000 ==> b.len() <= 3
        }),
    decreases n,
{
    lemma_dec_digits(n);
    let s = text::dec(n);
    let b = Seq::new(s.len(), |i: int| s[i] as u8);
    assert forall|i: int| 0 <= i < b.len() implies 0x30 <= #[trigger] b[i] <= 0x39 by {
        assert(digit_value(b[i]) < 10);
    }
    if n < 10 {
        lemma_digit_char(n);
        assert(s =~= seq![text::digit_char(n)]);
    } else {
        lemma_decimal_bytes(n / 10);
        let head = text::dec(n / 10);
        assert(s =~= head.push(text::digit_char(n % 10)));
        assert(s[0] == head[0]);
        if n < 100 {
            assert(n / 10 < 10);
        } else if n < 1000 {
            assert(n / 10 < 100);
            assert(n / 10 / 10 < 10);
            lemma_two_digits(n / 10);
        }
    }
}

proof fn lemma_two_digits(n: nat)
    requires
        10 <= n < 100,
    ensures
        text::dec(n).len() == 2,
{
    let head = text::dec(n / 10);
    assert(n / 10 < 10);
    assert(head =~= seq![text::digit_char(n / 10)]);
    assert(text::dec(n) =~= head.push(text::digit_char(n % 10)));
}

} // verus!
