//! Field elements and their canonical hexadecimal wire form.

use vstd::prelude::*;

verus! {

/// `String::push` of the standard library: the character is appended at the
/// end and nothing else changes.
pub assume_specification[ String::push ](s: &mut String, c: char)
    ensures
        final(s)@ == old(s)@.push(c),
;

/// Number denoted by a byte string read with the most significant byte first.
pub open spec fn be_value(bytes: Seq<u8>) -> nat
    decreases bytes.len(),
{
    if bytes.len() == 0 {
        0
    } else {
        be_value(bytes.drop_last()) * 256 + bytes.last() as nat
    }
}

/// Lowercase hexadecimal digit for a number below sixteen.
pub open spec fn hex_digit(d: nat) -> char {
    if d == 0 {
        '0'
    } else if d == 1 {
        '1'
    } else if d == 2 {
        '2'
    } else if d == 3 {
        '3'
    } else if d == 4 {
        '4'
    } else if d == 5 {
        '5'
    } else if d == 6 {
        '6'
    } else if d == 7 {
        '7'
    } else if d == 8 {
        '8'
    } else if d == 9 {
        '9'
    } else if d == 10 {
        'a'
    } else if d == 11 {
        'b'
    } else if d == 12 {
        'c'
    } else if d == 13 {
        'd'
    } else if d == 14 {
        'e'
    } else {
        'f'
    }
}

/// Hexadecimal digits of a number, most significant first, without leading
/// zeros; zero is the single digit `0`.
pub open spec fn hex_digits(n: nat) -> Seq<char>
    decreases n,
{
    if n < 16 {
        seq![hex_digit(n)]
    } else {
        hex_digits(n / 16).push(hex_digit(n % 16))
    }
}

/// Canonical wire form of a number: `0x` followed by its hexadecimal digits.
pub open spec fn prefixed_hex(n: nat) -> Seq<char> {
    seq!['0', 'x'] + hex_digits(n)
}

/// Appending one hexadecimal digit to a number's digits multiplies the number
/// by sixteen and adds the digit, except that zero contributes no digits.
pub proof fn lemma_hex_digits_step(v: nat, d: nat)
    requires
        d < 16,
    ensures
        v > 0 ==> hex_digits(v * 16 + d) == hex_digits(v).push(hex_digit(d)),
        v == 0 ==> hex_digits(v * 16 + d) == seq![hex_digit(d)],
{
    if v > 0 {
        let n = v * 16 + d;
        assert(n >= 16);
        assert(n / 16 == v);
        assert(n % 16 == d);
    }
}

/// The number denoted by one more byte.
pub proof fn lemma_be_value_step(bytes: Seq<u8>, i: int)
    requires
        0 <= i < bytes.len(),
    ensures
        be_value(bytes.take(i + 1)) == be_value(bytes.take(i)) * 256 + bytes[i] as nat,
{
    assert(bytes.take(i + 1).drop_last() == bytes.take(i));
}

/// Byte strings of one length that denote the same number are equal.
pub proof fn lemma_be_value_injective(a: Seq<u8>, b: Seq<u8>)
    requires
        a.len() == b.len(),
        be_value(a) == be_value(b),
    ensures
        a == b,
    decreases a.len(),
{
    if a.len() > 0 {
        let x = be_value(a.drop_last());
        let y = be_value(b.drop_last());
        assert(x * 256 + a.last() as nat == y * 256 + b.last() as nat);
        assert(x == y && a.last() == b.last()) by {
            assert((x * 256 + a.last() as nat) / 256 == x);
            assert((y * 256 + b.last() as nat) / 256 == y);
        }
        lemma_be_value_injective(a.drop_last(), b.drop_last());
        assert(a == a.drop_last().push(a.last()));
        assert(b == b.drop_last().push(b.last()));
    } else {
        assert(a == b);
    }
}

/// The number that a lowercase hexadecimal digit stands for; `None` for any
/// other character.
pub open spec fn hex_digit_value(c: char) -> Option<nat> {
    if c == '0' {
        Some(0)
    } else if c == '1' {
        Some(1)
    } else if c == '2' {
        Some(2)
    } else if c == '3' {
        Some(3)
    } else if c == '4' {
        Some(4)
    } else if c == '5' {
        Some(5)
    } else if c == '6' {
        Some(6)
    } else if c == '7' {
        Some(7)
    } else if c == '8' {
        Some(8)
    } else if c == '9' {
        Some(9)
    } else if c == 'a' {
        Some(10)
    } else if c == 'b' {
        Some(11)
    } else if c == 'c' {
        Some(12)
    } else if c == 'd' {
        Some(13)
    } else if c == 'e' {
        Some(14)
    } else if c == 'f' {
        Some(15)
    } else {
        None
    }
}

/// The number that a string of hexadecimal digits denotes, most significant
/// digit first; a character that is no digit counts as zero.
pub open spec fn hex_value(digits: Seq<char>) -> nat
    decreases digits.len(),
{
    if digits.len() == 0 {
        0
    } else {
        let last = match hex_digit_value(digits.last()) {
            Some(d) => d,
            None => 0,
        };
        hex_value(digits.drop_last()) * 16 + last
    }
}

/// Every digit reads back as the number it was written for.
pub proof fn lemma_hex_digit_round_trip(d: nat)
    requires
        d < 16,
    ensures
        hex_digit_value(hex_digit(d)) == Some(d),
{
}

/// The digits of a number are canonical: there is at least one, each is a
/// lowercase hexadecimal digit, and the first is `0` only for zero itself,
/// whose only digit it is.
pub proof fn lemma_hex_digits_canonical(n: nat)
    ensures
        hex_digits(n).len() >= 1,
        forall|i: int|
            0 <= i < hex_digits(n).len() ==> hex_digit_value(#[trigger] hex_digits(n)[i]) is Some,
        n > 0 ==> hex_digits(n)[0] != '0',
        n == 0 ==> hex_digits(n) == seq!['0'],
    decreases n,
{
    if n >= 16 {
        lemma_hex_digits_canonical(n / 16);
        lemma_hex_digit_round_trip(n % 16);
    } else {
        lemma_hex_digit_round_trip(n);
    }
}

/// The digits of a number denote that number.
pub proof fn lemma_hex_digits_round_trip(n: nat)
    ensures
        hex_value(hex_digits(n)) == n,
    decreases n,
{
    if n >= 16 {
        lemma_hex_digits_round_trip(n / 16);
        lemma_hex_digit_round_trip(n % 16);
        let digits = hex_digits(n);
        assert(digits.drop_last() == hex_digits(n / 16));
        assert(digits.last() == hex_digit(n % 16));
    } else {
        lemma_hex_digit_round_trip(n);
        let digits = hex_digits(n);
        assert(digits.drop_last().len() == 0);
        assert(digits.last() == hex_digit(n));
        assert(hex_value(digits.drop_last()) == 0);
    }
}

/// Two numbers with the same canonical wire form are equal: equality of the
/// rendered strings is equality of the values.
pub proof fn lemma_prefixed_hex_injective(a: nat, b: nat)
    requires
        prefixed_hex(a) == prefixed_hex(b),
    ensures
        a == b,
{
    let prefix = seq!['0', 'x'];
    assert((prefix + hex_digits(a)).skip(2) == hex_digits(a));
    assert((prefix + hex_digits(b)).skip(2) == hex_digits(b));
    lemma_hex_digits_round_trip(a);
    lemma_hex_digits_round_trip(b);
}

/// Sixteen to the power `k`: the number of values that `k` hexadecimal
/// digits can tell apart.
pub open spec fn sixteen_to(k: nat) -> nat
    decreases k,
{
    if k == 0 {
        1
    } else {
        16 * sixteen_to((k - 1) as nat)
    }
}

/// A byte string denotes a number that two hexadecimal digits per byte can
/// write.
pub proof fn lemma_be_value_bound(bytes: Seq<u8>)
    ensures
        be_value(bytes) < sixteen_to(2 * bytes.len()),
    decreases bytes.len(),
{
    if bytes.len() > 0 {
        lemma_be_value_bound(bytes.drop_last());
        let k = 2 * bytes.len();
        assert(sixteen_to(k) == 16 * sixteen_to((k - 1) as nat));
        assert(sixteen_to((k - 1) as nat) == 16 * sixteen_to((k - 2) as nat));
        assert(2 * bytes.drop_last().len() == k - 2);
    }
}

/// A number below sixteen to the power `k` has at most `k` digits.
pub proof fn lemma_hex_digits_len(n: nat, k: nat)
    requires
        k >= 1,
        n < sixteen_to(k),
    ensures
        1 <= hex_digits(n).len() <= k,
    decreases k,
{
    if n >= 16 {
        assert(sixteen_to(1) == 16) by {
            assert(sixteen_to(0) == 1);
        }
        assert(k >= 2);
        assert(sixteen_to(k) == 16 * sixteen_to((k - 1) as nat));
        lemma_hex_digits_len(n / 16, (k - 1) as nat);
    }
}

/// Lowercase hexadecimal digit of a number below sixteen.
pub fn hex_char(d: u8) -> (c: char)
    requires
        d < 16,
    ensures
        c == hex_digit(d as nat),
{
    if d == 0 {
        '0'
    } else if d == 1 {
        '1'
    } else if d == 2 {
        '2'
    } else if d == 3 {
        '3'
    } else if d == 4 {
        '4'
    } else if d == 5 {
        '5'
    } else if d == 6 {
        '6'
    } else if d == 7 {
        '7'
    } else if d == 8 {
        '8'
    } else if d == 9 {
        '9'
    } else if d == 10 {
        'a'
    } else if d == 11 {
        'b'
    } else if d == 12 {
        'c'
    } else if d == 13 {
        'd'
    } else if d == 14 {
        'e'
    } else {
        'f'
    }
}

/// A field element, held as 32 bytes with the most significant byte first.
#[derive(Clone, Copy, Debug, PartialEq, Eq, Hash)]
pub struct Felt {
    pub bytes: [u8; 32],
}

impl View for Felt {
    type V = nat;

    open spec fn view(&self) -> nat {
        be_value(self.bytes@)
    }
}

impl Felt {
    /// The element with the given big-endian bytes.
    pub fn new(bytes: [u8; 32]) -> (r: Felt)
        ensures
            r.bytes == bytes,
    {
        Felt { bytes }
    }

    /// The wire form of an element is `0x` and between one and sixty-four
    /// digits.
    pub proof fn lemma_wire_form_length(self)
        ensures
            3 <= prefixed_hex(self@).len() <= 66,
    {
        lemma_be_value_bound(self.bytes@);
        lemma_hex_digits_len(self@, 64);
    }

    /// Whether two elements have the same value.
    pub fn equals(&self, other: &Felt) -> (r: bool)
        ensures
            r == (self@ == other@),
    {
        let mut i: usize = 0;
        while i < 32
            invariant
                0 <= i <= 32,
                self.bytes@.take(i as int) == other.bytes@.take(i as int),
            decreases 32 - i,
        {
            if self.bytes[i] != other.bytes[i] {
                proof {
                    if self@ == other@ {
                        lemma_be_value_injective(self.bytes@, other.bytes@);
                    }
                }
                return false;
            }
            assert(self.bytes@.take(i + 1) == self.bytes@.take(i as int).push(self.bytes@[i as int]));
            assert(other.bytes@.take(i + 1) == other.bytes@.take(i as int).push(other.bytes@[i as int]));
            i = i + 1;
        }
        assert(self.bytes@.take(32) == self.bytes@);
        assert(other.bytes@.take(32) == other.bytes@);
        true
    }

    /// Canonical wire form: `0x`, then the lowercase hexadecimal digits of the
    /// value without superfluous leading zeros.
    pub fn to_prefixed_hex_str(&self) -> (s: String)
        ensures
            s@ == prefixed_hex(self@),
    {
        let mut out = String::new();
        out.push('0');
        out.push('x');
        let ghost mut v: nat = 0;
        let mut started = false;
        let mut i: usize = 0;
        assert(self.bytes@.take(0) == Seq::<u8>::empty());
        while i < 32
            invariant
                0 <= i <= 32,
                v == be_value(self.bytes@.take(i as int)),
                started <==> v > 0,
                started ==> out@ == prefixed_hex(v),
                !started ==> out@ == seq!['0', 'x'],
            decreases 32 - i,
        {
            let b: u8 = self.bytes[i];
            let hi: u8 = b / 16;
            let lo: u8 = b % 16;
            proof {
                lemma_be_value_step(self.bytes@, i as int);
                lemma_hex_digits_step(v, hi as nat);
                lemma_hex_digits_step(v * 16 + hi as nat, lo as nat);
                assert((v * 16 + hi as nat) * 16 + lo as nat == v * 256 + b as nat);
            }
            if started || hi != 0 {
                out.push(hex_char(hi));
                started = true;
            }
            if started || lo != 0 {
                out.push(hex_char(lo));
                started = true;
            }
            proof {
                v = v * 256 + b as nat;
            }
            i = i + 1;
        }
        assert(self.bytes@.take(32) == self.bytes@);
        if !started {
            out.push('0');
        }
        out
    }
}

} // verus!
