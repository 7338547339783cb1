//! Numbers in text: reading decimal numbers, and writing numbers in base ten,
//! sixteen and two.
use crate::text::{chars_of, digit, is_digit};
use vstd::prelude::*;

verus! {

// ---------------------------------------------------------------------------
// Reading
// ---------------------------------------------------------------------------
/// A text of digits alone.
pub open spec fn all_digits(s: Seq<char>) -> bool {
    forall|i: int| 0 <= i < s.len() ==> digit(s[i])
}

/// The number that a text of digits writes in base ten.
pub open spec fn digits_value(s: Seq<char>) -> nat
    decreases s.len(),
{
    if s.len() == 0 {
        0
    } else {
        digits_value(s.drop_last()) * 10 + (s.last() as u32 - 0x30) as nat
    }
}

/// The number that a non-empty text of digits writes, where it is at most `max`.
pub open spec fn read_digits(s: Seq<char>, max: nat) -> Option<nat> {
    if s.len() > 0 && all_digits(s) && digits_value(s) <= max {
        Some(digits_value(s))
    } else {
        None
    }
}

/// The unsigned number that a text writes: digits, after at most one `+`.
pub open spec fn read_unsigned(s: Seq<char>, max: nat) -> Option<nat> {
    if s.len() > 0 && s[0] == '+' {
        read_digits(s.skip(1), max)
    } else {
        read_digits(s, max)
    }
}

/// The signed 64-bit number that a text writes: digits, after at most one sign.
pub open spec fn read_signed(s: Seq<char>) -> Option<int> {
    if s.len() > 0 && s[0] == '-' {
        match read_digits(s.skip(1), 0x8000_0000_0000_0000) {
            Some(n) => Some(-(n as int)),
            None => None,
        }
    } else {
        match read_unsigned(s, 0x7fff_ffff_ffff_ffff) {
            Some(n) => Some(n as int),
            None => None,
        }
    }
}

/// A longer text of digits writes a number at least as large.
proof fn lemma_digits_grow(s: Seq<char>, k: int)
    requires
        0 <= k <= s.len(),
        all_digits(s),
    ensures
        digits_value(s.take(k)) <= digits_value(s),
    decreases s.len(),
{
    if k == s.len() {
        assert(s.take(k) =~= s);
    } else {
        let shorter = s.drop_last();
        lemma_digits_grow(shorter, k);
        assert(shorter.take(k) =~= s.take(k));
        assert(digit(s[s.len() - 1]));
    }
}

/// Reads the digits of a text from one place to its end.
fn read_from(chars: &[char], from: usize, max: u64) -> (r: Option<u64>)
    requires
        from <= chars@.len(),
        max <= 0x8000_0000_0000_0000,
    ensures
        match r {
            Some(n) => read_digits(chars@.skip(from as int), max as nat) == Some(n as nat),
            None => read_digits(chars@.skip(from as int), max as nat) is None,
        },
{
    let ghost s = chars@.skip(from as int);
    let n: usize = chars.len();
    if from == n {
        return None;
    }
    let mut value: u64 = 0;
    let mut i: usize = from;
    while i < n
        invariant
            from <= i <= n,
            n == chars@.len(),
            max <= 0x8000_0000_0000_0000,
            s == chars@.skip(from as int),
            s.len() == n - from,
            all_digits(s.take(i - from)),
            value == digits_value(s.take(i - from)),
            value <= max,
        decreases n - i,
    {
        let c = chars[i];
        assert(s[i - from] == c);
        if !is_digit(c) {
            return None;
        }
        let d: u64 = (c as u32 - 0x30) as u64;
        let next: u128 = value as u128 * 10 + d as u128;
        let ghost longer = s.take(i + 1 - from);
        assert(longer.drop_last() =~= s.take(i - from));
        assert forall|j: int| 0 <= j < longer.len() implies digit(longer[j]) by {
            if j < i - from {
                assert(longer[j] == s.take(i - from)[j]);
            }
        }
        assert(next == digits_value(longer));
        if next > max as u128 {
            proof {
                if all_digits(s) {
                    lemma_digits_grow(s, i + 1 - from);
                }
            }
            return None;
        }
        value = next as u64;
        i += 1;
    }
    assert(s.take(n - from) =~= s);
    Some(value)
}

/// Reads an unsigned number that is at most `max`.
pub fn parse_unsigned(s: &str, max: u64) -> (r: Option<u64>)
    requires
        max <= 0x8000_0000_0000_0000,
    ensures
        match r {
            Some(n) => read_unsigned(s@, max as nat) == Some(n as nat),
            None => read_unsigned(s@, max as nat) is None,
        },
{
    let chars = chars_of(s);
    if chars.len() > 0 && chars[0] == '+' {
        read_from(chars.as_slice(), 1, max)
    } else {
        assert(s@.skip(0) =~= s@);
        read_from(chars.as_slice(), 0, max)
    }
}

/// Reads a signed 64-bit number.
pub fn parse_signed(s: &str) -> (r: Option<i64>)
    ensures
        match r {
            Some(n) => read_signed(s@) == Some(n as int),
            None => read_signed(s@) is None,
        },
{
    let chars = chars_of(s);
    if chars.len() > 0 && chars[0] == '-' {
        match read_from(chars.as_slice(), 1, 0x8000_0000_0000_0000) {
            Some(n) => {
                let wide: i128 = 0 - n as i128;
                Some(wide as i64)
            },
            None => None,
        }
    } else {
        match parse_unsigned(s, 0x7fff_ffff_ffff_ffff) {
            Some(n) => Some(n as i64),
            None => None,
        }
    }
}

// ---------------------------------------------------------------------------
// Writing
// ---------------------------------------------------------------------------
/// The digit that stands for a number below ten.
pub open spec fn digit_char(d: nat) -> char {
    (0x30 + d) as char
}

/// A number written in base ten.
pub open spec fn decimal(n: nat) -> Seq<char>
    decreases n,
{
    if n < 10 {
        seq![digit_char(n)]
    } else {
        decimal(n / 10).push(digit_char(n % 10))
    }
}

/// A signed number written in base ten.
pub open spec fn signed_decimal(n: int) -> Seq<char> {
    if n < 0 {
        seq!['-'] + decimal((-n) as nat)
    } else {
        decimal(n as nat)
    }
}

/// The digit, in small letters, that stands for a number below sixteen.
pub open spec fn hex_char(d: nat) -> char {
    if d < 10 {
        digit_char(d)
    } else {
        (0x57 + d) as char
    }
}

/// The lowest digits of a number in base sixteen, in small letters.
pub open spec fn hex(n: nat, width: nat) -> Seq<char>
    decreases width,
{
    if width == 0 {
        Seq::empty()
    } else {
        hex(n / 16, (width - 1) as nat).push(hex_char(n % 16))
    }
}

/// The lowest digits of a number in base two.
pub open spec fn binary(n: nat, width: nat) -> Seq<char>
    decreases width,
{
    if width == 0 {
        Seq::empty()
    } else {
        binary(n / 2, (width - 1) as nat).push(digit_char(n % 2))
    }
}

/// Writes the digit for a number below ten.
fn write_digit(d: u8) -> (r: char)
    requires
        d < 10,
    ensures
        r == digit_char(d as nat),
{
    let b: u8 = 0x30 + d;
    b as char
}

/// Appends a number, in base ten, to a text.
pub fn push_decimal(out: &mut String, n: u128)
    ensures
        final(out)@ == old(out)@ + decimal(n as nat),
    decreases n,
{
    if n >= 10 {
        push_decimal(out, n / 10);
    }
    out.push(write_digit((n % 10) as u8));
    assert(out@ =~= old(out)@ + decimal(n as nat));
}

/// A number in base ten.
pub fn decimal_text(n: u128) -> (r: String)
    ensures
        r@ == decimal(n as nat),
{
    let mut out = String::new();
    push_decimal(&mut out, n);
    assert(Seq::<char>::empty() + decimal(n as nat) =~= decimal(n as nat));
    out
}

/// A signed number in base ten.
pub fn signed_text(n: i128) -> (r: String)
    requires
        n > i128::MIN,
    ensures
        r@ == signed_decimal(n as int),
{
    if n < 0 {
        let mut out = String::new();
        out.push('-');
        let m: u128 = (-n) as u128;
        push_decimal(&mut out, m);
        assert(Seq::<char>::empty().push('-') =~= seq!['-']);
        out
    } else {
        decimal_text(n as u128)
    }
}

/// Appends the lowest digits of a number, in base sixteen, to a text.
pub fn push_hex(out: &mut String, n: u32, width: usize)
    ensures
        final(out)@ == old(out)@ + hex(n as nat, width as nat),
    decreases width,
{
    if width > 0 {
        push_hex(out, n / 16, width - 1);
        let d: u8 = (n % 16) as u8;
        if d < 10 {
            out.push(write_digit(d));
        } else {
            let b: u8 = 0x57 + d;
            out.push(b as char);
        }
    }
    assert(out@ =~= old(out)@ + hex(n as nat, width as nat));
}

/// Appends the lowest digits of a number, in base two, to a text.
pub fn push_binary(out: &mut String, n: u32, width: usize)
    ensures
        final(out)@ == old(out)@ + binary(n as nat, width as nat),
    decreases width,
{
    if width > 0 {
        push_binary(out, n / 2, width - 1);
        out.push(write_digit((n % 2) as u8));
    }
    assert(out@ =~= old(out)@ + binary(n as nat, width as nat));
}

// ---------------------------------------------------------------------------
// Laws
// ---------------------------------------------------------------------------
/// A number written in base ten is made of digits alone, has at least one, and
/// writes that number.
pub proof fn law_decimal_reads_back(n: nat)
    ensures
        decimal(n).len() > 0,
        all_digits(decimal(n)),
        digits_value(decimal(n)) == n,
        forall|max: nat| n <= max ==> #[trigger] read_unsigned(decimal(n), max) == Some(n),
    decreases n,
{
    if n < 10 {
        assert(decimal(n).drop_last() =~= Seq::<char>::empty());
        assert(digits_value(Seq::<char>::empty()) == 0);
        assert(decimal(n).last() == digit_char(n));
    } else {
        law_decimal_reads_back(n / 10);
        let front = decimal(n / 10);
        assert(decimal(n).drop_last() =~= front);
        assert forall|i: int| 0 <= i < decimal(n).len() implies digit(decimal(n)[i]) by {
            if i < front.len() {
                assert(decimal(n)[i] == front[i]);
            }
        }
    }
    assert(digit(decimal(n)[0]));
}

/// A signed number of 64 bits written in base ten reads back.
pub proof fn law_signed_reads_back(n: i64)
    ensures
        read_signed(signed_decimal(n as int)) == Some(n as int),
{
    if n < 0 {
        let m = (-n) as nat;
        law_decimal_reads_back(m);
        assert(signed_decimal(n as int).skip(1) =~= decimal(m));
    } else {
        law_decimal_reads_back(n as nat);
        assert(digit(decimal(n as nat)[0]));
        assert(read_unsigned(decimal(n as nat), 0x7fff_ffff_ffff_ffff) == Some(n as nat));
    }
}

/// A number is written in the ten digits, the highest first.
pub proof fn law_decimal_digits(n: nat, d: nat)
    requires
        d < 10,
    ensures
        decimal(d) == seq!["0123456789"@[d as int]],
        n > 0 ==> decimal(10 * n + d) == decimal(n).push("0123456789"@[d as int]),
{
    reveal_strlit("0123456789");
    lemma_digit_char(d);
    assert((10 * n + d) / 10 == n);
    assert((10 * n + d) % 10 == d);
}

/// The digits of base ten, one by one.
proof fn lemma_digit_char(d: nat)
    requires
        d < 10,
    ensures
        digit_char(d) == "0123456789"@[d as int],
{
    reveal_strlit("0123456789");
    assert(digit_char(0) == '0' && digit_char(1) == '1' && digit_char(2) == '2' && digit_char(3)
        == '3' && digit_char(4) == '4' && digit_char(5) == '5' && digit_char(6) == '6'
        && digit_char(7) == '7' && digit_char(8) == '8' && digit_char(9) == '9');
    assert(d == 0 || d == 1 || d == 2 || d == 3 || d == 4 || d == 5 || d == 6 || d == 7 || d == 8
        || d == 9);
}

/// In base sixteen and in base two a number is written to a width in the digits of the base,
/// the lowest last; what does not fit is left out.
pub proof fn law_other_bases(n: nat, width: nat)
    ensures
        hex(n, 0).len() == 0,
        hex(n, width + 1) == hex(n / 16, width).push("0123456789abcdef"@[(n % 16) as int]),
        binary(n, 0).len() == 0,
        binary(n, width + 1) == binary(n / 2, width).push("01"@[(n % 2) as int]),
{
    reveal_strlit("0123456789abcdef");
    reveal_strlit("01");
    reveal_strlit("0123456789");
    let d = n % 16;
    if d < 10 {
        lemma_digit_char(d);
        assert("0123456789"@[d as int] == "0123456789abcdef"@[d as int]) by {
            assert(d == 0 || d == 1 || d == 2 || d == 3 || d == 4 || d == 5 || d == 6 || d == 7 || d
                == 8 || d == 9);
        }
    } else {
        assert(hex_char(10) == 'a' && hex_char(11) == 'b' && hex_char(12) == 'c' && hex_char(13)
            == 'd' && hex_char(14) == 'e' && hex_char(15) == 'f');
        assert(d == 10 || d == 11 || d == 12 || d == 13 || d == 14 || d == 15);
    }
    assert(digit_char(0) == '0' && digit_char(1) == '1');
    assert(n % 2 == 0 || n % 2 == 1);
}

/// Reading takes one sign and digits, within bounds, and nothing else.
pub proof fn law_reading_is_strict(s: Seq<char>, max: nat, n: nat)
    ensures
        n <= max ==> read_unsigned(decimal(n), max) == Some(n) && read_unsigned(
            seq!['+'] + decimal(n),
            max,
        ) == Some(n),
        n > max ==> read_unsigned(decimal(n), max) is None,
        read_unsigned(s, max) matches Some(v) ==> v <= max,
        s.len() == 0 ==> read_unsigned(s, max) is None && read_signed(s) is None,
        (exists|i: int| 0 <= i < s.len() && !digit(s[i]) && !(i == 0 && s[i] == '+'))
            ==> read_unsigned(s, max) is None,
        read_signed(s) matches Some(v) ==> i64::MIN <= v <= i64::MAX,
        n <= 0x8000_0000_0000_0000 ==> read_signed(seq!['-'] + decimal(n)) == Some(-(n as int)),
        n <= 0x7fff_ffff_ffff_ffff ==> read_signed(seq!['+'] + decimal(n)) == Some(n as int),
        (exists|i: int|
            0 <= i < s.len() && !digit(s[i]) && !(i == 0 && (s[i] == '+' || s[i] == '-')))
            ==> read_signed(s) is None,
{
    law_decimal_reads_back(n);
    let plus = seq!['+'] + decimal(n);
    let minus = seq!['-'] + decimal(n);
    assert(plus.skip(1) =~= decimal(n));
    assert(minus.skip(1) =~= decimal(n));
    assert(digit(decimal(n)[0]));
    if exists|i: int| 0 <= i < s.len() && !digit(s[i]) && !(i == 0 && s[i] == '+') {
        let i = choose|i: int| 0 <= i < s.len() && !digit(s[i]) && !(i == 0 && s[i] == '+');
        if s[0] == '+' {
            assert(s.skip(1)[i - 1] == s[i]);
        }
    }
    if exists|i: int|
        0 <= i < s.len() && !digit(s[i]) && !(i == 0 && (s[i] == '+' || s[i] == '-')) {
        let i = choose|i: int|
            0 <= i < s.len() && !digit(s[i]) && !(i == 0 && (s[i] == '+' || s[i] == '-'));
        if s[0] == '+' || s[0] == '-' {
            assert(s.skip(1)[i - 1] == s[i]);
        }
    }
}

} // verus!
