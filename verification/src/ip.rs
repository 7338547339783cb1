//! IP addresses in text.
use crate::number::{
    all_digits, decimal, digit_char, digits_value, law_decimal_reads_back, parse_unsigned,
    push_decimal, read_digits, read_unsigned,
};
use crate::text::{
    chars_of, contains_char, digit, hex_digit, is_digit, is_hex_digit, joined,
    law_pieces_join_again, pieces, split, texts,
};
use vstd::prelude::*;

verus! {

// ---------------------------------------------------------------------------
// Recognising addresses
// ---------------------------------------------------------------------------
/// One of the four numbers of an IPv4 address: up to three digits, at most 255,
/// with no leading zero.
pub open spec fn valid_octet(p: Seq<char>) -> bool {
    &&& 1 <= p.len() <= 3
    &&& all_digits(p)
    &&& digits_value(p) <= 255
    &&& !(p.len() > 1 && p[0] == '0')
}

/// A text that is taken for an IP address. With a colon in it, it must be made of
/// colons and digits of base sixteen and have two characters or more; without, it
/// must be four numbers between dots.
pub open spec fn valid_ip(s: Seq<char>) -> bool {
    if s.contains(':') {
        s.len() >= 2 && forall|i: int| 0 <= i < s.len() ==> hex_digit(s[i]) || s[i] == ':'
    } else {
        let parts = pieces(s, '.');
        parts.len() == 4 && forall|i: int| 0 <= i < 4 ==> valid_octet(#[trigger] parts[i])
    }
}

/// Tells whether a text is made of digits alone.
fn only_digits(chars: &[char]) -> (r: bool)
    ensures
        r == all_digits(chars@),
{
    let mut i: usize = 0;
    while i < chars.len()
        invariant
            i <= chars@.len(),
            forall|j: int| 0 <= j < i ==> digit(chars@[j]),
        decreases chars@.len() - i,
    {
        if !is_digit(chars[i]) {
            return false;
        }
        i += 1;
    }
    true
}

/// Tells whether a text is one of the numbers of an IPv4 address.
fn is_valid_octet(p: &str) -> (r: bool)
    ensures
        r == valid_octet(p@),
{
    let chars = chars_of(p);
    let n: usize = chars.len();
    if n == 0 || n > 3 || !only_digits(chars.as_slice()) {
        return false;
    }
    assert(digit(p@[0]));
    match parse_unsigned(p, 65535) {
        Some(v) => v <= 255 && !(n > 1 && chars[0] == '0'),
        None => false,
    }
}

/// Tells whether a text is taken for an IP address.
pub fn is_valid_ip(s: &str) -> (r: bool)
    ensures
        r == valid_ip(s@),
{
    if contains_char(s, ':') {
        let chars = chars_of(s);
        let mut i: usize = 0;
        while i < chars.len()
            invariant
                i <= chars@.len(),
                chars@ == s@,
                s@.contains(':'),
                forall|j: int| 0 <= j < i ==> hex_digit(s@[j]) || s@[j] == ':',
            decreases chars@.len() - i,
        {
            if !(is_hex_digit(chars[i]) || chars[i] == ':') {
                assert(!(hex_digit(s@[i as int]) || s@[i as int] == ':'));
                return false;
            }
            i += 1;
        }
        return chars.len() >= 2;
    }
    let parts = split(s, '.');
    assert(texts(parts@).len() == parts@.len());
    if parts.len() != 4 {
        return false;
    }
    let mut i: usize = 0;
    while i < 4
        invariant
            i <= 4,
            parts@.len() == 4,
            texts(parts@) == pieces(s@, '.'),
            !s@.contains(':'),
            forall|j: int| 0 <= j < i ==> valid_octet(#[trigger] pieces(s@, '.')[j]),
        decreases 4 - i,
    {
        assert(texts(parts@)[i as int] == parts@[i as int]@);
        if !is_valid_octet(parts[i].as_str()) {
            return false;
        }
        i += 1;
    }
    true
}

/// The ranges of IPv4 addresses, by their first two numbers, that have no place on
/// the public internet.
pub open spec fn private_range(a: nat, b: nat) -> bool {
    ||| a == 10
    ||| a == 127
    ||| a == 0
    ||| a == 172 && 16 <= b <= 31
    ||| a == 192 && b == 168
    ||| a == 169 && b == 254
}

/// Four numbers between dots whose first two are in a range that has no place on
/// the public internet. Each number may be up to 65535 here.
pub open spec fn private_ipv4(s: Seq<char>) -> bool {
    let parts = pieces(s, '.');
    &&& parts.len() == 4
    &&& forall|i: int| 0 <= i < 4 ==> read_unsigned(#[trigger] parts[i], 65535) is Some
    &&& private_range(read_unsigned(parts[0], 65535)->0, read_unsigned(parts[1], 65535)->0)
}

/// Tells whether an IPv4 address has no place on the public internet.
pub fn is_private_ipv4(s: &str) -> (r: bool)
    ensures
        r == private_ipv4(s@),
{
    let parts = split(s, '.');
    assert(texts(parts@).len() == parts@.len());
    if parts.len() != 4 {
        return false;
    }
    let mut octets: Vec<u64> = Vec::new();
    let mut i: usize = 0;
    while i < 4
        invariant
            i <= 4,
            parts@.len() == 4,
            octets@.len() == i,
            texts(parts@) == pieces(s@, '.'),
            forall|j: int|
                0 <= j < i ==> read_unsigned(#[trigger] pieces(s@, '.')[j], 65535) == Some(
                    octets@[j] as nat,
                ),
        decreases 4 - i,
    {
        assert(texts(parts@)[i as int] == parts@[i as int]@);
        match parse_unsigned(parts[i].as_str(), 65535) {
            Some(n) => octets.push(n),
            None => {
                assert(read_unsigned(pieces(s@, '.')[i as int], 65535) is None);
                return false;
            },
        }
        i += 1;
    }
    let a: u64 = octets[0];
    let b: u64 = octets[1];
    assert(read_unsigned(pieces(s@, '.')[0], 65535) == Some(a as nat));
    assert(read_unsigned(pieces(s@, '.')[1], 65535) == Some(b as nat));
    a == 10 || a == 127 || a == 0 || (a == 172 && 16 <= b && b <= 31) || (a == 192 && b == 168) || (a
        == 169 && b == 254)
}

// ---------------------------------------------------------------------------
// Addresses as numbers
// ---------------------------------------------------------------------------
/// One of the four numbers of an address, up to three digits long.
pub open spec fn octet(p: Seq<char>) -> Option<nat> {
    if p.len() <= 3 {
        read_digits(p, 255)
    } else {
        None
    }
}

/// The number that four numbers between dots stand for, the first the highest.
pub open spec fn ipv4_number(s: Seq<char>) -> Option<nat> {
    let parts = pieces(s, '.');
    if parts.len() == 4 && octet(parts[0]) is Some && octet(parts[1]) is Some && octet(
        parts[2],
    ) is Some && octet(parts[3]) is Some {
        Some(
            octet(parts[0])->0 * 0x100_0000 + octet(parts[1])->0 * 0x1_0000 + octet(parts[2])->0
                * 0x100 + octet(parts[3])->0,
        )
    } else {
        None
    }
}

/// Reads one of the four numbers of an address.
fn parse_octet(p: &str) -> (r: Option<u32>)
    ensures
        match r {
            Some(v) => octet(p@) == Some(v as nat) && v <= 255,
            None => octet(p@) is None,
        },
{
    let chars = chars_of(p);
    let n: usize = chars.len();
    if n == 0 || n > 3 || !only_digits(chars.as_slice()) {
        return None;
    }
    assert(digit(p@[0]));
    match parse_unsigned(p, 255) {
        Some(v) => Some(v as u32),
        None => None,
    }
}

/// Reads an IPv4 address as a number.
pub fn parse_ipv4(s: &str) -> (r: Option<u32>)
    ensures
        match r {
            Some(v) => ipv4_number(s@) == Some(v as nat),
            None => ipv4_number(s@) is None,
        },
{
    let parts = split(s, '.');
    assert(texts(parts@).len() == parts@.len());
    if parts.len() != 4 {
        return None;
    }
    assert(forall|i: int| 0 <= i < 4 ==> #[trigger] texts(parts@)[i] == parts@[i]@);
    let a = match parse_octet(parts[0].as_str()) {
        Some(v) => v,
        None => return None,
    };
    let b = match parse_octet(parts[1].as_str()) {
        Some(v) => v,
        None => return None,
    };
    let c = match parse_octet(parts[2].as_str()) {
        Some(v) => v,
        None => return None,
    };
    let d = match parse_octet(parts[3].as_str()) {
        Some(v) => v,
        None => return None,
    };
    Some(a * 0x100_0000 + b * 0x1_0000 + c * 0x100 + d)
}

/// A number written as an IPv4 address.
pub open spec fn dotted(v: nat) -> Seq<char> {
    decimal(v / 0x100_0000) + seq!['.'] + decimal(v / 0x1_0000 % 0x100) + seq!['.'] + decimal(
        v / 0x100 % 0x100,
    ) + seq!['.'] + decimal(v % 0x100)
}

/// Writes a number as an IPv4 address.
pub fn u32_to_ipv4(v: u32) -> (r: String)
    ensures
        r@ == dotted(v as nat),
{
    let mut out = String::new();
    push_decimal(&mut out, (v / 0x100_0000) as u128);
    out.push('.');
    push_decimal(&mut out, (v / 0x1_0000 % 0x100) as u128);
    out.push('.');
    push_decimal(&mut out, (v / 0x100 % 0x100) as u128);
    out.push('.');
    push_decimal(&mut out, (v % 0x100) as u128);
    assert(out@ =~= dotted(v as nat));
    out
}

// ---------------------------------------------------------------------------
// Laws
// ---------------------------------------------------------------------------
/// A text without the separator is its own only piece.
pub proof fn lemma_one_piece(s: Seq<char>, sep: char)
    requires
        !s.contains(sep),
    ensures
        pieces(s, sep) == seq![s],
    decreases s.len(),
{
    if s.len() > 0 {
        let front = s.drop_last();
        assert forall|i: int| 0 <= i < front.len() implies front[i] != sep by {
            assert(s[i] == front[i]);
        }
        lemma_one_piece(front, sep);
        assert(s[s.len() - 1] == s.last());
        assert(pieces(s, sep) =~= seq![front.push(s.last())]);
        assert(front.push(s.last()) =~= s);
    } else {
        assert(s =~= Seq::<char>::empty());
    }
}

/// A separator and a text without it add one piece.
pub proof fn lemma_next_piece(s: Seq<char>, sep: char, next: Seq<char>)
    requires
        !next.contains(sep),
    ensures
        pieces(s + seq![sep] + next, sep) == pieces(s, sep).push(next),
    decreases next.len(),
{
    let whole = s + seq![sep] + next;
    if next.len() == 0 {
        assert(whole.drop_last() =~= s);
        assert(whole.last() == sep);
        assert(next =~= Seq::<char>::empty());
    } else {
        let front = next.drop_last();
        assert forall|i: int| 0 <= i < front.len() implies front[i] != sep by {
            assert(next[i] == front[i]);
        }
        lemma_next_piece(s, sep, front);
        assert(next[next.len() - 1] == next.last());
        assert(whole.drop_last() =~= s + seq![sep] + front);
        assert(whole.last() == next.last());
        assert(pieces(s, sep).push(front).drop_last() =~= pieces(s, sep));
        assert(front.push(next.last()) =~= next);
    }
}

/// A number up to 255 takes at most three digits, has no leading zero, and has
/// neither a dot nor a colon in it.
proof fn lemma_octet_text(n: nat)
    requires
        n <= 255,
    ensures
        octet(decimal(n)) == Some(n),
        valid_octet(decimal(n)),
        !decimal(n).contains('.'),
        !decimal(n).contains(':'),
{
    law_decimal_reads_back(n);
    assert(decimal(n).len() <= 3 && !(decimal(n).len() > 1 && decimal(n)[0] == '0')) by {
        reveal_with_fuel(decimal, 3);
        if n >= 100 {
            assert(decimal(n)[0] == digit_char(n / 10 / 10));
        } else if n >= 10 {
            assert(decimal(n)[0] == digit_char(n / 10));
        }
    }
    assert forall|i: int| 0 <= i < decimal(n).len() implies decimal(n)[i] != '.' && decimal(n)[i]
        != ':' by {
        assert(digit(decimal(n)[i]));
    }
}

/// The pieces of a number written as an address are its four numbers.
proof fn lemma_dotted_pieces(v: nat)
    requires
        v <= u32::MAX,
    ensures
        pieces(dotted(v), '.') == seq![
            decimal(v / 0x100_0000),
            decimal(v / 0x1_0000 % 0x100),
            decimal(v / 0x100 % 0x100),
            decimal(v % 0x100),
        ],
{
    let a = decimal(v / 0x100_0000);
    let b = decimal(v / 0x1_0000 % 0x100);
    let c = decimal(v / 0x100 % 0x100);
    let d = decimal(v % 0x100);
    lemma_octet_text(v / 0x100_0000);
    lemma_octet_text(v / 0x1_0000 % 0x100);
    lemma_octet_text(v / 0x100 % 0x100);
    lemma_octet_text(v % 0x100);
    lemma_one_piece(a, '.');
    lemma_next_piece(a, '.', b);
    lemma_next_piece(a + seq!['.'] + b, '.', c);
    lemma_next_piece(a + seq!['.'] + b + seq!['.'] + c, '.', d);
    assert(pieces(dotted(v), '.') =~= seq![a, b, c, d]);
}

/// Reading gives back the number that was written as an address, and what was
/// written is taken for an IP address.
pub proof fn law_ipv4_reads_back(v: u32)
    ensures
        ipv4_number(dotted(v as nat)) == Some(v as nat),
        valid_ip(dotted(v as nat)),
{
    let n = v as nat;
    lemma_dotted_pieces(n);
    lemma_octet_text(n / 0x100_0000);
    lemma_octet_text(n / 0x1_0000 % 0x100);
    lemma_octet_text(n / 0x100 % 0x100);
    lemma_octet_text(n % 0x100);
    let s = dotted(n);
    assert(!s.contains(':')) by {
        if s.contains(':') {
            let k = choose|k: int| 0 <= k < s.len() && s[k] == ':';
            let a = decimal(n / 0x100_0000);
            let b = decimal(n / 0x1_0000 % 0x100);
            let c = decimal(n / 0x100 % 0x100);
            let d = decimal(n % 0x100);
            let at_b = a.len() + 1;
            let at_c = at_b + b.len() + 1;
            let at_d = at_c + c.len() + 1;
            if k < a.len() {
                assert(s[k] == a[k]);
            } else if at_b <= k < at_b + b.len() {
                assert(s[k] == b[k - at_b]);
            } else if at_c <= k < at_c + c.len() {
                assert(s[k] == c[k - at_c]);
            } else if at_d <= k {
                assert(s[k] == d[k - at_d]);
            }
        }
    }
}

/// The address that a number is written as has no place on the public internet
/// exactly when the two highest of its four numbers are in such a range.
pub proof fn law_private_by_number(v: u32)
    ensures
        private_ipv4(dotted(v as nat)) == private_range(
            v as nat / 0x100_0000,
            v as nat / 0x1_0000 % 0x100,
        ),
{
    let n = v as nat;
    lemma_dotted_pieces(n);
    law_decimal_reads_back(n / 0x100_0000);
    law_decimal_reads_back(n / 0x1_0000 % 0x100);
    law_decimal_reads_back(n / 0x100 % 0x100);
    law_decimal_reads_back(n % 0x100);
    let parts = pieces(dotted(n), '.');
    assert(parts[0] == decimal(n / 0x100_0000));
    assert(parts[1] == decimal(n / 0x1_0000 % 0x100));
    assert(parts[2] == decimal(n / 0x100 % 0x100));
    assert(parts[3] == decimal(n % 0x100));
    assert(read_unsigned(parts[0], 65535) == Some(n / 0x100_0000));
    assert(read_unsigned(parts[1], 65535) == Some(n / 0x1_0000 % 0x100));
    assert(read_unsigned(parts[2], 65535) == Some(n / 0x100 % 0x100));
    assert(read_unsigned(parts[3], 65535) == Some(n % 0x100));
}

/// A text of digits without a leading zero is how its number is written.
proof fn lemma_digits_are_decimal(p: Seq<char>)
    requires
        p.len() > 0,
        all_digits(p),
        p.len() == 1 || p[0] != '0',
    ensures
        decimal(digits_value(p)) == p,
        p[0] != '0' ==> digits_value(p) >= 1,
    decreases p.len(),
{
    let front = p.drop_last();
    let c = p.last();
    assert(digit(p[p.len() - 1]));
    let d = (c as u32 - 0x30) as nat;
    assert(digit_char(d) == c) by {
        let u = c as u32;
        assert(u == 0x30 || u == 0x31 || u == 0x32 || u == 0x33 || u == 0x34 || u == 0x35 || u
            == 0x36 || u == 0x37 || u == 0x38 || u == 0x39);
        vstd::utf8::char_u32_cast(c, u);
    }
    if p.len() == 1 {
        assert(front =~= Seq::<char>::empty());
        assert(digits_value(Seq::<char>::empty()) == 0);
        assert(digits_value(p) == d);
        assert(decimal(d) =~= p);
        if d == 0 {
            assert(digit_char(0) == '0');
        }
    } else {
        assert forall|i: int| 0 <= i < front.len() implies digit(front[i]) by {
            assert(front[i] == p[i]);
        }
        assert(front[0] == p[0]);
        lemma_digits_are_decimal(front);
        let v = digits_value(front);
        assert(digits_value(p) == v * 10 + d);
        assert((v * 10 + d) / 10 == v && (v * 10 + d) % 10 == d);
        assert(decimal(digits_value(p)) =~= front.push(c));
        assert(front.push(c) =~= p);
    }
}

/// A text without a colon is taken for an address exactly where it is how one of the
/// addresses of 32 bits is written.
pub proof fn law_valid_ipv4_is_written_so(s: Seq<char>)
    requires
        !s.contains(':'),
    ensures
        valid_ip(s) <==> exists|v: u32| s == #[trigger] dotted(v as nat),
{
    if valid_ip(s) {
        let parts = pieces(s, '.');
        law_pieces_join_again(s, '.');
        assert(valid_octet(parts[0]) && valid_octet(parts[1]) && valid_octet(parts[2])
            && valid_octet(parts[3]));
        lemma_digits_are_decimal(parts[0]);
        lemma_digits_are_decimal(parts[1]);
        lemma_digits_are_decimal(parts[2]);
        lemma_digits_are_decimal(parts[3]);
        let a = digits_value(parts[0]);
        let b = digits_value(parts[1]);
        let c = digits_value(parts[2]);
        let d = digits_value(parts[3]);
        let v = (a * 0x100_0000 + b * 0x1_0000 + c * 0x100 + d) as u32;
        lemma_four_bytes(a, b, c, d);
        let three = parts.drop_last();
        let two = three.drop_last();
        let one = two.drop_last();
        assert(one.len() == 1 && one[0] == parts[0]);
        assert(two.last() == parts[1] && three.last() == parts[2] && parts.last() == parts[3]);
        assert(joined(one, '.') == parts[0]);
        assert(joined(two, '.') == parts[0] + seq!['.'] + parts[1]);
        assert(joined(three, '.') == parts[0] + seq!['.'] + parts[1] + seq!['.'] + parts[2]);
        assert(s =~= dotted(v as nat));
    }
    if exists|v: u32| s == #[trigger] dotted(v as nat) {
        let v = choose|v: u32| s == #[trigger] dotted(v as nat);
        law_ipv4_reads_back(v);
    }
}

/// A text with a colon is taken for an address exactly where it has two characters or more
/// and each is a colon or a digit of base sixteen.
pub proof fn law_valid_ipv6_is_hex_and_colons(s: Seq<char>)
    requires
        s.contains(':'),
    ensures
        valid_ip(s) <==> s.len() >= 2 && forall|i: int|
            0 <= i < s.len() ==> s[i] == ':' || '0' as u32 <= #[trigger] s[i] as u32 <= '9' as u32
                || 'a' as u32 <= s[i] as u32 <= 'f' as u32 || 'A' as u32 <= s[i] as u32 <= 'F'
                as u32,
{
}

/// The addresses that have no place on the public internet: 0/8, 10/8, 127/8, 169.254/16,
/// 172.16/12 and 192.168/16, and no others.
pub proof fn law_private_blocks(v: u32)
    ensures
        private_ipv4(dotted(v as nat)) <==> (v <= 0x00ff_ffff || 0x0a00_0000 <= v <= 0x0aff_ffff
            || 0x7f00_0000 <= v <= 0x7fff_ffff || 0xa9fe_0000 <= v <= 0xa9fe_ffff || 0xac10_0000
            <= v <= 0xac1f_ffff || 0xc0a8_0000 <= v <= 0xc0a8_ffff),
{
    law_private_by_number(v);
}

/// An address is written as its four bytes in base ten, the highest first.
pub proof fn law_dotted_is_four_bytes(a: u8, b: u8, c: u8, d: u8)
    ensures
        dotted((a * 0x100_0000 + b * 0x1_0000 + c * 0x100 + d) as nat) == decimal(a as nat)
            + seq!['.'] + decimal(b as nat) + seq!['.'] + decimal(c as nat) + seq!['.'] + decimal(
            d as nat,
        ),
{
    lemma_four_bytes(a as nat, b as nat, c as nat, d as nat);
}

/// The four bytes of a number are told apart by division.
proof fn lemma_four_bytes(a: nat, b: nat, c: nat, d: nat)
    requires
        a <= 255,
        b <= 255,
        c <= 255,
        d <= 255,
    ensures
        ({
            let v = a * 0x100_0000 + b * 0x1_0000 + c * 0x100 + d;
            v <= u32::MAX && v / 0x100_0000 == a && v / 0x1_0000 % 0x100 == b && v / 0x100 % 0x100
                == c && v % 0x100 == d
        }),
{
    let v = a * 0x100_0000 + b * 0x1_0000 + c * 0x100 + d;
    let low = b * 0x1_0000 + c * 0x100 + d;
    assert(low < 0x100_0000);
    assert(v / 0x100_0000 == a);
    assert(c * 0x100 + d < 0x1_0000);
    assert(v / 0x1_0000 == a * 0x100 + b);
    assert(v / 0x100 == a * 0x1_0000 + b * 0x100 + c);
    assert((a * 0x100 + b) % 0x100 == b);
    assert((a * 0x1_0000 + b * 0x100 + c) % 0x100 == c);
}

/// A text is no address in numbers where it has not four parts, or where one of them is
/// empty, has more than three characters or one that is no digit, or is above 255.
pub proof fn law_bad_parts_make_no_address(s: Seq<char>, i: int)
    requires
        pieces(s, '.').len() != 4 || (0 <= i < 4 && (pieces(s, '.')[i].len() == 0 || pieces(
            s,
            '.',
        )[i].len() > 3 || !all_digits(pieces(s, '.')[i]) || digits_value(pieces(s, '.')[i])
            > 255)),
    ensures
        ipv4_number(s) is None,
{
}

} // verus!
