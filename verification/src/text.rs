//! Text as sequences of characters: searching, cutting, trimming, and the
//! reading and writing of numbers.
use vstd::prelude::*;

verus! {

/// `String::push` appends one character to the end of the string.
pub assume_specification[ String::push ](s: &mut String, c: char)
    ensures
        final(s)@ == old(s)@.push(c),
;

/// `==` on `str` holds exactly when both hold the same characters in the same order.
pub assume_specification[ <str as PartialEq>::eq ](a: &str, b: &str) -> (r: bool)
    ensures
        r == (a@ == b@),
;

/// What each string of a list holds.
pub open spec fn texts(list: Seq<String>) -> Seq<Seq<char>> {
    list.map_values(|t: String| t@)
}

// ---------------------------------------------------------------------------
// Classes of characters
// ---------------------------------------------------------------------------
/// The characters with the Unicode property `White_Space`.
pub open spec fn white_space(c: char) -> bool {
    let u = c as u32;
    ||| 0x09 <= u <= 0x0d
    ||| u == 0x20
    ||| u == 0x85
    ||| u == 0xa0
    ||| u == 0x1680
    ||| 0x2000 <= u <= 0x200a
    ||| u == 0x2028
    ||| u == 0x2029
    ||| u == 0x202f
    ||| u == 0x205f
    ||| u == 0x3000
}

/// The ASCII digits.
pub open spec fn digit(c: char) -> bool {
    0x30 <= c as u32 <= 0x39
}

/// The ASCII digits of base sixteen, in either case.
pub open spec fn hex_digit(c: char) -> bool {
    digit(c) || 0x41 <= c as u32 <= 0x46 || 0x61 <= c as u32 <= 0x66
}

/// The ASCII letters and digits.
pub open spec fn alphanumeric(c: char) -> bool {
    digit(c) || 0x41 <= c as u32 <= 0x5a || 0x61 <= c as u32 <= 0x7a
}

/// The common CJK ideographs, U+4E00 to U+9FA5.
pub open spec fn ideograph(c: char) -> bool {
    0x4e00 <= c as u32 <= 0x9fa5
}

/// Tells whether a character is white space.
pub fn is_white_space(c: char) -> (r: bool)
    ensures
        r == white_space(c),
{
    let u: u32 = c as u32;
    (0x09 <= u && u <= 0x0d) || u == 0x20 || u == 0x85 || u == 0xa0 || u == 0x1680 || (0x2000 <= u
        && u <= 0x200a) || u == 0x2028 || u == 0x2029 || u == 0x202f || u == 0x205f || u == 0x3000
}

/// Tells whether a character is an ASCII digit.
pub fn is_digit(c: char) -> (r: bool)
    ensures
        r == digit(c),
{
    let u: u32 = c as u32;
    0x30 <= u && u <= 0x39
}

/// Tells whether a character is a digit of base sixteen.
pub fn is_hex_digit(c: char) -> (r: bool)
    ensures
        r == hex_digit(c),
{
    let u: u32 = c as u32;
    is_digit(c) || (0x41 <= u && u <= 0x46) || (0x61 <= u && u <= 0x66)
}

/// Tells whether a character is an ASCII letter or digit.
pub fn is_alphanumeric(c: char) -> (r: bool)
    ensures
        r == alphanumeric(c),
{
    let u: u32 = c as u32;
    is_digit(c) || (0x41 <= u && u <= 0x5a) || (0x61 <= u && u <= 0x7a)
}

/// Tells whether a character is a common CJK ideograph.
pub fn is_ideograph(c: char) -> (r: bool)
    ensures
        r == ideograph(c),
{
    let u: u32 = c as u32;
    0x4e00 <= u && u <= 0x9fa5
}

/// An ASCII capital letter as its small letter; any other character as it is.
pub open spec fn lower(c: char) -> char {
    if 0x41 <= c as u32 <= 0x5a {
        (c as u32 + 32) as char
    } else {
        c
    }
}

/// Every ASCII capital letter of a text made small.
pub open spec fn lowered(s: Seq<char>) -> Seq<char> {
    s.map_values(|c: char| lower(c))
}

/// The small letter of an ASCII capital letter, or the character itself.
pub fn to_lower(c: char) -> (r: char)
    ensures
        r == lower(c),
{
    let u: u32 = c as u32;
    if 0x41 <= u && u <= 0x5a {
        let b: u8 = (u + 32) as u8;
        b as char
    } else {
        c
    }
}

// ---------------------------------------------------------------------------
// Characters of a text
// ---------------------------------------------------------------------------
/// The characters of a text, in order.
pub fn chars_of(s: &str) -> (r: Vec<char>)
    ensures
        r@ == s@,
{
    let mut out: Vec<char> = Vec::new();
    for c in it: s.chars()
        invariant
            out@ == it.seq().take(it.index()),
    {
        out.push(c);
    }
    out
}

/// Two texts, one after the other.
pub fn join(a: &str, b: &str) -> (r: String)
    ensures
        r@ == a@ + b@,
{
    let mut out = a.to_string();
    out.append(b);
    out
}

/// Three texts, one after the other.
pub fn around(before: &str, text: &str, after: &str) -> (r: String)
    ensures
        r@ == before@ + text@ + after@,
{
    let mut out = join(before, text);
    out.append(after);
    out
}

/// Tells whether a character occurs in a text.
pub fn contains_char(s: &str, c: char) -> (r: bool)
    ensures
        r == s@.contains(c),
{
    let chars = chars_of(s);
    let mut i: usize = 0;
    while i < chars.len()
        invariant
            i <= chars@.len(),
            chars@ == s@,
            forall|j: int| 0 <= j < i ==> s@[j] != c,
        decreases chars@.len() - i,
    {
        if chars[i] == c {
            assert(s@[i as int] == c);
            return true;
        }
        i += 1;
    }
    false
}

// ---------------------------------------------------------------------------
// Beginnings and ends
// ---------------------------------------------------------------------------
/// A text begins with another.
pub open spec fn begins(s: Seq<char>, prefix: Seq<char>) -> bool {
    prefix.len() <= s.len() && s.take(prefix.len() as int) == prefix
}

/// A text ends with another.
pub open spec fn ends(s: Seq<char>, suffix: Seq<char>) -> bool {
    suffix.len() <= s.len() && s.skip(s.len() - suffix.len()) == suffix
}

/// What is left of a text after a prefix, where it begins with that prefix.
pub open spec fn after(s: Seq<char>, prefix: Seq<char>) -> Option<Seq<char>> {
    if begins(s, prefix) {
        Some(s.skip(prefix.len() as int))
    } else {
        None
    }
}

/// What each optional text holds.
pub open spec fn opt_text(t: Option<&str>) -> Option<Seq<char>> {
    match t {
        Some(s) => Some(s@),
        None => None,
    }
}

/// What an optional string holds.
pub open spec fn opt_string(t: Option<String>) -> Option<Seq<char>> {
    match t {
        Some(s) => Some(s@),
        None => None,
    }
}

/// Tells whether a text begins with another.
pub fn starts_with(s: &str, prefix: &str) -> (r: bool)
    ensures
        r == begins(s@, prefix@),
{
    let n: usize = s.unicode_len();
    let k: usize = prefix.unicode_len();
    if k <= n {
        let head = s.substring_char(0, k);
        assert(s@.subrange(0, k as int) == s@.take(k as int));
        *head == *prefix
    } else {
        false
    }
}

/// Tells whether a text ends with another.
pub fn ends_with(s: &str, suffix: &str) -> (r: bool)
    ensures
        r == ends(s@, suffix@),
{
    let n: usize = s.unicode_len();
    let k: usize = suffix.unicode_len();
    if k <= n {
        let tail = s.substring_char(n - k, n);
        assert(s@.subrange(n - k, n as int) == s@.skip(n - k));
        *tail == *suffix
    } else {
        false
    }
}

/// The text after a prefix, where it begins with that prefix.
pub fn strip_prefix<'a>(s: &'a str, prefix: &str) -> (r: Option<&'a str>)
    ensures
        opt_text(r) == after(s@, prefix@),
{
    if starts_with(s, prefix) {
        let n: usize = s.unicode_len();
        let k: usize = prefix.unicode_len();
        let rest = s.substring_char(k, n);
        assert(s@.subrange(k as int, n as int) == s@.skip(k as int));
        Some(rest)
    } else {
        None
    }
}

/// A text without the copies of one character at its front.
pub open spec fn without_leading(s: Seq<char>, c: char) -> Seq<char>
    decreases s.len(),
{
    if s.len() > 0 && s[0] == c {
        without_leading(s.skip(1), c)
    } else {
        s
    }
}

/// Cuts off the copies of one character at the front of a text.
pub fn strip_leading(s: &str, c: char) -> (r: &str)
    ensures
        r@ == without_leading(s@, c),
{
    let chars = chars_of(s);
    let n: usize = chars.len();
    let mut i: usize = 0;
    assert(s@.skip(0) =~= s@);
    while i < n && chars[i] == c
        invariant
            i <= n,
            n == chars@.len(),
            chars@ == s@,
            without_leading(s@, c) == without_leading(s@.skip(i as int), c),
        decreases n - i,
    {
        assert(s@.skip(i as int).skip(1) =~= s@.skip(i + 1));
        assert(s@.skip(i as int)[0] == s@[i as int]);
        i += 1;
    }
    assert(i < n ==> s@.skip(i as int)[0] == s@[i as int]);
    assert(s@.subrange(i as int, n as int) == s@.skip(i as int));
    s.substring_char(i, n)
}

// ---------------------------------------------------------------------------
// Trimming
// ---------------------------------------------------------------------------
/// A text without the white space at its front.
pub open spec fn trimmed_start(s: Seq<char>) -> Seq<char>
    decreases s.len(),
{
    if s.len() > 0 && white_space(s[0]) {
        trimmed_start(s.skip(1))
    } else {
        s
    }
}

/// A text without the white space at its end.
pub open spec fn trimmed_end(s: Seq<char>) -> Seq<char>
    decreases s.len(),
{
    if s.len() > 0 && white_space(s.last()) {
        trimmed_end(s.drop_last())
    } else {
        s
    }
}

/// A text without the white space at either end.
pub open spec fn trimmed(s: Seq<char>) -> Seq<char> {
    trimmed_end(trimmed_start(s))
}

/// Cuts off the white space at both ends of a text.
pub fn trim(s: &str) -> (r: &str)
    ensures
        r@ == trimmed(s@),
{
    let chars = chars_of(s);
    let n: usize = chars.len();
    let mut i: usize = 0;
    assert(s@.skip(0) =~= s@);
    while i < n && is_white_space(chars[i])
        invariant
            i <= n,
            n == chars@.len(),
            chars@ == s@,
            trimmed_start(s@) == trimmed_start(s@.skip(i as int)),
        decreases n - i,
    {
        assert(s@.skip(i as int).skip(1) =~= s@.skip(i + 1));
        assert(s@.skip(i as int)[0] == s@[i as int]);
        i += 1;
    }
    assert(i < n ==> s@.skip(i as int)[0] == s@[i as int]);
    let ghost rest = s@.skip(i as int);
    assert(trimmed_start(s@) == rest);
    let mut k: usize = n;
    assert(rest.take(k - i) =~= rest);
    while i < k && is_white_space(chars[k - 1])
        invariant
            i <= k <= n,
            n == chars@.len(),
            chars@ == s@,
            rest == s@.skip(i as int),
            trimmed_end(rest) == trimmed_end(rest.take(k - i)),
        decreases k,
    {
        assert(rest.take(k - i).drop_last() =~= rest.take(k - 1 - i));
        assert(rest.take(k - i).last() == s@[k - 1]);
        k -= 1;
    }
    assert(i < k ==> rest.take(k - i).last() == s@[k - 1]);
    assert(s@.subrange(i as int, k as int) =~= rest.take(k - i));
    s.substring_char(i, k)
}

/// What is left when the front is trimmed does not begin with white space.
proof fn lemma_trimmed_start(s: Seq<char>)
    ensures
        trimmed_start(s).len() > 0 ==> !white_space(trimmed_start(s)[0]),
    decreases s.len(),
{
    if s.len() > 0 && white_space(s[0]) {
        lemma_trimmed_start(s.skip(1));
    }
}

/// What is left when the end is trimmed does not end in white space, and begins
/// as before.
proof fn lemma_trimmed_end(s: Seq<char>)
    ensures
        trimmed_end(s).len() <= s.len(),
        trimmed_end(s).len() > 0 ==> !white_space(trimmed_end(s).last()) && trimmed_end(s)[0]
            == s[0],
    decreases s.len(),
{
    if s.len() > 0 && white_space(s.last()) {
        lemma_trimmed_end(s.drop_last());
    }
}

/// A trimmed text has no white space at either end, so trimming it again changes
/// nothing.
pub proof fn law_trimming_is_done_once(s: Seq<char>)
    ensures
        trimmed(s).len() > 0 ==> !white_space(trimmed(s)[0]) && !white_space(trimmed(s).last()),
        trimmed(trimmed(s)) == trimmed(s),
{
    lemma_trimmed_start(s);
    lemma_trimmed_end(trimmed_start(s));
}

// ---------------------------------------------------------------------------
// Cutting at a separator
// ---------------------------------------------------------------------------
/// The pieces of a text between the copies of a separator. There is always one
/// piece more than there are separators.
pub open spec fn pieces(s: Seq<char>, sep: char) -> Seq<Seq<char>>
    decreases s.len(),
{
    if s.len() == 0 {
        seq![Seq::<char>::empty()]
    } else {
        let before = pieces(s.drop_last(), sep);
        if s.last() == sep {
            before.push(Seq::empty())
        } else {
            before.drop_last().push(before.last().push(s.last()))
        }
    }
}

/// Cuts a text at every copy of a separator.
pub fn split(s: &str, sep: char) -> (r: Vec<String>)
    ensures
        texts(r@) == pieces(s@, sep),
{
    let chars = chars_of(s);
    let mut out: Vec<String> = Vec::new();
    let mut piece = String::new();
    let mut i: usize = 0;
    assert(texts(out@).push(piece@) =~= pieces(s@.take(0), sep));
    while i < chars.len()
        invariant
            i <= chars@.len(),
            chars@ == s@,
            texts(out@).push(piece@) == pieces(s@.take(i as int), sep),
        decreases chars@.len() - i,
    {
        let ghost before = texts(out@).push(piece@);
        assert(s@.take(i + 1).drop_last() =~= s@.take(i as int));
        assert(before.drop_last() =~= texts(out@));
        if chars[i] == sep {
            let ghost whole = out@;
            out.push(piece);
            assert(texts(out@) =~= texts(whole).push(piece@));
            piece = String::new();
        } else {
            piece.push(chars[i]);
        }
        i += 1;
    }
    assert(s@.take(i as int) =~= s@);
    let ghost whole = out@;
    out.push(piece);
    assert(texts(out@) =~= texts(whole).push(piece@));
    out
}

/// The place of the first copy of a character, or the length where there is none.
pub open spec fn first_place(s: Seq<char>, c: char) -> int
    decreases s.len(),
{
    if s.len() == 0 || s[0] == c {
        0
    } else {
        1 + first_place(s.skip(1), c)
    }
}

/// The place of the first copy of a character is within the text or at its end.
pub proof fn lemma_first_place(s: Seq<char>, c: char)
    ensures
        0 <= first_place(s, c) <= s.len(),
        forall|j: int| 0 <= j < first_place(s, c) ==> s[j] != c,
        first_place(s, c) < s.len() ==> s[first_place(s, c)] == c,
        first_place(s, c) < s.len() <==> s.contains(c),
    decreases s.len(),
{
    if s.len() > 0 && s[0] != c {
        let rest = s.skip(1);
        lemma_first_place(rest, c);
        assert forall|j: int| 0 <= j < first_place(s, c) implies s[j] != c by {
            if j > 0 {
                assert(rest[j - 1] == s[j]);
            }
        }
        if first_place(s, c) < s.len() {
            assert(s[first_place(s, c)] == rest[first_place(rest, c)]);
        }
    }
    if first_place(s, c) < s.len() {
        assert(s.contains(c));
    } else if s.contains(c) {
        let k = choose|k: int| 0 <= k < s.len() && s[k] == c;
        assert(s[k] != c);
    }
}

/// Finds the first copy of a character; the length of the text where there is none.
pub fn find(s: &str, c: char) -> (r: usize)
    ensures
        r == first_place(s@, c),
        r <= s@.len(),
{
    let chars = chars_of(s);
    let mut i: usize = 0;
    assert(s@.skip(0) =~= s@);
    while i < chars.len() && chars[i] != c
        invariant
            i <= chars@.len(),
            chars@ == s@,
            first_place(s@, c) == i + first_place(s@.skip(i as int), c),
        decreases chars@.len() - i,
    {
        assert(s@.skip(i as int).skip(1) =~= s@.skip(i + 1));
        assert(s@.skip(i as int)[0] == s@[i as int]);
        i += 1;
    }
    assert(i < chars@.len() ==> s@.skip(i as int)[0] == s@[i as int]);
    i
}

/// The text before the first copy of a separator; the whole text where there is none.
pub open spec fn first_piece(s: Seq<char>, sep: char) -> Seq<char> {
    s.take(first_place(s, sep))
}

/// Cuts a text off at the first copy of a separator.
pub fn head(s: &str, sep: char) -> (r: &str)
    ensures
        r@ == first_piece(s@, sep),
{
    let k: usize = find(s, sep);
    assert(s@.subrange(0, k as int) == s@.take(k as int));
    s.substring_char(0, k)
}

/// The two sides of the first copy of a separator.
pub open spec fn sides(s: Seq<char>, sep: char) -> Option<(Seq<char>, Seq<char>)> {
    let k = first_place(s, sep);
    if k < s.len() {
        Some((s.take(k), s.skip(k + 1)))
    } else {
        None
    }
}

/// Cuts a text in two at the first copy of a separator.
pub fn split_once(s: &str, sep: char) -> (r: Option<(&str, &str)>)
    ensures
        match r {
            Some((a, b)) => sides(s@, sep) == Some((a@, b@)),
            None => sides(s@, sep) is None,
        },
{
    let k: usize = find(s, sep);
    let n: usize = s.unicode_len();
    if k < n {
        assert(s@.subrange(0, k as int) == s@.take(k as int));
        assert(s@.subrange(k + 1, n as int) == s@.skip(k + 1));
        Some((s.substring_char(0, k), s.substring_char(k + 1, n)))
    } else {
        None
    }
}

// ---------------------------------------------------------------------------
// Laws
// ---------------------------------------------------------------------------
/// The classes of characters: the ten digits, the digits of base sixteen, the letters and
/// digits of ASCII, and the ideographs from U+4E00 to U+9FA5.
pub proof fn law_classes_of_characters(c: char)
    ensures
        digit(c) <==> '0' as u32 <= c as u32 <= '9' as u32,
        hex_digit(c) <==> '0' as u32 <= c as u32 <= '9' as u32 || 'a' as u32 <= c as u32 <= 'f'
            as u32 || 'A' as u32 <= c as u32 <= 'F' as u32,
        alphanumeric(c) <==> '0' as u32 <= c as u32 <= '9' as u32 || 'a' as u32 <= c as u32 <= 'z'
            as u32 || 'A' as u32 <= c as u32 <= 'Z' as u32,
        ideograph(c) <==> '\u{4e00}' as u32 <= c as u32 <= '\u{9fa5}' as u32,
        white_space(c) ==> !alphanumeric(c) && !ideograph(c),
        white_space(' ') && white_space('\n') && white_space('\t') && white_space('\u{3000}'),
{
}

/// A text in small letters is as long as before; only its capital letters have changed, each
/// to the letter 32 places on.
pub proof fn law_small_letters(s: Seq<char>, i: int)
    requires
        0 <= i < s.len(),
    ensures
        lowered(s).len() == s.len(),
        'A' as u32 <= s[i] as u32 <= 'Z' as u32 ==> lowered(s)[i] as u32 == s[i] as u32 + 32,
        !('A' as u32 <= s[i] as u32 <= 'Z' as u32) ==> lowered(s)[i] == s[i],
{
}

/// A text begins with a prefix exactly where it is that prefix with something behind it,
/// which is then what is left.
pub proof fn law_prefix_and_rest(s: Seq<char>, prefix: Seq<char>, rest: Seq<char>)
    ensures
        begins(prefix + rest, prefix),
        after(prefix + rest, prefix) == Some(rest),
        after(s, prefix) matches Some(r) ==> s == prefix + r,
        begins(s, prefix) <==> after(s, prefix) is Some,
{
    assert((prefix + rest).take(prefix.len() as int) =~= prefix);
    assert((prefix + rest).skip(prefix.len() as int) =~= rest);
    if begins(s, prefix) {
        assert(s =~= s.take(prefix.len() as int) + s.skip(prefix.len() as int));
    }
}

/// A text ends with a suffix exactly where it is something with that suffix behind it.
pub proof fn law_front_and_suffix(s: Seq<char>, front: Seq<char>, suffix: Seq<char>)
    ensures
        ends(front + suffix, suffix),
        ends(s, suffix) ==> s == s.take(s.len() - suffix.len()) + suffix,
{
    let whole = front + suffix;
    assert(whole.skip(whole.len() - suffix.len()) =~= suffix);
    if ends(s, suffix) {
        let k = s.len() - suffix.len();
        assert(s =~= s.take(k) + s.skip(k));
    }
}

/// What is cut off at the front is copies of the character, and all of them.
pub proof fn law_leading_copies_are_cut(s: Seq<char>, c: char)
    ensures
        without_leading(s, c).len() <= s.len(),
        s.skip(s.len() - without_leading(s, c).len()) == without_leading(s, c),
        forall|i: int| 0 <= i < s.len() - without_leading(s, c).len() ==> s[i] == c,
        without_leading(s, c).len() > 0 ==> without_leading(s, c)[0] != c,
    decreases s.len(),
{
    if s.len() > 0 && s[0] == c {
        let rest = s.skip(1);
        law_leading_copies_are_cut(rest, c);
        let k = rest.len() - without_leading(rest, c).len();
        assert(s.skip(k + 1) =~= rest.skip(k));
        assert forall|i: int| 0 <= i < k + 1 implies s[i] == c by {
            if i > 0 {
                assert(rest[i - 1] == s[i]);
            }
        }
    } else {
        assert(s.skip(0) =~= s);
    }
}

/// What is cut off at the start is white space.
proof fn lemma_cut_at_start(s: Seq<char>)
    ensures
        trimmed_start(s).len() <= s.len(),
        trimmed_start(s) == s.skip(s.len() - trimmed_start(s).len()),
        forall|i: int| 0 <= i < s.len() - trimmed_start(s).len() ==> white_space(s[i]),
    decreases s.len(),
{
    if s.len() > 0 && white_space(s[0]) {
        let rest = s.skip(1);
        lemma_cut_at_start(rest);
        let k = rest.len() - trimmed_start(rest).len();
        assert(s.skip(k + 1) =~= rest.skip(k));
        assert forall|i: int| 0 <= i < k + 1 implies white_space(s[i]) by {
            if i > 0 {
                assert(rest[i - 1] == s[i]);
            }
        }
    } else {
        assert(s.skip(0) =~= s);
    }
}

/// What is cut off at the end is white space.
proof fn lemma_cut_at_end(s: Seq<char>)
    ensures
        trimmed_end(s).len() <= s.len(),
        trimmed_end(s) == s.take(trimmed_end(s).len() as int),
        forall|i: int| trimmed_end(s).len() <= i < s.len() ==> white_space(s[i]),
    decreases s.len(),
{
    if s.len() > 0 && white_space(s.last()) {
        let front = s.drop_last();
        lemma_cut_at_end(front);
        assert(s.take(trimmed_end(front).len() as int) =~= front.take(
            trimmed_end(front).len() as int,
        ));
        assert forall|i: int| trimmed_end(s).len() <= i < s.len() implies white_space(s[i]) by {
            if i < front.len() {
                assert(front[i] == s[i]);
            }
        }
    } else {
        assert(s.take(s.len() as int) =~= s);
    }
}

/// Trimming cuts a text out of its middle, and what it leaves out is white space.
pub proof fn law_only_white_space_is_trimmed(s: Seq<char>)
    ensures
        exists|from: int, to: int|
            0 <= from <= to <= s.len() && trimmed(s) == #[trigger] s.subrange(from, to) && (forall|
                i: int,
            |
                0 <= i < from || to <= i < s.len() ==> white_space(s[i])),
{
    lemma_cut_at_start(s);
    let t = trimmed_start(s);
    lemma_cut_at_end(t);
    let from = s.len() - t.len();
    let to = from + trimmed_end(t).len();
    assert(s.subrange(from, to) =~= trimmed(s));
    assert forall|i: int| 0 <= i < from || to <= i < s.len() implies white_space(s[i]) by {
        if to <= i {
            assert(t[i - from] == s[i]);
        }
    }
}

/// Some pieces, with a separator between each two.
pub open spec fn joined(list: Seq<Seq<char>>, sep: char) -> Seq<char>
    decreases list.len(),
{
    if list.len() == 0 {
        Seq::empty()
    } else if list.len() == 1 {
        list[0]
    } else {
        joined(list.drop_last(), sep) + seq![sep] + list.last()
    }
}

/// The pieces of a text have no separator in them, and make up the text when they are joined
/// again.
pub proof fn law_pieces_join_again(s: Seq<char>, sep: char)
    ensures
        pieces(s, sep).len() > 0,
        joined(pieces(s, sep), sep) == s,
        forall|i: int| 0 <= i < pieces(s, sep).len() ==> !(#[trigger] pieces(s, sep)[i]).contains(
            sep,
        ),
    decreases s.len(),
{
    if s.len() == 0 {
        assert(s =~= Seq::<char>::empty());
    } else {
        let front = s.drop_last();
        law_pieces_join_again(front, sep);
        let before = pieces(front, sep);
        let all = pieces(s, sep);
        if s.last() == sep {
            assert(all.drop_last() =~= before);
            assert(joined(all, sep) =~= front.push(sep));
            assert(front.push(sep) =~= s);
            assert(!all.last().contains(sep));
            assert forall|i: int| 0 <= i < all.len() implies !(#[trigger] all[i]).contains(sep) by {
                if i < before.len() {
                    assert(all[i] == before[i]);
                }
            }
        } else {
            let longer = before.last().push(s.last());
            assert(all.drop_last() =~= before.drop_last());
            assert(all.last() == longer);
            assert(joined(all, sep) =~= joined(before, sep).push(s.last()));
            assert(front.push(s.last()) =~= s);
            assert(!before[before.len() - 1].contains(sep));
            assert forall|k: int| 0 <= k < longer.len() implies longer[k] != sep by {
                if k < before.last().len() {
                    assert(before.last()[k] == longer[k]);
                }
            }
            assert forall|i: int| 0 <= i < all.len() implies !(#[trigger] all[i]).contains(sep) by {
                if i < before.len() - 1 {
                    assert(all[i] == before[i]);
                }
            }
        }
    }
}

/// A text is cut in two at the first separator: nothing before it is one, and the two sides
/// with it between them are the text. Without a separator there are no sides, and the first
/// piece is the whole text.
pub proof fn law_sides_make_the_text(s: Seq<char>, sep: char)
    ensures
        sides(s, sep) is Some <==> s.contains(sep),
        sides(s, sep) matches Some((a, b)) ==> s == a + seq![sep] + b && !a.contains(sep)
            && first_piece(s, sep) == a,
        !s.contains(sep) ==> first_piece(s, sep) == s,
{
    lemma_first_place(s, sep);
    let k = first_place(s, sep);
    if k < s.len() {
        assert(s =~= s.take(k) + seq![sep] + s.skip(k + 1));
        assert forall|j: int| 0 <= j < k implies s.take(k)[j] != sep by {
            assert(s.take(k)[j] == s[j]);
        }
    } else {
        assert(s.take(k) =~= s);
    }
}

} // verus!
