//! The UUID tool.
use crate::json::{JsonView, object, of_text, with};
use crate::number::{hex, hex_char, push_hex};
use crate::reply::{Reply, json_res, success};
use vstd::prelude::*;

verus! {

/// One of the sixteen bytes that four random numbers give, the lowest byte of each
/// number first.
pub open spec fn random_byte(draws: Seq<u32>, i: int) -> nat {
    let n = draws[i / 4] as nat;
    if i % 4 == 0 {
        n % 0x100
    } else if i % 4 == 1 {
        n / 0x100 % 0x100
    } else if i % 4 == 2 {
        n / 0x1_0000 % 0x100
    } else {
        n / 0x100_0000
    }
}

/// One of the sixteen bytes of a UUID: random, but for the four bits of byte 6 that
/// give the version, which is 4, and the two bits of byte 8 that give the variant.
pub open spec fn uuid_byte(draws: Seq<u32>, i: int) -> nat {
    if i == 6 {
        0x40 + random_byte(draws, 6) % 0x10
    } else if i == 8 {
        0x80 + random_byte(draws, 8) % 0x40
    } else {
        random_byte(draws, i)
    }
}

/// Some of the bytes of a UUID in base sixteen.
pub open spec fn group(draws: Seq<u32>, from: int, to: int) -> Seq<char>
    decreases to - from,
{
    if from >= to {
        Seq::empty()
    } else {
        group(draws, from, to - 1) + hex(uuid_byte(draws, to - 1), 2)
    }
}

/// A UUID: groups of four, two, two, two and six bytes, with hyphens between them.
pub open spec fn uuid_text(draws: Seq<u32>) -> Seq<char> {
    group(draws, 0, 4) + seq!['-'] + group(draws, 4, 6) + seq!['-'] + group(draws, 6, 8) + seq!['-']
        + group(draws, 8, 10) + seq!['-'] + group(draws, 10, 16)
}

/// Computes one of the bytes of a UUID.
fn byte(draws: &[u32; 4], i: usize) -> (r: u32)
    requires
        i < 16,
    ensures
        r == uuid_byte(draws@, i as int),
        r < 0x100,
{
    let n: u32 = draws[i / 4];
    let b: u32 = if i % 4 == 0 {
        n % 0x100
    } else if i % 4 == 1 {
        n / 0x100 % 0x100
    } else if i % 4 == 2 {
        n / 0x1_0000 % 0x100
    } else {
        n / 0x100_0000
    };
    if i == 6 {
        0x40 + b % 0x10
    } else if i == 8 {
        0x80 + b % 0x40
    } else {
        b
    }
}

/// Appends some of the bytes of a UUID to a text.
fn push_group(out: &mut String, draws: &[u32; 4], from: usize, to: usize)
    requires
        from <= to <= 16,
    ensures
        final(out)@ == old(out)@ + group(draws@, from as int, to as int),
{
    let mut i: usize = from;
    assert(out@ =~= old(out)@ + group(draws@, from as int, i as int));
    while i < to
        invariant
            from <= i <= to <= 16,
            out@ == old(out)@ + group(draws@, from as int, i as int),
        decreases to - i,
    {
        push_hex(out, byte(draws, i), 2);
        i += 1;
        assert(out@ =~= old(out)@ + group(draws@, from as int, i as int));
    }
}

/// Makes a UUID of version 4 from four random numbers.
pub fn uuid(draws: &[u32; 4]) -> (r: String)
    ensures
        r@ == uuid_text(draws@),
{
    let mut out = String::new();
    push_group(&mut out, draws, 0, 4);
    out.push('-');
    push_group(&mut out, draws, 4, 6);
    out.push('-');
    push_group(&mut out, draws, 6, 8);
    out.push('-');
    push_group(&mut out, draws, 8, 10);
    out.push('-');
    push_group(&mut out, draws, 10, 16);
    assert(out@ =~= uuid_text(draws@));
    out
}

/// Answers a request for a UUID, given four random numbers.
pub fn handle_tool_uuid(draws: &[u32; 4]) -> (r: Reply)
    ensures
        r@ == success(JsonView::Object(map!["uuid"@ => JsonView::Str(uuid_text(draws@))])),
{
    json_res(with(object(), "uuid", of_text(uuid(draws).as_str())))
}

/// A group has two digits for each byte, and ends in those of the last one.
proof fn lemma_group(draws: Seq<u32>, from: int, to: int)
    requires
        from <= to,
    ensures
        group(draws, from, to).len() == 2 * (to - from),
        forall|k: int|
            from <= k < to ==> #[trigger] group(draws, from, to)[2 * (k - from)] == hex_char(
                uuid_byte(draws, k) / 16 % 16,
            ),
    decreases to - from,
{
    if from < to {
        lemma_group(draws, from, to - 1);
        let last = hex(uuid_byte(draws, to - 1), 2);
        assert(last.len() == 2 && last[0] == hex_char(uuid_byte(draws, to - 1) / 16 % 16)) by {
            reveal_with_fuel(hex, 3);
        }
        assert forall|k: int| from <= k < to implies #[trigger] group(draws, from, to)[2 * (k
            - from)] == hex_char(uuid_byte(draws, k) / 16 % 16) by {
            if k < to - 1 {
                assert(group(draws, from, to)[2 * (k - from)] == group(draws, from, to - 1)[2 * (k
                    - from)]);
            }
        }
    }
}

/// A UUID has 36 characters, hyphens in the four usual places, the digit of version
/// 4, and one of the four digits of the variant, whatever numbers were drawn.
pub proof fn law_uuid_is_version_4(draws: Seq<u32>)
    requires
        draws.len() == 4,
    ensures
        uuid_text(draws).len() == 36,
        uuid_text(draws)[8] == '-',
        uuid_text(draws)[13] == '-',
        uuid_text(draws)[18] == '-',
        uuid_text(draws)[23] == '-',
        uuid_text(draws)[14] == '4',
        uuid_text(draws)[19] == '8' || uuid_text(draws)[19] == '9' || uuid_text(draws)[19] == 'a'
            || uuid_text(draws)[19] == 'b',
{
    lemma_group(draws, 0, 4);
    lemma_group(draws, 4, 6);
    lemma_group(draws, 6, 8);
    lemma_group(draws, 8, 10);
    lemma_group(draws, 10, 16);
    let s = uuid_text(draws);
    assert(s[14] == group(draws, 6, 8)[2 * (6 - 6)]);
    assert(s[19] == group(draws, 8, 10)[2 * (8 - 8)]);
    assert(uuid_byte(draws, 6) / 16 % 16 == 4);
    assert(hex_char(4) == '4' && hex_char(8) == '8' && hex_char(9) == '9' && hex_char(10) == 'a'
        && hex_char(11) == 'b');
}

/// Where a byte of a UUID stands among its characters: two digits for each byte, and a hyphen
/// after the bytes 3, 5, 7 and 9.
pub open spec fn place_of(i: int) -> int {
    2 * i + if i < 4 {
        0int
    } else if i < 6 {
        1
    } else if i < 8 {
        2
    } else if i < 10 {
        3
    } else {
        4
    }
}

/// The two digits of each byte of a group.
proof fn lemma_group_digits(draws: Seq<u32>, from: int, to: int, k: int)
    requires
        from <= k < to,
    ensures
        group(draws, from, to).len() == 2 * (to - from),
        group(draws, from, to).subrange(2 * (k - from), 2 * (k - from) + 2) == hex(
            uuid_byte(draws, k),
            2,
        ),
    decreases to - from,
{
    lemma_group(draws, from, to);
    let last = hex(uuid_byte(draws, to - 1), 2);
    assert(last.len() == 2) by {
        reveal_with_fuel(hex, 3);
    }
    if k < to - 1 {
        lemma_group_digits(draws, from, to - 1, k);
        assert(group(draws, from, to).subrange(2 * (k - from), 2 * (k - from) + 2) =~= group(
            draws,
            from,
            to - 1,
        ).subrange(2 * (k - from), 2 * (k - from) + 2));
    } else {
        lemma_group(draws, from, to - 1);
        assert(group(draws, from, to).subrange(2 * (k - from), 2 * (k - from) + 2) =~= last);
    }
}

/// Each byte of a UUID is a byte of the random numbers, in small digits of base sixteen: the
/// lowest byte of the first number first. Only the version and the variant are set.
pub proof fn law_uuid_is_random(draws: Seq<u32>, i: int)
    requires
        draws.len() == 4,
        0 <= i < 16,
    ensures
        ({
            let n = draws[i / 4] as nat;
            let shift = if i % 4 == 0 {
                1nat
            } else if i % 4 == 1 {
                0x100
            } else if i % 4 == 2 {
                0x1_0000
            } else {
                0x100_0000
            };
            let byte = n / shift % 0x100;
            uuid_text(draws).subrange(place_of(i), place_of(i) + 2) == hex(
                if i == 6 {
                    0x40 + byte % 0x10
                } else if i == 8 {
                    0x80 + byte % 0x40
                } else {
                    byte
                },
                2,
            )
        }),
{
    lemma_group(draws, 0, 4);
    lemma_group(draws, 4, 6);
    lemma_group(draws, 6, 8);
    lemma_group(draws, 8, 10);
    lemma_group(draws, 10, 16);
    let (from, to) = if i < 4 {
        (0, 4)
    } else if i < 6 {
        (4, 6)
    } else if i < 8 {
        (6, 8)
    } else if i < 10 {
        (8, 10)
    } else {
        (10, 16)
    };
    lemma_group_digits(draws, from, to, i);
    assert(uuid_text(draws).subrange(place_of(i), place_of(i) + 2) =~= group(
        draws,
        from,
        to,
    ).subrange(2 * (i - from), 2 * (i - from) + 2));
}

} // verus!
