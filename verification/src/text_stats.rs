//! The statistics of a text.
use crate::body::{opt_bytes, read_json_body, tool_body};
use crate::json::{
    JsonView, documents, field, json_contents, object, of_list, of_text, of_unsigned,
    text_field_or_empty, text_or_empty, with,
};
use crate::reply::{Reply, ReplyView, err_res, error_reply, json_res, success};
use crate::text::{
    alphanumeric, chars_of, ideograph, is_alphanumeric, is_ideograph, is_white_space, lowered,
    texts, to_lower, white_space,
};
use vstd::prelude::*;

verus! {

// ---------------------------------------------------------------------------
// Counting characters and lines
// ---------------------------------------------------------------------------
/// How many characters of a text are in a class.
pub open spec fn count_of(s: Seq<char>, class: spec_fn(char) -> bool) -> nat
    decreases s.len(),
{
    if s.len() == 0 {
        0
    } else {
        count_of(s.drop_last(), class) + if class(s.last()) {
            1nat
        } else {
            0
        }
    }
}

/// How many characters of a text are no white space.
pub open spec fn solid_chars(s: Seq<char>) -> nat {
    count_of(s, |c: char| !white_space(c))
}

/// How many characters of a text are CJK ideographs.
pub open spec fn ideographs(s: Seq<char>) -> nat {
    count_of(s, |c: char| ideograph(c))
}

/// How many lines a text has, and at least one. A line feed ends a line, so the
/// last line counts only where something stands on it.
pub open spec fn line_count(s: Seq<char>) -> nat {
    let ended = count_of(s, |c: char| c == '\n');
    let all = if s.len() > 0 && s.last() != '\n' {
        ended + 1
    } else {
        ended
    };
    if all < 1 {
        1
    } else {
        all
    }
}

// ---------------------------------------------------------------------------
// Words
// ---------------------------------------------------------------------------
/// The words of a text: its longest runs of ASCII letters and digits, in order.
pub open spec fn words(s: Seq<char>) -> Seq<Seq<char>>
    decreases s.len(),
{
    if s.len() == 0 {
        Seq::empty()
    } else {
        let before = words(s.drop_last());
        if !alphanumeric(s.last()) {
            before
        } else if s.len() == 1 || !alphanumeric(s[s.len() - 2]) {
            before.push(seq![s.last()])
        } else {
            before.drop_last().push(before.last().push(s.last()))
        }
    }
}

/// The words that are ranked: those of three characters or more, in small letters.
pub open spec fn ranked_words(list: Seq<Seq<char>>) -> Seq<Seq<char>>
    decreases list.len(),
{
    if list.len() == 0 {
        Seq::empty()
    } else if list.last().len() > 2 {
        ranked_words(list.drop_last()).push(lowered(list.last()))
    } else {
        ranked_words(list.drop_last())
    }
}

/// How often a word occurs in a list.
pub open spec fn occurrences(list: Seq<Seq<char>>, word: Seq<char>) -> nat
    decreases list.len(),
{
    if list.len() == 0 {
        0
    } else {
        occurrences(list.drop_last(), word) + if list.last() == word {
            1nat
        } else {
            0
        }
    }
}

/// A text comes before another in the order of dictionaries.
pub open spec fn text_before(a: Seq<char>, b: Seq<char>) -> bool
    decreases b.len(),
{
    if b.len() == 0 {
        false
    } else if a.len() == 0 {
        true
    } else if a[0] != b[0] {
        (a[0] as u32) < (b[0] as u32)
    } else {
        text_before(a.skip(1), b.skip(1))
    }
}

/// A counted word ranks before another: it is more frequent, or as frequent and
/// before it in the order of dictionaries.
pub open spec fn ranks_before(a: (Seq<char>, nat), b: (Seq<char>, nat)) -> bool {
    a.1 > b.1 || (a.1 == b.1 && text_before(a.0, b.0))
}

/// The ranking of the words of a list: the ten that rank first, or all where there
/// are fewer, each with the number of times that it occurs.
pub open spec fn is_ranking(list: Seq<Seq<char>>, top: Seq<(Seq<char>, nat)>) -> bool {
    &&& top.len() <= 10
    &&& forall|i: int|
        0 <= i < top.len() ==> (#[trigger] top[i]).1 == occurrences(list, top[i].0) && top[i].1 > 0
    &&& forall|i: int, j: int|
        0 <= i < j < top.len() ==> ranks_before(#[trigger] top[i], #[trigger] top[j])
    &&& forall|word: Seq<char>|
        #![trigger occurrences(list, word)]
        occurrences(list, word) > 0 && !top.contains((word, occurrences(list, word))) ==> top.len()
            == 10 && forall|i: int|
            0 <= i < 10 ==> ranks_before(#[trigger] top[i], (word, occurrences(list, word)))
}

/// The ranking of the words of a list.
pub open spec fn ranking(list: Seq<Seq<char>>) -> Seq<(Seq<char>, nat)> {
    choose|top: Seq<(Seq<char>, nat)>| is_ranking(list, top)
}

/// How many minutes a text takes to read, at 400 ideographs or words a minute, and
/// at least one.
pub open spec fn read_minutes(s: Seq<char>) -> nat {
    let m = (ideographs(s) + words(s).len()) / 400;
    if m < 1 {
        1
    } else {
        m
    }
}

// ---------------------------------------------------------------------------
// The order of words
// ---------------------------------------------------------------------------
/// No text comes before itself.
proof fn lemma_before_irreflexive(a: Seq<char>)
    ensures
        !text_before(a, a),
    decreases a.len(),
{
    if a.len() > 0 {
        lemma_before_irreflexive(a.skip(1));
    }
}

/// What comes before a text comes before all that come after it.
proof fn lemma_before_transitive(a: Seq<char>, b: Seq<char>, c: Seq<char>)
    requires
        text_before(a, b),
        text_before(b, c),
    ensures
        text_before(a, c),
    decreases c.len(),
{
    if a.len() > 0 && a[0] == b[0] && b[0] == c[0] {
        lemma_before_transitive(a.skip(1), b.skip(1), c.skip(1));
    }
}

/// Of two different texts one comes before the other.
proof fn lemma_before_total(a: Seq<char>, b: Seq<char>)
    requires
        a != b,
    ensures
        text_before(a, b) || text_before(b, a),
    decreases b.len(),
{
    if a.len() > 0 && b.len() > 0 && a[0] == b[0] {
        if a.skip(1) == b.skip(1) {
            assert(a =~= seq![a[0]] + a.skip(1));
            assert(b =~= seq![b[0]] + b.skip(1));
        } else {
            lemma_before_total(a.skip(1), b.skip(1));
        }
    } else if a.len() == 0 && b.len() == 0 {
        assert(a =~= b);
    } else if a.len() > 0 && b.len() > 0 {
        vstd::utf8::char_u32_cast(a[0], a[0] as u32);
        vstd::utf8::char_u32_cast(b[0], b[0] as u32);
    }
}

/// Ranking is a strict order.
proof fn lemma_rank_transitive(a: (Seq<char>, nat), b: (Seq<char>, nat), c: (Seq<char>, nat))
    requires
        ranks_before(a, b),
        ranks_before(b, c),
    ensures
        ranks_before(a, c),
{
    if a.1 == b.1 && b.1 == c.1 {
        lemma_before_transitive(a.0, b.0, c.0);
    }
}

/// Nothing ranks before itself, nor do two rank before each other.
proof fn lemma_rank_asymmetric(a: (Seq<char>, nat), b: (Seq<char>, nat))
    requires
        ranks_before(a, b),
    ensures
        !ranks_before(b, a),
        a != b,
{
    if a.1 == b.1 {
        if text_before(b.0, a.0) {
            lemma_before_transitive(a.0, b.0, a.0);
        }
        lemma_before_irreflexive(a.0);
    }
}

/// Of two different words one ranks before the other.
proof fn lemma_rank_total(a: (Seq<char>, nat), b: (Seq<char>, nat))
    requires
        a.0 != b.0,
    ensures
        ranks_before(a, b) || ranks_before(b, a),
{
    lemma_before_total(a.0, b.0);
}

/// Tells whether a text comes before another in the order of dictionaries.
fn is_before(a: &str, b: &str) -> (r: bool)
    ensures
        r == text_before(a@, b@),
{
    let x = chars_of(a);
    let y = chars_of(b);
    let mut i: usize = 0;
    assert(a@.skip(0) =~= a@);
    assert(b@.skip(0) =~= b@);
    while i < x.len() && i < y.len() && x[i] == y[i]
        invariant
            i <= x@.len(),
            i <= y@.len(),
            x@ == a@,
            y@ == b@,
            text_before(a@, b@) == text_before(a@.skip(i as int), b@.skip(i as int)),
        decreases x@.len() - i,
    {
        assert(a@.skip(i as int).skip(1) =~= a@.skip(i + 1));
        assert(b@.skip(i as int).skip(1) =~= b@.skip(i + 1));
        assert(a@.skip(i as int)[0] == a@[i as int]);
        assert(b@.skip(i as int)[0] == b@[i as int]);
        i += 1;
    }
    assert(i < a@.len() ==> a@.skip(i as int)[0] == a@[i as int]);
    assert(i < b@.len() ==> b@.skip(i as int)[0] == b@[i as int]);
    if i >= y.len() {
        false
    } else if i >= x.len() {
        true
    } else {
        (x[i] as u32) < (y[i] as u32)
    }
}

// ---------------------------------------------------------------------------
// Finding and counting words
// ---------------------------------------------------------------------------
/// What each counted word of a list says.
pub open spec fn counts(list: Seq<(String, usize)>) -> Seq<(Seq<char>, nat)> {
    list.map_values(|e: (String, usize)| (e.0@, e.1 as nat))
}

/// There are no more words than characters, and the words and the ideographs
/// together are no more than the characters either. The last word is the run of
/// letters and digits at the end.
proof fn lemma_words(s: Seq<char>)
    ensures
        words(s).len() + ideographs(s) <= s.len(),
        s.len() > 0 && alphanumeric(s.last()) ==> words(s).len() > 0,
    decreases s.len(),
{
    if s.len() > 0 {
        lemma_words(s.drop_last());
        if s.len() > 1 {
            assert(s.drop_last().last() == s[s.len() - 2]);
        }
    }
}

/// Finds the words of a text.
fn find_words(s: &str) -> (r: Vec<String>)
    ensures
        texts(r@) == words(s@),
{
    let chars = chars_of(s);
    let mut out: Vec<String> = Vec::new();
    let mut word = String::new();
    let mut i: usize = 0;
    assert(texts(out@) =~= words(s@.take(0)));
    while i < chars.len()
        invariant
            i <= chars@.len(),
            chars@ == s@,
            word@.len() > 0 <==> i > 0 && alphanumeric(s@[i - 1]),
            word@.len() == 0 ==> texts(out@) == words(s@.take(i as int)),
            word@.len() > 0 ==> texts(out@).push(word@) == words(s@.take(i as int)),
        decreases chars@.len() - i,
    {
        let ghost before = s@.take(i as int);
        let ghost longer = s@.take(i + 1);
        let ghost found = texts(out@);
        assert(longer.drop_last() =~= before);
        assert(longer.last() == s@[i as int]);
        if i > 0 {
            assert(longer[longer.len() - 2] == s@[i - 1]);
        }
        if is_alphanumeric(chars[i]) {
            let ghost start = word@;
            word.push(chars[i]);
            proof {
                if start.len() > 0 {
                    assert(found.push(start).drop_last() =~= found);
                    assert(texts(out@).push(word@) =~= words(longer));
                } else {
                    assert(word@ =~= seq![s@[i as int]]);
                }
            }
        } else if !word.as_str().is_empty() {
            let ghost whole = out@;
            out.push(word);
            assert(texts(out@) =~= texts(whole).push(word@));
            word = String::new();
        }
        i += 1;
    }
    assert(s@.take(i as int) =~= s@);
    if !word.as_str().is_empty() {
        let ghost whole = out@;
        out.push(word);
        assert(texts(out@) =~= texts(whole).push(word@));
    }
    out
}

/// Writes a word in small letters.
fn lowered_word(word: &str) -> (r: String)
    ensures
        r@ == lowered(word@),
{
    let chars = chars_of(word);
    let mut out = String::new();
    let mut i: usize = 0;
    assert(out@ =~= lowered(word@.take(0)));
    while i < chars.len()
        invariant
            i <= chars@.len(),
            chars@ == word@,
            out@ == lowered(word@.take(i as int)),
        decreases chars@.len() - i,
    {
        out.push(to_lower(chars[i]));
        i += 1;
        assert(out@ =~= lowered(word@.take(i as int)));
    }
    assert(word@.take(i as int) =~= word@);
    out
}

/// A word occurs in a list no more often than the list is long.
proof fn lemma_occurrences(list: Seq<Seq<char>>, word: Seq<char>)
    ensures
        occurrences(list, word) <= list.len(),
    decreases list.len(),
{
    if list.len() > 0 {
        lemma_occurrences(list.drop_last(), word);
    }
}

/// A tally of the words of a list: each word that occurs, once, with the number of
/// times that it occurs.
spec fn is_tally(list: Seq<Seq<char>>, tally: Seq<(Seq<char>, nat)>) -> bool {
    &&& forall|i: int|
        0 <= i < tally.len() ==> (#[trigger] tally[i]).1 == occurrences(list, tally[i].0)
            && tally[i].1 > 0
    &&& forall|i: int, j: int|
        0 <= i < j < tally.len() ==> (#[trigger] tally[i]).0 != (#[trigger] tally[j]).0
    &&& forall|word: Seq<char>|
        #![trigger occurrences(list, word)]
        occurrences(list, word) > 0 ==> tally.contains((word, occurrences(list, word)))
}

/// Counting one more word of a list changes its tally in one place, or appends the
/// word.
proof fn lemma_tally_step(
    list: Seq<Seq<char>>,
    word: Seq<char>,
    tally: Seq<(Seq<char>, nat)>,
    next: Seq<(Seq<char>, nat)>,
    at: int,
)
    requires
        is_tally(list, tally),
        0 <= at <= tally.len(),
        at < tally.len() ==> tally[at].0 == word && next == tally.update(at, (word, tally[at].1 + 1)),
        at == tally.len() ==> next == tally.push((word, 1)) && forall|i: int|
            0 <= i < tally.len() ==> (#[trigger] tally[i]).0 != word,
    ensures
        is_tally(list.push(word), next),
{
    let more = list.push(word);
    assert(more.drop_last() =~= list);
    assert forall|w: Seq<char>| #[trigger] occurrences(more, w) == occurrences(list, w) + (if w
        == word {
        1nat
    } else {
        0
    }) by {}
    if at == tally.len() {
        if occurrences(list, word) > 0 {
            let k = choose|k: int|
                0 <= k < tally.len() && tally[k] == (word, occurrences(list, word));
            assert(tally[k].0 != word);
        }
    }
    assert forall|i: int| 0 <= i < next.len() implies (#[trigger] next[i]).1 == occurrences(
        more,
        next[i].0,
    ) && next[i].1 > 0 by {
        if i < tally.len() {
            assert(tally[i].1 == occurrences(list, tally[i].0));
            if i != at && at < tally.len() {
                assert(tally[i].0 != tally[at].0);
            }
        }
    }
    assert forall|i: int, j: int| 0 <= i < j < next.len() implies (#[trigger] next[i]).0 != (
    #[trigger] next[j]).0 by {
        if j < tally.len() {
            assert(tally[i].0 != tally[j].0);
        }
    }
    assert forall|w: Seq<char>|
        #![trigger occurrences(more, w)]
        occurrences(more, w) > 0 implies next.contains((w, occurrences(more, w))) by {
        if w == word {
            assert(next[at] == (w, occurrences(more, w)));
        } else {
            let k = choose|k: int| 0 <= k < tally.len() && tally[k] == (w, occurrences(list, w));
            assert(next[k] == tally[k]);
        }
    }
}

/// Tallies the words that are ranked.
fn tally_words(found: &Vec<String>) -> (r: Vec<(String, usize)>)
    ensures
        is_tally(ranked_words(texts(found@)), counts(r@)),
{
    let ghost all = texts(found@);
    let mut tally: Vec<(String, usize)> = Vec::new();
    let mut i: usize = 0;
    while i < found.len()
        invariant
            i <= found@.len(),
            all == texts(found@),
            ranked_words(all.take(i as int)).len() <= i,
            is_tally(ranked_words(all.take(i as int)), counts(tally@)),
        decreases found@.len() - i,
    {
        let ghost list = ranked_words(all.take(i as int));
        let ghost before = counts(tally@);
        assert(all.take(i + 1).drop_last() =~= all.take(i as int));
        assert(all.take(i + 1).last() == found@[i as int]@);
        if found[i].as_str().unicode_len() > 2 {
            let word = lowered_word(found[i].as_str());
            let mut k: usize = 0;
            while k < tally.len() && *tally[k].0.as_str() != *word.as_str()
                invariant
                    k <= tally@.len(),
                    before == counts(tally@),
                    forall|j: int| 0 <= j < k ==> (#[trigger] before[j]).0 != word@,
                decreases tally@.len() - k,
            {
                assert(before[k as int].0 == tally@[k as int].0@);
                k += 1;
            }
            if k < tally.len() {
                assert(before[k as int] == (tally@[k as int].0@, tally@[k as int].1 as nat));
                proof {
                    lemma_occurrences(list, word@);
                }
                let n: usize = tally[k].1 + 1;
                tally.set(k, (word, n));
                assert(counts(tally@) =~= before.update(k as int, (word@, before[k as int].1 + 1)));
                proof {
                    lemma_tally_step(list, word@, before, counts(tally@), k as int);
                }
            } else {
                tally.push((word, 1));
                assert(counts(tally@) =~= before.push((word@, 1)));
                proof {
                    lemma_tally_step(list, word@, before, counts(tally@), before.len() as int);
                }
            }
        }
        i += 1;
    }
    assert(all.take(i as int) =~= all);
    tally
}

// ---------------------------------------------------------------------------
// Ranking words
// ---------------------------------------------------------------------------
/// Counted words in the order of their rank.
spec fn in_order(list: Seq<(Seq<char>, nat)>) -> bool {
    forall|i: int, j: int|
        0 <= i < j < list.len() ==> ranks_before(#[trigger] list[i], #[trigger] list[j])
}

/// Putting a word in its place keeps the order, and adds that word alone.
proof fn lemma_insert_in_order(
    list: Seq<(Seq<char>, nat)>,
    at: int,
    entry: (Seq<char>, nat),
)
    requires
        in_order(list),
        0 <= at <= list.len(),
        forall|i: int| 0 <= i < at ==> ranks_before(#[trigger] list[i], entry),
        at < list.len() ==> ranks_before(entry, list[at]),
    ensures
        in_order(list.insert(at, entry)),
        forall|e: (Seq<char>, nat)| #[trigger]
            list.insert(at, entry).contains(e) <==> list.contains(e) || e == entry,
{
    let next = list.insert(at, entry);
    assert forall|i: int, j: int| 0 <= i < j < next.len() implies ranks_before(
        #[trigger] next[i],
        #[trigger] next[j],
    ) by {
        let a = if i < at {
            i
        } else {
            i - 1
        };
        let b = if j < at {
            j
        } else {
            j - 1
        };
        if i == at {
            if b > at {
                assert(ranks_before(list[at], list[b]));
                lemma_rank_transitive(entry, list[at], list[b]);
            }
        } else if j == at {
            assert(ranks_before(list[i], entry));
        } else {
            assert(ranks_before(list[a], list[b]));
        }
    }
    assert forall|e: (Seq<char>, nat)| #[trigger] next.contains(e) <==> list.contains(e) || e
        == entry by {
        if next.contains(e) {
            let k = choose|k: int| 0 <= k < next.len() && next[k] == e;
            if k < at {
                assert(list[k] == e);
            } else if k > at {
                assert(list[k - 1] == e);
            }
        }
        if list.contains(e) {
            let k = choose|k: int| 0 <= k < list.len() && list[k] == e;
            if k < at {
                assert(next[k] == e);
            } else {
                assert(next[k + 1] == e);
            }
        }
        assert(next[at] == entry);
    }
}

/// The first ten of a tally in the order of rank are the ranking.
proof fn lemma_ranking(list: Seq<Seq<char>>, tally: Seq<(Seq<char>, nat)>, sorted: Seq<(Seq<char>, nat)>)
    requires
        is_tally(list, tally),
        in_order(sorted),
        forall|e: (Seq<char>, nat)| #[trigger] sorted.contains(e) <==> tally.contains(e),
    ensures
        is_ranking(
            list,
            if sorted.len() <= 10 {
                sorted
            } else {
                sorted.take(10)
            },
        ),
{
    let top = if sorted.len() <= 10 {
        sorted
    } else {
        sorted.take(10)
    };
    assert forall|i: int| 0 <= i < top.len() implies (#[trigger] top[i]).1 == occurrences(
        list,
        top[i].0,
    ) && top[i].1 > 0 by {
        assert(sorted[i] == top[i]);
        assert(sorted.contains(sorted[i]));
        let k = choose|k: int| 0 <= k < tally.len() && tally[k] == top[i];
        assert(tally[k].1 == occurrences(list, tally[k].0));
    }
    assert forall|i: int, j: int| 0 <= i < j < top.len() implies ranks_before(
        #[trigger] top[i],
        #[trigger] top[j],
    ) by {
        assert(ranks_before(sorted[i], sorted[j]));
    }
    assert forall|word: Seq<char>|
        #![trigger occurrences(list, word)]
        occurrences(list, word) > 0 && !top.contains(
            (word, occurrences(list, word)),
        ) implies top.len() == 10 && forall|i: int|
        0 <= i < 10 ==> ranks_before(#[trigger] top[i], (word, occurrences(list, word))) by {
        let e = (word, occurrences(list, word));
        assert(tally.contains(e));
        assert(sorted.contains(e));
        let k = choose|k: int| 0 <= k < sorted.len() && sorted[k] == e;
        if k < top.len() {
            assert(top[k] == e);
        }
        assert forall|i: int| 0 <= i < 10 implies ranks_before(#[trigger] top[i], e) by {
            assert(ranks_before(sorted[i], sorted[k]));
        }
    }
}

/// A list of words has one ranking only.
pub proof fn law_ranking_is_unique(
    list: Seq<Seq<char>>,
    a: Seq<(Seq<char>, nat)>,
    b: Seq<(Seq<char>, nat)>,
)
    requires
        is_ranking(list, a),
        is_ranking(list, b),
    ensures
        a == b,
{
    let n = if a.len() < b.len() {
        a.len()
    } else {
        b.len()
    };
    lemma_same_front(list, a, b, n as int);
    lemma_no_longer(list, a, b);
    lemma_no_longer(list, b, a);
    assert(a =~= b);
}

/// Two rankings of a list begin alike.
proof fn lemma_same_front(
    list: Seq<Seq<char>>,
    a: Seq<(Seq<char>, nat)>,
    b: Seq<(Seq<char>, nat)>,
    n: int,
)
    requires
        is_ranking(list, a),
        is_ranking(list, b),
        0 <= n <= a.len(),
        n <= b.len(),
    ensures
        forall|i: int| 0 <= i < n ==> a[i] == b[i],
    decreases n,
{
    if n > 0 {
        let k = n - 1;
        lemma_same_front(list, a, b, k);
        if a[k] != b[k] {
            lemma_entry_not_behind(list, a, b, k);
            lemma_entry_not_behind(list, b, a, k);
            lemma_rank_asymmetric(a[k], b[k]);
        }
    }
}

/// Where two rankings begin alike and then differ, the next of the first ranks
/// before the next of the second.
proof fn lemma_entry_not_behind(
    list: Seq<Seq<char>>,
    a: Seq<(Seq<char>, nat)>,
    b: Seq<(Seq<char>, nat)>,
    k: int,
)
    requires
        is_ranking(list, a),
        is_ranking(list, b),
        0 <= k < a.len(),
        k < b.len(),
        forall|i: int| 0 <= i < k ==> a[i] == b[i],
        a[k] != b[k],
    ensures
        ranks_before(a[k], b[k]),
{
    let e = b[k];
    assert(e.1 == occurrences(list, e.0) && e.1 > 0);
    if a.contains(e) {
        let m = choose|m: int| 0 <= m < a.len() && a[m] == e;
        if m < k {
            assert(b[m] == e);
            assert(ranks_before(b[m], b[k]));
            lemma_rank_asymmetric(b[m], b[k]);
        } else {
            assert(ranks_before(a[k], a[m]));
        }
    } else {
        assert(ranks_before(a[k], (e.0, occurrences(list, e.0))));
    }
}

/// Of two rankings that begin alike neither is longer.
proof fn lemma_no_longer(
    list: Seq<Seq<char>>,
    a: Seq<(Seq<char>, nat)>,
    b: Seq<(Seq<char>, nat)>,
)
    requires
        is_ranking(list, a),
        is_ranking(list, b),
        forall|i: int| 0 <= i < a.len() && i < b.len() ==> a[i] == b[i],
    ensures
        b.len() <= a.len(),
{
    if a.len() < b.len() {
        let k = a.len() as int;
        let e = b[k];
        assert(e.1 == occurrences(list, e.0) && e.1 > 0);
        if a.contains(e) {
            let m = choose|m: int| 0 <= m < a.len() && a[m] == e;
            assert(b[m] == e);
            assert(ranks_before(b[m], b[k]));
            lemma_rank_asymmetric(b[m], b[k]);
        }
    }
}

/// Tells whether a counted word ranks before another.
fn outranks(a: &(String, usize), b: &(String, usize)) -> (r: bool)
    ensures
        r == ranks_before((a.0@, a.1 as nat), (b.0@, b.1 as nat)),
{
    a.1 > b.1 || (a.1 == b.1 && is_before(a.0.as_str(), b.0.as_str()))
}

/// Ranks the words of a text.
fn rank(found: &Vec<String>) -> (r: Vec<(String, usize)>)
    ensures
        counts(r@) == ranking(ranked_words(texts(found@))),
        is_ranking(ranked_words(texts(found@)), counts(r@)),
{
    let ghost list = ranked_words(texts(found@));
    let tally = tally_words(found);
    let ghost entries = counts(tally@);
    let mut sorted: Vec<(String, usize)> = Vec::new();
    let mut i: usize = 0;
    while i < tally.len()
        invariant
            i <= tally@.len(),
            entries == counts(tally@),
            is_tally(list, entries),
            in_order(counts(sorted@)),
            forall|e: (Seq<char>, nat)| #[trigger]
                counts(sorted@).contains(e) <==> entries.take(i as int).contains(e),
        decreases tally@.len() - i,
    {
        let ghost before = counts(sorted@);
        let ghost entry = entries[i as int];
        assert(entry == (tally@[i as int].0@, tally@[i as int].1 as nat));
        let mut k: usize = 0;
        while k < sorted.len() && !outranks(&tally[i], &sorted[k])
            invariant
                i < tally@.len(),
                k <= sorted@.len(),
                before == counts(sorted@),
                entries == counts(tally@),
                entry == entries[i as int],
                is_tally(list, entries),
                forall|e: (Seq<char>, nat)| #[trigger]
                    before.contains(e) <==> entries.take(i as int).contains(e),
                forall|j: int| 0 <= j < k ==> ranks_before(#[trigger] before[j], entry),
            decreases sorted@.len() - k,
        {
            assert(before[k as int] == (sorted@[k as int].0@, sorted@[k as int].1 as nat));
            proof {
                assert(before.contains(before[k as int]));
                let m = choose|m: int|
                    0 <= m < entries.take(i as int).len() && entries.take(i as int)[m]
                        == before[k as int];
                assert(entries[m] == before[k as int]);
                assert(entries[m].0 != entries[i as int].0);
                lemma_rank_total(before[k as int], entry);
            }
            k += 1;
        }
        proof {
            if k < sorted@.len() {
                assert(before[k as int] == (sorted@[k as int].0@, sorted@[k as int].1 as nat));
            }
            lemma_insert_in_order(before, k as int, entry);
        }
        sorted.insert(k, (tally[i].0.clone(), tally[i].1));
        assert(counts(sorted@) =~= before.insert(k as int, entry));
        assert forall|e: (Seq<char>, nat)| #[trigger]
            counts(sorted@).contains(e) <==> entries.take(i + 1).contains(e) by {
            let longer = entries.take(i + 1);
            let shorter = entries.take(i as int);
            assert(longer =~= shorter.push(entry));
            if shorter.contains(e) {
                let m = choose|m: int| 0 <= m < shorter.len() && shorter[m] == e;
                assert(longer[m] == e);
            }
            assert(longer[i as int] == entry);
            if longer.contains(e) {
                let m = choose|m: int| 0 <= m < longer.len() && longer[m] == e;
                if m < i {
                    assert(shorter[m] == e);
                }
            }
            assert(before.contains(e) <==> shorter.contains(e));
        }
        i += 1;
    }
    assert(entries.take(i as int) =~= entries);
    let ghost whole = counts(sorted@);
    proof {
        lemma_ranking(list, entries, whole);
    }
    sorted.truncate(10);
    proof {
        let top = if whole.len() <= 10 {
            whole
        } else {
            whole.take(10)
        };
        assert(counts(sorted@) =~= top);
        law_ranking_is_unique(list, top, ranking(list));
    }
    sorted
}

// ---------------------------------------------------------------------------
// The answer
// ---------------------------------------------------------------------------
/// The statistics of a text.
pub struct TextStats {
    pub chars: usize,
    pub chars_no_space: usize,
    pub cjk_chars: usize,
    pub words: usize,
    pub lines: usize,
    pub read_minutes: usize,
    pub top_words: Vec<(String, usize)>,
}

/// The statistics of a text.
pub struct TextStatsView {
    pub chars: nat,
    pub chars_no_space: nat,
    pub cjk_chars: nat,
    pub words: nat,
    pub lines: nat,
    pub read_minutes: nat,
    pub top_words: Seq<(Seq<char>, nat)>,
}

impl View for TextStats {
    type V = TextStatsView;

    open spec fn view(&self) -> TextStatsView {
        TextStatsView {
            chars: self.chars as nat,
            chars_no_space: self.chars_no_space as nat,
            cjk_chars: self.cjk_chars as nat,
            words: self.words as nat,
            lines: self.lines as nat,
            read_minutes: self.read_minutes as nat,
            top_words: counts(self.top_words@),
        }
    }
}

/// The statistics of a text.
pub open spec fn stats_of(s: Seq<char>) -> TextStatsView {
    TextStatsView {
        chars: s.len(),
        chars_no_space: solid_chars(s),
        cjk_chars: ideographs(s),
        words: words(s).len(),
        lines: line_count(s),
        read_minutes: read_minutes(s),
        top_words: ranking(ranked_words(words(s))),
    }
}

/// Computes the statistics of a text.
pub fn text_stats(text: &str) -> (r: TextStats)
    ensures
        r@ == stats_of(text@),
        is_ranking(ranked_words(words(text@)), r@.top_words),
{
    let chars = chars_of(text);
    let mut solid: usize = 0;
    let mut cjk: usize = 0;
    let mut ended: usize = 0;
    let mut i: usize = 0;
    let ghost line_end = |c: char| c == '\n';
    let ghost solid_class = |c: char| !white_space(c);
    let ghost cjk_class = |c: char| ideograph(c);
    while i < chars.len()
        invariant
            i <= chars@.len(),
            chars@ == text@,
            solid <= i,
            cjk <= i,
            ended <= i,
            line_end == (|c: char| c == '\n'),
            solid_class == (|c: char| !white_space(c)),
            cjk_class == (|c: char| ideograph(c)),
            solid == count_of(text@.take(i as int), solid_class),
            cjk == count_of(text@.take(i as int), cjk_class),
            ended == count_of(text@.take(i as int), line_end),
        decreases chars@.len() - i,
    {
        let c = chars[i];
        assert(text@.take(i + 1).drop_last() =~= text@.take(i as int));
        assert(text@.take(i + 1).last() == c);
        if !is_white_space(c) {
            solid += 1;
        }
        if is_ideograph(c) {
            cjk += 1;
        }
        if c == '\n' {
            ended += 1;
        }
        i += 1;
    }
    let n: usize = chars.len();
    assert(text@.take(i as int) =~= text@);
    proof {
        lemma_words(text@);
        if n > 0 && text@.last() != '\n' {
            assert(text@.drop_last().len() == n - 1);
            lemma_count_bound(text@.drop_last(), line_end);
        }
    }
    let mut lines: usize = ended;
    if n > 0 && chars[n - 1] != '\n' {
        lines = ended + 1;
    }
    if lines < 1 {
        lines = 1;
    }
    let found = find_words(text);
    let word_count: usize = found.len();
    assert(texts(found@).len() == found@.len());
    let mut minutes: usize = (cjk + word_count) / 400;
    if minutes < 1 {
        minutes = 1;
    }
    let top_words = rank(&found);
    TextStats {
        chars: n,
        chars_no_space: solid,
        cjk_chars: cjk,
        words: word_count,
        lines,
        read_minutes: minutes,
        top_words,
    }
}

/// No more characters are in a class than there are.
proof fn lemma_count_bound(s: Seq<char>, class: spec_fn(char) -> bool)
    ensures
        count_of(s, class) <= s.len(),
    decreases s.len(),
{
    if s.len() > 0 {
        lemma_count_bound(s.drop_last(), class);
    }
}

/// The document that gives a counted word.
pub open spec fn counted_json(entry: (Seq<char>, nat)) -> JsonView {
    JsonView::Object(
        map![
            "word"@ => JsonView::Str(entry.0),
            "count"@ => JsonView::Int(entry.1 as int),
        ],
    )
}

/// The document that gives the statistics of a text.
pub open spec fn stats_json(stats: TextStatsView) -> JsonView {
    JsonView::Object(
        map![
            "chars"@ => JsonView::Int(stats.chars as int),
            "chars_no_space"@ => JsonView::Int(stats.chars_no_space as int),
            "cjk_chars"@ => JsonView::Int(stats.cjk_chars as int),
            "words"@ => JsonView::Int(stats.words as int),
            "lines"@ => JsonView::Int(stats.lines as int),
            "read_minutes"@ => JsonView::Int(stats.read_minutes as int),
            "top_words"@ => JsonView::Array(
                stats.top_words.map_values(|e: (Seq<char>, nat)| counted_json(e)),
            ),
        ],
    )
}

/// Writes the statistics of a text as a document.
pub fn stats_document(stats: &TextStats) -> (r: serde_json::Value)
    ensures
        json_contents(r) == stats_json(stats@),
{
    let mut top: Vec<serde_json::Value> = Vec::new();
    let mut i: usize = 0;
    while i < stats.top_words.len()
        invariant
            i <= stats.top_words@.len(),
            documents(top@) == counts(stats.top_words@).take(i as int).map_values(
                |e: (Seq<char>, nat)| counted_json(e),
            ),
        decreases stats.top_words@.len() - i,
    {
        let entry = with(
            with(object(), "word", of_text(stats.top_words[i].0.as_str())),
            "count",
            of_unsigned(stats.top_words[i].1 as u64),
        );
        assert(json_contents(entry) == counted_json(counts(stats.top_words@)[i as int]));
        let ghost listed = top@;
        top.push(entry);
        assert(documents(top@) =~= documents(listed).push(json_contents(entry)));
        i += 1;
        assert(documents(top@) =~= counts(stats.top_words@).take(i as int).map_values(
            |e: (Seq<char>, nat)| counted_json(e),
        ));
    }
    assert(counts(stats.top_words@).take(i as int) =~= counts(stats.top_words@));
    with(
        with(
            with(
                with(
                    with(
                        with(
                            with(object(), "chars", of_unsigned(stats.chars as u64)),
                            "chars_no_space",
                            of_unsigned(stats.chars_no_space as u64),
                        ),
                        "cjk_chars",
                        of_unsigned(stats.cjk_chars as u64),
                    ),
                    "words",
                    of_unsigned(stats.words as u64),
                ),
                "lines",
                of_unsigned(stats.lines as u64),
            ),
            "read_minutes",
            of_unsigned(stats.read_minutes as u64),
        ),
        "top_words",
        of_list(top),
    )
}

/// The reply to a document that asks for the statistics of its member `text`.
pub open spec fn stats_reply(document: JsonView) -> ReplyView {
    let text = text_or_empty(document, "text"@);
    if text.len() == 0 {
        error_reply(400, "缺少 text 字段"@)
    } else {
        success(stats_json(stats_of(text)))
    }
}

/// Answers a document that asks for the statistics of a text.
pub fn answer_text_stats(document: &serde_json::Value) -> (r: Reply)
    ensures
        r@ == stats_reply(json_contents(*document)),
{
    let text = text_field_or_empty(document, "text");
    if text.as_str().is_empty() {
        return err_res(400, "缺少 text 字段");
    }
    let stats = text_stats(text.as_str());
    json_res(stats_document(&stats))
}

/// Answers a request for the statistics of a text.
pub fn handle_tool_text_stats(body: Option<&[u8]>) -> (r: Reply)
    ensures
        r@ == (match tool_body(opt_bytes(body)) {
            Ok(document) => stats_reply(document),
            Err(reply) => reply,
        }),
{
    match read_json_body(body) {
        Ok(document) => answer_text_stats(&document),
        Err(reply) => reply,
    }
}

// ---------------------------------------------------------------------------
// Laws
// ---------------------------------------------------------------------------
/// What is counted in two texts is counted in both together.
proof fn lemma_count_adds(a: Seq<char>, b: Seq<char>, class: spec_fn(char) -> bool)
    ensures
        count_of(a + b, class) == count_of(a, class) + count_of(b, class),
    decreases b.len(),
{
    if b.len() == 0 {
        assert(a + b =~= a);
    } else {
        lemma_count_adds(a, b.drop_last(), class);
        assert((a + b).drop_last() =~= a + b.drop_last());
        assert((a + b).last() == b.last());
    }
}

/// Characters are counted one by one: white space does not count among those without it, and
/// the ideographs are those from U+4E00 to U+9FA5.
pub proof fn law_characters_are_counted(s: Seq<char>, c: char)
    ensures
        stats_of(s).chars == s.len(),
        stats_of(s.push(c)).chars_no_space == stats_of(s).chars_no_space + (if white_space(c) {
            0nat
        } else {
            1
        }),
        stats_of(s.push(c)).cjk_chars == stats_of(s).cjk_chars + (if 0x4e00 <= c as u32 <= 0x9fa5 {
            1nat
        } else {
            0
        }),
        stats_of(Seq::empty()).chars_no_space == 0,
        stats_of(Seq::empty()).cjk_chars == 0,
{
    assert(s.push(c).drop_last() =~= s);
}

/// A text without a line feed is one line; a line feed ends a line, and what follows it, if
/// anything, is further lines.
pub proof fn law_lines_are_counted(line: Seq<char>, rest: Seq<char>)
    requires
        !line.contains('\n'),
    ensures
        stats_of(line).lines == 1,
        stats_of(line.push('\n')).lines == 1,
        rest.len() > 0 ==> stats_of(line.push('\n') + rest).lines == 1 + stats_of(rest).lines,
{
    let class = |c: char| c == '\n';
    lemma_no_line_feed(line);
    assert(line.push('\n').drop_last() =~= line);
    if rest.len() > 0 {
        lemma_count_adds(line.push('\n'), rest, class);
        assert((line.push('\n') + rest).last() == rest.last());
        if rest.last() == '\n' {
            assert(count_of(rest, class) >= 1);
        }
    }
    if line.len() > 0 {
        assert(line[line.len() - 1] != '\n');
    }
}

/// A text without a line feed has none to count.
proof fn lemma_no_line_feed(line: Seq<char>)
    requires
        !line.contains('\n'),
    ensures
        count_of(line, |c: char| c == '\n') == 0,
    decreases line.len(),
{
    if line.len() > 0 {
        let front = line.drop_last();
        assert forall|i: int| 0 <= i < front.len() implies front[i] != '\n' by {
            assert(front[i] == line[i]);
        }
        lemma_no_line_feed(front);
        assert(line[line.len() - 1] != '\n');
    }
}

/// The reading time is one minute for each 400 ideographs or words that are complete, and
/// one minute at least.
pub proof fn law_reading_time(s: Seq<char>)
    ensures
        ({
            let stats = stats_of(s);
            let units = stats.cjk_chars + stats.words;
            &&& stats.read_minutes >= 1
            &&& units < 400 ==> stats.read_minutes == 1
            &&& units >= 400 ==> 400 * stats.read_minutes <= units < 400 * (stats.read_minutes + 1)
        }),
{
}

/// A character that is neither a letter nor a digit parts the words before it from those
/// after it.
proof fn lemma_words_part(a: Seq<char>, c: char, b: Seq<char>)
    requires
        !alphanumeric(c),
    ensures
        words(a.push(c) + b) == words(a) + words(b),
    decreases b.len(),
{
    let s = a.push(c) + b;
    if b.len() == 0 {
        assert(s =~= a.push(c));
        assert(s.drop_last() =~= a);
        assert(words(a) + words(b) =~= words(a));
    } else {
        let front = b.drop_last();
        lemma_words_part(a, c, front);
        lemma_words(front);
        assert(s.drop_last() =~= a.push(c) + front);
        assert(s.last() == b.last());
        if alphanumeric(b.last()) {
            if b.len() == 1 {
                assert(s[s.len() - 2] == c);
                assert(words(front).len() == 0);
                assert(words(s) =~= words(a) + words(b));
            } else {
                assert(s[s.len() - 2] == b[b.len() - 2]);
                assert(front.last() == b[b.len() - 2]);
                if alphanumeric(front.last()) {
                    assert((words(a) + words(front)).drop_last() =~= words(a) + words(
                        front,
                    ).drop_last());
                    assert((words(a) + words(front)).last() == words(front).last());
                }
                assert(words(s) =~= words(a) + words(b));
            }
        }
    }
}

/// A text of letters and digits alone is one word.
proof fn lemma_one_word(w: Seq<char>)
    requires
        w.len() > 0,
        forall|i: int| 0 <= i < w.len() ==> alphanumeric(#[trigger] w[i]),
    ensures
        words(w) == seq![w],
    decreases w.len(),
{
    let front = w.drop_last();
    assert(alphanumeric(w[w.len() - 1]));
    if w.len() == 1 {
        assert(front =~= Seq::<char>::empty());
        assert(words(front).len() == 0);
        assert(seq![w.last()] =~= w);
        assert(words(w) =~= seq![w]);
    } else {
        assert forall|i: int| 0 <= i < front.len() implies alphanumeric(#[trigger] front[i]) by {
            assert(front[i] == w[i]);
        }
        lemma_one_word(front);
        assert(alphanumeric(w[w.len() - 2]));
        assert(words(w) =~= seq![front.push(w.last())]);
        assert(front.push(w.last()) =~= w);
    }
}

/// The words of a text are its runs of ASCII letters and digits: a text of these alone is one
/// word, and any other character parts words and is none.
pub proof fn law_words_are_runs(a: Seq<char>, c: char, b: Seq<char>, w: Seq<char>)
    requires
        !('0' as u32 <= c as u32 <= '9' as u32 || 'a' as u32 <= c as u32 <= 'z' as u32 || 'A' as u32
            <= c as u32 <= 'Z' as u32),
        w.len() > 0,
        forall|i: int|
            0 <= i < w.len() ==> '0' as u32 <= #[trigger] w[i] as u32 <= '9' as u32 || 'a' as u32
                <= w[i] as u32 <= 'z' as u32 || 'A' as u32 <= w[i] as u32 <= 'Z' as u32,
    ensures
        words(Seq::empty()).len() == 0,
        words(w) == seq![w],
        words(a.push(c) + b) == words(a) + words(b),
        stats_of(a).words == words(a).len(),
{
    lemma_words_part(a, c, b);
    assert forall|i: int| 0 <= i < w.len() implies alphanumeric(#[trigger] w[i]) by {}
    lemma_one_word(w);
}

/// Words of three characters or more are ranked, in small letters, and each occurrence
/// counts.
pub proof fn law_ranked_words(list: Seq<Seq<char>>, w: Seq<char>, other: Seq<char>)
    ensures
        ranked_words(Seq::empty()).len() == 0,
        w.len() >= 3 ==> ranked_words(list.push(w)) == ranked_words(list).push(lowered(w)),
        w.len() <= 2 ==> ranked_words(list.push(w)) == ranked_words(list),
        occurrences(Seq::empty(), w) == 0,
        occurrences(list.push(w), w) == occurrences(list, w) + 1,
        other != w ==> occurrences(list.push(w), other) == occurrences(list, other),
{
    assert(list.push(w).drop_last() =~= list);
}

/// Texts come in the order of the first character in which they differ, and a text comes
/// before those that go on behind it.
pub proof fn law_order_of_dictionaries(
    front: Seq<char>,
    x: char,
    y: char,
    a: Seq<char>,
    b: Seq<char>,
)
    ensures
        x as u32 != y as u32 ==> (text_before(front.push(x) + a, front.push(y) + b) <==> (x as u32)
            < (y as u32)),
        text_before(front, front.push(x) + a),
        !text_before(front.push(x) + a, front),
        !text_before(front, front),
    decreases front.len(),
{
    let left = front.push(x) + a;
    let right = front.push(y) + b;
    lemma_before_irreflexive(front);
    if front.len() > 0 {
        let rest = front.skip(1);
        law_order_of_dictionaries(rest, x, y, a, b);
        assert(left.skip(1) =~= rest.push(x) + a);
        assert(right.skip(1) =~= rest.push(y) + b);
        assert(left[0] == front[0] && right[0] == front[0]);
    } else {
        assert(left[0] == x && right[0] == y);
    }
}

/// The words of a list can be tallied.
proof fn lemma_tally_exists(list: Seq<Seq<char>>) -> (tally: Seq<(Seq<char>, nat)>)
    ensures
        is_tally(list, tally),
    decreases list.len(),
{
    if list.len() == 0 {
        Seq::empty()
    } else {
        let front = list.drop_last();
        let word = list.last();
        let tally = lemma_tally_exists(front);
        assert(front.push(word) =~= list);
        if exists|k: int| 0 <= k < tally.len() && (#[trigger] tally[k]).0 == word {
            let k = choose|k: int| 0 <= k < tally.len() && (#[trigger] tally[k]).0 == word;
            let next = tally.update(k, (word, tally[k].1 + 1));
            lemma_tally_step(front, word, tally, next, k);
            next
        } else {
            let next = tally.push((word, 1nat));
            lemma_tally_step(front, word, tally, next, tally.len() as int);
            next
        }
    }
}

/// A word has a place among others in the order of rank.
proof fn lemma_place_exists(sorted: Seq<(Seq<char>, nat)>, entry: (Seq<char>, nat), k: int) -> (at:
    int)
    requires
        0 <= k <= sorted.len(),
        forall|i: int| 0 <= i < sorted.len() ==> (#[trigger] sorted[i]).0 != entry.0,
        forall|i: int| 0 <= i < k ==> ranks_before(#[trigger] sorted[i], entry),
    ensures
        0 <= at <= sorted.len(),
        forall|i: int| 0 <= i < at ==> ranks_before(#[trigger] sorted[i], entry),
        at < sorted.len() ==> ranks_before(entry, sorted[at]),
    decreases sorted.len() - k,
{
    if k == sorted.len() || ranks_before(entry, sorted[k]) {
        k
    } else {
        lemma_rank_total(sorted[k], entry);
        lemma_place_exists(sorted, entry, k + 1)
    }
}

/// The first words of a tally can be put in the order of rank.
proof fn lemma_order_exists(list: Seq<Seq<char>>, tally: Seq<(Seq<char>, nat)>, n: int) -> (sorted:
    Seq<(Seq<char>, nat)>)
    requires
        is_tally(list, tally),
        0 <= n <= tally.len(),
    ensures
        in_order(sorted),
        forall|e: (Seq<char>, nat)| #[trigger] sorted.contains(e) <==> tally.take(n).contains(e),
    decreases n,
{
    if n == 0 {
        assert(tally.take(0) =~= Seq::empty());
        Seq::empty()
    } else {
        let before = lemma_order_exists(list, tally, n - 1);
        let entry = tally[n - 1];
        let shorter = tally.take(n - 1);
        let longer = tally.take(n);
        assert(longer =~= shorter.push(entry));
        assert forall|i: int| 0 <= i < before.len() implies (#[trigger] before[i]).0 != entry.0 by {
            assert(before.contains(before[i]));
            let m = choose|m: int| 0 <= m < shorter.len() && shorter[m] == before[i];
            assert(tally[m] == before[i]);
            assert(tally[m].0 != tally[n - 1].0);
        }
        let at = lemma_place_exists(before, entry, 0);
        lemma_insert_in_order(before, at, entry);
        let next = before.insert(at, entry);
        assert forall|e: (Seq<char>, nat)| #[trigger] next.contains(e) <==> longer.contains(e) by {
            assert(before.contains(e) <==> shorter.contains(e));
            assert(longer[n - 1] == entry);
            if shorter.contains(e) {
                let m = choose|m: int| 0 <= m < shorter.len() && shorter[m] == e;
                assert(longer[m] == e);
            }
            if longer.contains(e) {
                let m = choose|m: int| 0 <= m < longer.len() && longer[m] == e;
                if m < n - 1 {
                    assert(shorter[m] == e);
                }
            }
        }
        next
    }
}

/// The ranking of a text has ten words at most. Each stands with the number of times that it
/// occurs among the ranked words, a more frequent word stands before a less frequent one, and
/// words of one frequency stand in the order of dictionaries. A word is left out only where
/// ten words stand there that are as frequent or more.
pub proof fn law_top_words(s: Seq<char>)
    ensures
        ({
            let top = stats_of(s).top_words;
            let list = ranked_words(words(s));
            &&& top.len() <= 10
            &&& forall|i: int|
                0 <= i < top.len() ==> (#[trigger] top[i]).1 == occurrences(list, top[i].0)
                    && top[i].1 >= 1
            &&& forall|i: int, j: int|
                0 <= i < j < top.len() ==> (#[trigger] top[i]).1 > (#[trigger] top[j]).1 || (
                top[i].1 == top[j].1 && text_before(top[i].0, top[j].0))
            &&& forall|word: Seq<char>|
                #![trigger occurrences(list, word)]
                occurrences(list, word) >= 1 && (forall|i: int|
                    0 <= i < top.len() ==> (#[trigger] top[i]).0 != word) ==> top.len() == 10
                    && forall|i: int|
                    0 <= i < top.len() ==> (#[trigger] top[i]).1 >= occurrences(list, word)
        }),
{
    let list = ranked_words(words(s));
    let tally = lemma_tally_exists(list);
    let sorted = lemma_order_exists(list, tally, tally.len() as int);
    assert(tally.take(tally.len() as int) =~= tally);
    lemma_ranking(list, tally, sorted);
    let top = ranking(list);
    assert(is_ranking(list, top));
    assert forall|word: Seq<char>|
        #![trigger occurrences(list, word)]
        occurrences(list, word) >= 1 && (forall|i: int|
            0 <= i < top.len() ==> (#[trigger] top[i]).0 != word) implies top.len() == 10
        && forall|i: int|
        0 <= i < top.len() ==> (#[trigger] top[i]).1 >= occurrences(list, word) by {
        let e = (word, occurrences(list, word));
        if top.contains(e) {
            let k = choose|k: int| 0 <= k < top.len() && top[k] == e;
            assert(top[k].0 == word);
        }
    }
}

/// The members of the statistics are told apart by their names.
proof fn lemma_stats_keys()
    ensures
        "word"@.len() == 4,
        "chars"@.len() == 5 && "chars"@[2] == 'a',
        "words"@.len() == 5 && "words"@[2] == 'r',
        "lines"@.len() == 5 && "lines"@[2] == 'n',
        "count"@.len() == 5 && "count"@[2] == 'u',
        "cjk_chars"@.len() == 9 && "cjk_chars"@[0] == 'c',
        "top_words"@.len() == 9 && "top_words"@[0] == 't',
        "read_minutes"@.len() == 12,
        "chars_no_space"@.len() == 14,
{
    reveal_strlit("chars");
    reveal_strlit("chars_no_space");
    reveal_strlit("cjk_chars");
    reveal_strlit("words");
    reveal_strlit("lines");
    reveal_strlit("read_minutes");
    reveal_strlit("top_words");
    reveal_strlit("word");
    reveal_strlit("count");
}

/// Each member of the statistics says what its name says, and the ranking is listed in its
/// order.
pub proof fn law_statistics_say_what_they_name(stats: TextStatsView)
    ensures
        field(stats_json(stats), "chars"@) == Some(JsonView::Int(stats.chars as int)),
        field(stats_json(stats), "chars_no_space"@) == Some(
            JsonView::Int(stats.chars_no_space as int),
        ),
        field(stats_json(stats), "cjk_chars"@) == Some(JsonView::Int(stats.cjk_chars as int)),
        field(stats_json(stats), "words"@) == Some(JsonView::Int(stats.words as int)),
        field(stats_json(stats), "lines"@) == Some(JsonView::Int(stats.lines as int)),
        field(stats_json(stats), "read_minutes"@) == Some(
            JsonView::Int(stats.read_minutes as int),
        ),
        field(stats_json(stats), "top_words"@) matches Some(JsonView::Array(items)) && items.len()
            == stats.top_words.len() && forall|i: int|
            0 <= i < items.len() ==> field(#[trigger] items[i], "word"@) == Some(
                JsonView::Str(stats.top_words[i].0),
            ) && field(items[i], "count"@) == Some(JsonView::Int(stats.top_words[i].1 as int)),
{
    lemma_stats_keys();
}

/// A document without a text is refused with 400, and any other is answered with the
/// statistics of its text.
pub proof fn law_texts_are_answered(document: JsonView, text: Seq<char>)
    ensures
        field(document, "text"@) == Some(JsonView::Str(text)) && text.len() > 0 ==> stats_reply(
            document,
        ).status == 200 && stats_reply(document).json == stats_json(stats_of(text)),
        !(field(document, "text"@) matches Some(JsonView::Str(_))) || field(document, "text"@)
            == Some(JsonView::Str(Seq::empty())) ==> stats_reply(document) == error_reply(
            400,
            "缺少 text 字段"@,
        ),
{
}

} // verus!
