//! Texts as sequences of characters, and the searches that the rules of
//! the engine make in them.

use vstd::prelude::*;
use vstd::string::*;

verus! {

/// The views of a sequence of texts.
pub open spec fn texts(items: Seq<String>) -> Seq<Seq<char>> {
    items.map_values(|item: String| item@)
}

/// The view of an optional text.
pub open spec fn optional_text(text: Option<String>) -> Option<Seq<char>> {
    match text {
        Some(t) => Some(t@),
        None => None,
    }
}

/// The text `head` followed by `rest`.
pub fn prefixed(head: &str, rest: &str) -> (out: String)
    ensures
        out@ == head@ + rest@,
{
    let mut text = String::from_str(head);
    text.append(rest);
    text
}

/// The text `head`, `first`, `middle` and `second` in a row.
pub fn compose(head: &str, first: &str, middle: &str, second: &str) -> (out: String)
    ensures
        out@ == head@ + first@ + middle@ + second@,
{
    let mut text = String::from_str(head);
    text.append(first);
    text.append(middle);
    text.append(second);
    text
}

/// A copy of an optional text.
pub fn copy_of(text: &Option<String>) -> (out: Option<String>)
    ensures
        optional_text(out) == optional_text(*text),
{
    match text {
        Some(text) => Some(text.clone()),
        None => None,
    }
}

/// A copy of a list of texts.
pub fn copies_of(items: &Vec<String>) -> (out: Vec<String>)
    ensures
        texts(out@) == texts(items@),
{
    let mut out: Vec<String> = Vec::new();
    let mut i: usize = 0;
    while i < items.len()
        invariant
            i <= items.len(),
            texts(out@) == texts(items@).take(i as int),
        decreases items.len() - i,
    {
        let ghost before = texts(out@);
        out.push(items[i].clone());
        proof {
            assert(texts(out@) =~= before.push(items@[i as int]@));
            assert(texts(items@).take(i + 1) =~= texts(items@).take(i as int).push(
                items@[i as int]@,
            ));
        }
        i += 1;
    }
    proof {
        assert(texts(items@).take(i as int) =~= texts(items@));
    }
    out
}

/// Tells whether `item` is among `items`.
pub fn is_among(items: &Vec<String>, item: &String) -> (out: bool)
    ensures
        out == texts(items@).contains(item@),
{
    let mut i: usize = items.len();
    while i > 0
        invariant
            i <= items.len(),
            forall|j: int| i <= j < items.len() ==> texts(items@)[j] != item@,
        decreases i,
    {
        i -= 1;
        if items[i] == *item {
            assert(texts(items@)[i as int] == item@);
            return true;
        }
    }
    false
}

/// The characters of `text`, in order.
pub fn characters(text: &str) -> (out: Vec<char>)
    ensures
        out@ == text@,
{
    let mut out: Vec<char> = Vec::new();
    for c in iter: text.chars()
        invariant
            out@ == iter.seq().take(iter.index@),
    {
        out.push(c);
    }
    out
}

/// Whether `needle` stands in `text` at position `at`.
pub open spec fn occurs_at(text: Seq<char>, needle: Seq<char>, at: int) -> bool {
    0 <= at && at + needle.len() <= text.len() && text.subrange(at, at + needle.len())
        == needle
}

/// Whether `text` begins with `prefix`.
pub open spec fn begins_with(text: Seq<char>, prefix: Seq<char>) -> bool {
    occurs_at(text, prefix, 0)
}

/// Whether `needle` stands somewhere in `text`.
pub open spec fn includes(text: Seq<char>, needle: Seq<char>) -> bool {
    exists|at: int| occurs_at(text, needle, at)
}

/// Tells whether `needle` stands in `text` at position `at`.
pub fn found_at(text: &Vec<char>, needle: &Vec<char>, at: usize) -> (out: bool)
    ensures
        out == occurs_at(text@, needle@, at as int),
{
    if needle.len() > text.len() || at > text.len() - needle.len() {
        return false;
    }
    let mut i: usize = 0;
    while i < needle.len()
        invariant
            i <= needle.len(),
            at + needle.len() <= text.len(),
            forall|j: int| 0 <= j < i ==> text@[at + j] == needle@[j],
        decreases needle.len() - i,
    {
        if text[at + i] != needle[i] {
            assert(text@.subrange(at as int, at + needle.len())[i as int] != needle@[i as int]);
            return false;
        }
        i += 1;
    }
    assert(text@.subrange(at as int, at + needle.len()) =~= needle@);
    true
}

/// Finds the first place at or after `from` where `needle` stands in
/// `text`.
pub fn find(text: &Vec<char>, needle: &Vec<char>, from: usize) -> (out: Option<usize>)
    ensures
        match out {
            Some(at) => from <= at && occurs_at(text@, needle@, at as int) && forall|j: int|
                from <= j < at ==> !occurs_at(text@, needle@, j),
            None => forall|j: int| from <= j ==> !occurs_at(text@, needle@, j),
        },
{
    if from > text.len() {
        return None;
    }
    let mut i: usize = from;
    while i < text.len()
        invariant
            from <= i <= text.len(),
            forall|j: int| from <= j < i ==> !occurs_at(text@, needle@, j),
        decreases text.len() - i,
    {
        if found_at(text, needle, i) {
            return Some(i);
        }
        i += 1;
    }
    if found_at(text, needle, i) {
        Some(i)
    } else {
        None
    }
}

/// Whether `at` is the first place at or after `from` where `needle`
/// stands in `text`.
pub open spec fn is_first(text: Seq<char>, needle: Seq<char>, from: int, at: int) -> bool {
    from <= at && occurs_at(text, needle, at) && forall|j: int|
        from <= j < at ==> !occurs_at(text, needle, j)
}

/// The first place at or after `from` where `needle` stands in `text`.
pub open spec fn first_occurrence(text: Seq<char>, needle: Seq<char>, from: int) -> Option<int> {
    if exists|at: int| is_first(text, needle, from, at) {
        Some(choose|at: int| is_first(text, needle, from, at))
    } else {
        None
    }
}

/// Finds the first place at or after `from` where `needle` stands in
/// `text`.
pub fn first_place(text: &Vec<char>, needle: &Vec<char>, from: usize) -> (out: Option<usize>)
    ensures
        out is Some == first_occurrence(text@, needle@, from as int) is Some,
        out is Some ==> out->0 == first_occurrence(text@, needle@, from as int)->0,
{
    let out = find(text, needle, from);
    proof {
        match out {
            Some(at) => {
                assert(is_first(text@, needle@, from as int, at as int));
                let chosen = choose|at: int| is_first(text@, needle@, from as int, at);
                assert(chosen == at);
            },
            None => {},
        }
    }
    out
}

/// The piece of `text` between the first and the second `separator`, or
/// after the first where there is no second; none where there is no
/// first.
pub open spec fn second_piece(text: Seq<char>, separator: Seq<char>) -> Option<Seq<char>> {
    match first_occurrence(text, separator, 0) {
        None => None,
        Some(first) => {
            let start = first + separator.len();
            match first_occurrence(text, separator, start) {
                Some(second) => Some(text.subrange(start, second)),
                None => Some(text.skip(start)),
            }
        },
    }
}

/// Tells whether `text` begins with `prefix`.
pub fn starts_with(text: &str, prefix: &str) -> (out: bool)
    ensures
        out == begins_with(text@, prefix@),
{
    found_at(&characters(text), &characters(prefix), 0)
}

/// Tells whether `needle` stands somewhere in `text`.
pub fn contains(text: &str, needle: &str) -> (out: bool)
    ensures
        out == includes(text@, needle@),
{
    find(&characters(text), &characters(needle), 0).is_some()
}

/// The order of texts: character by character, by code point, a prefix
/// before what it is a prefix of.
pub open spec fn precedes(left: Seq<char>, right: Seq<char>) -> bool
    decreases left.len(),
{
    if left.len() == 0 {
        true
    } else if right.len() == 0 {
        false
    } else if left[0] != right[0] {
        (left[0] as u32) < (right[0] as u32)
    } else {
        precedes(left.drop_first(), right.drop_first())
    }
}

/// Whether `items` stand in order.
pub open spec fn ordered(items: Seq<Seq<char>>) -> bool {
    forall|i: int, j: int| 0 <= i <= j < items.len() ==> precedes(items[i], items[j])
}

/// `items` with every run of equal texts reduced to its first.
pub open spec fn squeezed(items: Seq<Seq<char>>) -> Seq<Seq<char>>
    decreases items.len(),
{
    if items.len() == 0 {
        Seq::empty()
    } else {
        let before = squeezed(items.drop_last());
        if before.len() > 0 && before.last() == items.last() {
            before
        } else {
            before.push(items.last())
        }
    }
}

/// Reduces every run of equal texts in `items` to its first.
pub fn squeeze(items: &Vec<String>) -> (out: Vec<String>)
    ensures
        texts(out@) == squeezed(texts(items@)),
{
    let ghost all = texts(items@);
    let mut out: Vec<String> = Vec::new();
    let mut i: usize = 0;
    proof {
        assert(all.take(0) =~= Seq::<Seq<char>>::empty());
        assert(texts(out@) =~= Seq::<Seq<char>>::empty());
    }
    while i < items.len()
        invariant
            i <= items.len(),
            all == texts(items@),
            texts(out@) == squeezed(all.take(i as int)),
        decreases items.len() - i,
    {
        proof {
            assert(all.take(i + 1).drop_last() =~= all.take(i as int));
            assert(all.take(i + 1).last() == items@[i as int]@);
        }
        let repeated = out.len() > 0 && out[out.len() - 1] == items[i];
        proof {
            if out.len() > 0 {
                assert(texts(out@).last() == out@[out.len() - 1]@);
            }
        }
        if !repeated {
            let ghost before = texts(out@);
            out.push(items[i].clone());
            proof {
                assert(texts(out@) =~= before.push(items@[i as int]@));
            }
        }
        i += 1;
    }
    proof {
        assert(all.take(i as int) =~= all);
    }
    out
}

/// An order holds strictly in `items` when each item precedes the ones
/// after it and differs from them.
pub open spec fn strictly_ordered(items: Seq<Seq<char>>) -> bool {
    forall|i: int, j: int|
        0 <= i < j < items.len() ==> precedes(items[i], items[j]) && items[i] != items[j]
}

proof fn lemma_precedes_both_ways(left: Seq<char>, right: Seq<char>)
    requires
        precedes(left, right),
        precedes(right, left),
    ensures
        left == right,
    decreases left.len(),
{
    if left.len() == 0 {
        assert(right.len() == 0);
        assert(left =~= right);
    } else {
        assert(left[0] == right[0]);
        lemma_precedes_both_ways(left.drop_first(), right.drop_first());
        assert(left =~= seq![left[0]] + left.drop_first());
        assert(right =~= seq![right[0]] + right.drop_first());
    }
}

proof fn lemma_squeezed_keeps_members(items: Seq<Seq<char>>)
    ensures
        forall|item: Seq<char>| #[trigger] squeezed(items).contains(item) <==> items.contains(item),
        items.len() > 0 ==> squeezed(items).len() > 0 && squeezed(items).last() == items.last(),
    decreases items.len(),
{
    if items.len() > 0 {
        let front = items.drop_last();
        let before = squeezed(front);
        let after = squeezed(items);
        lemma_squeezed_keeps_members(front);
        assert forall|item: Seq<char>| #[trigger] after.contains(item) <==> items.contains(
            item,
        ) by {
            if after.contains(item) {
                let k = choose|k: int| 0 <= k < after.len() && after[k] == item;
                if k < before.len() {
                    assert(before[k] == item);
                    assert(before.contains(item));
                    assert(front.contains(item));
                    let m = choose|m: int| 0 <= m < front.len() && front[m] == item;
                    assert(items[m] == item);
                } else {
                    assert(items[items.len() - 1] == item);
                }
            }
            if items.contains(item) {
                let m = choose|m: int| 0 <= m < items.len() && items[m] == item;
                if m < front.len() {
                    assert(front[m] == item);
                    assert(front.contains(item));
                    assert(before.contains(item));
                    let k = choose|k: int| 0 <= k < before.len() && before[k] == item;
                    assert(after[k] == item);
                } else {
                    assert(after[after.len() - 1] == item);
                }
            }
        }
    }
}

/// Squeezing texts that stand in order leaves them in strict order, with
/// the same members.
pub proof fn lemma_squeezed_is_strict(items: Seq<Seq<char>>)
    requires
        ordered(items),
    ensures
        strictly_ordered(squeezed(items)),
        forall|item: Seq<char>| #[trigger] squeezed(items).contains(item) <==> items.contains(item),
    decreases items.len(),
{
    lemma_squeezed_keeps_members(items);
    if items.len() > 0 {
        let front = items.drop_last();
        let before = squeezed(front);
        let after = squeezed(items);
        assert(ordered(front)) by {
            assert forall|i: int, j: int| 0 <= i <= j < front.len() implies precedes(
                front[i],
                front[j],
            ) by {
                assert(front[i] == items[i] && front[j] == items[j]);
            }
        }
        lemma_squeezed_is_strict(front);
        lemma_squeezed_keeps_members(front);
        let last = items.last();
        assert forall|i: int, j: int| 0 <= i < j < after.len() implies precedes(
            after[i],
            after[j],
        ) && after[i] != after[j] by {
            if j < before.len() {
                assert(after[i] == before[i] && after[j] == before[j]);
            } else {
                assert(after[j] == last);
                assert(after[i] == before[i]);
                assert(before.contains(before[i]));
                assert(front.contains(before[i]));
                let m = choose|m: int| 0 <= m < front.len() && front[m] == before[i];
                assert(items[m] == before[i]);
                assert(precedes(items[m], items[items.len() - 1]));
                if before[i] == last {
                    // What stands between two equal items is equal to them, so that the
                    // last item would not have been taken up again.
                    assert(precedes(items[m], items[front.len() - 1]));
                    assert(precedes(items[front.len() - 1], items[items.len() - 1]));
                    lemma_precedes_both_ways(items[front.len() - 1], last);
                    assert(before.last() == last);
                }
            }
        }
    }
}

} // verus!
