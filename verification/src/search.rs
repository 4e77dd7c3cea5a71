//! Finding the first item of a sequence that meets a condition.

use vstd::prelude::*;

verus! {

/// The position of the first item that meets `wanted`; the length of the
/// sequence where none does.
pub open spec fn first_match<T>(items: Seq<T>, wanted: spec_fn(T) -> bool) -> int
    decreases items.len(),
{
    if items.len() == 0 {
        0
    } else if wanted(items[0]) {
        0
    } else {
        1 + first_match(items.drop_first(), wanted)
    }
}

/// The condition of being the text `wanted`.
pub open spec fn is_text(wanted: Seq<char>) -> spec_fn(Seq<char>) -> bool {
    |text: Seq<char>| text == wanted
}

/// The condition of having the text `wanted` among one's members.
pub open spec fn holds_text(wanted: Seq<char>) -> spec_fn(Seq<Seq<char>>) -> bool {
    |texts: Seq<Seq<char>>| texts.contains(wanted)
}

/// `first_match` is within bounds, points at an item that meets the
/// condition unless it is the length, and has no such item before it.
pub proof fn lemma_first_match<T>(items: Seq<T>, wanted: spec_fn(T) -> bool)
    ensures
        0 <= first_match(items, wanted) <= items.len(),
        first_match(items, wanted) < items.len() ==> wanted(items[first_match(items, wanted)]),
        forall|k: int| 0 <= k < first_match(items, wanted) ==> !wanted(#[trigger] items[k]),
    decreases items.len(),
{
    if items.len() > 0 && !wanted(items[0]) {
        let rest = items.drop_first();
        lemma_first_match(rest, wanted);
        assert forall|k: int| 0 <= k < first_match(items, wanted) implies !wanted(
            #[trigger] items[k],
        ) by {
            if k > 0 {
                assert(items[k] == rest[k - 1]);
            }
        }
    }
}

/// A position with no match before it, and a match at it unless it is the
/// length, is the first match.
pub proof fn lemma_first_match_is<T>(items: Seq<T>, wanted: spec_fn(T) -> bool, at: int)
    requires
        0 <= at <= items.len(),
        forall|k: int| 0 <= k < at ==> !wanted(#[trigger] items[k]),
        at < items.len() ==> wanted(items[at]),
    ensures
        first_match(items, wanted) == at,
{
    lemma_first_match(items, wanted);
    let found = first_match(items, wanted);
    if found < at {
        assert(!wanted(items[found]));
    } else if at < found {
        assert(!wanted(items[at]));
    }
}

/// The texts with `text` put in: in place of its first occurrence, or at
/// the end where it does not occur.
pub open spec fn with_text(texts: Seq<Seq<char>>, text: Seq<char>) -> Seq<Seq<char>> {
    let at = first_match(texts, is_text(text));
    if at < texts.len() {
        texts.update(at, text)
    } else {
        texts.push(text)
    }
}

/// Putting a text in leaves every text where it was: the one put in is then
/// found at its old place, or at the end; any other text is found where it
/// was found before, or is still not found.
pub proof fn lemma_with_text(texts: Seq<Seq<char>>, text: Seq<char>, other: Seq<char>)
    ensures
        first_match(with_text(texts, text), is_text(text)) == first_match(texts, is_text(text)),
        first_match(with_text(texts, text), is_text(text)) < with_text(texts, text).len(),
        other != text ==> {
            let before = first_match(texts, is_text(other));
            let after = first_match(with_text(texts, text), is_text(other));
            if before < texts.len() {
                after == before
            } else {
                after == with_text(texts, text).len()
            }
        },
{
    let at = first_match(texts, is_text(text));
    let put = with_text(texts, text);
    lemma_first_match(texts, is_text(text));
    assert forall|k: int| 0 <= k < at implies !is_text(text)(#[trigger] put[k]) by {
        assert(put[k] == texts[k]);
    }
    lemma_first_match_is(put, is_text(text), at);
    if other != text {
        let before = first_match(texts, is_text(other));
        lemma_first_match(texts, is_text(other));
        if before < texts.len() {
            assert(before != at);
            assert forall|k: int| 0 <= k < before implies !is_text(other)(#[trigger] put[k]) by {
                if k != at {
                    assert(put[k] == texts[k]);
                }
            }
            assert(put[before] == texts[before]);
            lemma_first_match_is(put, is_text(other), before);
        } else {
            assert forall|k: int| 0 <= k < put.len() implies !is_text(other)(#[trigger] put[k]) by {
                if k != at && k < texts.len() {
                    assert(put[k] == texts[k]);
                }
            }
            lemma_first_match_is(put, is_text(other), put.len() as int);
        }
    }
}

} // verus!
