//! Small helpers on strings and sequences that the rest of the library shares.

use vstd::prelude::*;

verus! {

/// The character sequences of a list of strings.
pub open spec fn texts(strings: Seq<String>) -> Seq<Seq<char>> {
    strings.map_values(|s: String| s@)
}

/// Filtering keeps exactly the members that pass, and adds no duplicate.
pub(crate) proof fn lemma_filter_members<A>(items: Seq<A>, keep: spec_fn(A) -> bool)
    ensures
        forall|item: A| #[trigger] items.filter(keep).contains(item) <==> items.contains(item) && keep(item),
        items.no_duplicates() ==> items.filter(keep).no_duplicates(),
    decreases items.len(),
{
    reveal(Seq::filter);
    if items.len() > 0 {
        let front = items.drop_last();
        let last = items.last();
        lemma_filter_members(front, keep);
        assert(items == front.push(last));
        assert forall|item: A| #[trigger] items.filter(keep).contains(item) <==> items.contains(item) && keep(
            item,
        ) by {
            if items.contains(item) && keep(item) {
                let i = choose|i: int| 0 <= i < items.len() && items[i] == item;
                if i < front.len() {
                    assert(front[i] == item);
                    assert(front.filter(keep).contains(item));
                    let j = choose|j: int| 0 <= j < front.filter(keep).len() && front.filter(keep)[j] == item;
                    assert(items.filter(keep)[j] == item);
                } else {
                    assert(items.filter(keep).last() == item);
                }
            }
            if items.filter(keep).contains(item) {
                let j = choose|j: int| 0 <= j < items.filter(keep).len() && items.filter(keep)[j] == item;
                if j < front.filter(keep).len() {
                    assert(front.filter(keep)[j] == item);
                    assert(front.filter(keep).contains(item));
                    let i = choose|i: int| 0 <= i < front.len() && front[i] == item;
                    assert(items[i] == item);
                } else {
                    assert(item == last);
                    assert(items[items.len() - 1] == item);
                }
            }
        }
        if items.no_duplicates() {
            assert(front.no_duplicates());
            if keep(last) {
                assert(!front.contains(last)) by {
                    if front.contains(last) {
                        let i = choose|i: int| 0 <= i < front.len() && front[i] == last;
                        assert(items[i] == items[items.len() - 1]);
                    }
                }
                assert(!front.filter(keep).contains(last));
            }
        }
    }
}

/// `str::eq`: two string slices are equal when they hold the same characters.
#[verifier::external_body]
pub(crate) fn str_eq(left: &str, right: &str) -> (same: bool)
    ensures
        same == (left@ == right@),
{
    left == right
}

/// The characters of a text, one by one.
pub(crate) fn chars_of(text: &str) -> (chars: Vec<char>)
    ensures
        chars@ == text@,
{
    let mut chars: Vec<char> = Vec::new();
    for c in it: text.chars()
        invariant
            chars@ == text@.take(it.index() as int),
            it.seq() == text@,
    {
        chars.push(c);
        proof {
            assert(text@.take(it.index() + 1) == text@.take(it.index() as int).push(c));
        }
    }
    proof {
        assert(text@.take(text@.len() as int) == text@);
    }
    chars
}

/// The text that a run of characters makes.
pub(crate) fn text_of_chars(chars: &Vec<char>, from: usize, to: usize) -> (text: String)
    requires
        from <= to <= chars@.len(),
    ensures
        text@ == chars@.subrange(from as int, to as int),
{
    let mut text = String::new();
    let mut i: usize = from;
    while i < to
        invariant
            from <= i <= to <= chars@.len(),
            text@ == chars@.subrange(from as int, i as int),
        decreases to - i,
    {
        push_char(&mut text, chars[i]);
        proof {
            assert(chars@.subrange(from as int, i + 1) == chars@.subrange(from as int, i as int).push(
                chars@[i as int],
            ));
        }
        i += 1;
    }
    text
}

/// `String::push`: the character is appended to the string.
#[verifier::external_body]
pub(crate) fn push_char(text: &mut String, c: char)
    ensures
        final(text)@ == old(text)@.push(c),
{
    text.push(c);
}

/// A copy of a list of strings, string by string.
pub(crate) fn clone_texts(strings: &Vec<String>) -> (copy: Vec<String>)
    ensures
        texts(copy@) == texts(strings@),
{
    let mut copy: Vec<String> = Vec::new();
    let mut i: usize = 0;
    while i < strings.len()
        invariant
            i <= strings.len(),
            texts(copy@) == texts(strings@).take(i as int),
        decreases strings.len() - i,
    {
        let ghost before = copy@;
        let item = strings[i].clone();
        copy.push(item);
        proof {
            assert(texts(copy@) =~= texts(before).push(item@));
            assert(texts(strings@).take(i + 1) =~= texts(strings@).take(i as int).push(strings@[i as int]@));
        }
        i += 1;
    }
    proof {
        assert(texts(strings@).take(strings@.len() as int) =~= texts(strings@));
    }
    copy
}

} // verus!
