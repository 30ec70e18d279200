//! Picking the text out of what a QR decoder made of the selected pixels.
//!
//! A decoder reports one outcome for each code it locates: the code's
//! text, or nothing where the code could not be read. The selection's
//! text is the first one that was read.

use vstd::prelude::*;

verus! {

/// The characters of a text that may be missing.
pub open spec fn text_of(found: Option<String>) -> Option<Seq<char>> {
    match found {
        Some(text) => Some(text@),
        None => None,
    }
}

/// The characters of each entry.
pub open spec fn texts(found: Seq<Option<String>>) -> Seq<Option<Seq<char>>> {
    found.map_values(|entry: Option<String>| text_of(entry))
}

/// The first text in a list of decodings, if any entry holds one.
pub open spec fn first_text(found: Seq<Option<Seq<char>>>) -> Option<Seq<char>>
    decreases found.len(),
{
    if found.len() == 0 {
        None
    } else if found[0].is_some() {
        found[0]
    } else {
        first_text(found.drop_first())
    }
}

/// Dropping entries without a text from the front does not change which
/// text comes first.
proof fn lemma_first_text_skips(found: Seq<Option<Seq<char>>>, n: int)
    requires
        0 <= n <= found.len(),
        forall|k: int| 0 <= k < n ==> found[k].is_none(),
    ensures
        first_text(found) == first_text(found.subrange(n, found.len() as int)),
    decreases n,
{
    if n == 0 {
        assert(found.subrange(0, found.len() as int) =~= found);
    } else {
        assert(found.drop_first().subrange(n - 1, found.len() - 1) =~= found.subrange(
            n,
            found.len() as int,
        ));
        lemma_first_text_skips(found.drop_first(), n - 1);
    }
}

/// The first text is that of the first entry which holds one; there is
/// none exactly if no entry holds one.
pub proof fn lemma_first_text_is_first(found: Seq<Option<Seq<char>>>)
    ensures
        first_text(found).is_none() <==> forall|k: int| 0 <= k < found.len() ==> found[k].is_none(),
        first_text(found).is_some() ==> exists|i: int|
            0 <= i < found.len() && #[trigger] found[i] == first_text(found) && forall|k: int|
                0 <= k < i ==> found[k].is_none(),
    decreases found.len(),
{
    if found.len() == 0 {
    } else if found[0].is_some() {
        assert(found[0] == first_text(found));
    } else {
        let rest = found.drop_first();
        lemma_first_text_is_first(rest);
        assert forall|k: int| 0 <= k < rest.len() implies rest[k] == found[k + 1] by {}
        if first_text(rest).is_some() {
            let i = choose|i: int|
                0 <= i < rest.len() && #[trigger] rest[i] == first_text(rest) && forall|k: int|
                    0 <= k < i ==> rest[k].is_none();
            assert(found[i + 1] == first_text(found));
            assert forall|k: int| 0 <= k < i + 1 implies found[k].is_none() by {
                if k > 0 {
                    assert(rest[k - 1].is_none());
                }
            }
        } else {
            assert forall|k: int| 0 <= k < found.len() implies found[k].is_none() by {
                if k > 0 {
                    assert(rest[k - 1].is_none());
                }
            }
        }
    }
}

/// Picks the first text out of a list of decodings.
pub fn first_decoded(found: &Vec<Option<String>>) -> (first: Option<String>)
    ensures
        text_of(first) == first_text(texts(found@)),
        first.is_none() <==> forall|k: int| 0 <= k < found@.len() ==> found@[k].is_none(),
        first.is_some() ==> exists|i: int|
            0 <= i < found@.len() && #[trigger] found@[i] == first && forall|k: int|
                0 <= k < i ==> found@[k].is_none(),
{
    let mut i: usize = 0;
    while i < found.len()
        invariant
            0 <= i <= found@.len(),
            forall|k: int| 0 <= k < i ==> found@[k].is_none(),
        decreases found@.len() - i,
    {
        match &found[i] {
            Some(text) => {
                let first: Option<String> = Some(text.clone());
                proof {
                    let all = texts(found@);
                    assert forall|k: int| 0 <= k < i implies all[k].is_none() by {
                        assert(all[k] == text_of(found@[k]));
                    }
                    lemma_first_text_skips(all, i as int);
                    assert(all.subrange(i as int, all.len() as int)[0] == text_of(found@[i as int]));
                    assert(found@[i as int] == first);
                }
                return first;
            },
            None => {},
        }
        i = i + 1;
    }
    proof {
        let all = texts(found@);
        assert forall|k: int| 0 <= k < all.len() implies all[k].is_none() by {
            assert(all[k] == text_of(found@[k]));
        }
        lemma_first_text_skips(all, all.len() as int);
    }
    None
}

} // verus!
