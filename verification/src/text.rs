//! Mathematical reading of lists of strings.

use vstd::prelude::*;

verus! {

/// The character sequences held by a list of strings, in order.
pub open spec fn texts(items: Seq<String>) -> Seq<Seq<char>> {
    Seq::new(items.len(), |i: int| items[i]@)
}

/// Appending one string appends its characters' sequence.
pub proof fn lemma_texts_push(items: Seq<String>, last: String)
    ensures
        texts(items.push(last)) == texts(items).push(last@),
{
    assert(texts(items.push(last)) =~= texts(items).push(last@));
}

/// The empty list reads as the empty sequence.
pub proof fn lemma_texts_empty()
    ensures
        texts(Seq::<String>::empty()) == Seq::<Seq<char>>::empty(),
{
    assert(texts(Seq::<String>::empty()) =~= Seq::<Seq<char>>::empty());
}

} // verus!
