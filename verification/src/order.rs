//! Keeping a list of texts in rising order.

use vstd::prelude::*;
use crate::text::{lemma_text_leq_total, lemma_text_leq_transitive, text_le, text_leq};
use crate::views::each_view;

verus! {

/// Whether the texts stand in rising order: none stands after a later one.
pub open spec fn rising(keys: Seq<Seq<char>>) -> bool {
    forall|a: int, b: int| 0 <= a < b < keys.len() ==> text_leq(#[trigger] keys[a], #[trigger] keys[b])
}

/// A list in rising order stays in rising order when a text is put in
/// behind the texts that do not stand after it and before one that does.
pub proof fn lemma_rising_insert(keys: Seq<Seq<char>>, at: int, key: Seq<char>)
    requires
        rising(keys),
        0 <= at <= keys.len(),
        forall|a: int| 0 <= a < at ==> text_leq(#[trigger] keys[a], key),
        at < keys.len() ==> !text_leq(keys[at], key),
    ensures
        rising(keys.insert(at, key)),
{
    let more = keys.insert(at, key);
    assert forall|a: int, b: int| 0 <= a < b < more.len() implies text_leq(
        #[trigger] more[a],
        #[trigger] more[b],
    ) by {
        let a0 = if a < at { a } else { a - 1 };
        let b0 = if b < at { b } else { b - 1 };
        if b == at {
            assert(more[a] == keys[a]);
        } else if a == at {
            assert(more[b] == keys[b0]);
            lemma_text_leq_total(keys[at], key);
            if b0 > at {
                assert(text_leq(keys[at], keys[b0]));
                lemma_text_leq_transitive(key, keys[at], keys[b0]);
            }
        } else {
            assert(more[a] == keys[a0] && more[b] == keys[b0]);
        }
    }
}

/// The place at which `key` goes into the list `keys` so that the list
/// stays in rising order: behind every text that does not stand after it.
pub fn place_for(keys: &Vec<String>, key: &String) -> (at: usize)
    requires
        rising(each_view(keys@)),
    ensures
        at <= keys@.len(),
        forall|a: int| 0 <= a < at ==> text_leq(#[trigger] each_view(keys@)[a], key@),
        at < keys@.len() ==> !text_leq(each_view(keys@)[at as int], key@),
        rising(each_view(keys@).insert(at as int, key@)),
{
    let mut at: usize = 0;
    while at < keys.len() && text_le(keys[at].as_str(), key.as_str())
        invariant
            at <= keys@.len(),
            forall|a: int| 0 <= a < at ==> text_leq(#[trigger] each_view(keys@)[a], key@),
        decreases keys@.len() - at,
    {
        at += 1;
    }
    proof {
        lemma_rising_insert(each_view(keys@), at as int, key@);
    }
    at
}

} // verus!
