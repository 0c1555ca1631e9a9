//! The record of posted links: an append-only log of URLs, asked how often a
//! URL occurs in it.
use vstd::prelude::*;

verus! {

/// How many records of the log hold `url`.
pub open spec fn match_count(records: Seq<Seq<char>>, url: Seq<char>) -> nat
    decreases records.len(),
{
    if records.len() == 0 {
        0
    } else {
        match_count(records.drop_last(), url) + if records.last() == url {
            1nat
        } else {
            0nat
        }
    }
}

/// Whether the log holds a record of `url`.
pub open spec fn posted_in(records: Seq<Seq<char>>, url: Seq<char>) -> bool {
    match_count(records, url) > 0
}

/// Whether a link counts as posted, given how many records of it the store
/// holds.
pub fn was_posted(match_count: i64) -> (r: bool)
    ensures
        r == (match_count > 0),
{
    match_count > 0
}

proof fn lemma_count_grows(records: Seq<Seq<char>>, later: Seq<Seq<char>>, url: Seq<char>)
    ensures
        match_count(records + later, url) >= match_count(records, url),
    decreases later.len(),
{
    if later.len() == 0 {
        assert(records + later =~= records);
    } else {
        lemma_count_grows(records, later.drop_last(), url);
        assert((records + later).drop_last() =~= records + later.drop_last());
    }
}

/// Once `url` has been marked as posted, it reads as posted from then on:
/// whatever is recorded after it, in the same run or in a later run against
/// the same store.
pub proof fn lemma_marked_stays_posted(records: Seq<Seq<char>>, url: Seq<char>, later: Seq<Seq<char>>)
    ensures
        posted_in(records.push(url) + later, url),
{
    assert(records.push(url).drop_last() =~= records);
    lemma_count_grows(records.push(url), later, url);
}

} // verus!
