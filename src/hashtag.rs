//! Hashtag rewriting: configured words become hashtags, tag by tag in the
//! configured order.
use vstd::prelude::*;
use vstd::string::*;
use crate::pattern::{
    non_word_pattern, replace_in, replaced, tag_pattern, tag_pattern_of, text_result_is, RelayError,
};
use crate::text::string_views;

verus! {

/// The hashtag for a tag: `#` and the tag without its non-word characters.
pub open spec fn hashtag_of(tag: Seq<char>) -> Result<Seq<char>, Seq<char>> {
    match replaced(non_word_pattern(), tag, ""@) {
        Ok(clean) => Ok("#"@ + clean),
        Err(e) => Err(e),
    }
}

/// `text` with each whole-word occurrence of `tag`, in any case, replaced by
/// the tag's hashtag.
pub open spec fn tag_applied(tag: Seq<char>, text: Seq<char>) -> Result<Seq<char>, Seq<char>> {
    match hashtag_of(tag) {
        Err(e) => Err(e),
        Ok(h) => replaced(tag_pattern_of(tag), text, h),
    }
}

/// `text` rewritten by each tag in turn: a later tag sees what the earlier
/// ones made of the text.
pub open spec fn hashtags_applied(tags: Seq<Seq<char>>, text: Seq<char>) -> Result<
    Seq<char>,
    Seq<char>,
>
    decreases tags.len(),
{
    if tags.len() == 0 {
        Ok(text)
    } else {
        match hashtags_applied(tags.drop_last(), text) {
            Err(e) => Err(e),
            Ok(t) => tag_applied(tags.last(), t),
        }
    }
}

proof fn lemma_rewrite_error_stays(tags: Seq<Seq<char>>, text: Seq<char>, i: int, j: int)
    requires
        0 <= i <= j <= tags.len(),
        hashtags_applied(tags.take(i), text) is Err,
    ensures
        hashtags_applied(tags.take(j), text) == hashtags_applied(tags.take(i), text),
    decreases j - i,
{
    if j > i {
        lemma_rewrite_error_stays(tags, text, i, j - 1);
        assert(tags.take(j).drop_last() =~= tags.take(j - 1));
    }
}

/// The hashtag for `tag`: `#` followed by the tag with every non-word
/// character removed (`open-source` gives `#opensource`).
pub fn hashtag_for(tag: &str) -> (r: Result<String, RelayError>)
    ensures
        text_result_is(r, hashtag_of(tag@)),
{
    match replace_in("\\W", tag, "") {
        Err(e) => Err(e),
        Ok(clean) => {
            let mut h = String::from_str("#");
            h.append(clean.as_str());
            Ok(h)
        },
    }
}

/// Replaces, in `text`, each whole-word occurrence of each tag (in any case)
/// by the tag's hashtag. Tags are applied one after another in the given
/// order, each to what the earlier ones produced.
pub fn apply_hashtags(tags: &Vec<String>, text: &str) -> (r: Result<String, RelayError>)
    ensures
        text_result_is(r, hashtags_applied(string_views(tags@), text@)),
{
    let ghost views = string_views(tags@);
    let mut out = String::from_str(text);
    let mut i: usize = 0;
    assert(views.take(0) =~= Seq::<Seq<char>>::empty());
    while i < tags.len()
        invariant
            i <= tags@.len(),
            views == string_views(tags@),
            hashtags_applied(views.take(i as int), text@) == Ok::<Seq<char>, Seq<char>>(out@),
        decreases tags.len() - i,
    {
        assert(views.take(i + 1).drop_last() =~= views.take(i as int));
        let tag = tags[i].as_str();
        let rewritten = match hashtag_for(tag) {
            Err(e) => Err(e),
            Ok(h) => replace_in(tag_pattern(tag).as_str(), out.as_str(), h.as_str()),
        };
        match rewritten {
            Err(e) => {
                proof {
                    lemma_rewrite_error_stays(views, text@, i + 1, views.len() as int);
                    assert(views.take(views.len() as int) =~= views);
                }
                return Err(e);
            },
            Ok(t) => {
                out = t;
            },
        }
        i = i + 1;
    }
    assert(views.take(views.len() as int) =~= views);
    Ok(out)
}

} // verus!
