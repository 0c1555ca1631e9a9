//! Content-warning detection: which configured rules a title and a
//! description trigger.
use vstd::prelude::*;
use crate::config::{ConfigFile, ContentWarning};
use crate::pattern::{finds, find_in, result_is, trigger_pattern, trigger_pattern_of, RelayError};
use crate::text::string_views;

verus! {

/// Whether one phrase, as a word with an optional plural `s`, occurs in the
/// title or in the description.
pub open spec fn phrase_hit(phrase: Seq<char>, title: Seq<char>, desc: Seq<char>) -> Result<
    bool,
    Seq<char>,
> {
    let p = trigger_pattern_of(phrase);
    match finds(p, title) {
        Ok(true) => Ok(true),
        Ok(false) => finds(p, desc),
        Err(e) => Err(e),
    }
}

/// Whether some phrase of a rule occurs; phrases are tried in order and the
/// first hit ends the search.
pub open spec fn rule_hit(phrases: Seq<Seq<char>>, title: Seq<char>, desc: Seq<char>) -> Result<
    bool,
    Seq<char>,
>
    decreases phrases.len(),
{
    if phrases.len() == 0 {
        Ok(false)
    } else {
        match phrase_hit(phrases[0], title, desc) {
            Ok(false) => rule_hit(phrases.drop_first(), title, desc),
            other => other,
        }
    }
}

/// The labels of the triggered rules, in rule order and each once; a rule
/// whose label was already found is not scanned again.
pub open spec fn scanned_labels(rules: Seq<ContentWarning>, title: Seq<char>, desc: Seq<char>) -> Result<
    Seq<Seq<char>>,
    Seq<char>,
>
    decreases rules.len(),
{
    if rules.len() == 0 {
        Ok(Seq::empty())
    } else {
        match scanned_labels(rules.drop_last(), title, desc) {
            Err(e) => Err(e),
            Ok(found) => {
                let rule = rules.last();
                if found.contains(rule.label@) {
                    Ok(found)
                } else {
                    match rule_hit(string_views(rule.phrases@), title, desc) {
                        Err(e) => Err(e),
                        Ok(true) => Ok(found.push(rule.label@)),
                        Ok(false) => Ok(found),
                    }
                }
            }
        }
    }
}

/// What the scanner returns: no labels is `None`.
pub open spec fn scan_result(labels: Result<Seq<Seq<char>>, Seq<char>>) -> Result<
    Option<Seq<Seq<char>>>,
    Seq<char>,
> {
    match labels {
        Err(e) => Err(e),
        Ok(found) => if found.len() == 0 {
            Ok(None)
        } else {
            Ok(Some(found))
        },
    }
}

proof fn lemma_scan_error_stays(
    rules: Seq<ContentWarning>,
    title: Seq<char>,
    desc: Seq<char>,
    i: int,
    j: int,
)
    requires
        0 <= i <= j <= rules.len(),
        scanned_labels(rules.take(i), title, desc) is Err,
    ensures
        scanned_labels(rules.take(j), title, desc) == scanned_labels(rules.take(i), title, desc),
    decreases j - i,
{
    if j > i {
        lemma_scan_error_stays(rules, title, desc, i, j - 1);
        assert(rules.take(j).drop_last() =~= rules.take(j - 1));
    }
}

proof fn lemma_scanned_unique(rules: Seq<ContentWarning>, title: Seq<char>, desc: Seq<char>)
    requires
        scanned_labels(rules, title, desc) is Ok,
    ensures
        scanned_labels(rules, title, desc)->Ok_0.no_duplicates(),
    decreases rules.len(),
{
    if rules.len() > 0 {
        lemma_scanned_unique(rules.drop_last(), title, desc);
    }
}

fn contains_label(found: &Vec<String>, label: &String) -> (r: bool)
    ensures
        r == string_views(found@).contains(label@),
{
    let ghost views = string_views(found@);
    let mut i: usize = 0;
    while i < found.len()
        invariant
            i <= found.len(),
            views == string_views(found@),
            forall|k: int| 0 <= k < i ==> views[k] != label@,
        decreases found.len() - i,
    {
        if found[i] == *label {
            assert(views[i as int] == label@);
            return true;
        }
        i = i + 1;
    }
    false
}

/// Whether a phrase of the rule occurs, as a word with an optional plural
/// `s`, in the title or the description, ignoring case.
fn rule_triggered(rule: &ContentWarning, title: &str, description: &str) -> (r: Result<
    bool,
    RelayError,
>)
    ensures
        result_is(r, rule_hit(string_views(rule.phrases@), title@, description@)),
{
    let ghost phrases = string_views(rule.phrases@);
    let n = rule.phrases.len();
    let mut i: usize = 0;
    assert(phrases.subrange(0, n as int) =~= phrases);
    while i < n
        invariant
            i <= n == rule.phrases@.len(),
            phrases == string_views(rule.phrases@),
            rule_hit(phrases, title@, description@) == rule_hit(
                phrases.subrange(i as int, n as int),
                title@,
                description@,
            ),
        decreases n - i,
    {
        assert(phrases.subrange(i as int, n as int).drop_first() =~= phrases.subrange(
            i + 1,
            n as int,
        ));
        let pattern = trigger_pattern(rule.phrases[i].as_str());
        match find_in(pattern.as_str(), title) {
            Err(e) => return Err(e),
            Ok(true) => return Ok(true),
            Ok(false) => {},
        }
        match find_in(pattern.as_str(), description) {
            Err(e) => return Err(e),
            Ok(true) => return Ok(true),
            Ok(false) => {},
        }
        i = i + 1;
    }
    Ok(false)
}

/// Scans the title and the description against the configured
/// content-warning rules, in order. Returns the labels of the triggered
/// rules, each once and in rule order, or `None` when no rule is triggered.
/// Matching ignores case; a phrase matches as a whole word, also with a
/// trailing `s`.
pub fn scan_for_triggers(configuration: &ConfigFile, title: &str, description: &str) -> (r:
    Result<Option<Vec<String>>, RelayError>)
    ensures
        scan_result(scanned_labels(configuration.content_warnings@, title@, description@)) == match r {
            Ok(None) => Ok(None),
            Ok(Some(v)) => Ok(Some(string_views(v@))),
            Err(e) => Err(crate::pattern::refused_pattern(e)),
        },
        r matches Ok(Some(v)) ==> string_views(v@).no_duplicates(),
{
    let rules = &configuration.content_warnings;
    let mut found: Vec<String> = Vec::new();
    let mut i: usize = 0;
    assert(rules@.take(0) =~= Seq::<ContentWarning>::empty());
    assert(string_views(found@) =~= Seq::<Seq<char>>::empty());
    while i < rules.len()
        invariant
            i <= rules@.len(),
            rules == &configuration.content_warnings,
            scanned_labels(rules@.take(i as int), title@, description@) == Ok::<
                Seq<Seq<char>>,
                Seq<char>,
            >(string_views(found@)),
        decreases rules.len() - i,
    {
        assert(rules@.take(i + 1).drop_last() =~= rules@.take(i as int));
        let rule = &rules[i];
        if !contains_label(&found, &rule.label) {
            match rule_triggered(rule, title, description) {
                Err(e) => {
                    proof {
                        lemma_scan_error_stays(rules@, title@, description@, i + 1, rules@.len() as int);
                        assert(rules@.take(rules@.len() as int) =~= rules@);
                    }
                    return Err(e);
                },
                Ok(true) => {
                    let ghost old_found = found@;
                    found.push(rule.label.clone());
                    assert(string_views(found@) =~= string_views(old_found).push(rule.label@));
                },
                Ok(false) => {},
            }
        }
        i = i + 1;
    }
    assert(rules@.take(rules@.len() as int) =~= rules@);
    proof {
        lemma_scanned_unique(rules@, title@, description@);
    }
    if found.len() == 0 {
        assert(string_views(found@) =~= Seq::<Seq<char>>::empty());
        Ok(None)
    } else {
        Ok(Some(found))
    }
}

} // verus!
