//! Per-item decisions of the relay: whether an item is skipped, and the post
//! that is published for it.
use vstd::prelude::*;
use vstd::string::*;
use crate::config::ConfigFile;
use crate::dedup::{match_count, was_posted};
use crate::hashtag::{apply_hashtags, hashtags_applied};
use crate::pattern::{refused_pattern, RelayError};
use crate::scanner::{scan_for_triggers, scan_result, scanned_labels};
use crate::text::{join_with, joined, string_views, truncate, truncated, upper_of, uppercase};

verus! {

/// The longest description, in characters, that a post carries.
pub const MAX_DESCRIPTION_LENGTH: usize = 300;

/// One entry of a feed.
#[derive(Debug)]
pub struct FeedItem {
    pub title: Option<String>,
    pub description: Option<String>,
    pub link: Option<String>,
}

/// Why an item is not posted.
#[derive(Clone, Copy, Debug, PartialEq, Eq, Structural)]
pub enum SkipReason {
    MissingLink,
    AlreadyPosted,
    MissingTitle,
    MissingDescription,
}

/// The text and metadata of a post, ready to publish.
#[derive(Debug)]
pub struct PreparedPost {
    pub body: String,
    pub spoiler_text: Option<String>,
    pub sensitive: bool,
}

/// What a prepared post holds, as plain values.
pub struct PostView {
    pub body: Seq<char>,
    pub spoiler_text: Option<Seq<char>>,
    pub sensitive: bool,
}

impl View for PreparedPost {
    type V = PostView;

    open spec fn view(&self) -> PostView {
        PostView {
            body: self.body@,
            spoiler_text: match self.spoiler_text {
                Some(s) => Some(s@),
                None => None,
            },
            sensitive: self.sensitive,
        }
    }
}

/// The skip decision for an item whose link the store holds `count` times.
/// The link is resolved first, then the store is asked, then title and
/// description are resolved.
pub open spec fn screened(item: FeedItem, count: int) -> Option<SkipReason> {
    if item.link is None {
        Some(SkipReason::MissingLink)
    } else if count > 0 {
        Some(SkipReason::AlreadyPosted)
    } else if item.title is None {
        Some(SkipReason::MissingTitle)
    } else if item.description is None {
        Some(SkipReason::MissingDescription)
    } else {
        None
    }
}

/// Decides whether an item is skipped. `posted_count` is how many records of
/// the item's link the store holds (any value when the item has no link).
pub fn screen_item(item: &FeedItem, posted_count: i64) -> (r: Option<SkipReason>)
    ensures
        r == screened(*item, posted_count as int),
{
    if item.link.is_none() {
        Some(SkipReason::MissingLink)
    } else if was_posted(posted_count) {
        Some(SkipReason::AlreadyPosted)
    } else if item.title.is_none() {
        Some(SkipReason::MissingTitle)
    } else if item.description.is_none() {
        Some(SkipReason::MissingDescription)
    } else {
        None
    }
}

/// The body of a post.
pub open spec fn post_body(
    feed_label: Seq<char>,
    title: Seq<char>,
    description: Seq<char>,
    link: Seq<char>,
) -> Seq<char> {
    "Source: "@ + feed_label + "\n\n"@ + title + "\n"@ + description + "\n"@ + link
}

/// The spoiler text for the triggered labels: none without labels.
pub open spec fn spoiler_of(labels: Option<Seq<Seq<char>>>) -> Option<Seq<char>> {
    match labels {
        None => None,
        Some(found) => Some("CW: "@ + joined(found, ","@)),
    }
}

/// The post for an item, or the pattern that the regex engine refused.
/// Triggers are scanned on the upper-cased title and description; hashtags
/// are applied to the description's text (its HTML fragments joined by
/// newlines) and to the title; only the description is truncated.
pub open spec fn prepared(
    configuration: ConfigFile,
    feed_label: Seq<char>,
    title: Seq<char>,
    description: Seq<char>,
    description_fragments: Seq<Seq<char>>,
    link: Seq<char>,
    max_description_chars: nat,
) -> Result<PostView, Seq<char>> {
    let tags = string_views(configuration.filters.hashtags@);
    match scan_result(
        scanned_labels(configuration.content_warnings@, upper_of(title), upper_of(description)),
    ) {
        Err(e) => Err(e),
        Ok(labels) => match hashtags_applied(tags, joined(description_fragments, "\n"@)) {
            Err(e) => Err(e),
            Ok(d) => match hashtags_applied(tags, title) {
                Err(e) => Err(e),
                Ok(t) => Ok(
                    PostView {
                        body: post_body(feed_label, t, truncated(d, max_description_chars), link),
                        spoiler_text: spoiler_of(labels),
                        sensitive: false,
                    },
                ),
            },
        },
    }
}

/// Prepares the post for an item that passed `screen_item`.
/// `description_fragments` are the text fragments of the description's HTML,
/// in document order; they are joined by newlines.
pub fn prepare_post(
    configuration: &ConfigFile,
    feed_label: &str,
    title: &str,
    description: &str,
    description_fragments: &Vec<String>,
    link: &str,
    max_description_chars: usize,
) -> (r: Result<PreparedPost, RelayError>)
    ensures
        match r {
            Ok(post) => prepared(
                *configuration,
                feed_label@,
                title@,
                description@,
                string_views(description_fragments@),
                link@,
                max_description_chars as nat,
            ) == Ok::<PostView, Seq<char>>(post@),
            Err(e) => prepared(
                *configuration,
                feed_label@,
                title@,
                description@,
                string_views(description_fragments@),
                link@,
                max_description_chars as nat,
            ) == Err::<PostView, Seq<char>>(refused_pattern(e)),
        },
{
    let upper_title = uppercase(title);
    let upper_description = uppercase(description);
    let labels = match scan_for_triggers(
        configuration,
        upper_title.as_str(),
        upper_description.as_str(),
    ) {
        Err(e) => return Err(e),
        Ok(l) => l,
    };
    let stripped = join_with(description_fragments, "\n");
    let tags = &configuration.filters.hashtags;
    let tagged_description = match apply_hashtags(tags, stripped.as_str()) {
        Err(e) => return Err(e),
        Ok(d) => d,
    };
    let tagged_title = match apply_hashtags(tags, title) {
        Err(e) => return Err(e),
        Ok(t) => t,
    };
    let short_description = truncate(tagged_description.as_str(), max_description_chars);
    let mut body = String::from_str("Source: ");
    body.append(feed_label);
    body.append("\n\n");
    body.append(tagged_title.as_str());
    body.append("\n");
    body.append(short_description);
    body.append("\n");
    body.append(link);
    let spoiler_text = match labels {
        None => None,
        Some(found) => {
            let mut s = String::from_str("CW: ");
            let joined_labels = join_with(&found, ",");
            s.append(joined_labels.as_str());
            Some(s)
        },
    };
    let post = PreparedPost { body, spoiler_text, sensitive: false };
    assert(post@.body =~= post_body(
        feed_label@,
        tagged_title@,
        truncated(tagged_description@, max_description_chars as nat),
        link@,
    ));
    Ok(post)
}

/// Content-warning detection ignores case: two items whose titles agree
/// once upper-cased, and whose descriptions do, get the same spoiler text
/// when both are prepared.
pub proof fn lemma_warning_ignores_case(
    configuration: ConfigFile,
    feed_label: Seq<char>,
    titles: (Seq<char>, Seq<char>),
    descriptions: (Seq<char>, Seq<char>),
    fragments: (Seq<Seq<char>>, Seq<Seq<char>>),
    link: Seq<char>,
    max_description_chars: nat,
)
    requires
        upper_of(titles.0) == upper_of(titles.1),
        upper_of(descriptions.0) == upper_of(descriptions.1),
    ensures
        ({
            let first = prepared(
                configuration,
                feed_label,
                titles.0,
                descriptions.0,
                fragments.0,
                link,
                max_description_chars,
            );
            let second = prepared(
                configuration,
                feed_label,
                titles.1,
                descriptions.1,
                fragments.1,
                link,
                max_description_chars,
            );
            first is Ok && second is Ok ==> first->Ok_0.spoiler_text == second->Ok_0.spoiler_text
        }),
{
}

/// An item whose link was recorded as posted is skipped by every later
/// pass: any item with the same link, whatever else is recorded afterwards.
pub proof fn lemma_second_pass_skips(
    records: Seq<Seq<char>>,
    link: Seq<char>,
    later: Seq<Seq<char>>,
    item: FeedItem,
)
    requires
        item.link matches Some(l) && l@ == link,
    ensures
        screened(item, match_count(records.push(link) + later, link) as int) == Some(
            SkipReason::AlreadyPosted,
        ),
{
    crate::dedup::lemma_marked_stays_posted(records, link, later);
}

} // verus!
