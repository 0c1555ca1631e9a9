//! The configuration that the relay runs on, as already parsed values.
use vstd::prelude::*;
use vstd::string::*;
use crate::text::{upper_of, uppercase};

verus! {

/// Everything the relay is configured with.
pub struct ConfigFile {
    pub mastodon: MastodonConfig,
    pub feeds: Vec<RSSFeedConfig>,
    pub content_warnings: Vec<ContentWarning>,
    pub filters: RSSFilters,
    pub persistence: Persistence,
}

/// Credentials and posting settings of the social account.
pub struct MastodonConfig {
    pub client_key: String,
    pub client_secret: String,
    pub client_token: String,
    pub account_id: String,
    pub api_url: String,
    pub base_url: String,
    pub redirect_url: String,
    pub visibility: String,
}

/// One feed to poll.
pub struct RSSFeedConfig {
    pub label: String,
    pub url: String,
}

/// A content-warning rule: a label and the phrases that trigger it.
pub struct ContentWarning {
    pub label: String,
    pub phrases: Vec<String>,
}

/// The words that are turned into hashtags.
pub struct RSSFilters {
    pub hashtags: Vec<String>,
}

/// Where the record of posted links is kept.
pub struct Persistence {
    pub database_path: String,
}

/// Who can see the posts.
#[derive(Clone, Copy, Debug, PartialEq, Eq, Structural)]
pub enum PostVisibility {
    Public,
    Unlisted,
}

/// The visibility that an upper-cased setting names.
pub open spec fn visibility_named(upper: Seq<char>) -> Option<PostVisibility> {
    if upper == "PUBLIC"@ {
        Some(PostVisibility::Public)
    } else if upper == "UNLISTED"@ {
        Some(PostVisibility::Unlisted)
    } else {
        None
    }
}

/// Reads the visibility setting, ignoring case: `public` or `unlisted`;
/// `None` for anything else.
pub fn parse_visibility(setting: &str) -> (r: Option<PostVisibility>)
    ensures
        r == visibility_named(upper_of(setting@)),
{
    let upper = uppercase(setting);
    if upper == String::from_str("PUBLIC") {
        Some(PostVisibility::Public)
    } else if upper == String::from_str("UNLISTED") {
        Some(PostVisibility::Unlisted)
    } else {
        None
    }
}

} // verus!
