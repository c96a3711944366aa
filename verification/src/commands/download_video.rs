//! `/download_video`: only YouTube links are fetched, and only once they
//! parse as URLs.
use reqwest::Url;
use vstd::prelude::*;

use crate::text::{chars_of, starts_with, starts_with_exec};

verus! {

#[verifier::external_type_specification]
#[verifier::external_body]
pub struct ExUrl(reqwest::Url);

/// What `url::Url::parse` (reached as `reqwest::Url`) makes of `input`:
/// `Ok` when it accepts the text as an absolute URL, otherwise `Err` with
/// the text its error displays.
pub uninterp spec fn url_parse_outcome(input: Seq<char>) -> Result<(), Seq<char>>;

/// A URL parsed from a text, with the text it was parsed from. Only
/// [`parse_url`] builds one.
pub struct ParsedUrl {
    url: Url,
    text: Ghost<Seq<char>>,
}

impl ParsedUrl {
    /// The text this URL was parsed from.
    pub closed spec fn source(&self) -> Seq<char> {
        self.text@
    }

    /// The parsed URL.
    pub fn url(&self) -> &Url {
        &self.url
    }
}

/// Parses `input` with `url::Url::parse`. Trusted: whether the text is
/// accepted, and the displayed error when it is not, are taken to be the
/// named outcome for this text; an accepted URL is the one parsed from
/// `input`. What the parsed URL holds (its normalised form) is not stated:
/// Verus sees nothing inside a `Url`.
#[verifier::external_body]
pub(crate) fn parse_url(input: &str) -> (r: Result<ParsedUrl, String>)
    ensures
        match r {
            Ok(p) => url_parse_outcome(input@) is Ok && p.source() == input@,
            Err(e) => url_parse_outcome(input@) == Err::<(), Seq<char>>(e@),
        },
{
    match Url::parse(input) {
        Ok(url) => Ok(ParsedUrl { url, text: Ghost(input@) }),
        Err(e) => Err(e.to_string()),
    }
}

/// The links `/download_video` accepts: those starting `https://youtu`.
pub open spec fn is_youtube_url_spec(url: Seq<char>) -> bool {
    starts_with(url, "https://youtu"@)
}

/// Whether `/download_video` accepts this link.
pub fn is_youtube_url(url: &str) -> (r: bool)
    ensures
        r == is_youtube_url_spec(url@),
{
    let chars = chars_of(url);
    starts_with_exec(&chars, "https://youtu")
}

/// What `/download_video` does with the link it was given.
pub enum VideoLink {
    /// Not a YouTube link: answered with "Error: Invalid URL".
    NotYoutube,
    /// A YouTube link that does not parse: the reply that says why.
    Invalid(String),
    /// A parsed YouTube link, to be fetched: the one the user gave.
    Fetch(ParsedUrl),
}

/// The reply to a YouTube link that does not parse.
pub open spec fn invalid_link_reply(error: Seq<char>) -> Seq<char> {
    "Error: "@ + error
}

/// What becomes of a YouTube link once it has been parsed: a parsed link is
/// fetched as it is, a refused one is answered with the parser's error.
pub fn link_after_parse(parsed: Result<ParsedUrl, String>) -> (r: VideoLink)
    ensures
        match parsed {
            Ok(u) => r matches VideoLink::Fetch(v) && v == u,
            Err(e) => r matches VideoLink::Invalid(m) && m@ == invalid_link_reply(e@),
        },
{
    match parsed {
        Ok(u) => VideoLink::Fetch(u),
        Err(e) => {
            let mut m = String::from_str("Error: ");
            m.append(e.as_str());
            VideoLink::Invalid(m)
        },
    }
}

/// What `/download_video` does with `url`: a link that is not YouTube's is
/// refused before anything else; a YouTube link is parsed, and fetched when
/// it parses.
pub fn video_link(url: &str) -> (r: VideoLink)
    ensures
        r is NotYoutube <==> !is_youtube_url_spec(url@),
        r is Fetch <==> is_youtube_url_spec(url@) && url_parse_outcome(url@) is Ok,
        r matches VideoLink::Fetch(p) ==> p.source() == url@,
        r matches VideoLink::Invalid(m) ==> (url_parse_outcome(url@) matches Err(e)
            && m@ == invalid_link_reply(e)),
{
    if !is_youtube_url(url) {
        return VideoLink::NotYoutube;
    }
    link_after_parse(parse_url(url))
}

} // verus!
