use vstd::prelude::*;
use crate::error::Error;
use crate::pattern::{first_captures, first_match, groups_view, regex_captures, regex_find, text_view};
use crate::text::{digits_value, is_digits, parse_i64};

verus! {

/// What an input string asks to download.
#[derive(Clone, Debug, PartialEq, Eq)]
pub enum DownloadTarget {
    /// One video, by its identifier.
    SingleAsset(String),
    /// An ordered series, by its episode or season identifier.
    Series(String),
    /// A paginated collection, by its owner and its set.
    Collection(i64, i64),
}

/// The mathematical value of a [`DownloadTarget`].
pub enum TargetView {
    SingleAsset(Seq<char>),
    Series(Seq<char>),
    Collection(int, int),
}

impl View for DownloadTarget {
    type V = TargetView;

    open spec fn view(&self) -> TargetView {
        match self {
            DownloadTarget::SingleAsset(id) => TargetView::SingleAsset(id@),
            DownloadTarget::Series(id) => TargetView::Series(id@),
            DownloadTarget::Collection(owner, set) => TargetView::Collection(*owner as int, *set as int),
        }
    }
}

/// The mathematical value of the outcome of a resolution.
pub open spec fn outcome_view(outcome: Result<DownloadTarget, Error>) -> Result<TargetView, Error> {
    match outcome {
        Ok(target) => Ok(target@),
        Err(e) => Err(e),
    }
}

/// The reply to the one request that a short link is looked up with.
pub struct RedirectReply {
    /// The status code of the response.
    pub status: u16,
    /// The value of its `Location` header, if it has one.
    pub location: Option<String>,
}

/// The mathematical value of a [`RedirectReply`].
pub struct ReplyView {
    pub status: u16,
    pub location: Option<Seq<char>>,
}

impl View for RedirectReply {
    type V = ReplyView;

    open spec fn view(&self) -> ReplyView {
        ReplyView { status: self.status, location: text_view(self.location) }
    }
}

/// A short link: a numbered host followed by an alphanumeric code at the end
/// of the text.
pub const SHORT_PATTERN: &'static str = "//b\\d+\\.tv/([0-9a-zA-Z]+)$";

/// A video identifier: a two-letter marker and ten alphanumeric characters.
pub const VIDEO_PATTERN: &'static str = "BV[0-9a-zA-Z]{10}";

/// An episode or season identifier: a two-letter marker and a number.
pub const SERIES_PATTERN: &'static str = "((ep)|(ss))[0-9]+";

/// A collection: the owner's number and the set's number in a two-segment path.
pub const COLLECTION_PATTERN: &'static str = "/([0-9]+)/channel/collectiondetail\\?sid=([0-9]+)";

/// The status code of the redirect that a short link answers with.
pub const FOUND: u16 = 302;

/// Whether `url` has the shape of a short link.
pub open spec fn is_short_link(url: Seq<char>) -> bool {
    regex_find(SHORT_PATTERN@, url) is Some
}

/// The number that a capture group writes, where it took part in the match,
/// is made of digits and fits a signed 64-bit integer.
pub open spec fn group_number(groups: Seq<Option<Seq<char>>>, i: int) -> Option<int> {
    if 0 <= i < groups.len() && groups[i] is Some && groups[i]->0.len() > 0 && is_digits(groups[i]->0)
        && digits_value(groups[i]->0) <= i64::MAX {
        Some(digits_value(groups[i]->0) as int)
    } else {
        None
    }
}

/// The target that three search results stand for: a video identifier wins
/// over a series identifier, and that over a collection path.
pub open spec fn target_of_matches(
    video: Option<Seq<char>>,
    series: Option<Seq<char>>,
    collection: Option<Seq<Option<Seq<char>>>>,
) -> Result<TargetView, Error> {
    if video is Some {
        Ok(TargetView::SingleAsset(video->0))
    } else if series is Some {
        Ok(TargetView::Series(series->0))
    } else if collection is Some && group_number(collection->0, 1) is Some && group_number(
        collection->0,
        2,
    ) is Some {
        Ok(
            TargetView::Collection(
                group_number(collection->0, 1)->0,
                group_number(collection->0, 2)->0,
            ),
        )
    } else {
        Err(Error::UnresolvableURL)
    }
}

/// The target that the three patterns find in `url`.
pub open spec fn target_of_url(url: Seq<char>) -> Result<TargetView, Error> {
    target_of_matches(
        regex_find(VIDEO_PATTERN@, url),
        regex_find(SERIES_PATTERN@, url),
        regex_captures(COLLECTION_PATTERN@, url),
    )
}

/// The URL to classify once a short link has been looked up.
pub open spec fn redirected_url(input: Seq<char>, reply: Option<ReplyView>) -> Result<
    Seq<char>,
    Error,
> {
    if !is_short_link(input) {
        Ok(input)
    } else {
        match reply {
            Some(r) => if r.status != FOUND {
                Err(Error::RedirectResolutionFailure)
            } else {
                match r.location {
                    Some(location) => Ok(location),
                    None => Ok(input),
                }
            },
            None => Err(Error::RedirectResolutionFailure),
        }
    }
}

/// The target of `input`, given the reply to its lookup where it is a short link.
pub open spec fn resolution(input: Seq<char>, reply: Option<ReplyView>) -> Result<
    TargetView,
    Error,
> {
    match redirected_url(input, reply) {
        Ok(url) => target_of_url(url),
        Err(e) => Err(e),
    }
}

/// The mathematical value of an optional reply.
pub open spec fn reply_view(reply: Option<RedirectReply>) -> Option<ReplyView> {
    match reply {
        Some(r) => Some(r@),
        None => None,
    }
}

/// Tells whether `input` is a short link, which has to be looked up with one
/// request that follows no redirect before it can be classified.
pub fn needs_redirect(input: &str) -> (short: bool)
    ensures
        short == is_short_link(input@),
{
    first_match(SHORT_PATTERN, input).is_some()
}

/// Reads the number in capture group `i`.
fn number_of_group(groups: &Vec<Option<String>>, i: usize) -> (number: Option<i64>)
    ensures
        number is Some <==> group_number(groups_view(Some(*groups))->0, i as int) is Some,
        number is Some ==> number->0 == group_number(groups_view(Some(*groups))->0, i as int)->0,
{
    if i < groups.len() {
        match &groups[i] {
            Some(text) => parse_i64(text.as_str()),
            None => None,
        }
    } else {
        None
    }
}

/// Decides the target from what the three searches found.
///
/// `video` and `series` hold the matched identifier, `collection` the capture
/// groups of the collection path. The first that is present decides; a
/// collection path whose numbers do not fit 64 bits resolves to nothing.
pub fn classify_matches(
    video: Option<String>,
    series: Option<String>,
    collection: Option<Vec<Option<String>>>,
) -> (outcome: Result<DownloadTarget, Error>)
    ensures
        outcome_view(outcome) == target_of_matches(
            text_view(video),
            text_view(series),
            groups_view(collection),
        ),
{
    if let Some(id) = video {
        return Ok(DownloadTarget::SingleAsset(id));
    }
    if let Some(id) = series {
        return Ok(DownloadTarget::Series(id));
    }
    if let Some(groups) = collection {
        let owner = number_of_group(&groups, 1);
        let set = number_of_group(&groups, 2);
        if let Some(owner_id) = owner {
            if let Some(set_id) = set {
                return Ok(DownloadTarget::Collection(owner_id, set_id));
            }
        }
    }
    Err(Error::UnresolvableURL)
}

/// Classifies a URL by the first identifier shape that occurs in it.
///
/// The searches look for a substring, so the text around an identifier is
/// ignored. Nothing is fetched: a short link is classified as it stands.
pub fn classify(url: &str) -> (outcome: Result<DownloadTarget, Error>)
    ensures
        outcome_view(outcome) == target_of_url(url@),
{
    let video = first_match(VIDEO_PATTERN, url);
    if video.is_some() {
        return classify_matches(video, None, None);
    }
    let series = first_match(SERIES_PATTERN, url);
    if series.is_some() {
        return classify_matches(None, series, None);
    }
    classify_matches(None, None, first_captures(COLLECTION_PATTERN, url))
}

/// The URL to classify for `input`.
///
/// An input that is no short link is its own URL and `reply` is not looked
/// at. A short link needs the reply to its lookup: a 302 hands over its
/// `Location` (the input itself where the header is missing), and any other
/// status, or no reply at all, is a failure. Only this one hop is taken.
pub fn follow_redirect(input: &str, reply: Option<RedirectReply>) -> (url: Result<String, Error>)
    ensures
        url is Ok <==> redirected_url(input@, reply_view(reply)) is Ok,
        url is Ok ==> (url->Ok_0)@ == redirected_url(input@, reply_view(reply))->Ok_0,
        url is Err ==> url->Err_0 == redirected_url(input@, reply_view(reply))->Err_0,
{
    if !needs_redirect(input) {
        return Ok(input.to_owned());
    }
    match reply {
        Some(r) => {
            if r.status == FOUND {
                match r.location {
                    Some(location) => Ok(location),
                    None => Ok(input.to_owned()),
                }
            } else {
                Err(Error::RedirectResolutionFailure)
            }
        },
        None => Err(Error::RedirectResolutionFailure),
    }
}

/// Resolves an input string to its target.
///
/// `reply` is the answer to the single lookup of a short link, made without
/// following redirects; it is ignored for any other input.
pub fn resolve(input: &str, reply: Option<RedirectReply>) -> (outcome: Result<DownloadTarget, Error>)
    ensures
        outcome_view(outcome) == resolution(input@, reply_view(reply)),
{
    match follow_redirect(input, reply) {
        Ok(url) => classify(url.as_str()),
        Err(e) => Err(e),
    }
}

/// A video identifier decides the target, whatever else was found: a text in
/// which both a series identifier and a video identifier occur is a single
/// asset.
pub proof fn lemma_video_precedes_series(
    video: Seq<char>,
    series: Option<Seq<char>>,
    collection: Option<Seq<Option<Seq<char>>>>,
)
    ensures
        target_of_matches(Some(video), series, collection) == Ok::<TargetView, Error>(
            TargetView::SingleAsset(video),
        ),
{
}

/// A URL in which the video pattern matches resolves to that video, whether
/// or not the series pattern matches in it too.
pub proof fn lemma_url_with_video_is_single_asset(url: Seq<char>)
    ensures
        regex_find(VIDEO_PATTERN@, url) is Some ==> target_of_url(url) == Ok::<TargetView, Error>(
            TargetView::SingleAsset(regex_find(VIDEO_PATTERN@, url)->0),
        ),
{
}

/// Without a video identifier, a series identifier decides before a
/// collection path is looked at.
pub proof fn lemma_series_precedes_collection(
    series: Seq<char>,
    collection: Option<Seq<Option<Seq<char>>>>,
)
    ensures
        target_of_matches(None, Some(series), collection) == Ok::<TargetView, Error>(
            TargetView::Series(series),
        ),
{
}

} // verus!
