//! What is posted to Reddit and what comes back: the authorisation callback,
//! communities, post titles, the submit form and its response.

use vstd::prelude::*;
use vstd::string::*;
use crate::error::{ApiError, ApiErrorView};
use crate::ids::{canonical_uuid, uuid_canonical, uuid_error_text};
use crate::feed::{Entry, EntryView};
use crate::text::{
    before_first,
    first_index_of,
    lemma_first_index_is,
    lemma_first_index_of,
    occurs_at,
    starts_with,
    strip_prefix,
    until_char,
};

verus! {

/// The address of a video's page, up to and including `v=`.
pub open spec fn watch_prefix() -> Seq<char> {
    "https://www.youtube.com/watch?v="@
}

/// The address of a short video, up to and including `shorts/`.
pub open spec fn shorts_prefix() -> Seq<char> {
    "https://www.youtube.com/shorts/"@
}

/// The short address of a video, up to and including `be/`.
pub open spec fn short_link_prefix() -> Seq<char> {
    "https://youtu.be/"@
}

/// The video that an address names. A watch address names what follows
/// `v=`; a shorts address what follows `shorts/`; a short link what follows
/// `be/`, up to a question mark. No other address names a video.
pub open spec fn video_id_of(url: Seq<char>) -> Option<Seq<char>> {
    if starts_with(url, watch_prefix()) {
        Some(url.skip(watch_prefix().len() as int))
    } else if starts_with(url, shorts_prefix()) {
        Some(url.skip(shorts_prefix().len() as int))
    } else if starts_with(url, short_link_prefix()) {
        Some(before_first(url.skip(short_link_prefix().len() as int), '?'))
    } else {
        None
    }
}

/// Reads the video identifier out of a video's address.
pub fn youtube_url_to_video_id(url: &String) -> (r: Option<String>)
    ensures
        r is Some == video_id_of(url@) is Some,
        r matches Some(id) ==> video_id_of(url@) == Some(id@),
{
    if let Some(id) = strip_prefix(url.as_str(), "https://www.youtube.com/watch?v=") {
        return Some(String::from_str(id));
    }
    if let Some(id) = strip_prefix(url.as_str(), "https://www.youtube.com/shorts/") {
        return Some(String::from_str(id));
    }
    if let Some(rest) = strip_prefix(url.as_str(), "https://youtu.be/") {
        return Some(String::from_str(until_char(rest, '?')));
    }
    None
}

/// `p` occurs in `s` at position `k` and nowhere before.
pub open spec fn first_occurs_at(s: Seq<char>, p: Seq<char>, k: int) -> bool {
    occurs_at(s, p, k) && forall|j: int| 0 <= j < k ==> !occurs_at(s, p, j)
}

/// An address is a watch address exactly where what precedes its first
/// equals sign is the address of the watch page up to `v`; the video is then
/// what follows that equals sign.
pub proof fn law_watch_address_splits_at_first_equals(url: Seq<char>)
    ensures
        starts_with(url, watch_prefix()) <==> first_index_of(url, '=') < url.len() && url.take(
            first_index_of(url, '=') as int,
        ) == "https://www.youtube.com/watch?v"@,
        starts_with(url, watch_prefix()) ==> url.skip(watch_prefix().len() as int) == url.skip(
            first_index_of(url, '=') as int + 1,
        ),
{
    reveal_strlit("https://www.youtube.com/watch?v=");
    reveal_strlit("https://www.youtube.com/watch?v");
    let whole = watch_prefix();
    let head = "https://www.youtube.com/watch?v"@;
    let k = first_index_of(url, '=') as int;
    lemma_first_index_of(url, '=');
    assert(whole =~= head.push('='));
    assert(forall|i: int| 0 <= i < head.len() ==> head[i] != '=');
    if starts_with(url, whole) {
        assert forall|i: int| 0 <= i < 31 implies #[trigger] url[i] != '=' by {
            assert(url[i] == url.subrange(0, 32)[i]);
        }
        assert(url[31] == url.subrange(0, 32)[31]);
        lemma_first_index_is(url, '=', 31);
        assert(url.take(31) =~= head);
    }
    if k < url.len() && url.take(k) == head {
        assert(url.take(k).len() == 31);
        assert(url.subrange(0, 32) =~= whole) by {
            assert forall|i: int| 0 <= i < 31 implies url[i] == whole[i] by {
                assert(url.take(k)[i] == head[i]);
            }
        }
    }
}

/// An address is a shorts address exactly where `shorts/` occurs in it
/// first right behind the address of the site; the video is then what
/// follows that occurrence.
pub proof fn law_shorts_address_splits_at_first_shorts(url: Seq<char>)
    ensures
        starts_with(url, shorts_prefix()) <==> exists|k: int|
            #[trigger] first_occurs_at(url, "shorts/"@, k) && url.take(k)
                == "https://www.youtube.com/"@,
        starts_with(url, shorts_prefix()) ==> first_occurs_at(url, "shorts/"@, 24),
{
    reveal_strlit("https://www.youtube.com/shorts/");
    reveal_strlit("https://www.youtube.com/");
    reveal_strlit("shorts/");
    let whole = shorts_prefix();
    let head = "https://www.youtube.com/"@;
    let tail = "shorts/"@;
    assert(whole =~= head + tail);
    if starts_with(url, whole) {
        assert forall|i: int| 0 <= i < 31 implies #[trigger] url[i] == whole[i] by {
            assert(url[i] == url.subrange(0, 31)[i]);
        }
        assert(url.subrange(24, 31) =~= tail);
        assert forall|j: int| 0 <= j < 24 implies !occurs_at(url, tail, j) by {
            if occurs_at(url, tail, j) {
                assert(url.subrange(j, j + 7)[0] == 's');
                assert(url.subrange(j, j + 7)[1] == 'h');
                assert(url[j] == whole[j]);
                assert(url[j + 1] == whole[j + 1]);
            }
        }
        assert(url.take(24) =~= head);
        assert(first_occurs_at(url, tail, 24));
    }
    if exists|k: int| #[trigger] first_occurs_at(url, tail, k) && url.take(k) == head {
        let k = choose|k: int| #[trigger] first_occurs_at(url, tail, k) && url.take(k) == head;
        assert(url.take(k).len() == 24);
        assert(url.subrange(0, 31) =~= whole) by {
            assert forall|i: int| 0 <= i < 31 implies url[i] == whole[i] by {
                if i < 24 {
                    assert(url.take(k)[i] == head[i]);
                } else {
                    assert(url.subrange(24, 31)[i - 24] == tail[i - 24]);
                }
            }
        }
    }
}

/// An address is a short link exactly where `be/` occurs in it first right
/// behind `https://youtu.`; the video is then what follows that occurrence,
/// up to a question mark.
pub proof fn law_short_link_splits_at_first_be(url: Seq<char>)
    ensures
        starts_with(url, short_link_prefix()) <==> exists|k: int|
            #[trigger] first_occurs_at(url, "be/"@, k) && url.take(k) == "https://youtu."@,
        starts_with(url, short_link_prefix()) ==> first_occurs_at(url, "be/"@, 14),
{
    reveal_strlit("https://youtu.be/");
    reveal_strlit("https://youtu.");
    reveal_strlit("be/");
    let whole = short_link_prefix();
    let head = "https://youtu."@;
    let tail = "be/"@;
    assert(whole =~= head + tail);
    if starts_with(url, whole) {
        assert forall|i: int| 0 <= i < 17 implies #[trigger] url[i] == whole[i] by {
            assert(url[i] == url.subrange(0, 17)[i]);
        }
        assert(url.subrange(14, 17) =~= tail);
        assert forall|j: int| 0 <= j < 14 implies !occurs_at(url, tail, j) by {
            if occurs_at(url, tail, j) {
                assert(url.subrange(j, j + 3)[0] == 'b');
                assert(url[j] == whole[j]);
            }
        }
        assert(url.take(14) =~= head);
        assert(first_occurs_at(url, tail, 14));
    }
    if exists|k: int| #[trigger] first_occurs_at(url, tail, k) && url.take(k) == head {
        let k = choose|k: int| #[trigger] first_occurs_at(url, tail, k) && url.take(k) == head;
        assert(url.take(k).len() == 14);
        assert(url.subrange(0, 17) =~= whole) by {
            assert forall|i: int| 0 <= i < 17 implies url[i] == whole[i] by {
                if i < 14 {
                    assert(url.take(k)[i] == head[i]);
                } else {
                    assert(url.subrange(14, 17)[i - 14] == tail[i - 14]);
                }
            }
        }
    }
}

/// Why Reddit refused an authorisation.
#[derive(Clone, Copy, Debug, PartialEq, Eq, Structural)]
pub enum RedditCallbackErrors {
    AccessDenied,
    UnsupportedResponseType,
    InvalidScope,
    InvalidRequest,
}

impl RedditCallbackErrors {
    /// The code that Reddit sends for the refusal.
    pub open spec fn code(self) -> Seq<char> {
        match self {
            RedditCallbackErrors::AccessDenied => "access_denied"@,
            RedditCallbackErrors::UnsupportedResponseType => "unsupported_response_type"@,
            RedditCallbackErrors::InvalidScope => "invalid_scope"@,
            RedditCallbackErrors::InvalidRequest => "invalid_request"@,
        }
    }

    /// The code that Reddit sends for the refusal.
    pub fn as_str(&self) -> (c: &'static str)
        ensures
            c@ == self.code(),
    {
        match self {
            RedditCallbackErrors::AccessDenied => "access_denied",
            RedditCallbackErrors::UnsupportedResponseType => "unsupported_response_type",
            RedditCallbackErrors::InvalidScope => "invalid_scope",
            RedditCallbackErrors::InvalidRequest => "invalid_request",
        }
    }
}

/// What Reddit sends back after the user has decided on an authorisation.
#[derive(Clone, Debug, PartialEq, Eq)]
pub struct RedditCallback {
    pub code: String,
    pub state: String,
    pub error: Option<RedditCallbackErrors>,
}

/// The explanation given for a refused authorisation.
pub open spec fn refusal_error(error: RedditCallbackErrors) -> Seq<char> {
    if error == RedditCallbackErrors::AccessDenied {
        "The user denied access to their account."@
    } else {
        "Reddit callback had following error: "@ + error.code()
    }
}

/// The words that precede the cause when a state string is no UUID.
pub open spec fn state_error_label() -> Seq<char> {
    "The state string from the Reddit authorize callback was not a valid UUID: "@
}

/// The characters that a parse result holds on either side.
pub open spec fn text_of(parsed: Result<String, String>) -> Result<Seq<char>, Seq<char>> {
    match parsed {
        Ok(s) => Ok(s@),
        Err(s) => Err(s@),
    }
}

/// What a callback is worth once its state string has been parsed: a
/// refusal decides first; then the state must have parsed.
pub open spec fn callback_verdict(
    parsed: Result<Seq<char>, Seq<char>>,
    error: Option<RedditCallbackErrors>,
) -> Result<Seq<char>, ApiErrorView> {
    match error {
        Some(e) => Err(ApiErrorView::BadRequest(refusal_error(e))),
        None => match parsed {
            Ok(state) => Ok(state),
            Err(cause) => Err(ApiErrorView::BadRequest(state_error_label() + cause)),
        },
    }
}

impl RedditCallback {
    /// Judges a callback whose state string has been parsed already:
    /// `parsed` holds the canonical state, or the cause for which it is no
    /// UUID.
    pub fn verdict(parsed: Result<String, String>, callback_errors: &Option<RedditCallbackErrors>) -> (r:
        Result<String, ApiError>)
        ensures
            r is Ok == callback_verdict(text_of(parsed), *callback_errors) is Ok,
            r matches Ok(s) ==> callback_verdict(text_of(parsed), *callback_errors) == Ok::<
                Seq<char>,
                ApiErrorView,
            >(s@),
            r matches Err(e) ==> callback_verdict(text_of(parsed), *callback_errors) == Err::<
                Seq<char>,
                ApiErrorView,
            >(e@),
    {
        if let Some(error) = callback_errors {
            match error {
                RedditCallbackErrors::AccessDenied => {
                    return Err(
                        ApiError::BadRequest(
                            String::from_str("The user denied access to their account."),
                        ),
                    );
                },
                _ => {
                    return Err(
                        ApiError::BadRequest(
                            String::from_str("Reddit callback had following error: ").concat(
                                error.as_str(),
                            ),
                        ),
                    );
                },
            }
        }
        match parsed {
            Ok(state) => Ok(state),
            Err(cause) => Err(
                ApiError::BadRequest(
                    String::from_str(
                        "The state string from the Reddit authorize callback was not a valid UUID: ",
                    ).concat(cause.as_str()),
                ),
            ),
        }
    }

    /// Validates a callback: a refusal is a bad request, and so is a state
    /// string that is no UUID. The accepted state comes back in its canonical
    /// spelling.
    pub fn validate(state_str: &String, callback_errors: &Option<RedditCallbackErrors>) -> (r:
        Result<String, ApiError>)
        ensures
            r is Ok == (*callback_errors is None && uuid_canonical(state_str@) is Some),
            r matches Ok(s) ==> uuid_canonical(state_str@) == Some(s@),
            r matches Err(e) ==> match *callback_errors {
                Some(error) => e@ == ApiErrorView::BadRequest(refusal_error(error)),
                None => e@ is BadRequest && starts_with(e@.detail(), state_error_label()),
            },
    {
        let parsed = match canonical_uuid(state_str.as_str()) {
            Ok(state) => Ok(state),
            Err(error) => Err(uuid_error_text(&error)),
        };
        let r = Self::verdict(parsed, callback_errors);
        proof {
            if r is Err && *callback_errors is None {
                let label = state_error_label();
                assert(r->Err_0@.detail().subrange(0, label.len() as int) =~= label);
            }
        }
        r
    }
}

/// A community that posts are made in.
#[derive(Clone, Debug, PartialEq, Eq)]
pub struct Subreddit {
    pub id: i64,
    pub name: String,
    pub title_prefix: Option<String>,
    pub title_suffix: Option<String>,
    pub flair_id: Option<String>,
}

/// The mathematical value of a [`Subreddit`].
pub struct SubredditView {
    pub id: i64,
    pub name: Seq<char>,
    pub title_prefix: Option<Seq<char>>,
    pub title_suffix: Option<Seq<char>>,
    pub flair_id: Option<Seq<char>>,
}

impl View for Subreddit {
    type V = SubredditView;

    open spec fn view(&self) -> SubredditView {
        SubredditView {
            id: self.id,
            name: self.name@,
            title_prefix: self.title_prefix.deep_view(),
            title_suffix: self.title_suffix.deep_view(),
            flair_id: self.flair_id.deep_view(),
        }
    }
}

impl DeepView for Subreddit {
    type V = SubredditView;

    open spec fn deep_view(&self) -> SubredditView {
        self@
    }
}

/// What Reddit reports of a post that it has made.
#[derive(Clone, Debug, PartialEq, Eq)]
pub struct RedditSubmissionData {
    pub url: String,
    pub id: String,
}

/// The mathematical value of a [`RedditSubmissionData`].
pub struct RedditSubmissionDataView {
    pub url: Seq<char>,
    pub id: Seq<char>,
}

impl View for RedditSubmissionData {
    type V = RedditSubmissionDataView;

    open spec fn view(&self) -> RedditSubmissionDataView {
        RedditSubmissionDataView { url: self.url@, id: self.id@ }
    }
}

impl DeepView for RedditSubmissionData {
    type V = RedditSubmissionDataView;

    open spec fn deep_view(&self) -> RedditSubmissionDataView {
        self@
    }
}

/// An optional text, or no text at all.
pub open spec fn or_empty(text: Option<Seq<char>>) -> Seq<char> {
    match text {
        Some(t) => t,
        None => Seq::empty(),
    }
}

/// The title of a post: the community's prefix, the video's title, the
/// community's suffix; a prefix or suffix that is absent adds nothing.
pub open spec fn post_title(subreddit: SubredditView, title: Seq<char>) -> Seq<char> {
    or_empty(subreddit.title_prefix) + title + or_empty(subreddit.title_suffix)
}

/// Composes the title of a post.
pub fn compose_title(subreddit: &Subreddit, title: &str) -> (r: String)
    ensures
        r@ == post_title(subreddit@, title@),
{
    let mut r = String::new();
    if let Some(prefix) = &subreddit.title_prefix {
        r.append(prefix.as_str());
    }
    r.append(title);
    if let Some(suffix) = &subreddit.title_suffix {
        r.append(suffix.as_str());
    }
    assert(r@ =~= post_title(subreddit@, title@));
    r
}

/// The address of the submit endpoint.
pub open spec fn submit_endpoint() -> Seq<char> {
    "https://oauth.reddit.com/api/submit"@
}

/// Gives the address of the submit endpoint.
pub fn submit_url() -> (url: &'static str)
    ensures
        url@ == submit_endpoint(),
{
    "https://oauth.reddit.com/api/submit"
}

/// The address of the endpoint that pins and unpins a post.
pub open spec fn sticky_endpoint() -> Seq<char> {
    "https://oauth.reddit.com/api/set_subreddit_sticky"@
}

/// Gives the address of the endpoint that pins and unpins a post.
pub fn sticky_url() -> (url: &'static str)
    ensures
        url@ == sticky_endpoint(),
{
    "https://oauth.reddit.com/api/set_subreddit_sticky"
}

/// The fields that submit a link to a community. The flair comes last, and
/// only where the community has one.
pub open spec fn submit_fields(subreddit: SubredditView, title: Seq<char>, url: Seq<char>) -> Seq<
    (Seq<char>, Seq<char>),
> {
    let fixed = seq![
        ("api_type"@, "json"@),
        ("extension"@, "json"@),
        ("kind"@, "link"@),
        ("resubmit"@, "true"@),
        ("sendreplies"@, "false"@),
        ("sr"@, subreddit.name),
        ("title"@, title),
        ("url"@, url),
    ];
    match subreddit.flair_id {
        Some(flair) => fixed.push(("flair_id"@, flair)),
        None => fixed,
    }
}

/// Builds the form that submits a link to a community.
pub fn submit_form(subreddit: &Subreddit, title: &str, url: &str) -> (form: Vec<(String, String)>)
    ensures
        form.deep_view() == submit_fields(subreddit@, title@, url@),
{
    let mut form: Vec<(String, String)> = Vec::new();
    form.push((String::from_str("api_type"), String::from_str("json")));
    form.push((String::from_str("extension"), String::from_str("json")));
    form.push((String::from_str("kind"), String::from_str("link")));
    form.push((String::from_str("resubmit"), String::from_str("true")));
    form.push((String::from_str("sendreplies"), String::from_str("false")));
    form.push((String::from_str("sr"), subreddit.name.clone()));
    form.push((String::from_str("title"), String::from_str(title)));
    form.push((String::from_str("url"), String::from_str(url)));
    if let Some(flair) = &subreddit.flair_id {
        form.push((String::from_str("flair_id"), flair.clone()));
    }
    assert(form.deep_view() =~= submit_fields(subreddit@, title@, url@));
    form
}

/// The word for a pinned state.
pub open spec fn state_word(state: bool) -> Seq<char> {
    if state {
        "true"@
    } else {
        "false"@
    }
}

/// The fields that set the pinned state of a post.
pub open spec fn sticky_fields(submission_id: Seq<char>, state: bool) -> Seq<
    (Seq<char>, Seq<char>),
> {
    seq![("api_type"@, "json"@), ("id"@, submission_id), ("state"@, state_word(state))]
}

/// Builds the form that sets the pinned state of a post.
pub fn sticky_form(submission_id: &str, state: bool) -> (form: Vec<(String, String)>)
    ensures
        form.deep_view() == sticky_fields(submission_id@, state),
{
    let mut form: Vec<(String, String)> = Vec::new();
    form.push((String::from_str("api_type"), String::from_str("json")));
    form.push((String::from_str("id"), String::from_str(submission_id)));
    form.push(
        (
            String::from_str("state"),
            String::from_str(
                if state {
                    "true"
                } else {
                    "false"
                },
            ),
        ),
    );
    assert(form.deep_view() =~= sticky_fields(submission_id@, state));
    form
}

/// The texts of `items`, each followed by a semicolon and a space.
pub open spec fn listed(items: Seq<Seq<char>>) -> Seq<char>
    decreases items.len(),
{
    if items.len() == 0 {
        Seq::empty()
    } else {
        listed(items.drop_last()) + items.last() + "; "@
    }
}

/// Writes the texts of `items`, each followed by a semicolon and a space.
pub fn list_errors(items: &Vec<String>) -> (text: String)
    ensures
        text@ == listed(items.deep_view()),
{
    let ghost all = items.deep_view();
    let mut text = String::new();
    let mut i: usize = 0;
    assert(all.take(0) =~= Seq::<Seq<char>>::empty());
    while i < items.len()
        invariant
            all == items.deep_view(),
            i <= items.len(),
            text@ == listed(all.take(i as int)),
        decreases items.len() - i,
    {
        assert(all.take(i + 1).drop_last() =~= all.take(i as int));
        assert(all.take(i + 1).last() == items[i as int]@);
        text.append(items[i].as_str());
        text.append("; ");
        i += 1;
    }
    assert(all.take(i as int) =~= all);
    text
}

/// What the submit endpoint answered: the errors it lists, and the post it
/// reports where it made one.
#[derive(Clone, Debug, PartialEq, Eq)]
pub struct SubmitResponse {
    pub errors: Vec<String>,
    pub data: Option<RedditSubmissionData>,
}

/// The mathematical value of a [`SubmitResponse`].
pub struct SubmitResponseView {
    pub errors: Seq<Seq<char>>,
    pub data: Option<RedditSubmissionDataView>,
}

impl View for SubmitResponse {
    type V = SubmitResponseView;

    open spec fn view(&self) -> SubmitResponseView {
        SubmitResponseView { errors: self.errors.deep_view(), data: self.data.deep_view() }
    }
}

/// The explanation given for a post that Reddit refused.
pub open spec fn refused_post_error(title: Seq<char>, entry: EntryView, errors: Seq<Seq<char>>) -> Seq<
    char,
> {
    "The video (title: '"@ + title + "' link: "@ + entry.link.href + ") from '"@ + entry.author.name
        + "' (link: "@ + entry.author.uri + ") could not be submitted, got following errors: "@
        + listed(errors)
}

/// The explanation given for an answer that reports neither errors nor a post.
pub open spec fn missing_post_error() -> Seq<char> {
    "Error deserializing/serializing JSON data: the response holds no submission"@
}

/// What an answer of the submit endpoint means: a list of errors that is not
/// empty is a refusal; otherwise the answer must report the post.
pub open spec fn submit_verdict(response: SubmitResponseView, title: Seq<char>, entry: EntryView) -> Result<
    RedditSubmissionDataView,
    ApiErrorView,
> {
    if response.errors.len() > 0 {
        Err(ApiErrorView::BadRequest(refused_post_error(title, entry, response.errors)))
    } else {
        match response.data {
            Some(data) => Ok(data),
            None => Err(ApiErrorView::InternalError(missing_post_error())),
        }
    }
}

/// Judges an answer of the submit endpoint.
pub fn submit_outcome(response: SubmitResponse, title: &str, entry: &Entry) -> (r: Result<
    RedditSubmissionData,
    ApiError,
>)
    ensures
        r is Ok == submit_verdict(response@, title@, entry@) is Ok,
        r matches Ok(data) ==> submit_verdict(response@, title@, entry@) == Ok::<
            RedditSubmissionDataView,
            ApiErrorView,
        >(data@),
        r matches Err(e) ==> submit_verdict(response@, title@, entry@) == Err::<
            RedditSubmissionDataView,
            ApiErrorView,
        >(e@),
{
    if response.errors.len() > 0 {
        let text = String::from_str("The video (title: '").concat(title).concat(
            "' link: ",
        ).concat(entry.link.href.as_str()).concat(") from '").concat(
            entry.author.name.as_str(),
        ).concat("' (link: ").concat(entry.author.uri.as_str()).concat(
            ") could not be submitted, got following errors: ",
        ).concat(list_errors(&response.errors).as_str());
        return Err(ApiError::BadRequest(text));
    }
    match response.data {
        Some(data) => Ok(data),
        None => Err(
            ApiError::InternalError(
                String::from_str(
                    "Error deserializing/serializing JSON data: the response holds no submission",
                ),
            ),
        ),
    }
}

/// The explanation given for a pinned state that Reddit did not change.
pub open spec fn refused_sticky_error(submission_id: Seq<char>, state: bool, errors: Seq<Seq<char>>) -> Seq<
    char,
> {
    "Got following errors while trying to change the sticky state of the submission "@
        + submission_id + " to "@ + state_word(state) + ": "@ + listed(errors)
}

/// Judges an answer of the endpoint that pins and unpins: a list of errors
/// that is not empty is a refusal.
pub fn sticky_outcome(errors: &Vec<String>, submission_id: &str, state: bool) -> (r: Result<
    (),
    ApiError,
>)
    ensures
        r is Ok == (errors.len() == 0),
        r matches Err(e) ==> e@ == ApiErrorView::BadRequest(
            refused_sticky_error(submission_id@, state, errors.deep_view()),
        ),
{
    if errors.len() == 0 {
        return Ok(());
    }
    let text = String::from_str(
        "Got following errors while trying to change the sticky state of the submission ",
    ).concat(submission_id).concat(" to ").concat(
        if state {
            "true"
        } else {
            "false"
        },
    ).concat(": ").concat(list_errors(errors).as_str());
    Err(ApiError::BadRequest(text))
}

} // verus!
