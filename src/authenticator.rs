//! The three platform verifiers and the dispatcher over them.
//!
//! Fetching is left to the caller: for a platform and a username,
//! [`Platforms::request_url`] names the resource to fetch, and
//! [`verify_response`] turns what came back (or the transport failure) and
//! the code into an [`Outcome`].
use crate::json::{
    decode, get_first, get_member, get_text, first_item, json_document, member, text_of, Json,
};
use crate::matching::{any_has_word, chars_of, contains_code, has_code, has_word};
use crate::scrape::{result_texts, scrap_helper, scraped};
use vstd::prelude::*;

verus! {

/// The platforms on which an account can be verified.
#[derive(Debug, Clone, Copy, PartialEq, Eq, Structural)]
pub enum Platforms {
    Codechef,
    Leetcode,
    Codeforces,
}

/// Why a verification could not be carried out.
#[derive(Debug, Clone, Copy, PartialEq, Eq, Structural)]
pub enum FailReason {
    /// The request could not be sent or its answer not read.
    Transport,
    /// The answer is not in the expected format.
    Decode,
    /// A CSS selector does not parse.
    Selector,
    /// No element of the page matches the selector.
    NoMatch,
}

/// The result of one verification.
#[derive(Debug, Clone, Copy, PartialEq, Eq, Structural)]
pub enum Outcome {
    /// The code was found in the profile text.
    Verified,
    /// The profile text was read and the code is not in it, or the user or
    /// the field is unknown.
    NotVerified,
    /// Something is broken; nothing is known of the account.
    Failed(FailReason),
}

/// A request that could not complete: network, DNS, or reading the answer.
#[derive(Debug, Clone, Copy, PartialEq, Eq, Structural)]
pub struct TransportError;

/// A request to verify `username`, who claims to have put `code` in a
/// profile.
pub struct UserPayload {
    pub username: String,
    pub code: String,
}

/// A character that a username may hold: an ASCII letter or digit, `_`, `-`
/// or `.`. None of them needs escaping in a URL or in a GraphQL string.
pub open spec fn is_handle_char(c: char) -> bool {
    let u = c as u32;
    ||| 0x61 <= u <= 0x7a
    ||| 0x41 <= u <= 0x5a
    ||| 0x30 <= u <= 0x39
    ||| u == 0x5f
    ||| u == 0x2d
    ||| u == 0x2e
}

/// `username` is not empty and holds only handle characters.
pub open spec fn is_handle(username: Seq<char>) -> bool {
    &&& username.len() > 0
    &&& forall|i: int| 0 <= i < username.len() ==> is_handle_char(#[trigger] username[i])
}

/// Whether `c` may stand in a username.
fn handle_char(c: char) -> (r: bool)
    ensures
        r == is_handle_char(c),
{
    let u = c as u32;
    (0x61 <= u && u <= 0x7a) || (0x41 <= u && u <= 0x5a) || (0x30 <= u && u <= 0x39) || u == 0x5f
        || u == 0x2d || u == 0x2e
}

/// Whether `username` is a handle: not empty, and only handle characters.
pub fn is_valid_username(username: &str) -> (r: bool)
    ensures
        r == is_handle(username@),
{
    let cs = chars_of(username);
    if cs.len() == 0 {
        return false;
    }
    let mut i: usize = 0;
    while i < cs.len()
        invariant
            cs@ == username@,
            i <= cs@.len(),
            forall|k: int| 0 <= k < i ==> is_handle_char(#[trigger] username@[k]),
        decreases cs@.len() - i,
    {
        if !handle_char(cs[i]) {
            return false;
        }
        i += 1;
    }
    true
}

/// The resource that holds the profile text of `username` on `p`, for a
/// handle `username`, which is embedded as it is.
pub open spec fn request_url_spec(p: Platforms, username: Seq<char>) -> Seq<char> {
    match p {
        Platforms::Codechef => "https://www.codechef.com/users/"@ + username,
        Platforms::Leetcode => "https://leetcode.com/graphql?query=query { matchedUser(username: \""@
            + username + "\") { profile { realName } } }"@,
        Platforms::Codeforces => "https://codeforces.com/api/user.info?handles="@ + username,
    }
}

/// `Verified` where `found`, else `NotVerified`.
pub open spec fn found_outcome(found: bool) -> Outcome {
    if found {
        Outcome::Verified
    } else {
        Outcome::NotVerified
    }
}

/// The outcome for the text fragments extracted from a page, or for the
/// failure to extract them.
pub open spec fn fragments_outcome(extracted: Result<Seq<Seq<char>>, FailReason>, code: Seq<char>) -> Outcome {
    match extracted {
        Err(e) => Outcome::Failed(e),
        Ok(fragments) => found_outcome(any_has_word(fragments, code)),
    }
}

/// The CodeChef outcome for what the fetch of the profile page gave: the
/// code must be a word of the text nodes of the page's first `title`
/// element; extraction failures pass on unchanged.
pub open spec fn codechef_outcome(fetched: Result<String, TransportError>, code: Seq<char>) -> Outcome {
    match fetched {
        Err(_) => Outcome::Failed(FailReason::Transport),
        Ok(page) => fragments_outcome(scraped(page@, "title"@), code),
    }
}

/// The display name in a LeetCode GraphQL answer:
/// `data.matchedUser.profile.realName`, where it is a string.
pub open spec fn leetcode_name(doc: Json) -> Option<Seq<char>> {
    text_of(
        member(member(member(member(Some(doc), "data"@), "matchedUser"@), "profile"@), "realName"@),
    )
}

/// Whether `name` is present and has `code` among its words.
pub open spec fn name_has_code(name: Option<Seq<char>>, code: Seq<char>) -> bool {
    match name {
        Some(n) => has_word(n, code),
        None => false,
    }
}

/// The outcome for a LeetCode GraphQL answer `body`: `Decode` where it is
/// not JSON; else whether the display name has the code, an absent name
/// counting as not verified.
pub open spec fn leetcode_verdict(body: Seq<char>, code: Seq<char>) -> Outcome {
    match json_document(body) {
        None => Outcome::Failed(FailReason::Decode),
        Some(doc) => found_outcome(name_has_code(leetcode_name(doc), code)),
    }
}

/// Whether the first user of a Codeforces `user.info` answer has the code
/// among the words of its `firstName` or of its `lastName`.
pub open spec fn codeforces_user_has_code(doc: Json, code: Seq<char>) -> bool {
    let user = first_item(member(Some(doc), "result"@));
    user is Some && (name_has_code(text_of(member(user, "firstName"@)), code) || name_has_code(
        text_of(member(user, "lastName"@)),
        code,
    ))
}

/// The outcome for a decoded Codeforces `user.info` answer: not verified
/// where `status` is `"FAILED"`; else whether the first user's names have
/// the code.
pub open spec fn codeforces_document_outcome(doc: Json, code: Seq<char>) -> Outcome {
    if text_of(member(Some(doc), "status"@)) == Some("FAILED"@) {
        Outcome::NotVerified
    } else {
        found_outcome(codeforces_user_has_code(doc, code))
    }
}

/// The outcome for a Codeforces `user.info` answer `body`: `Decode` where it
/// is not JSON, else the outcome for the document.
pub open spec fn codeforces_verdict(body: Seq<char>, code: Seq<char>) -> Outcome {
    match json_document(body) {
        None => Outcome::Failed(FailReason::Decode),
        Some(doc) => codeforces_document_outcome(doc, code),
    }
}

/// The LeetCode outcome for what the fetch of the GraphQL answer gave.
pub open spec fn leetcode_outcome(fetched: Result<String, TransportError>, code: Seq<char>) -> Outcome {
    match fetched {
        Err(_) => Outcome::Failed(FailReason::Transport),
        Ok(body) => leetcode_verdict(body@, code),
    }
}

/// The Codeforces outcome for what the fetch of the `user.info` answer gave.
pub open spec fn codeforces_outcome(fetched: Result<String, TransportError>, code: Seq<char>) -> Outcome {
    match fetched {
        Err(_) => Outcome::Failed(FailReason::Transport),
        Ok(body) => codeforces_verdict(body@, code),
    }
}

impl Platforms {
    /// The URL to fetch for `username` on this platform; `None` where
    /// `username` is not a handle, which no account on these platforms has.
    pub fn request_url(&self, username: &str) -> (r: Option<String>)
        ensures
            r is Some == is_handle(username@),
            r matches Some(url) ==> url@ == request_url_spec(*self, username@),
    {
        if !is_valid_username(username) {
            return None;
        }
        let url = match self {
            Platforms::Codechef => {
                let mut url = String::from_str("https://www.codechef.com/users/");
                url.append(username);
                url
            },
            Platforms::Leetcode => {
                let mut url = String::from_str(
                    "https://leetcode.com/graphql?query=query { matchedUser(username: \"",
                );
                url.append(username);
                url.append("\") { profile { realName } } }");
                url
            },
            Platforms::Codeforces => {
                let mut url = String::from_str("https://codeforces.com/api/user.info?handles=");
                url.append(username);
                url
            },
        };
        Some(url)
    }
}

/// The matching rule applied to extracted text fragments; a failure to
/// extract them is passed on unchanged.
pub fn judge_fragments(scraped: Result<Vec<String>, FailReason>, code: &str) -> (r: Outcome)
    ensures
        r == fragments_outcome(result_texts(scraped), code@),
{
    match scraped {
        Err(e) => Outcome::Failed(e),
        Ok(fragments) => if contains_code(&fragments, code) {
            Outcome::Verified
        } else {
            Outcome::NotVerified
        },
    }
}

/// CodeChef: the code must be a word of the text of the profile page's
/// first `<title>` element. A transport failure gives `Failed(Transport)`;
/// a page without a title gives `Failed(NoMatch)`.
pub fn codechef(fetched: Result<String, TransportError>, code: &str) -> (r: Outcome)
    ensures
        r == codechef_outcome(fetched, code@),
{
    match fetched {
        Err(_) => Outcome::Failed(FailReason::Transport),
        Ok(page) => judge_fragments(scrap_helper(page.as_str(), "title"), code),
    }
}

/// The LeetCode outcome for a decoded GraphQL answer `doc`.
pub fn leetcode_on_document(doc: &Json, code: &str) -> (r: Outcome)
    ensures
        r == found_outcome(name_has_code(leetcode_name(*doc), code@)),
{
    let data = get_member(Some(doc), "data");
    let user = get_member(data, "matchedUser");
    let profile = get_member(user, "profile");
    match get_text(get_member(profile, "realName")) {
        Some(name) => if has_code(name.as_str(), code) {
            Outcome::Verified
        } else {
            Outcome::NotVerified
        },
        None => Outcome::NotVerified,
    }
}

/// The LeetCode verdict on the GraphQL answer `body`.
pub fn leetcode_verdict_of(body: &str, code: &str) -> (r: Outcome)
    ensures
        r == leetcode_verdict(body@, code@),
{
    match decode(body) {
        None => Outcome::Failed(FailReason::Decode),
        Some(doc) => leetcode_on_document(&doc, code),
    }
}

/// LeetCode: the code must be a word of the account's real name, read from
/// the GraphQL answer. A missing name is `NotVerified`; a transport failure
/// gives `Failed(Transport)` and an answer that is not JSON `Failed(Decode)`.
pub fn leetcode(fetched: Result<String, TransportError>, code: &str) -> (r: Outcome)
    ensures
        r == leetcode_outcome(fetched, code@),
{
    match fetched {
        Err(_) => Outcome::Failed(FailReason::Transport),
        Ok(body) => leetcode_verdict_of(body.as_str(), code),
    }
}

/// Whether the name `name`, where present, has `code` among its words.
fn name_check(name: Option<&String>, code: &str) -> (r: bool)
    ensures
        r == name_has_code(
            match name {
                Some(n) => Some(n@),
                None => None,
            },
            code@,
        ),
{
    match name {
        Some(n) => has_code(n.as_str(), code),
        None => false,
    }
}

/// The Codeforces outcome for a decoded `user.info` answer `doc`.
pub fn codeforces_on_document(doc: &Json, code: &str) -> (r: Outcome)
    ensures
        r == codeforces_document_outcome(*doc, code@),
{
    let failed = String::from_str("FAILED");
    let status_failed = match get_text(get_member(Some(doc), "status")) {
        Some(status) => *status == failed,
        None => false,
    };
    if status_failed {
        Outcome::NotVerified
    } else {
        let user = get_first(get_member(Some(doc), "result"));
        if user.is_none() {
            Outcome::NotVerified
        } else if name_check(get_text(get_member(user, "firstName")), code) {
            Outcome::Verified
        } else if name_check(get_text(get_member(user, "lastName")), code) {
            Outcome::Verified
        } else {
            Outcome::NotVerified
        }
    }
}

/// The Codeforces verdict on the `user.info` answer `body`.
pub fn codeforces_verdict_of(body: &str, code: &str) -> (r: Outcome)
    ensures
        r == codeforces_verdict(body@, code@),
{
    match decode(body) {
        None => Outcome::Failed(FailReason::Decode),
        Some(doc) => codeforces_on_document(&doc, code),
    }
}

/// Codeforces: the code must be a word of the first or the last name of the
/// first user in the `user.info` answer. A `"FAILED"` status, or missing
/// fields, are `NotVerified`; a transport failure gives `Failed(Transport)`
/// and an answer that is not JSON `Failed(Decode)`.
pub fn codeforces(fetched: Result<String, TransportError>, code: &str) -> (r: Outcome)
    ensures
        r == codeforces_outcome(fetched, code@),
{
    match fetched {
        Err(_) => Outcome::Failed(FailReason::Transport),
        Ok(body) => codeforces_verdict_of(body.as_str(), code),
    }
}

/// Dispatches to the verifier of `platform` on what the fetch of
/// `platform.request_url(username)` gave.
pub fn verify_response(platform: Platforms, fetched: Result<String, TransportError>, code: &str) -> (r: Outcome)
    ensures
        fetched is Err ==> r == Outcome::Failed(FailReason::Transport),
        platform == Platforms::Leetcode ==> r == leetcode_outcome(fetched, code@),
        platform == Platforms::Codeforces ==> r == codeforces_outcome(fetched, code@),
        platform == Platforms::Codechef ==> r == codechef_outcome(fetched, code@),
{
    match platform {
        Platforms::Leetcode => leetcode(fetched, code),
        Platforms::Codechef => codechef(fetched, code),
        Platforms::Codeforces => codeforces(fetched, code),
    }
}

/// What the HTTP boundary answers for `outcome`: the status code, and the
/// `status` and `message` of the JSON envelope. A failure is answered as a
/// server error without its reason.
pub fn reply_for(outcome: Outcome) -> (r: (u16, &'static str, &'static str))
    ensures
        outcome == Outcome::Verified ==> r.0 == 200 && r.1@ == "success"@ && r.2@
            == "Authentication successful"@,
        outcome == Outcome::NotVerified ==> r.0 == 401 && r.1@ == "error"@ && r.2@
            == "Authentication failed"@,
        outcome is Failed ==> r.0 == 500 && r.1@ == "error"@ && r.2@ == "Internal server error"@,
{
    match outcome {
        Outcome::Verified => (200, "success", "Authentication successful"),
        Outcome::NotVerified => (401, "error", "Authentication failed"),
        Outcome::Failed(_) => (500, "error", "Internal server error"),
    }
}

/// Repeating a verification against unchanged data with the same code gives
/// the same outcome: on every platform the outcome depends on the text that
/// the fetch gave (or its failure) and on the code alone.
pub proof fn outcome_is_repeatable(
    first: Result<String, TransportError>,
    second: Result<String, TransportError>,
    code: Seq<char>,
)
    requires
        first is Err <==> second is Err,
        first is Ok ==> first->Ok_0@ == second->Ok_0@,
    ensures
        codechef_outcome(first, code) == codechef_outcome(second, code),
        leetcode_outcome(first, code) == leetcode_outcome(second, code),
        codeforces_outcome(first, code) == codeforces_outcome(second, code),
{
}

} // verus!
