use cp_authenticator::authenticator::{
    codechef, codeforces, codeforces_on_document, is_valid_username, judge_fragments, leetcode,
    leetcode_on_document, reply_for, verify_response, FailReason, Outcome,
    Platforms, TransportError,
};
use cp_authenticator::json::{decode, Json};
use cp_authenticator::matching::{contains_code, has_code, white_space};
use cp_authenticator::scrape::scrap_helper;

fn frags(items: &[&str]) -> Vec<String> {
    items.iter().map(|s| s.to_string()).collect()
}

fn page_with_title(title: &str) -> String {
    format!("<html><head><title>{}</title></head><body><p>x</p></body></html>", title)
}

#[test]
fn match_is_case_sensitive() {
    assert!(!contains_code(&frags(&["ABC def"]), "abc"));
    assert!(contains_code(&frags(&["ABC def"]), "ABC"));
}

#[test]
fn match_needs_whitespace_boundary() {
    assert!(!contains_code(&frags(&["ABCDEF"]), "ABC"));
    assert!(!contains_code(&frags(&["xABC"]), "ABC"));
}

#[test]
fn match_finds_token_in_any_fragment() {
    assert!(contains_code(&frags(&["first one", "second\tXYZ\nthird"]), "XYZ"));
    assert!(contains_code(&frags(&["  padded   code7  "]), "code7"));
    assert!(!contains_code(&frags(&["first one", "second"]), "third"));
}

#[test]
fn match_edge_cases() {
    assert!(!contains_code(&frags(&[]), "abc"));
    assert!(!contains_code(&frags(&[""]), "abc"));
    assert!(!contains_code(&frags(&["a b"]), ""));
    assert!(!contains_code(&frags(&["a b"]), "a b"));
    assert!(contains_code(&frags(&["abc"]), "abc"));
    assert!(contains_code(&frags(&["name\u{3000}tag"]), "tag"));
}

#[test]
fn has_code_on_single_text() {
    assert!(has_code("John XYZ123", "XYZ123"));
    assert!(!has_code("John XYZ1234", "XYZ123"));
}

#[test]
fn request_urls() {
    assert_eq!(
        Platforms::Codechef.request_url("alice"),
        Some("https://www.codechef.com/users/alice".to_string())
    );
    assert_eq!(
        Platforms::Codeforces.request_url("tourist"),
        Some("https://codeforces.com/api/user.info?handles=tourist".to_string())
    );
    assert_eq!(
        Platforms::Leetcode.request_url("bob_1.x-y"),
        Some("https://leetcode.com/graphql?query=query { matchedUser(username: \"bob_1.x-y\") { profile { realName } } }".to_string())
    );
}

#[test]
fn request_url_refuses_unsafe_usernames() {
    assert_eq!(Platforms::Leetcode.request_url("a\") { x }"), None);
    assert_eq!(Platforms::Codeforces.request_url("a&b"), None);
    assert_eq!(Platforms::Codechef.request_url("a b"), None);
    assert_eq!(Platforms::Codechef.request_url(""), None);
    assert_eq!(Platforms::Codechef.request_url("é"), None);
    assert!(is_valid_username("Abc_09-x.y"));
    assert!(!is_valid_username("a/b"));
}

#[test]
fn scrape_title_text() {
    let page = page_with_title("code123 - user - CodeChef");
    assert_eq!(
        scrap_helper(&page, "title"),
        Ok(vec!["code123 - user - CodeChef".to_string()])
    );
}

#[test]
fn scrape_errors() {
    assert_eq!(scrap_helper("<html></html>", "div.missing"), Err(FailReason::NoMatch));
    assert_eq!(scrap_helper("<html></html>", "[[["), Err(FailReason::Selector));
    assert_eq!(
        scrap_helper("<html><body><p></p></body></html>", "p"),
        Ok(Vec::<String>::new())
    );
}

#[test]
fn codechef_title_scenario() {
    let page = page_with_title("code123 - user - CodeChef");
    assert_eq!(codechef(Ok(page.clone()), "code123"), Outcome::Verified);
    assert_eq!(codechef(Ok(page), "code999"), Outcome::NotVerified);
}

#[test]
fn codechef_missing_title_fails() {
    assert_eq!(
        codechef(Ok("plain text".to_string()), "code123"),
        // html5ever always builds a document; a text without <title> has none
        Outcome::Failed(FailReason::NoMatch)
    );
}

#[test]
fn leetcode_scenarios() {
    let body = r#"{"data":{"matchedUser":{"profile":{"realName":"John XYZ123"}}}}"#;
    assert_eq!(leetcode(Ok(body.to_string()), "XYZ123"), Outcome::Verified);
    assert_eq!(leetcode(Ok(body.to_string()), "xyz123"), Outcome::NotVerified);
    let missing = r#"{"data":{"matchedUser":null}}"#;
    assert_eq!(leetcode(Ok(missing.to_string()), "XYZ123"), Outcome::NotVerified);
}

#[test]
fn leetcode_decode_error() {
    assert_eq!(
        leetcode(Ok("not json".to_string()), "XYZ123"),
        Outcome::Failed(FailReason::Decode)
    );
}

#[test]
fn codeforces_scenarios() {
    let failed = r#"{"status":"FAILED","comment":"handles: not found"}"#;
    assert_eq!(codeforces(Ok(failed.to_string()), "ABC123"), Outcome::NotVerified);
    assert_eq!(codeforces(Ok(failed.to_string()), ""), Outcome::NotVerified);
    let ok = r#"{"status":"OK","result":[{"firstName":"ABC123","lastName":"Doe"}]}"#;
    assert_eq!(codeforces(Ok(ok.to_string()), "ABC123"), Outcome::Verified);
    assert_eq!(codeforces(Ok(ok.to_string()), "Doe"), Outcome::Verified);
    assert_eq!(codeforces(Ok(ok.to_string()), "Smith"), Outcome::NotVerified);
}

#[test]
fn codeforces_missing_fields() {
    let no_result = r#"{"status":"OK"}"#;
    assert_eq!(codeforces(Ok(no_result.to_string()), "A"), Outcome::NotVerified);
    let empty = r#"{"status":"OK","result":[]}"#;
    assert_eq!(codeforces(Ok(empty.to_string()), "A"), Outcome::NotVerified);
    let no_names = r#"{"status":"OK","result":[{"handle":"A"}]}"#;
    assert_eq!(codeforces(Ok(no_names.to_string()), "A"), Outcome::NotVerified);
    let no_status = r#"{"result":[{"firstName":"A"}]}"#;
    assert_eq!(codeforces(Ok(no_status.to_string()), "A"), Outcome::Verified);
    assert_eq!(
        codeforces(Ok("{".to_string()), "A"),
        Outcome::Failed(FailReason::Decode)
    );
}

#[test]
fn transport_failure_on_every_platform() {
    for p in [Platforms::Codechef, Platforms::Leetcode, Platforms::Codeforces] {
        assert_eq!(
            verify_response(p, Err(TransportError), "abc"),
            Outcome::Failed(FailReason::Transport)
        );
    }
}

#[test]
fn dispatch_reaches_each_verifier() {
    let cf = r#"{"status":"OK","result":[{"firstName":"ABC123","lastName":"Doe"}]}"#;
    assert_eq!(
        verify_response(Platforms::Codeforces, Ok(cf.to_string()), "ABC123"),
        Outcome::Verified
    );
    let lc = r#"{"data":{"matchedUser":{"profile":{"realName":"John XYZ123"}}}}"#;
    assert_eq!(
        verify_response(Platforms::Leetcode, Ok(lc.to_string()), "XYZ123"),
        Outcome::Verified
    );
    let page = page_with_title("code123 - user - CodeChef");
    assert_eq!(
        verify_response(Platforms::Codechef, Ok(page), "code123"),
        Outcome::Verified
    );
}

#[test]
fn repeated_verification_agrees() {
    let lc = r#"{"data":{"matchedUser":{"profile":{"realName":"John XYZ123"}}}}"#;
    let a = verify_response(Platforms::Leetcode, Ok(lc.to_string()), "XYZ123");
    let b = verify_response(Platforms::Leetcode, Ok(lc.to_string()), "XYZ123");
    assert_eq!(a, b);
    let page = page_with_title("code123 - user - CodeChef");
    let c = verify_response(Platforms::Codechef, Ok(page.clone()), "code999");
    let d = verify_response(Platforms::Codechef, Ok(page), "code999");
    assert_eq!(c, d);
}

#[test]
fn judge_passes_failures_on() {
    assert_eq!(
        judge_fragments(Err(FailReason::Selector), "x"),
        Outcome::Failed(FailReason::Selector)
    );
    assert_eq!(judge_fragments(Ok(frags(&["a x"])), "x"), Outcome::Verified);
}

#[test]
fn decode_builds_documents() {
    match decode(r#"{"a":[1,"s",true,null]}"#) {
        Some(Json::Object(fields)) => {
            assert_eq!(fields.len(), 1);
            assert_eq!(fields[0].0, "a");
            match &fields[0].1 {
                Json::Array(items) => {
                    assert_eq!(items.len(), 4);
                    assert!(matches!(&items[0], Json::Number(n) if n == "1"));
                    assert!(matches!(&items[1], Json::Text(s) if s == "s"));
                    assert!(matches!(&items[2], Json::Bool(true)));
                    assert!(matches!(&items[3], Json::Null));
                }
                other => panic!("unexpected {:?}", other),
            }
        }
        other => panic!("unexpected {:?}", other),
    }
    assert!(decode("{").is_none());
}

#[test]
fn replies_per_outcome() {
    assert_eq!(
        reply_for(Outcome::Verified),
        (200, "success", "Authentication successful")
    );
    assert_eq!(
        reply_for(Outcome::NotVerified),
        (401, "error", "Authentication failed")
    );
    assert_eq!(
        reply_for(Outcome::Failed(FailReason::Transport)),
        (500, "error", "Internal server error")
    );
}

#[test]
fn codeforces_without_status_reads_result() {
    let body = r#"{"result":[{"firstName":"ABC123"}]}"#;
    assert_eq!(codeforces(Ok(body.to_string()), "ABC123"), Outcome::Verified);
    let other = r#"{"status":"OK","result":[{"firstName":"X","lastName":"ABC123"}]}"#;
    assert_eq!(codeforces(Ok(other.to_string()), "ABC123"), Outcome::Verified);
}

#[test]
fn scrape_empty_title_is_empty_list() {
    let page = "<html><head><title></title></head><body></body></html>";
    assert_eq!(scrap_helper(page, "title"), Ok(Vec::<String>::new()));
}

#[test]
fn scrape_reads_error_page_title() {
    let page = "<html><head><title>Not Found</title></head></html>";
    assert_eq!(scrap_helper(page, "title"), Ok(vec!["Not Found".to_string()]));
}

#[test]
fn scrape_takes_first_match_only() {
    let page = "<html><body><p>a</p><p>b</p></body></html>";
    assert_eq!(scrap_helper(page, "p"), Ok(vec!["a".to_string()]));
}

#[test]
fn scrape_returns_all_text_in_order() {
    let page = "<html><body><div>a<b>b</b>c</div></body></html>";
    assert_eq!(
        scrap_helper(page, "div"),
        Ok(vec!["a".to_string(), "b".to_string(), "c".to_string()])
    );
}

#[test]
fn scrape_no_match_is_error() {
    let page = "<html><body><p>x</p></body></html>";
    assert_eq!(scrap_helper(page, "table"), Err(FailReason::NoMatch));
}

#[test]
fn white_space_agrees_with_std() {
    for c in (0u32..=0x10FFFF).filter_map(char::from_u32) {
        assert_eq!(white_space(c), c.is_whitespace(), "{:?}", c);
    }
}

#[test]
fn verdicts_on_decoded_documents() {
    let lc = decode(r#"{"data":{"matchedUser":{"profile":{"realName":"John XYZ123"}}}}"#).unwrap();
    assert_eq!(leetcode_on_document(&lc, "XYZ123"), Outcome::Verified);
    assert_eq!(leetcode_on_document(&lc, "John XYZ123"), Outcome::NotVerified);
    let lc_missing = decode(r#"{"data":{"matchedUser":null}}"#).unwrap();
    assert_eq!(leetcode_on_document(&lc_missing, "XYZ123"), Outcome::NotVerified);
    let cf = decode(r#"{"status":"OK","result":[{"firstName":"ABC123","lastName":"Doe"}]}"#).unwrap();
    assert_eq!(codeforces_on_document(&cf, "ABC123"), Outcome::Verified);
    assert_eq!(codeforces_on_document(&cf, "Doe"), Outcome::Verified);
    let cf_failed = decode(r#"{"status":"FAILED","result":[{"firstName":"ABC123"}]}"#).unwrap();
    assert_eq!(codeforces_on_document(&cf_failed, "ABC123"), Outcome::NotVerified);
}
