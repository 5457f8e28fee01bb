use crate::domain::entity::health::Health;
use crate::infra::api_response::HttpStatus;
use crate::usecase::health_usecase::HealthUsecase;
use vstd::prelude::*;

verus! {

/// The answer of the health endpoint: status 200 and the report.
pub fn health() -> (response: (HttpStatus, Health))
    ensures
        response.0.value() == 200,
        response.1.status@ == "OK"@,
        response.1.version@ == "1.0.0"@,
        response.1.uptime == 0,
{
    let health_usecase = HealthUsecase::new();
    let health = health_usecase.get_health();
    (HttpStatus::ok(), health)
}

/// The media type that `mime_guess` guesses from the extension of a path,
/// `application/octet-stream` where it has no guess.
pub uninterp spec fn guessed_content_type(path: Seq<char>) -> Seq<char>;

/// Guesses with `mime_guess::from_path` and takes the first guess or
/// `application/octet-stream`. Claimed: the answer depends on the path
/// alone.
#[verifier::external_body]
fn guess_content_type(path: &str) -> (content_type: String)
    ensures
        content_type@ == guessed_content_type(path@),
{
    mime_guess::from_path(path).first_or_octet_stream().as_ref().to_string()
}

/// The directory of the assets, as a path begins with it.
pub const ASSETS_PREFIX: &'static str = "assets/";

/// The text without the slashes it begins with.
pub open spec fn without_leading_slashes(text: Seq<char>) -> Seq<char>
    decreases text.len(),
{
    if text.len() > 0 && text[0] == '/' {
        without_leading_slashes(text.skip(1))
    } else {
        text
    }
}

/// The pattern stands in the text at position `at`.
pub open spec fn occurs_at(text: Seq<char>, pattern: Seq<char>, at: int) -> bool {
    &&& 0 <= at
    &&& at + pattern.len() <= text.len()
    &&& text.subrange(at, at + pattern.len()) == pattern
}

/// The text from position `from` on, without the occurrences of a pattern
/// of at least one character: they are taken out from left to right, and an
/// occurrence that overlaps one taken out before it stays.
pub open spec fn without_occurrences(text: Seq<char>, pattern: Seq<char>, from: int) -> Seq<
    char,
>
    decreases text.len() - from,
{
    if from < 0 || from >= text.len() || pattern.len() == 0 {
        Seq::empty()
    } else if occurs_at(text, pattern, from) {
        without_occurrences(text, pattern, from + pattern.len())
    } else {
        seq![text[from]] + without_occurrences(text, pattern, from + 1)
    }
}

/// The name of the asset that the path of a request asks for: the path
/// without its leading slashes and, where it then begins with the directory
/// of the assets, without any occurrence of that directory.
pub open spec fn asset_name(uri_path: Seq<char>) -> Seq<char> {
    let path = without_leading_slashes(uri_path);
    if occurs_at(path, ASSETS_PREFIX@, 0) {
        without_occurrences(path, ASSETS_PREFIX@, 0)
    } else {
        path
    }
}

/// Whether the pattern stands in the text at a position.
fn starts_with_at(text: &str, at: usize, pattern: &str) -> (found: bool)
    requires
        at <= text@.len(),
    ensures
        found == occurs_at(text@, pattern@, at as int),
{
    let text_len = text.unicode_len();
    let pattern_len = pattern.unicode_len();
    if pattern_len > text_len - at {
        return false;
    }
    let mut i: usize = 0;
    while i < pattern_len
        invariant
            i <= pattern_len,
            text_len == text@.len(),
            pattern_len == pattern@.len(),
            at + pattern_len <= text_len,
            forall|j: int| 0 <= j < i ==> text@[at + j] == pattern@[j],
        decreases pattern_len - i,
    {
        if text.get_char(at + i) != pattern.get_char(i) {
            assert(text@.subrange(at as int, at + pattern_len)[i as int] != pattern@[i as int]);
            return false;
        }
        i += 1;
    }
    assert(text@.subrange(at as int, at + pattern_len) =~= pattern@);
    true
}

/// The text without the occurrences of a pattern.
fn remove_occurrences(text: &str, pattern: &str) -> (rest: String)
    requires
        pattern@.len() > 0,
    ensures
        rest@ == without_occurrences(text@, pattern@, 0),
{
    let len = text.unicode_len();
    let pattern_len = pattern.unicode_len();
    let mut rest = String::new();
    let mut i: usize = 0;
    while i < len
        invariant
            i <= len,
            len == text@.len(),
            pattern_len == pattern@.len(),
            pattern_len > 0,
            rest@ + without_occurrences(text@, pattern@, i as int) == without_occurrences(
                text@,
                pattern@,
                0,
            ),
        decreases len - i,
    {
        if starts_with_at(text, i, pattern) {
            i += pattern_len;
        } else {
            let ghost before = rest@;
            rest.append(text.substring_char(i, i + 1));
            proof {
                assert(text@.subrange(i as int, i + 1) =~= seq![text@[i as int]]);
                assert(rest@ + without_occurrences(text@, pattern@, i + 1) =~= before
                    + without_occurrences(text@, pattern@, i as int));
            }
            i += 1;
        }
    }
    assert(rest@ + Seq::<char>::empty() =~= rest@);
    rest
}

/// The name of the asset that the path of a request asks for.
pub fn asset_path(uri_path: &str) -> (name: String)
    ensures
        name@ == asset_name(uri_path@),
{
    let len = uri_path.unicode_len();
    let mut start: usize = 0;
    proof {
        assert(uri_path@.skip(0) =~= uri_path@);
    }
    while start < len && uri_path.get_char(start) == '/'
        invariant
            start <= len,
            len == uri_path@.len(),
            without_leading_slashes(uri_path@) == without_leading_slashes(
                uri_path@.skip(start as int),
            ),
        decreases len - start,
    {
        proof {
            assert(uri_path@.skip(start as int).skip(1) =~= uri_path@.skip(start + 1));
        }
        start += 1;
    }
    let path = uri_path.substring_char(start, len);
    proof {
        assert(path@ =~= uri_path@.skip(start as int));
    }
    if starts_with_at(path, 0, ASSETS_PREFIX) {
        proof {
            reveal_strlit("assets/");
        }
        remove_occurrences(path, ASSETS_PREFIX)
    } else {
        String::from_str(path)
    }
}

/// A file of the assets, by its name.
#[derive(Debug)]
pub struct StaticFile<T>(pub T);

/// The answer to a request for an asset.
#[derive(Debug)]
pub enum StaticResponse {
    Found { content_type: String, data: Vec<u8> },
    NotFound,
}

impl StaticFile<String> {
    /// The answer for the file, given what the assets hold under its name:
    /// the content under the media type that its name lets guess, or that
    /// there is no such file.
    pub fn respond(self, content: Option<Vec<u8>>) -> (response: StaticResponse)
        ensures
            match content {
                Some(data) => response matches StaticResponse::Found { content_type, data: sent }
                    && content_type@ == guessed_content_type(self.0@) && sent == data,
                None => response is NotFound,
            },
    {
        match content {
            Some(data) => StaticResponse::Found {
                content_type: guess_content_type(self.0.as_str()),
                data,
            },
            None => StaticResponse::NotFound,
        }
    }
}

/// `GET /assets/*file`: the file that the path of the request names.
pub fn static_handler(uri_path: &str) -> (file: StaticFile<String>)
    ensures
        file.0@ == asset_name(uri_path@),
{
    StaticFile(asset_path(uri_path))
}

} // verus!
