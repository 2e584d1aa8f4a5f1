//! Acquiring the registry index, author profiles and reviews.
//!
//! The caller reads the cache and talks to the network; the functions here
//! decide what each answer means.

use crate::api::{
    author_mapped, categories_mapped, describes_index_defect, describes_profile_defect,
    describes_reviews_defect, index_clean, map_author_profile, map_registry_index,
    map_reviews_response, modules_mapped, profile_clean, reviews_clean, reviews_mapped,
};
use crate::api_models;
use crate::domain::author::AuthorProfile;
use crate::domain::registry::RegistryIndex;
use crate::domain::review::ReviewsResponse;
use crate::text::{is_prefixed, joined_text, string_of};
use vstd::utf8::encode_utf8;
use vstd::prelude::*;

verus! {

/// The HTTP status that says a resource does not exist.
pub const NOT_FOUND: u16 = 404;

/// What to do once the cache was consulted.
pub enum CacheVerdict {
    /// The cache held an index: use it, and do not ask the network.
    UseCached(RegistryIndex),
    /// The cache was missing or unreadable: ask the network.
    FetchFromNetwork,
}

/// How a registry request begins.
#[derive(Debug, Clone, Copy, PartialEq, Eq, Structural)]
pub enum FirstStep {
    /// Read the cache file and report what it held.
    ReadCache,
    /// Delete the cache file, whether or not it exists, then ask the network.
    DeleteCacheThenFetch,
}

/// Loading starts at the cache.
pub fn load_registry() -> (step: FirstStep)
    ensures
        step == FirstStep::ReadCache,
{
    FirstStep::ReadCache
}

/// Refreshing starts by deleting the cache, so that the network is asked
/// even where a cache existed.
pub fn refresh_registry() -> (step: FirstStep)
    ensures
        step == FirstStep::DeleteCacheThenFetch,
{
    FirstStep::DeleteCacheThenFetch
}

/// Decides on the cache: an index that was read and parsed is used at once;
/// otherwise the network is asked.
pub fn registry_from_cache(cached: Option<RegistryIndex>) -> (verdict: CacheVerdict)
    ensures
        match cached {
            Some(index) => verdict matches CacheVerdict::UseCached(used) && used == index,
            None => verdict is FetchFromNetwork,
        },
{
    match cached {
        Some(index) => CacheVerdict::UseCached(index),
        None => CacheVerdict::FetchFromNetwork,
    }
}

/// What the network's answer to the index request means. A transport
/// failure and a payload that breaks a rule both fail the request; a clean
/// payload gives the index, which the caller then stores in the cache as
/// well as it can.
pub fn registry_from_network(fetched: Result<api_models::RegistryIndex, String>) -> (outcome:
    Result<RegistryIndex, String>)
    ensures
        match fetched {
            Err(detail) => outcome matches Err(message) && message@ == "Network error: "@
                + detail@,
            Ok(api) => {
                &&& outcome is Ok <==> index_clean(api)
                &&& outcome matches Ok(index) ==> {
                    &&& index.version == api.version
                    &&& modules_mapped(api.modules@, index.modules@)
                    &&& categories_mapped(api.categories@, index.categories@)
                }
                &&& outcome matches Err(message) ==> exists|inner: Seq<char>| #[trigger]
                    is_prefixed(message@, "Invalid registry data: "@, inner)
                        && describes_index_defect(inner, api)
            },
        },
{
    match fetched {
        Err(detail) => Err(joined_text("Network error: ", detail.as_str())),
        Ok(api) => {
            let ghost mut witness: Seq<char> = Seq::empty();
            let outcome = match map_registry_index(api) {
                Ok(index) => Ok(index),
                Err(message) => {
                    let worded = joined_text("Invalid registry data: ", message.as_str());
                    proof {
                        witness = message@;
                    }
                    Err(worded)
                },
            };
            assert(outcome is Err ==> is_prefixed(
                outcome->Err_0@,
                "Invalid registry data: "@,
                witness,
            ) && describes_index_defect(witness, api));
            outcome
        },
    }
}

/// The network's answer to a request for one resource.
pub enum Fetched<T> {
    /// The resource arrived.
    Found(T),
    /// The server answered with an error status.
    ErrorResponse { status: u16, detail: String },
    /// No answer could be had.
    Failed { detail: String },
}

/// Whether the list of an author's modules is to be asked for: only once
/// the profile has arrived. Without the profile the request has failed and
/// nothing more is asked.
pub fn modules_wanted<T>(profile: &Fetched<T>) -> (wanted: bool)
    ensures
        wanted == (*profile is Found),
{
    match profile {
        Fetched::Found(_) => true,
        _ => false,
    }
}

/// What the two answers to an author request mean. Without the profile there
/// is no result: a 404 says that the user does not exist, anything else is a
/// network error. Without the module list the profile is still returned, with
/// no modules.
pub fn author_profile_from_responses(
    username: &str,
    profile: Fetched<api_models::UserProfile>,
    modules: Result<Vec<api_models::RegistryModule>, String>,
) -> (outcome: Result<AuthorProfile, String>)
    ensures
        match profile {
            Fetched::ErrorResponse { status, detail } => if status == NOT_FOUND {
                outcome matches Err(message) && message@ == "User not found: "@ + username@
            } else {
                outcome matches Err(message) && message@ == "Network error: "@ + detail@
            },
            Fetched::Failed { detail } => outcome matches Err(message) && message@
                == "Network error: "@ + detail@,
            Fetched::Found(found) => {
                let sent = listed_modules(modules);
                &&& outcome is Ok <==> profile_clean(found, sent)
                &&& outcome matches Ok(result) ==> author_mapped(found, result.author)
                    && modules_mapped(sent, result.modules@)
                &&& outcome matches Err(message) ==> exists|inner: Seq<char>| #[trigger]
                    is_prefixed(message@, "Failed to parse author profile: "@, inner)
                        && describes_profile_defect(inner, found, sent)
            },
        },
{
    let found = match profile {
        Fetched::Found(found) => found,
        Fetched::ErrorResponse { status, detail } => {
            if status == NOT_FOUND {
                return Err(joined_text("User not found: ", username));
            }
            return Err(joined_text("Network error: ", detail.as_str()));
        },
        Fetched::Failed { detail } => {
            return Err(joined_text("Network error: ", detail.as_str()));
        },
    };
    let sent = match modules {
        Ok(sent) => sent,
        Err(_) => Vec::new(),
    };
    let ghost listed = sent@;
    let ghost mut witness: Seq<char> = Seq::empty();
    let outcome = match map_author_profile(found, sent) {
        Ok(result) => Ok(result),
        Err(message) => {
            proof {
                witness = message@;
            }
            Err(joined_text("Failed to parse author profile: ", message.as_str()))
        },
    };
    assert(outcome is Err ==> is_prefixed(
        outcome->Err_0@,
        "Failed to parse author profile: "@,
        witness,
    ) && describes_profile_defect(witness, found, listed));
    outcome
}

/// The modules that count as sent: those of the answer, or none where the
/// request for them failed.
pub open spec fn listed_modules(modules: Result<Vec<api_models::RegistryModule>, String>) -> Seq<
    api_models::RegistryModule,
> {
    match modules {
        Ok(sent) => sent@,
        Err(_) => Seq::empty(),
    }
}

/// What the answer to a reviews request means. The status 404 says that the
/// module has no reviews, which is no failure; any other error status and a
/// transport failure fail the request.
pub fn reviews_from_response(response: Fetched<api_models::ReviewsPage>) -> (outcome: Result<
    ReviewsResponse,
    String,
>)
    ensures
        match response {
            Fetched::ErrorResponse { status, detail } => if status == NOT_FOUND {
                outcome matches Ok(empty) && empty.reviews@.len() == 0 && empty.total == 0
            } else {
                outcome matches Err(message) && message@ == "Network error: "@ + detail@
            },
            Fetched::Failed { detail } => outcome matches Err(message) && message@
                == "Network error: "@ + detail@,
            Fetched::Found(page) => {
                &&& outcome is Ok <==> reviews_clean(page.reviews@, page.reviews@.len() as int)
                    && page.total >= 0
                &&& outcome matches Ok(result) ==> result.total == page.total && reviews_mapped(
                    page.reviews@,
                    result.reviews@,
                )
                &&& outcome matches Err(message) ==> exists|inner: Seq<char>| #[trigger]
                    is_prefixed(message@, "Failed to parse reviews: "@, inner)
                        && describes_reviews_defect(inner, page)
            },
        },
{
    match response {
        Fetched::Found(page) => {
            let ghost mut witness: Seq<char> = Seq::empty();
            let outcome = match map_reviews_response(page) {
                Ok(result) => Ok(result),
                Err(message) => {
                    proof {
                        witness = message@;
                    }
                    Err(joined_text("Failed to parse reviews: ", message.as_str()))
                },
            };
            assert(outcome is Err ==> is_prefixed(
                outcome->Err_0@,
                "Failed to parse reviews: "@,
                witness,
            ) && describes_reviews_defect(witness, page));
            outcome
        },
        Fetched::ErrorResponse { status, detail } => {
            if status == NOT_FOUND {
                Ok(ReviewsResponse::default())
            } else {
                Err(joined_text("Network error: ", detail.as_str()))
            }
        },
        Fetched::Failed { detail } => Err(joined_text("Network error: ", detail.as_str())),
    }
}

/// The byte `b` stands in an address as it is: an ASCII letter or digit, or
/// one of `-`, `_`, `.` and `~`.
pub open spec fn is_unreserved(b: u8) -> bool {
    ||| (0x30 <= b && b <= 0x39)
    ||| (0x41 <= b && b <= 0x5a)
    ||| (0x61 <= b && b <= 0x7a)
    ||| b == 0x2d
    ||| b == 0x5f
    ||| b == 0x2e
    ||| b == 0x7e
}

/// The hexadecimal digit for `n`, in upper case.
pub open spec fn hex_digit(n: int) -> char {
    if n == 0 {
        '0'
    } else if n == 1 {
        '1'
    } else if n == 2 {
        '2'
    } else if n == 3 {
        '3'
    } else if n == 4 {
        '4'
    } else if n == 5 {
        '5'
    } else if n == 6 {
        '6'
    } else if n == 7 {
        '7'
    } else if n == 8 {
        '8'
    } else if n == 9 {
        '9'
    } else if n == 10 {
        'A'
    } else if n == 11 {
        'B'
    } else if n == 12 {
        'C'
    } else if n == 13 {
        'D'
    } else if n == 14 {
        'E'
    } else {
        'F'
    }
}

/// How one byte stands in an address: as its ASCII character where it is
/// unreserved, else as `%` and its two hexadecimal digits.
pub open spec fn encoded_byte(b: u8) -> Seq<char> {
    if is_unreserved(b) {
        seq![b as char]
    } else {
        seq!['%', hex_digit(b as int / 16), hex_digit(b as int % 16)]
    }
}

/// How bytes stand in an address: each encoded, in order.
pub open spec fn percent_encoded(bytes: Seq<u8>) -> Seq<char>
    decreases bytes.len(),
{
    if bytes.len() == 0 {
        Seq::empty()
    } else {
        percent_encoded(bytes.drop_last()) + encoded_byte(bytes.last())
    }
}

/// How `text` stands in an address as one path segment: its UTF-8 bytes,
/// percent-encoded.
pub open spec fn encoded_segment(text: Seq<char>) -> Seq<char> {
    percent_encoded(encode_utf8(text))
}

/// `text` can name something as one path segment: it is not empty and
/// neither `.` nor `..`, which name the path itself and its parent.
pub open spec fn is_segment(text: Seq<char>) -> bool {
    text.len() > 0 && text != seq!['.'] && text != seq!['.', '.']
}

/// The hexadecimal digit for `n`.
fn hex_of(n: u8) -> (c: char)
    requires
        n < 16,
    ensures
        c == hex_digit(n as int),
{
    if n == 0 {
        '0'
    } else if n == 1 {
        '1'
    } else if n == 2 {
        '2'
    } else if n == 3 {
        '3'
    } else if n == 4 {
        '4'
    } else if n == 5 {
        '5'
    } else if n == 6 {
        '6'
    } else if n == 7 {
        '7'
    } else if n == 8 {
        '8'
    } else if n == 9 {
        '9'
    } else if n == 10 {
        'A'
    } else if n == 11 {
        'B'
    } else if n == 12 {
        'C'
    } else if n == 13 {
        'D'
    } else if n == 14 {
        'E'
    } else {
        'F'
    }
}

/// `text` as it stands in an address as one path segment.
pub fn encode_segment(text: &str) -> (encoded: String)
    ensures
        encoded@ == encoded_segment(text@),
{
    let bytes = text.as_bytes();
    let mut out: Vec<char> = Vec::new();
    let mut i: usize = 0;
    proof {
        assert(bytes@.take(0) =~= Seq::<u8>::empty());
    }
    while i < bytes.len()
        invariant
            i <= bytes@.len(),
            bytes@ == encode_utf8(text@),
            out@ == percent_encoded(bytes@.take(i as int)),
        decreases bytes@.len() - i,
    {
        let b = bytes[i];
        let ghost before = out@;
        proof {
            assert(bytes@.take(i + 1).drop_last() =~= bytes@.take(i as int));
            assert(bytes@.take(i + 1).last() == b);
        }
        let plain = (0x30 <= b && b <= 0x39) || (0x41 <= b && b <= 0x5a) || (0x61 <= b && b
            <= 0x7a) || b == 0x2d || b == 0x5f || b == 0x2e || b == 0x7e;
        if plain {
            out.push(b as char);
            assert(out@ =~= before + encoded_byte(b));
        } else {
            out.push('%');
            out.push(hex_of(b / 16));
            out.push(hex_of(b % 16));
            assert(out@ =~= before + encoded_byte(b));
        }
        i += 1;
    }
    proof {
        assert(bytes@.take(bytes@.len() as int) =~= bytes@);
    }
    string_of(out.as_slice())
}

/// Whether `text` can name something as one path segment.
pub fn check_segment(text: &str) -> (fine: bool)
    ensures
        fine == is_segment(text@),
{
    let chars = crate::text::chars_of(text);
    let len = chars.len();
    if len == 0 {
        return false;
    }
    if len == 1 && chars[0] == '.' {
        assert(chars@ =~= seq!['.']);
        return false;
    }
    if len == 2 && chars[0] == '.' && chars[1] == '.' {
        assert(chars@ =~= seq!['.', '.']);
        return false;
    }
    assert(chars@ != seq!['.']) by {
        if chars@ == seq!['.'] {
            assert(chars@[0] == seq!['.'][0]);
        }
    }
    assert(chars@ != seq!['.', '.']) by {
        if chars@ == seq!['.', '.'] {
            assert(chars@[0] == seq!['.', '.'][0]);
            assert(chars@[1] == seq!['.', '.'][1]);
        }
    }
    true
}

/// The address of the index at the registry `base`.
pub fn index_endpoint(base: &str) -> (url: String)
    ensures
        url@ == base@ + "/api/v1/index"@,
{
    joined_text(base, "/api/v1/index")
}

/// The two addresses to ask for an author.
pub struct AuthorEndpoints {
    /// Where the profile is.
    pub profile: String,
    /// Where the list of the author's modules is.
    pub modules: String,
}

/// The addresses to ask for the author `username` at the registry `base`,
/// with the name percent-encoded. There is none for an empty name and for
/// `.` and `..`, which no address can hold as a name.
pub fn load_author_profile(base: &str, username: &str) -> (endpoints: Option<AuthorEndpoints>)
    ensures
        endpoints is Some <==> is_segment(username@),
        endpoints matches Some(found) ==> found.profile@ == base@ + "/api/v1/users/"@
            + encoded_segment(username@) && found.modules@ == base@ + "/api/v1/users/"@
            + encoded_segment(username@) + "/modules"@,
{
    if !check_segment(username) {
        return None;
    }
    let name = encode_segment(username);
    let mut profile = joined_text(base, "/api/v1/users/");
    profile.append(name.as_str());
    let mut modules = profile.clone();
    modules.append("/modules");
    Some(AuthorEndpoints { profile, modules })
}

/// The address to ask for the reviews of the module with the identifier
/// text `uuid` at the registry `base`, with the identifier percent-encoded.
/// There is none for an empty text and for `.` and `..`.
pub fn load_module_reviews(base: &str, uuid: &str) -> (endpoint: Option<String>)
    ensures
        endpoint is Some <==> is_segment(uuid@),
        endpoint matches Some(url) ==> url@ == base@ + "/api/v1/modules/"@ + encoded_segment(
            uuid@,
        ) + "/reviews"@,
{
    if !check_segment(uuid) {
        return None;
    }
    let name = encode_segment(uuid);
    let mut url = joined_text(base, "/api/v1/modules/");
    url.append(name.as_str());
    url.append("/reviews");
    Some(url)
}

/// `c` cannot end a path segment: it is no `/`, `?`, `#`, `\\` or space.
pub open spec fn stays_in_segment(c: char) -> bool {
    c != '/' && c != '?' && c != '#' && c != '\\' && c != ' '
}

/// No character of an encoded name can end its path segment.
pub proof fn law_encoded_name_stays_in_its_segment(bytes: Seq<u8>, i: int)
    requires
        0 <= i < percent_encoded(bytes).len(),
    ensures
        stays_in_segment(percent_encoded(bytes)[i]),
    decreases bytes.len(),
{
    if bytes.len() > 0 {
        let before = percent_encoded(bytes.drop_last());
        let b = bytes.last();
        if i < before.len() {
            law_encoded_name_stays_in_its_segment(bytes.drop_last(), i);
        } else {
            let j = i - before.len();
            assert(percent_encoded(bytes)[i] == encoded_byte(b)[j]);
            if is_unreserved(b) {
                assert(b != 0x2f && b != 0x3f && b != 0x23 && b != 0x5c && b != 0x20);
                lemma_ascii_chars(b);
            }
        }
    }
}

/// The characters of the bytes that end a path segment, and of a space.
proof fn lemma_ascii_chars(b: u8)
    ensures
        (b as char == '/') == (b == 0x2f),
        (b as char == '?') == (b == 0x3f),
        (b as char == '#') == (b == 0x23),
        (b as char == '\\') == (b == 0x5c),
        (b as char == ' ') == (b == 0x20),
{
}

/// Where the profile arrived clean and the request for the modules failed,
/// the outcome is a profile: nothing is asked of the modules.
pub proof fn law_profile_survives_failed_modules(
    found: api_models::UserProfile,
    modules: Result<Vec<api_models::RegistryModule>, String>,
)
    requires
        modules is Err,
        found.id >= 0,
        found.module_count >= 0,
    ensures
        listed_modules(modules).len() == 0,
        profile_clean(found, listed_modules(modules)),
        forall|mapped: Seq<crate::domain::registry::RegistryModule>|
            modules_mapped(listed_modules(modules), mapped) ==> mapped.len() == 0,
{
}

} // verus!
