//! The allow-list for URLs.
//!
//! A URL from a module's metadata is opened or requested only if it is an
//! `https` URL with a well-formed host and no credentials; plain `http` is
//! accepted for the local machine alone. Repository URLs are taken apart
//! into owner and repository, and refused where that is not plainly
//! possible.

use crate::text::{
    chars_of, find_char, first_index, has_char, has_prefix, has_suffix, same_chars, slice_chars,
    starts_with, string_of,
};
use vstd::prelude::*;

verus! {

/// Why a URL is refused.
#[derive(Debug, Clone, Copy, PartialEq, Eq, Structural)]
pub enum UrlValidationError {
    /// The URL is empty.
    Empty,
    /// The URL holds a space, a control character or a DEL.
    InvalidCharacter,
    /// The URL does not begin with `https://` or `http://`.
    UnsupportedScheme,
    /// The URL names a user or a password before the host.
    EmbeddedCredentials,
    /// The host is empty or not a well-formed name.
    InvalidHost,
    /// A port is given and is not one to five digits.
    InvalidPort,
    /// The URL is plain `http` and the host is not the local machine.
    InsecureScheme,
    /// The URL is valid but does not point at the source host.
    NotGithub,
    /// The path does not name exactly an owner and a repository.
    MalformedRepository,
}

/// `c` is a space, a control character or DEL.
pub open spec fn is_blank_or_control(c: char) -> bool {
    c <= ' ' || c == '\x7f'
}

/// `c` is an ASCII letter or digit.
pub open spec fn is_alphanumeric(c: char) -> bool {
    ('a' <= c && c <= 'z') || ('A' <= c && c <= 'Z') || ('0' <= c && c <= '9')
}

/// `c` is an ASCII digit.
pub open spec fn is_digit(c: char) -> bool {
    '0' <= c && c <= '9'
}

/// `c` ends the authority part of a URL.
pub open spec fn ends_authority(c: char) -> bool {
    c == '/' || c == '?' || c == '#'
}

/// The prefix `https://`.
pub open spec fn https_prefix() -> Seq<char> {
    seq!['h', 't', 't', 'p', 's', ':', '/', '/']
}

/// The prefix `http://`.
pub open spec fn http_prefix() -> Seq<char> {
    seq!['h', 't', 't', 'p', ':', '/', '/']
}

/// Where the authority of `url` begins: after the scheme prefix.
pub open spec fn authority_start(url: Seq<char>) -> int {
    if starts_with(url, https_prefix()) {
        8
    } else {
        7
    }
}

/// `at` is where the authority that starts at `from` ends: at the first `/`,
/// `?` or `#`, or at the end of the URL.
pub open spec fn is_authority_end(url: Seq<char>, from: int, at: int) -> bool {
    &&& from <= at <= url.len()
    &&& at < url.len() ==> ends_authority(url[at])
    &&& forall|j: int| from <= j < at ==> !ends_authority(url[j])
}

/// Where the authority of `url` ends.
pub open spec fn authority_end(url: Seq<char>) -> int {
    choose|at: int| is_authority_end(url, authority_start(url), at)
}

/// The authority of `url`: host and, if given, port.
pub open spec fn authority_of(url: Seq<char>) -> Seq<char> {
    url.subrange(authority_start(url), authority_end(url))
}

/// The host in an authority: what stands before the first `:`.
pub open spec fn host_of(authority: Seq<char>) -> Seq<char> {
    if authority.contains(':') {
        authority.subrange(0, first_index(authority, ':'))
    } else {
        authority
    }
}

/// The port in an authority: what stands after the first `:`, if there is one.
pub open spec fn port_of(authority: Seq<char>) -> Option<Seq<char>> {
    if authority.contains(':') {
        Some(authority.subrange(first_index(authority, ':') + 1, authority.len() as int))
    } else {
        None
    }
}

/// The host is a well-formed name: at most 253 letters, digits, hyphens and
/// dots; it begins and ends with a letter or digit, and so does every label
/// between dots.
pub open spec fn host_well_formed(host: Seq<char>) -> bool {
    &&& 0 < host.len() <= 253
    &&& is_alphanumeric(host[0])
    &&& is_alphanumeric(host[host.len() - 1])
    &&& forall|i: int|
        0 <= i < host.len() ==> is_alphanumeric(#[trigger] host[i]) || host[i] == '-' || host[i]
            == '.'
    &&& forall|i: int|
        0 < i < host.len() - 1 && #[trigger] host[i] == '.' ==> is_alphanumeric(host[i - 1])
            && is_alphanumeric(host[i + 1])
}

/// The port is one to five digits.
pub open spec fn port_well_formed(port: Seq<char>) -> bool {
    0 < port.len() <= 5 && forall|i: int| 0 <= i < port.len() ==> is_digit(#[trigger] port[i])
}

/// The name `localhost`.
pub open spec fn localhost() -> Seq<char> {
    seq!['l', 'o', 'c', 'a', 'l', 'h', 'o', 's', 't']
}

/// The address `127.0.0.1`.
pub open spec fn loopback() -> Seq<char> {
    seq!['1', '2', '7', '.', '0', '.', '0', '.', '1']
}

/// The host is the local machine.
pub open spec fn is_local_host(host: Seq<char>) -> bool {
    host == localhost() || host == loopback()
}

/// Some character of `url` is a space, a control character or DEL.
pub open spec fn has_blank_or_control(url: Seq<char>) -> bool {
    exists|i: int| 0 <= i < url.len() && is_blank_or_control(#[trigger] url[i])
}

/// The first rule that `url` breaks as a web URL, if any.
pub open spec fn web_url_defect(url: Seq<char>) -> Option<UrlValidationError> {
    if url.len() == 0 {
        Some(UrlValidationError::Empty)
    } else if has_blank_or_control(url) {
        Some(UrlValidationError::InvalidCharacter)
    } else if !starts_with(url, https_prefix()) && !starts_with(url, http_prefix()) {
        Some(UrlValidationError::UnsupportedScheme)
    } else if authority_of(url).contains('@') {
        Some(UrlValidationError::EmbeddedCredentials)
    } else if !host_well_formed(host_of(authority_of(url))) {
        Some(UrlValidationError::InvalidHost)
    } else if port_of(authority_of(url)) matches Some(port) && !port_well_formed(port) {
        Some(UrlValidationError::InvalidPort)
    } else if !starts_with(url, https_prefix()) && !is_local_host(host_of(authority_of(url))) {
        Some(UrlValidationError::InsecureScheme)
    } else {
        None
    }
}

/// Whether `c` is an ASCII letter or digit.
fn alphanumeric(c: char) -> (yes: bool)
    ensures
        yes == is_alphanumeric(c),
{
    ('a' <= c && c <= 'z') || ('A' <= c && c <= 'Z') || ('0' <= c && c <= '9')
}

/// Whether some character of `url` is a space, a control character or DEL.
fn finds_blank_or_control(url: &[char]) -> (found: bool)
    ensures
        found == has_blank_or_control(url@),
{
    let mut i: usize = 0;
    while i < url.len()
        invariant
            i <= url@.len(),
            forall|j: int| 0 <= j < i ==> !is_blank_or_control(#[trigger] url@[j]),
        decreases url@.len() - i,
    {
        if url[i] <= ' ' || url[i] == '\x7f' {
            return true;
        }
        i += 1;
    }
    false
}

/// Where the authority that starts at `from` ends.
fn find_authority_end(url: &[char], from: usize) -> (at: usize)
    requires
        from <= url@.len(),
    ensures
        is_authority_end(url@, from as int, at as int),
{
    let mut at: usize = from;
    while at < url.len()
        invariant
            from <= at <= url@.len(),
            forall|j: int| from <= j < at ==> !ends_authority(url@[j]),
        decreases url@.len() - at,
    {
        if url[at] == '/' || url[at] == '?' || url[at] == '#' {
            return at;
        }
        at += 1;
    }
    at
}

/// The end of an authority is unique.
proof fn lemma_authority_end_unique(url: Seq<char>, from: int, at: int)
    requires
        is_authority_end(url, from, at),
    ensures
        forall|other: int| is_authority_end(url, from, other) ==> other == at,
{
    assert forall|other: int| is_authority_end(url, from, other) implies other == at by {
        if other < at {
            assert(!ends_authority(url[other]));
        } else if at < other {
            assert(!ends_authority(url[at]));
        }
    }
}

/// Whether `host` is a well-formed name.
fn check_host(host: &[char]) -> (fine: bool)
    ensures
        fine == host_well_formed(host@),
{
    let len = host.len();
    if len == 0 || len > 253 {
        return false;
    }
    if !alphanumeric(host[0]) || !alphanumeric(host[len - 1]) {
        return false;
    }
    let mut i: usize = 0;
    while i < len
        invariant
            i <= len,
            len == host@.len(),
            0 < len <= 253,
            forall|j: int|
                0 <= j < i ==> is_alphanumeric(#[trigger] host@[j]) || host@[j] == '-' || host@[j]
                    == '.',
            forall|j: int|
                0 < j < i && j < len - 1 && #[trigger] host@[j] == '.' ==> is_alphanumeric(
                    host@[j - 1],
                ) && is_alphanumeric(host@[j + 1]),
        decreases len - i,
    {
        let c = host[i];
        if !(alphanumeric(c) || c == '-' || c == '.') {
            return false;
        }
        if c == '.' && 0 < i && i < len - 1 {
            if !alphanumeric(host[i - 1]) || !alphanumeric(host[i + 1]) {
                return false;
            }
        }
        i += 1;
    }
    true
}

/// Whether `port` is one to five digits.
fn check_port(port: &[char]) -> (fine: bool)
    ensures
        fine == port_well_formed(port@),
{
    let len = port.len();
    if len == 0 || len > 5 {
        return false;
    }
    let mut i: usize = 0;
    while i < len
        invariant
            i <= len,
            len == port@.len(),
            forall|j: int| 0 <= j < i ==> is_digit(#[trigger] port@[j]),
        decreases len - i,
    {
        if !('0' <= port[i] && port[i] <= '9') {
            return false;
        }
        i += 1;
    }
    true
}

/// Whether `host` is the local machine.
fn check_local(host: &[char]) -> (local: bool)
    ensures
        local == is_local_host(host@),
{
    let name: [char; 9] = ['l', 'o', 'c', 'a', 'l', 'h', 'o', 's', 't'];
    let address: [char; 9] = ['1', '2', '7', '.', '0', '.', '0', '.', '1'];
    assert(name@ =~= localhost());
    assert(address@ =~= loopback());
    same_chars(host, name.as_slice()) || same_chars(host, address.as_slice())
}

/// The parts of a web URL that passed validation.
struct WebUrl {
    secure: bool,
    host: Vec<char>,
    has_port: bool,
    rest: Vec<char>,
}

/// Checks `url` and takes it apart.
fn examine(url: &[char]) -> (examined: Result<WebUrl, UrlValidationError>)
    ensures
        match web_url_defect(url@) {
            Some(error) => examined matches Err(e) && e == error,
            None => examined matches Ok(parts) && {
                &&& parts.secure == starts_with(url@, https_prefix())
                &&& parts.host@ == host_of(authority_of(url@))
                &&& parts.has_port == (port_of(authority_of(url@)) is Some)
                &&& parts.rest@ == url@.subrange(authority_end(url@), url@.len() as int)
            },
        },
{
    if url.len() == 0 {
        return Err(UrlValidationError::Empty);
    }
    if finds_blank_or_control(url) {
        return Err(UrlValidationError::InvalidCharacter);
    }
    let https: [char; 8] = ['h', 't', 't', 'p', 's', ':', '/', '/'];
    let http: [char; 7] = ['h', 't', 't', 'p', ':', '/', '/'];
    assert(https@ =~= https_prefix());
    assert(http@ =~= http_prefix());
    let secure = has_prefix(url, https.as_slice());
    if !secure && !has_prefix(url, http.as_slice()) {
        return Err(UrlValidationError::UnsupportedScheme);
    }
    let start: usize = if secure {
        8
    } else {
        7
    };
    let end = find_authority_end(url, start);
    proof {
        lemma_authority_end_unique(url@, start as int, end as int);
    }
    let authority = slice_chars(url, start, end);
    if has_char(authority.as_slice(), '@') {
        return Err(UrlValidationError::EmbeddedCredentials);
    }
    let colon = find_char(authority.as_slice(), ':');
    let host = match colon {
        Some(at) => slice_chars(authority.as_slice(), 0, at),
        None => slice_chars(authority.as_slice(), 0, authority.len()),
    };
    assert(host@ =~= host_of(authority@));
    if !check_host(host.as_slice()) {
        return Err(UrlValidationError::InvalidHost);
    }
    match colon {
        Some(at) => {
            let port = slice_chars(authority.as_slice(), at + 1, authority.len());
            if !check_port(port.as_slice()) {
                return Err(UrlValidationError::InvalidPort);
            }
        },
        None => {},
    }
    if !secure && !check_local(host.as_slice()) {
        return Err(UrlValidationError::InsecureScheme);
    }
    let rest = slice_chars(url, end, url.len());
    Ok(WebUrl { secure, host, has_port: colon.is_some(), rest })
}

/// Accepts `url` if it may be opened: `https` with a well-formed host and no
/// credentials, or `http` to the local machine.
pub fn validate_web_url(url: &str) -> (checked: Result<(), UrlValidationError>)
    ensures
        match web_url_defect(url@) {
            Some(error) => checked matches Err(e) && e == error,
            None => checked is Ok,
        },
{
    let chars = chars_of(url);
    match examine(chars.as_slice()) {
        Ok(_) => Ok(()),
        Err(error) => Err(error),
    }
}

/// The owner and the name of a repository on the source host.
#[derive(Debug, Clone)]
pub struct GithubRepo {
    pub owner: String,
    pub repo: String,
}

/// The host `github.com`.
pub open spec fn github_host() -> Seq<char> {
    seq!['g', 'i', 't', 'h', 'u', 'b', '.', 'c', 'o', 'm']
}

/// The suffix `.git`.
pub open spec fn git_suffix() -> Seq<char> {
    seq!['.', 'g', 'i', 't']
}

/// `c` may stand in an owner or repository name.
pub open spec fn is_name_char(c: char) -> bool {
    is_alphanumeric(c) || c == '-' || c == '_' || c == '.'
}

/// `name` can be an owner or a repository: not empty, not `.` or `..`, and
/// made of letters, digits, `-`, `_` and `.`.
pub open spec fn is_repo_name(name: Seq<char>) -> bool {
    &&& name.len() > 0
    &&& name != seq!['.']
    &&& name != seq!['.', '.']
    &&& forall|i: int| 0 <= i < name.len() ==> is_name_char(#[trigger] name[i])
}

/// `path` without one trailing `/`, if it has one.
pub open spec fn without_trailing_slash(path: Seq<char>) -> Seq<char> {
    if path.len() > 0 && path.last() == '/' {
        path.drop_last()
    } else {
        path
    }
}

/// `name` without the suffix `.git`, if it has it.
pub open spec fn without_git_suffix(name: Seq<char>) -> Seq<char> {
    if crate::text::ends_with(name, git_suffix()) {
        name.subrange(0, name.len() - 4)
    } else {
        name
    }
}

/// What stands after the host of `url`, from the first `/`, `?` or `#` on.
pub open spec fn rest_of(url: Seq<char>) -> Seq<char> {
    url.subrange(authority_end(url), url.len() as int)
}

/// The owner and repository that a path of the form `/owner/repo`,
/// `/owner/repo/` or `/owner/repo.git` names; `None` for any other path.
pub open spec fn repo_of_path(path: Seq<char>) -> Option<(Seq<char>, Seq<char>)> {
    if path.len() == 0 || path[0] != '/' {
        None
    } else {
        let trimmed = without_trailing_slash(path.subrange(1, path.len() as int));
        if !trimmed.contains('/') {
            None
        } else {
            let slash = first_index(trimmed, '/');
            let owner = trimmed.subrange(0, slash);
            let repo = without_git_suffix(trimmed.subrange(slash + 1, trimmed.len() as int));
            if is_repo_name(owner) && is_repo_name(repo) {
                Some((owner, repo))
            } else {
                None
            }
        }
    }
}

/// What taking `url` apart as a repository URL yields: owner and repository,
/// or the first rule that it breaks.
pub open spec fn github_outcome(url: Seq<char>) -> Result<
    (Seq<char>, Seq<char>),
    UrlValidationError,
> {
    match web_url_defect(url) {
        Some(error) => Err(error),
        None => if !starts_with(url, https_prefix()) || host_of(authority_of(url)) != github_host()
            || port_of(authority_of(url)) is Some {
            Err(UrlValidationError::NotGithub)
        } else {
            match repo_of_path(rest_of(url)) {
                Some(parts) => Ok(parts),
                None => Err(UrlValidationError::MalformedRepository),
            }
        },
    }
}

/// Whether `name` can be an owner or a repository.
fn check_repo_name(name: &[char]) -> (fine: bool)
    ensures
        fine == is_repo_name(name@),
{
    let len = name.len();
    if len == 0 {
        return false;
    }
    if len == 1 && name[0] == '.' {
        assert(name@ =~= seq!['.']);
        return false;
    }
    if len == 2 && name[0] == '.' && name[1] == '.' {
        assert(name@ =~= seq!['.', '.']);
        return false;
    }
    assert(name@ != seq!['.']) by {
        if name@ == seq!['.'] {
            assert(name@.len() == 1);
            assert(name@[0] == seq!['.'][0]);
        }
    }
    assert(name@ != seq!['.', '.']) by {
        if name@ == seq!['.', '.'] {
            assert(name@.len() == 2);
            assert(name@[0] == seq!['.', '.'][0]);
            assert(name@[1] == seq!['.', '.'][1]);
        }
    }
    let mut i: usize = 0;
    while i < len
        invariant
            i <= len,
            len == name@.len(),
            forall|j: int| 0 <= j < i ==> is_name_char(#[trigger] name@[j]),
        decreases len - i,
    {
        let c = name[i];
        if !(alphanumeric(c) || c == '-' || c == '_' || c == '.') {
            return false;
        }
        i += 1;
    }
    true
}

/// The owner and repository that `path` names, if it names exactly those.
fn split_repo_path(path: &[char]) -> (parts: Option<(Vec<char>, Vec<char>)>)
    ensures
        match repo_of_path(path@) {
            Some((owner, repo)) => parts matches Some(found) && found.0@ == owner && found.1@
                == repo,
            None => parts is None,
        },
{
    if path.len() == 0 || path[0] != '/' {
        return None;
    }
    let after = slice_chars(path, 1, path.len());
    let trimmed = if after.len() > 0 && after[after.len() - 1] == '/' {
        let cut = slice_chars(after.as_slice(), 0, after.len() - 1);
        assert(cut@ =~= after@.drop_last());
        cut
    } else {
        after
    };
    assert(trimmed@ == without_trailing_slash(path@.subrange(1, path@.len() as int)));
    let slash = match find_char(trimmed.as_slice(), '/') {
        Some(slash) => slash,
        None => {
            return None;
        },
    };
    let owner = slice_chars(trimmed.as_slice(), 0, slash);
    let named = slice_chars(trimmed.as_slice(), slash + 1, trimmed.len());
    let suffix: [char; 4] = ['.', 'g', 'i', 't'];
    assert(suffix@ =~= git_suffix());
    let repo = if has_suffix(named.as_slice(), suffix.as_slice()) {
        slice_chars(named.as_slice(), 0, named.len() - 4)
    } else {
        named
    };
    if check_repo_name(owner.as_slice()) && check_repo_name(repo.as_slice()) {
        Some((owner, repo))
    } else {
        None
    }
}

/// Takes a repository URL apart into owner and repository. Only
/// `https://github.com/owner/repo`, with an optional trailing `/` or `.git`,
/// is accepted: nothing is guessed.
pub fn parse_github_url_safe(url: &str) -> (parsed: Result<GithubRepo, UrlValidationError>)
    ensures
        match github_outcome(url@) {
            Ok((owner, repo)) => parsed matches Ok(found) && found.owner@ == owner && found.repo@
                == repo,
            Err(error) => parsed matches Err(e) && e == error,
        },
{
    let chars = chars_of(url);
    let parts = match examine(chars.as_slice()) {
        Ok(parts) => parts,
        Err(error) => {
            return Err(error);
        },
    };
    let github: [char; 10] = ['g', 'i', 't', 'h', 'u', 'b', '.', 'c', 'o', 'm'];
    assert(github@ =~= github_host());
    if !parts.secure || !same_chars(parts.host.as_slice(), github.as_slice()) || parts.has_port {
        return Err(UrlValidationError::NotGithub);
    }
    match split_repo_path(parts.rest.as_slice()) {
        Some((owner, repo)) => Ok(
            GithubRepo { owner: string_of(owner.as_slice()), repo: string_of(repo.as_slice()) },
        ),
        None => Err(UrlValidationError::MalformedRepository),
    }
}

/// Accepts `url` if it is a repository URL that `parse_github_url_safe`
/// can take apart.
pub fn validate_github_url(url: &str) -> (checked: Result<(), UrlValidationError>)
    ensures
        match github_outcome(url@) {
            Ok(_) => checked is Ok,
            Err(error) => checked matches Err(e) && e == error,
        },
{
    match parse_github_url_safe(url) {
        Ok(_) => Ok(()),
        Err(error) => Err(error),
    }
}

impl UrlValidationError {
    /// The sentence that describes this error, as a character sequence.
    pub open spec fn spec_message(self) -> Seq<char> {
        match self {
            UrlValidationError::Empty => "URL is empty"@,
            UrlValidationError::InvalidCharacter =>
                "URL contains whitespace or control characters"@,
            UrlValidationError::UnsupportedScheme => "URL scheme is not allowed"@,
            UrlValidationError::EmbeddedCredentials => "URL contains credentials"@,
            UrlValidationError::InvalidHost => "URL host is not well-formed"@,
            UrlValidationError::InvalidPort => "URL port is not valid"@,
            UrlValidationError::InsecureScheme => "plain http is only allowed for localhost"@,
            UrlValidationError::NotGithub => "URL does not point to github.com"@,
            UrlValidationError::MalformedRepository =>
                "URL does not name an owner and a repository"@,
        }
    }

    /// The sentence that describes this error.
    pub fn message(&self) -> (text: &'static str)
        ensures
            text@ == self.spec_message(),
    {
        match self {
            UrlValidationError::Empty => "URL is empty",
            UrlValidationError::InvalidCharacter => "URL contains whitespace or control characters",
            UrlValidationError::UnsupportedScheme => "URL scheme is not allowed",
            UrlValidationError::EmbeddedCredentials => "URL contains credentials",
            UrlValidationError::InvalidHost => "URL host is not well-formed",
            UrlValidationError::InvalidPort => "URL port is not valid",
            UrlValidationError::InsecureScheme => "plain http is only allowed for localhost",
            UrlValidationError::NotGithub => "URL does not point to github.com",
            UrlValidationError::MalformedRepository =>
                "URL does not name an owner and a repository",
        }
    }

    /// The sentence that describes this error, as an owned string.
    pub fn to_string(&self) -> (text: String)
        ensures
            text@ == self.spec_message(),
    {
        self.message().to_owned()
    }
}

/// A URL that does not begin with `https://` or `http://`, such as a
/// `javascript:` or a `file:` URL, is never accepted.
pub proof fn law_other_schemes_rejected(url: Seq<char>)
    requires
        !starts_with(url, https_prefix()),
        !starts_with(url, http_prefix()),
    ensures
        web_url_defect(url) is Some,
{
}

/// A URL with an `@` in its authority is never accepted.
pub proof fn law_credentials_rejected(url: Seq<char>)
    requires
        authority_of(url).contains('@'),
    ensures
        web_url_defect(url) is Some,
{
}

/// An accepted URL is `https`, or `http` to the local machine; its host is
/// well-formed and its authority holds no `@`.
pub proof fn law_accepted_url_is_allowed(url: Seq<char>)
    requires
        web_url_defect(url) is None,
    ensures
        starts_with(url, https_prefix()) || (starts_with(url, http_prefix()) && is_local_host(
            host_of(authority_of(url)),
        )),
        host_well_formed(host_of(authority_of(url))),
        !authority_of(url).contains('@'),
{
}

/// A repository URL that is taken apart is an accepted web URL, and both
/// names it yields are plain names: neither empty, nor `.` or `..`, nor
/// holding a separator.
pub proof fn law_repository_names_are_plain(url: Seq<char>)
    requires
        github_outcome(url) is Ok,
    ensures
        web_url_defect(url) is None,
        is_repo_name(github_outcome(url)->Ok_0.0),
        is_repo_name(github_outcome(url)->Ok_0.1),
        !github_outcome(url)->Ok_0.0.contains('/'),
        !github_outcome(url)->Ok_0.1.contains('/'),
{
    let parts = github_outcome(url)->Ok_0;
    assert(!parts.0.contains('/')) by {
        if parts.0.contains('/') {
            let i = choose|i: int| 0 <= i < parts.0.len() && parts.0[i] == '/';
            assert(is_name_char(parts.0[i]));
        }
    }
    assert(!parts.1.contains('/')) by {
        if parts.1.contains('/') {
            let i = choose|i: int| 0 <= i < parts.1.len() && parts.1[i] == '/';
            assert(is_name_char(parts.1[i]));
        }
    }
}

} // verus!
