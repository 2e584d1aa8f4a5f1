//! Module identifiers of the form `name@namespace`.
//!
//! Parsing is the first trust gate: an identifier that passed it can be joined
//! to a directory without leaving that directory.

use crate::text::{
    chars_of, contains_text, find_char, first_index, has_char, has_text, is_first_index,
    lemma_first_index_exists, lemma_first_index_unique, occurs_at, same_chars, slice_chars,
    string_of,
};
use vstd::prelude::*;
use vstd::std_specs::cmp::PartialEqSpecImpl;
use vstd::std_specs::convert::TryFromSpecImpl;

verus! {

/// Why a string is not a module identifier.
#[derive(Debug, Clone, Copy, PartialEq, Eq, Structural)]
pub enum ModuleUuidError {
    MissingAtSymbol,
    EmptyName,
    EmptyNamespace,
    InvalidCharacter,
    PathTraversalAttempt,
}

impl ModuleUuidError {
    /// The sentence that describes this error, as a character sequence.
    pub open spec fn spec_message(self) -> Seq<char> {
        match self {
            ModuleUuidError::MissingAtSymbol => "missing '@' separator in UUID"@,
            ModuleUuidError::EmptyName => "empty name in UUID"@,
            ModuleUuidError::EmptyNamespace => "empty namespace in UUID"@,
            ModuleUuidError::InvalidCharacter =>
                "invalid character in UUID (path separator or null)"@,
            ModuleUuidError::PathTraversalAttempt => "path traversal attempt detected in UUID"@,
        }
    }

    /// The sentence that describes this error.
    pub fn message(&self) -> (text: &'static str)
        ensures
            text@ == self.spec_message(),
    {
        match self {
            ModuleUuidError::MissingAtSymbol => "missing '@' separator in UUID",
            ModuleUuidError::EmptyName => "empty name in UUID",
            ModuleUuidError::EmptyNamespace => "empty namespace in UUID",
            ModuleUuidError::InvalidCharacter =>
                "invalid character in UUID (path separator or null)",
            ModuleUuidError::PathTraversalAttempt => "path traversal attempt detected in UUID",
        }
    }

    /// The sentence that describes this error, as an owned string.
    pub fn to_string(&self) -> (text: String)
        ensures
            text@ == self.spec_message(),
    {
        self.message().to_owned()
    }
}

/// The two-character sequence `..`.
pub open spec fn parent_segment() -> Seq<char> {
    seq!['.', '.']
}

/// The sequence `../`.
pub open spec fn parent_slash() -> Seq<char> {
    seq!['.', '.', '/']
}

/// The sequence `..\`.
pub open spec fn parent_backslash() -> Seq<char> {
    seq!['.', '.', '\\']
}

/// The part of `s` before its first `@`.
pub open spec fn name_part(s: Seq<char>) -> Seq<char> {
    s.subrange(0, first_index(s, '@'))
}

/// The part of `s` after its first `@`.
pub open spec fn namespace_part(s: Seq<char>) -> Seq<char> {
    s.subrange(first_index(s, '@') + 1, s.len() as int)
}

/// `s` shows a path traversal: a side of the separator is `..`, or `s` holds
/// `../` or `..\`.
pub open spec fn shows_traversal(s: Seq<char>) -> bool {
    ||| name_part(s) == parent_segment()
    ||| namespace_part(s) == parent_segment()
    ||| contains_text(s, parent_slash())
    ||| contains_text(s, parent_backslash())
}

/// `s` holds a character no identifier may hold: a path separator, a NUL, or
/// a second `@`.
pub open spec fn shows_invalid_character(s: Seq<char>) -> bool {
    ||| s.contains('/')
    ||| s.contains('\\')
    ||| s.contains('\0')
    ||| namespace_part(s).contains('@')
}

/// What parsing `s` yields: the name and namespace, or the first rule broken.
pub open spec fn parse_outcome(s: Seq<char>) -> Result<(Seq<char>, Seq<char>), ModuleUuidError> {
    if !s.contains('@') {
        Err(ModuleUuidError::MissingAtSymbol)
    } else if name_part(s).len() == 0 {
        Err(ModuleUuidError::EmptyName)
    } else if namespace_part(s).len() == 0 {
        Err(ModuleUuidError::EmptyNamespace)
    } else if shows_traversal(s) {
        Err(ModuleUuidError::PathTraversalAttempt)
    } else if shows_invalid_character(s) {
        Err(ModuleUuidError::InvalidCharacter)
    } else {
        Ok((name_part(s), namespace_part(s)))
    }
}

/// The text of an identifier with the given parts.
pub open spec fn joined(name: Seq<char>, namespace: Seq<char>) -> Seq<char> {
    name + seq!['@'] + namespace
}

/// The invariant of an identifier's parts: both non-empty, neither `..`, and
/// no `@`, `/`, `\` or NUL in either.
pub open spec fn valid_parts(name: Seq<char>, namespace: Seq<char>) -> bool {
    &&& name.len() > 0
    &&& namespace.len() > 0
    &&& name != parent_segment()
    &&& namespace != parent_segment()
    &&& forall|i: int| 0 <= i < name.len() ==> !forbidden_in_part(#[trigger] name[i])
    &&& forall|i: int| 0 <= i < namespace.len() ==> !forbidden_in_part(#[trigger] namespace[i])
}

/// Characters that may not occur in a name or a namespace.
pub open spec fn forbidden_in_part(c: char) -> bool {
    c == '@' || c == '/' || c == '\\' || c == '\0'
}

/// A validated module identifier.
#[derive(Debug, Hash)]
pub struct ModuleUuid {
    name: String,
    namespace: String,
}

impl ModuleUuid {
    /// The name, as a character sequence.
    pub closed spec fn name_text(&self) -> Seq<char> {
        self.name@
    }

    /// The namespace, as a character sequence.
    pub closed spec fn namespace_text(&self) -> Seq<char> {
        self.namespace@
    }

    /// The identifier as text: `name@namespace`.
    pub open spec fn text(&self) -> Seq<char> {
        joined(self.name_text(), self.namespace_text())
    }

    /// The identifier satisfies the invariant of its type.
    pub open spec fn wf(&self) -> bool {
        valid_parts(self.name_text(), self.namespace_text())
    }

    #[verifier::type_invariant]
    spec fn inv(&self) -> bool {
        valid_parts(self.name@, self.namespace@)
    }

    /// Parses `value` as `name@namespace`, reporting the first rule it breaks.
    pub fn parse(value: &str) -> (parsed: Result<ModuleUuid, ModuleUuidError>)
        ensures
            match parse_outcome(value@) {
                Ok((name, namespace)) => parsed matches Ok(uuid) && uuid.name_text() == name
                    && uuid.namespace_text() == namespace && uuid.wf() && uuid.text() == value@,
                Err(error) => parsed matches Err(e) && e == error,
            },
    {
        let chars = chars_of(value);
        let at = match find_char(chars.as_slice(), '@') {
            Some(at) => at,
            None => {
                return Err(ModuleUuidError::MissingAtSymbol);
            },
        };
        let len = chars.len();
        assert(is_first_index(chars@, '@', at as int));
        let name = slice_chars(chars.as_slice(), 0, at);
        let namespace = slice_chars(chars.as_slice(), at + 1, len);
        if name.len() == 0 {
            return Err(ModuleUuidError::EmptyName);
        }
        if namespace.len() == 0 {
            return Err(ModuleUuidError::EmptyNamespace);
        }
        let dots: [char; 2] = ['.', '.'];
        let dots_slash: [char; 3] = ['.', '.', '/'];
        let dots_backslash: [char; 3] = ['.', '.', '\\'];
        assert(dots@ =~= parent_segment());
        assert(dots_slash@ =~= parent_slash());
        assert(dots_backslash@ =~= parent_backslash());
        if same_chars(name.as_slice(), dots.as_slice()) || same_chars(
            namespace.as_slice(),
            dots.as_slice(),
        ) || has_text(chars.as_slice(), dots_slash.as_slice()) || has_text(
            chars.as_slice(),
            dots_backslash.as_slice(),
        ) {
            return Err(ModuleUuidError::PathTraversalAttempt);
        }
        if has_char(chars.as_slice(), '/') || has_char(chars.as_slice(), '\\') || has_char(
            chars.as_slice(),
            '\0',
        ) || has_char(namespace.as_slice(), '@') {
            return Err(ModuleUuidError::InvalidCharacter);
        }
        proof {
            lemma_outcome_is_valid(value@);
        }
        Ok(
            ModuleUuid {
                name: string_of(name.as_slice()),
                namespace: string_of(namespace.as_slice()),
            },
        )
    }

    /// The name before the separator.
    pub fn name(&self) -> (name: &str)
        ensures
            name@ == self.name_text(),
    {
        self.name.as_str()
    }

    /// The namespace after the separator.
    pub fn namespace(&self) -> (namespace: &str)
        ensures
            namespace@ == self.namespace_text(),
    {
        self.namespace.as_str()
    }

    /// The identifier in its textual form, `name@namespace`.
    pub fn to_string(&self) -> (text: String)
        ensures
            text@ == self.text(),
            self.wf(),
            parse_outcome(text@) == Ok::<(Seq<char>, Seq<char>), ModuleUuidError>(
                (self.name_text(), self.namespace_text()),
            ),
    {
        proof {
            use_type_invariant(self);
            reveal_strlit("@");
            lemma_joined_parses(self.name@, self.namespace@);
        }
        let mut text = self.name.clone();
        text.append("@");
        text.append(self.namespace.as_str());
        assert(text@ =~= self.text());
        text
    }
}

impl TryFrom<&str> for ModuleUuid {
    type Error = ModuleUuidError;

    fn try_from(value: &str) -> (parsed: Result<ModuleUuid, ModuleUuidError>)
        ensures
            match parse_outcome(value@) {
                Ok((name, namespace)) => parsed matches Ok(uuid) && uuid.name_text() == name
                    && uuid.namespace_text() == namespace && uuid.wf() && uuid.text() == value@,
                Err(error) => parsed matches Err(e) && e == error,
            },
    {
        ModuleUuid::parse(value)
    }
}

impl TryFromSpecImpl<&str> for ModuleUuid {
    open spec fn obeys_try_from_spec() -> bool {
        false
    }

    open spec fn try_from_spec(value: &str) -> Result<ModuleUuid, ModuleUuidError> {
        arbitrary()
    }
}

impl Clone for ModuleUuid {
    fn clone(&self) -> (copy: ModuleUuid)
        ensures
            copy.name_text() == self.name_text(),
            copy.namespace_text() == self.namespace_text(),
    {
        proof {
            use_type_invariant(self);
        }
        ModuleUuid { name: self.name.clone(), namespace: self.namespace.clone() }
    }
}

impl PartialEq for ModuleUuid {
    fn eq(&self, other: &ModuleUuid) -> (same: bool) {
        self.name == other.name && self.namespace == other.namespace
    }
}

impl PartialEqSpecImpl for ModuleUuid {
    open spec fn obeys_eq_spec() -> bool {
        true
    }

    open spec fn eq_spec(&self, other: &ModuleUuid) -> bool {
        self.name_text() == other.name_text() && self.namespace_text() == other.namespace_text()
    }
}

impl Eq for ModuleUuid {

}

/// A successful outcome satisfies the invariant and spells the input.
pub proof fn lemma_outcome_is_valid(s: Seq<char>)
    requires
        parse_outcome(s) is Ok,
    ensures
        valid_parts(name_part(s), namespace_part(s)),
        joined(name_part(s), namespace_part(s)) == s,
{
    lemma_first_index_exists(s, '@');
    let at = first_index(s, '@');
    let name = name_part(s);
    let namespace = namespace_part(s);
    assert(joined(name, namespace) =~= s);
    assert forall|i: int| 0 <= i < name.len() implies !forbidden_in_part(#[trigger] name[i]) by {
        assert(name[i] == s[i]);
        assert(s.contains(s[i]));
    }
    assert forall|i: int| 0 <= i < namespace.len() implies !forbidden_in_part(
        #[trigger] namespace[i],
    ) by {
        assert(namespace[i] == s[at + 1 + i]);
        assert(s.contains(s[at + 1 + i]));
        assert(namespace.contains(namespace[i]));
    }
}

/// Valid parts, joined, parse back to themselves.
pub proof fn lemma_joined_parses(name: Seq<char>, namespace: Seq<char>)
    requires
        valid_parts(name, namespace),
    ensures
        parse_outcome(joined(name, namespace)) == Ok::<(Seq<char>, Seq<char>), ModuleUuidError>(
            (name, namespace),
        ),
{
    let s = joined(name, namespace);
    let at = name.len() as int;
    assert(s[at] == '@');
    assert forall|j: int| 0 <= j < at implies s[j] != '@' by {
        assert(s[j] == name[j]);
        assert(!forbidden_in_part(name[j]));
    }
    assert(is_first_index(s, '@', at));
    lemma_first_index_unique(s, '@', at);
    assert(name_part(s) =~= name);
    assert(namespace_part(s) =~= namespace);
    assert forall|i: int| 0 <= i < s.len() implies s[i] != '/' && s[i] != '\\' && s[i] != '\0' by {
        if i < at {
            assert(s[i] == name[i]);
            assert(!forbidden_in_part(name[i]));
        } else if i > at {
            assert(s[i] == namespace[i - at - 1]);
            assert(!forbidden_in_part(namespace[i - at - 1]));
        }
    }
    assert(!contains_text(s, parent_slash())) by {
        assert forall|k: int| !occurs_at(s, parent_slash(), k) by {
            if occurs_at(s, parent_slash(), k) {
                assert(s.subrange(k, k + 3)[2] == '/');
                assert(s[k + 2] == '/');
            }
        }
    }
    assert(!contains_text(s, parent_backslash())) by {
        assert forall|k: int| !occurs_at(s, parent_backslash(), k) by {
            if occurs_at(s, parent_backslash(), k) {
                assert(s.subrange(k, k + 3)[2] == '\\');
                assert(s[k + 2] == '\\');
            }
        }
    }
    assert(!namespace.contains('@')) by {
        if namespace.contains('@') {
            let i = choose|i: int| 0 <= i < namespace.len() && namespace[i] == '@';
            assert(forbidden_in_part(namespace[i]));
        }
    }
}

/// `s` is rejected with `error`.
pub open spec fn rejected_with(s: Seq<char>, error: ModuleUuidError) -> bool {
    parse_outcome(s) matches Err(e) && e == error
}

/// Text that parses has exactly one `@`, and it is neither the first nor the
/// last character.
pub proof fn law_accepted_text_has_one_inner_separator(s: Seq<char>)
    requires
        parse_outcome(s) is Ok,
    ensures
        exists|at: int|
            0 < at < s.len() - 1 && #[trigger] s[at] == '@' && forall|j: int|
                0 <= j < s.len() && j != at ==> s[j] != '@',
{
    lemma_first_index_exists(s, '@');
    let at = first_index(s, '@');
    assert(name_part(s).len() == at);
    assert(namespace_part(s).len() == s.len() - at - 1);
    assert forall|j: int| 0 <= j < s.len() && j != at implies s[j] != '@' by {
        if j > at {
            assert(namespace_part(s)[j - at - 1] == s[j]);
            if s[j] == '@' {
                assert(namespace_part(s).contains('@'));
            }
        }
    }
    assert(s[at] == '@');
}

/// Text without `@` is rejected for the missing separator; text that begins
/// with `@` for the empty name; text whose only `@` is its last character, and
/// not its first, for the empty namespace.
pub proof fn law_separator_errors(s: Seq<char>)
    ensures
        !s.contains('@') ==> rejected_with(s, ModuleUuidError::MissingAtSymbol),
        s.len() > 0 && s[0] == '@' ==> rejected_with(s, ModuleUuidError::EmptyName),
        s.len() > 1 && s[s.len() - 1] == '@' && (forall|j: int|
            0 <= j < s.len() - 1 ==> s[j] != '@') ==> rejected_with(
            s,
            ModuleUuidError::EmptyNamespace,
        ),
{
    if s.len() > 0 && s[0] == '@' {
        assert(is_first_index(s, '@', 0));
        lemma_first_index_unique(s, '@', 0);
    }
    if s.len() > 1 && s[s.len() - 1] == '@' && (forall|j: int|
        0 <= j < s.len() - 1 ==> s[j] != '@') {
        assert(is_first_index(s, '@', s.len() - 1));
        lemma_first_index_unique(s, '@', s.len() - 1);
    }
}

/// Text with a non-empty name and namespace that holds `../` or `..\`, or
/// has `..` on either side of the separator, is rejected as a path traversal.
pub proof fn law_traversal_rejected(s: Seq<char>)
    requires
        s.contains('@'),
        name_part(s).len() > 0,
        namespace_part(s).len() > 0,
        contains_text(s, parent_slash()) || contains_text(s, parent_backslash()) || name_part(s)
            == parent_segment() || namespace_part(s) == parent_segment(),
    ensures
        rejected_with(s, ModuleUuidError::PathTraversalAttempt),
{
}

/// Formatting an identifier and parsing the text gives the identifier back.
pub proof fn law_format_parse_round_trip(uuid: ModuleUuid)
    requires
        uuid.wf(),
    ensures
        parse_outcome(uuid.text()) matches Ok(parts) && parts.0 == uuid.name_text() && parts.1
            == uuid.namespace_text(),
{
    lemma_joined_parses(uuid.name_text(), uuid.namespace_text());
}

} // verus!
