//! The guard on archive entry names.
//!
//! An entry name is joined to the install directory only if, read as a
//! relative path, it cannot name anything outside that directory.

use crate::domain::module::{forbidden_in_part, joined, valid_parts};
use crate::text::{chars_of, push_chars, starts_with, string_of};
use vstd::prelude::*;

verus! {

/// Why an entry name is refused.
#[derive(Debug, Clone, Copy, PartialEq, Eq, Structural)]
pub enum PathTraversalError {
    /// The name is empty.
    EmptyPath,
    /// The name holds a NUL character.
    NulCharacter,
    /// The name starts at a root or a drive.
    AbsolutePath,
    /// A segment of the name is `..`.
    ParentSegment,
    /// The name has no segment of its own: it names the base directory.
    NotBelowBase,
}

/// `/` and `\` both separate segments.
pub open spec fn is_separator(c: char) -> bool {
    c == '/' || c == '\\'
}

/// The name starts with a separator, or its second character is `:` as in a
/// drive prefix.
pub open spec fn is_absolute(entry: Seq<char>) -> bool {
    (entry.len() > 0 && is_separator(entry[0])) || (entry.len() > 1 && entry[1] == ':')
}

/// A segment `..` starts at `from`: two dots, bounded on each side by a
/// separator or an end of the name.
pub open spec fn parent_segment_at(entry: Seq<char>, from: int) -> bool {
    &&& 0 <= from
    &&& from + 2 <= entry.len()
    &&& from == 0 || is_separator(entry[from - 1])
    &&& entry[from] == '.'
    &&& entry[from + 1] == '.'
    &&& from + 2 == entry.len() || is_separator(entry[from + 2])
}

/// Some segment of the name is `..`.
pub open spec fn has_parent_segment(entry: Seq<char>) -> bool {
    exists|from: int| parent_segment_at(entry, from)
}

/// The character at `at` is a dot that is a whole segment.
pub open spec fn lone_dot_at(entry: Seq<char>, at: int) -> bool {
    &&& 0 <= at < entry.len()
    &&& entry[at] == '.'
    &&& at == 0 || is_separator(entry[at - 1])
    &&& at + 1 == entry.len() || is_separator(entry[at + 1])
}

/// The character at `at` belongs to a segment that names something: it is
/// no separator and no lone dot.
pub open spec fn names_something_at(entry: Seq<char>, at: int) -> bool {
    0 <= at < entry.len() && !is_separator(entry[at]) && !lone_dot_at(entry, at)
}

/// Some segment of the name is neither empty nor `.`.
pub open spec fn has_named_segment(entry: Seq<char>) -> bool {
    exists|at: int| names_something_at(entry, at)
}

/// `base` and `entry` as one path: joined by `/` unless `base` is empty or
/// ends with a separator.
pub open spec fn joined_path(base: Seq<char>, entry: Seq<char>) -> Seq<char> {
    if base.len() == 0 || is_separator(base.last()) {
        base + entry
    } else {
        base + seq!['/'] + entry
    }
}

/// The first rule that `entry` breaks, if any.
pub open spec fn entry_defect(entry: Seq<char>) -> Option<PathTraversalError> {
    if entry.len() == 0 {
        Some(PathTraversalError::EmptyPath)
    } else if entry.contains('\0') {
        Some(PathTraversalError::NulCharacter)
    } else if is_absolute(entry) {
        Some(PathTraversalError::AbsolutePath)
    } else if has_parent_segment(entry) {
        Some(PathTraversalError::ParentSegment)
    } else if !has_named_segment(entry) {
        Some(PathTraversalError::NotBelowBase)
    } else {
        None
    }
}

/// What the guard makes of `entry` under `base`: the joined path, or the
/// first rule that `entry` breaks.
pub open spec fn extraction_outcome(base: Seq<char>, entry: Seq<char>) -> Result<
    Seq<char>,
    PathTraversalError,
> {
    match entry_defect(entry) {
        Some(error) => Err(error),
        None => Ok(joined_path(base, entry)),
    }
}

/// Whether `c` separates segments.
fn separates(c: char) -> (yes: bool)
    ensures
        yes == is_separator(c),
{
    c == '/' || c == '\\'
}

/// Whether some segment of `entry` is `..`.
fn finds_parent_segment(entry: &[char]) -> (found: bool)
    ensures
        found == has_parent_segment(entry@),
{
    let len = entry.len();
    let mut from: usize = 0;
    while from < len
        invariant
            from <= len,
            len == entry@.len(),
            forall|j: int| 0 <= j < from ==> !parent_segment_at(entry@, j),
        decreases len - from,
    {
        if len - from >= 2 {
            let starts = from == 0 || separates(entry[from - 1]);
            let dots = entry[from] == '.' && entry[from + 1] == '.';
            let ends = len - from == 2 || separates(entry[from + 2]);
            if starts && dots && ends {
                assert(parent_segment_at(entry@, from as int));
                return true;
            }
        }
        from += 1;
    }
    false
}

/// Whether some segment of `entry` is neither empty nor `.`.
fn finds_named_segment(entry: &[char]) -> (found: bool)
    ensures
        found == has_named_segment(entry@),
{
    let len = entry.len();
    let mut at: usize = 0;
    while at < len
        invariant
            at <= len,
            len == entry@.len(),
            forall|j: int| 0 <= j < at ==> !names_something_at(entry@, j),
        decreases len - at,
    {
        if !separates(entry[at]) {
            let lone_dot = entry[at] == '.' && (at == 0 || separates(entry[at - 1])) && (len - at
                == 1 || separates(entry[at + 1]));
            if !lone_dot {
                assert(names_something_at(entry@, at as int));
                return true;
            }
        }
        at += 1;
    }
    false
}

/// Joins the untrusted `entry` to `base` if it stays below `base`, and says
/// which rule it breaks if it does not. Nothing is looked up on disk.
pub fn validate_extraction_path(base: &str, entry: &str) -> (checked: Result<
    String,
    PathTraversalError,
>)
    ensures
        match extraction_outcome(base@, entry@) {
            Ok(path) => checked matches Ok(p) && p@ == path,
            Err(error) => checked matches Err(e) && e == error,
        },
{
    let name = chars_of(entry);
    if name.len() == 0 {
        return Err(PathTraversalError::EmptyPath);
    }
    if crate::text::has_char(name.as_slice(), '\0') {
        return Err(PathTraversalError::NulCharacter);
    }
    if separates(name[0]) || (name.len() > 1 && name[1] == ':') {
        return Err(PathTraversalError::AbsolutePath);
    }
    if finds_parent_segment(name.as_slice()) {
        return Err(PathTraversalError::ParentSegment);
    }
    if !finds_named_segment(name.as_slice()) {
        return Err(PathTraversalError::NotBelowBase);
    }
    let mut path = chars_of(base);
    let base_len = path.len();
    if base_len > 0 && !separates(path[base_len - 1]) {
        path.push('/');
    }
    push_chars(&mut path, name.as_slice());
    assert(path@ =~= joined_path(base@, entry@));
    Ok(string_of(path.as_slice()))
}

/// The entry name `../../etc/passwd`.
pub open spec fn escaping_entry() -> Seq<char> {
    seq!['.', '.', '/', '.', '.', '/', 'e', 't', 'c', '/', 'p', 'a', 's', 's', 'w', 'd']
}

/// The entry `../../etc/passwd` is refused under every base directory, for
/// its parent segment.
pub proof fn law_escaping_entry_rejected(base: Seq<char>)
    ensures
        extraction_outcome(base, escaping_entry()) == Err::<Seq<char>, PathTraversalError>(
            PathTraversalError::ParentSegment,
        ),
        "../../etc/passwd"@ == escaping_entry(),
{
    let entry = escaping_entry();
    assert(parent_segment_at(entry, 0));
    assert forall|i: int| 0 <= i < entry.len() implies entry[i] != '\0' by {}
    reveal_strlit("../../etc/passwd");
    assert("../../etc/passwd"@ =~= entry);
}

/// An entry with a `..` segment is never accepted, whatever the base.
pub proof fn law_parent_segment_rejected(base: Seq<char>, entry: Seq<char>)
    requires
        has_parent_segment(entry),
    ensures
        extraction_outcome(base, entry) is Err,
{
}

/// An absolute entry is never accepted, whatever the base.
pub proof fn law_absolute_entry_rejected(base: Seq<char>, entry: Seq<char>)
    requires
        is_absolute(entry),
    ensures
        extraction_outcome(base, entry) is Err,
{
}

/// An accepted path lies strictly below the base: it begins with the base,
/// is longer than it, and what follows the base is the entry, which is not
/// absolute and has no `..` segment.
pub proof fn law_accepted_path_is_below_base(base: Seq<char>, entry: Seq<char>)
    requires
        extraction_outcome(base, entry) is Ok,
    ensures
        starts_with(extraction_outcome(base, entry)->Ok_0, base),
        extraction_outcome(base, entry)->Ok_0.len() > base.len(),
        crate::text::ends_with(extraction_outcome(base, entry)->Ok_0, entry),
        !is_absolute(entry),
        !has_parent_segment(entry),
        has_named_segment(entry),
{
    let path = extraction_outcome(base, entry)->Ok_0;
    assert(path.subrange(0, base.len() as int) =~= base);
    assert(path.subrange(path.len() - entry.len(), path.len() as int) =~= entry);
}

/// The text of a valid module identifier is one plain segment: joined to a
/// base it names a direct child of the base. The guard accepts it unless its
/// second character is `:`, which the guard reads as a drive.
pub proof fn law_identifier_names_a_child(base: Seq<char>, name: Seq<char>, namespace: Seq<char>)
    requires
        valid_parts(name, namespace),
    ensures
        forall|i: int|
            0 <= i < joined(name, namespace).len() ==> !is_separator(
                #[trigger] joined(name, namespace)[i],
            ),
        !joined(name, namespace).contains('\0'),
        !has_parent_segment(joined(name, namespace)),
        has_named_segment(joined(name, namespace)),
        joined(name, namespace)[1] != ':' ==> extraction_outcome(base, joined(name, namespace))
            == Ok::<Seq<char>, PathTraversalError>(joined_path(base, joined(name, namespace))),
{
    let text = joined(name, namespace);
    let at = name.len() as int;
    assert(text[at] == '@');
    assert forall|i: int| 0 <= i < text.len() implies !is_separator(#[trigger] text[i]) && text[i]
        != '\0' by {
        if i < at {
            assert(text[i] == name[i]);
            assert(!forbidden_in_part(name[i]));
        } else if i > at {
            assert(text[i] == namespace[i - at - 1]);
            assert(!forbidden_in_part(namespace[i - at - 1]));
        }
    }
    assert(!text.contains('\0'));
    assert forall|from: int| !parent_segment_at(text, from) by {
        if parent_segment_at(text, from) {
            if from + 2 < text.len() {
                assert(is_separator(text[from + 2]));
            } else if from > 0 {
                assert(is_separator(text[from - 1]));
            } else {
                assert(text.len() == 2);
                assert(text[at] == '@');
            }
        }
    }
    assert(names_something_at(text, at));
}

} // verus!
