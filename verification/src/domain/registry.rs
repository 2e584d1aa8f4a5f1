//! The catalog of modules that the registry offers.

use crate::domain::category::ModuleCategory;
use crate::domain::module::ModuleUuid;
use crate::domain::timestamp::Timestamp;
use crate::domain::version::ModuleVersion;
use crate::text::{chars_of, contains_text, has_text};
use vstd::prelude::*;
use vstd::utf8::{encode_utf8, is_char_boundary};

verus! {

/// One module as the registry describes it.
#[derive(Debug, Clone)]
pub struct RegistryModule {
    pub uuid: ModuleUuid,
    pub name: String,
    pub description: String,
    pub author: String,
    pub category: ModuleCategory,
    pub icon: Option<String>,
    pub screenshot: Option<String>,
    pub repo_url: String,
    pub downloads: u64,
    pub version: Option<ModuleVersion>,
    pub last_updated: Option<Timestamp>,
    /// The advisory rating, as the bit pattern of an IEEE 754 single.
    pub rating: Option<u32>,
    pub verified_author: bool,
    pub tags: Vec<String>,
    pub checksum: Option<String>,
    pub license: Option<String>,
}

/// How a category is presented.
#[derive(Debug, Clone)]
pub struct CategoryInfo {
    pub id: Option<String>,
    pub name: String,
    pub icon: String,
}

/// A category key with its presentation.
#[derive(Debug, Clone)]
pub struct CategoryEntry {
    pub key: String,
    pub info: CategoryInfo,
}

/// The whole catalog: its format version, its modules in registry order, and
/// the categories by key.
#[derive(Debug, Clone)]
pub struct RegistryIndex {
    pub version: u32,
    pub modules: Vec<RegistryModule>,
    pub categories: Vec<CategoryEntry>,
}

/// What the standard library's `str::to_lowercase` returns for `text`.
pub uninterp spec fn lowercased(text: Seq<char>) -> Seq<char>;

/// Calls `str::to_lowercase` of the standard library, which gives the
/// lowercase equivalent of the text by the rules of Unicode. The result is
/// what `lowercased` names.
#[verifier::external_body]
pub(crate) fn lowercase(text: &str) -> (lower: String)
    ensures
        lower@ == lowercased(text@),
{
    text.to_lowercase()
}

/// `text`, compared without regard to case, holds the lowercase `query`.
pub open spec fn mentions(text: Seq<char>, lower_query: Seq<char>) -> bool {
    contains_text(lowercased(text), lower_query)
}

/// The three dots that end a shortened description.
pub open spec fn ellipsis() -> Seq<char> {
    seq!['.', '.', '.']
}

/// Whether `text` holds the already lowercased `lower_query`, case ignored.
fn text_mentions(text: &str, lower_query: &[char]) -> (hit: bool)
    ensures
        hit == mentions(text@, lower_query@),
{
    let lower = lowercase(text);
    let chars = chars_of(lower.as_str());
    has_text(chars.as_slice(), lower_query)
}

impl RegistryModule {
    /// The module's name, description, author or one of its tags holds
    /// `query`, case ignored.
    pub open spec fn spec_matches_search(&self, query: Seq<char>) -> bool {
        let lower_query = lowercased(query);
        ||| mentions(self.name@, lower_query)
        ||| mentions(self.description@, lower_query)
        ||| mentions(self.author@, lower_query)
        ||| exists|i: int|
            0 <= i < self.tags@.len() && mentions(#[trigger] self.tags@[i]@, lower_query)
    }

    /// Whether the module's name, description, author or one of its tags
    /// holds `query`, case ignored.
    pub fn matches_search(&self, query: &str) -> (hit: bool)
        ensures
            hit == self.spec_matches_search(query@),
    {
        let lower_query_text = lowercase(query);
        let lower_query = chars_of(lower_query_text.as_str());
        if text_mentions(self.name.as_str(), lower_query.as_slice()) {
            return true;
        }
        if text_mentions(self.description.as_str(), lower_query.as_slice()) {
            return true;
        }
        if text_mentions(self.author.as_str(), lower_query.as_slice()) {
            return true;
        }
        let mut i: usize = 0;
        while i < self.tags.len()
            invariant
                i <= self.tags@.len(),
                lower_query@ == lowercased(query@),
                forall|j: int| 0 <= j < i ==> !mentions(#[trigger] self.tags@[j]@, lower_query@),
            decreases self.tags@.len() - i,
        {
            if text_mentions(self.tags[i].as_str(), lower_query.as_slice()) {
                return true;
            }
            i += 1;
        }
        false
    }

    /// The description as UTF-8 bytes.
    pub open spec fn description_bytes(&self) -> Seq<u8> {
        encode_utf8(self.description@)
    }

    /// The description, cut to fit `max_len` bytes: unchanged where it fits,
    /// else its first `max_len - 3` bytes (none where `max_len < 3`) followed
    /// by three dots. The cut must not split a character.
    pub fn truncated_description(&self, max_len: usize) -> (short: String)
        requires
            self.description_bytes().len() > max_len ==> is_char_boundary(
                self.description_bytes(),
                cut_position(max_len),
            ),
        ensures
            self.description_bytes().len() <= max_len ==> short@ == self.description@,
            self.description_bytes().len() > max_len ==> exists|kept: Seq<char>|
                #[trigger] is_cut_of(kept, self.description@, max_len) && short@ == kept
                    + ellipsis(),
    {
        let description = self.description.as_str();
        if description.as_bytes().len() <= max_len {
            self.description.clone()
        } else {
            let cut: usize = if max_len >= 3 {
                max_len - 3
            } else {
                0
            };
            let (kept, _) = description.split_at(cut);
            let mut short = kept.to_owned();
            proof {
                reveal_strlit("...");
            }
            short.append("...");
            assert(short@ =~= kept@ + ellipsis());
            assert(is_cut_of(kept@, self.description@, max_len));
            short
        }
    }
}

/// `kept` is the part of `description` before the cut for `max_len`: its
/// UTF-8 bytes are the first bytes of the description's, up to the cut.
pub open spec fn is_cut_of(kept: Seq<char>, description: Seq<char>, max_len: usize) -> bool {
    encode_utf8(kept) == encode_utf8(description).subrange(0, cut_position(max_len))
}

/// Where a description that does not fit `max_len` bytes is cut.
pub open spec fn cut_position(max_len: usize) -> int {
    if max_len >= 3 {
        max_len - 3
    } else {
        0
    }
}

impl RegistryIndex {
    /// Position of the first module whose identifier reads `uuid`, if any.
    pub open spec fn spec_position_of(&self, uuid: Seq<char>) -> Option<int> {
        if exists|i: int| self.names_at(i, uuid) {
            Some(
                choose|i: int|
                    self.names_at(i, uuid) && forall|j: int|
                        0 <= j < i ==> !self.names_at(j, uuid),
            )
        } else {
            None
        }
    }

    /// The module at position `i` has the identifier text `uuid`.
    pub open spec fn names_at(&self, i: int, uuid: Seq<char>) -> bool {
        0 <= i < self.modules@.len() && self.modules@[i].uuid.text() == uuid
    }

    /// The first module whose identifier reads `uuid`.
    pub fn find_by_uuid(&self, uuid: &str) -> (found: Option<&RegistryModule>)
        ensures
            match found {
                Some(module) => exists|i: int|
                    {
                        &&& #[trigger] self.names_at(i, uuid@)
                        &&& *module == self.modules@[i]
                        &&& forall|j: int| 0 <= j < i ==> !self.names_at(j, uuid@)
                    },
                None => forall|i: int| !self.names_at(i, uuid@),
            },
    {
        let wanted = uuid.to_owned();
        let mut i: usize = 0;
        while i < self.modules.len()
            invariant
                i <= self.modules@.len(),
                wanted@ == uuid@,
                forall|j: int| 0 <= j < i ==> !self.names_at(j, uuid@),
            decreases self.modules@.len() - i,
        {
            let text = self.modules[i].uuid.to_string();
            if text == wanted {
                assert(self.names_at(i as int, uuid@));
                return Some(&self.modules[i]);
            }
            i += 1;
        }
        None
    }

    /// The presentation of the category with key `key`: the first entry that
    /// has it.
    pub fn category(&self, key: &str) -> (found: Option<&CategoryInfo>)
        ensures
            match found {
                Some(info) => exists|i: int|
                    {
                        &&& 0 <= i < self.categories@.len()
                        &&& #[trigger] self.categories@[i].key@ == key@
                        &&& *info == self.categories@[i].info
                        &&& forall|j: int| 0 <= j < i ==> self.categories@[j].key@ != key@
                    },
                None => forall|i: int|
                    0 <= i < self.categories@.len() ==> #[trigger] self.categories@[i].key@ != key@,
            },
    {
        let wanted = key.to_owned();
        let mut i: usize = 0;
        while i < self.categories.len()
            invariant
                i <= self.categories@.len(),
                wanted@ == key@,
                forall|j: int| 0 <= j < i ==> #[trigger] self.categories@[j].key@ != key@,
            decreases self.categories@.len() - i,
        {
            if self.categories[i].key == wanted {
                return Some(&self.categories[i].info);
            }
            i += 1;
        }
        None
    }
}

} // verus!
