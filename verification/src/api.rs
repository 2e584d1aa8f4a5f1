//! Validation of registry payloads.
//!
//! Mapping is all-or-nothing: a payload either maps as a whole, or the first
//! defect found in it is reported and nothing is produced.

use crate::api_models;
use crate::domain::author::{Author, AuthorProfile};
use crate::domain::category::ModuleCategory;
use crate::domain::module::{parse_outcome, ModuleUuid, ModuleUuidError};
use crate::domain::registry::{CategoryEntry, CategoryInfo, RegistryIndex, RegistryModule};
use crate::domain::review::{Review, ReviewUser, ReviewsResponse};
use crate::domain::timestamp::{rfc3339_instant, Timestamp};
use crate::domain::version::{semver_parts, ModuleVersion};
use crate::text::{joined_text, starts_with};
use vstd::prelude::*;

verus! {

/// A doubly optional value with both layers merged: present only where it
/// was sent and was not null.
pub open spec fn flattened<T>(value: Option<Option<T>>) -> Option<T> {
    match value {
        Some(Some(inner)) => Some(inner),
        _ => None,
    }
}

/// Merges the two layers of a doubly optional value.
pub fn flatten<T>(value: Option<Option<T>>) -> (merged: Option<T>)
    ensures
        merged == flattened(value),
{
    match value {
        Some(Some(inner)) => Some(inner),
        _ => None,
    }
}

/// The complaint about a negative number in the field named `field`.
pub open spec fn negative_message(field: Seq<char>) -> Seq<char> {
    field + " must be non-negative"@
}

/// The complaint about text that is not a module identifier.
pub open spec fn uuid_message(error: ModuleUuidError) -> Seq<char> {
    "invalid module uuid: "@ + error.spec_message()
}

/// The beginning of every complaint about text that is not a version.
pub open spec fn version_message_prefix() -> Seq<char> {
    "invalid module version: "@
}

/// The beginning of every complaint about text that is not a timestamp.
pub open spec fn timestamp_message_prefix() -> Seq<char> {
    "invalid last_updated timestamp: "@
}

/// The complaint about a review rating that does not fit a byte.
pub open spec fn rating_message() -> Seq<char> {
    "review rating must be between 0 and 255"@
}

/// Reads `value` as an unsigned 64-bit number; a negative one is rejected
/// with a complaint that names `field`.
pub fn parse_u64(value: i64, field: &str) -> (parsed: Result<u64, String>)
    ensures
        value >= 0 ==> parsed == Ok::<u64, String>(value as u64),
        value < 0 ==> (parsed matches Err(message) && message@ == negative_message(field@)),
{
    if value < 0 {
        return Err(joined_text(field, " must be non-negative"));
    }
    Ok(value as u64)
}

/// Reads `value` as an unsigned 32-bit number; a negative one is rejected
/// with a complaint that names `field`.
pub fn parse_u32(value: i32, field: &str) -> (parsed: Result<u32, String>)
    ensures
        value >= 0 ==> parsed == Ok::<u32, String>(value as u32),
        value < 0 ==> (parsed matches Err(message) && message@ == negative_message(field@)),
{
    if value < 0 {
        return Err(joined_text(field, " must be non-negative"));
    }
    Ok(value as u32)
}

/// Reads `value` as a size; a negative one is rejected with a complaint that
/// names `field`.
pub fn parse_usize(value: i32, field: &str) -> (parsed: Result<usize, String>)
    ensures
        value >= 0 ==> parsed == Ok::<usize, String>(value as usize),
        value < 0 ==> (parsed matches Err(message) && message@ == negative_message(field@)),
{
    if value < 0 {
        return Err(joined_text(field, " must be non-negative"));
    }
    Ok(value as usize)
}

/// Parses a module identifier, turning a rejection into a message.
pub fn parse_module_uuid(value: &str) -> (parsed: Result<ModuleUuid, String>)
    ensures
        match parse_outcome(value@) {
            Ok((name, namespace)) => parsed matches Ok(uuid) && uuid.name_text() == name
                && uuid.namespace_text() == namespace && uuid.wf() && uuid.text() == value@,
            Err(error) => parsed matches Err(message) && message@ == uuid_message(error),
        },
{
    match ModuleUuid::parse(value) {
        Ok(uuid) => Ok(uuid),
        Err(error) => Err(joined_text("invalid module uuid: ", error.message())),
    }
}

/// Parses a module version, turning a rejection into a message that ends
/// with the parser's own words.
pub fn parse_module_version(value: &str) -> (parsed: Result<ModuleVersion, String>)
    ensures
        match semver_parts(value@) {
            Some(parts) => parsed matches Ok(version) && version@ == parts,
            None => parsed matches Err(message) && starts_with(
                message@,
                version_message_prefix(),
            ),
        },
{
    match ModuleVersion::parse(value) {
        Ok(version) => Ok(version),
        Err(error) => {
            let detail = error.to_string();
            Err(joined_text("invalid module version: ", detail.as_str()))
        },
    }
}

/// What parsing an optional timestamp yields: nothing for nothing, the
/// instant for text that is a timestamp, and `Err` for other text.
pub open spec fn optional_instant(value: Option<String>) -> Result<Option<(int, int)>, ()> {
    match value {
        None => Ok(None),
        Some(text) => match rfc3339_instant(text@) {
            Some(instant) => Ok(Some(instant)),
            None => Err(()),
        },
    }
}

/// Parses a timestamp if there is one, turning a rejection into a message
/// that ends with the parser's own words.
pub fn parse_optional_timestamp(value: Option<String>) -> (parsed: Result<
    Option<Timestamp>,
    String,
>)
    ensures
        match optional_instant(value) {
            Ok(None) => parsed matches Ok(None),
            Ok(Some(instant)) => parsed matches Ok(Some(stamp)) && stamp@ == instant,
            Err(_) => parsed matches Err(message) && starts_with(
                message@,
                timestamp_message_prefix(),
            ),
        },
{
    let text = match value {
        Some(text) => text,
        None => {
            return Ok(None);
        },
    };
    match Timestamp::parse_rfc3339(text.as_str()) {
        Ok(stamp) => Ok(Some(stamp)),
        Err(error) => {
            let detail = error.to_string();
            Err(joined_text("invalid last_updated timestamp: ", detail.as_str()))
        },
    }
}

/// The category that a payload category stands for.
pub open spec fn category_of(category: api_models::ModuleCategory) -> ModuleCategory {
    match category {
        api_models::ModuleCategory::System => ModuleCategory::System,
        api_models::ModuleCategory::Hardware => ModuleCategory::Hardware,
        api_models::ModuleCategory::Network => ModuleCategory::Network,
        api_models::ModuleCategory::Audio => ModuleCategory::Audio,
        api_models::ModuleCategory::Power => ModuleCategory::Power,
        api_models::ModuleCategory::Time => ModuleCategory::Time,
        api_models::ModuleCategory::Workspace => ModuleCategory::Workspace,
        api_models::ModuleCategory::Window => ModuleCategory::Window,
        api_models::ModuleCategory::Tray => ModuleCategory::Tray,
        api_models::ModuleCategory::Weather => ModuleCategory::Weather,
        api_models::ModuleCategory::Productivity => ModuleCategory::Productivity,
        api_models::ModuleCategory::Media => ModuleCategory::Media,
        api_models::ModuleCategory::Custom => ModuleCategory::Custom,
    }
}

/// Maps a payload category to the category it stands for.
pub fn map_module_category(category: api_models::ModuleCategory) -> (mapped: ModuleCategory)
    ensures
        mapped == category_of(category),
{
    match category {
        api_models::ModuleCategory::System => ModuleCategory::System,
        api_models::ModuleCategory::Hardware => ModuleCategory::Hardware,
        api_models::ModuleCategory::Network => ModuleCategory::Network,
        api_models::ModuleCategory::Audio => ModuleCategory::Audio,
        api_models::ModuleCategory::Power => ModuleCategory::Power,
        api_models::ModuleCategory::Time => ModuleCategory::Time,
        api_models::ModuleCategory::Workspace => ModuleCategory::Workspace,
        api_models::ModuleCategory::Window => ModuleCategory::Window,
        api_models::ModuleCategory::Tray => ModuleCategory::Tray,
        api_models::ModuleCategory::Weather => ModuleCategory::Weather,
        api_models::ModuleCategory::Productivity => ModuleCategory::Productivity,
        api_models::ModuleCategory::Media => ModuleCategory::Media,
        api_models::ModuleCategory::Custom => ModuleCategory::Custom,
    }
}

/// Maps a category's presentation.
pub fn map_category_info(api: api_models::CategoryInfo) -> (info: CategoryInfo)
    ensures
        info.id == flattened(api.id),
        info.name == api.name,
        info.icon == api.icon,
{
    CategoryInfo { id: flatten(api.id), name: api.name, icon: api.icon }
}

/// Maps the writer of a review.
pub fn map_review_user(api: api_models::ReviewUser) -> (user: ReviewUser)
    ensures
        user.username == api.username,
        user.avatar_url == flattened(api.avatar_url),
{
    ReviewUser { username: api.username, avatar_url: flatten(api.avatar_url) }
}

/// The first rule that a module payload breaks.
pub enum ModuleDefect {
    /// The identifier does not parse, for the given reason.
    Uuid(ModuleUuidError),
    /// A version was sent and is not a semantic version.
    Version,
    /// A timestamp was sent and is not an RFC 3339 date and time.
    Timestamp,
    /// The download count is negative.
    Downloads,
}

/// The first rule that `api` breaks, in the order identifier, version,
/// timestamp, download count; `None` where it breaks none.
pub open spec fn module_defect(api: api_models::RegistryModule) -> Option<ModuleDefect> {
    if parse_outcome(api.uuid@) is Err {
        Some(ModuleDefect::Uuid(parse_outcome(api.uuid@)->Err_0))
    } else if flattened(api.version) is Some && semver_parts(flattened(api.version)->0@) is None {
        Some(ModuleDefect::Version)
    } else if optional_instant(flattened(api.last_updated)) is Err {
        Some(ModuleDefect::Timestamp)
    } else if api.downloads < 0 {
        Some(ModuleDefect::Downloads)
    } else {
        None
    }
}

/// `message` is the complaint about `defect`. The words of an outside parser
/// are not fixed here, only what stands before them.
pub open spec fn describes_defect(message: Seq<char>, defect: ModuleDefect) -> bool {
    match defect {
        ModuleDefect::Uuid(error) => message == uuid_message(error),
        ModuleDefect::Version => starts_with(message, version_message_prefix()),
        ModuleDefect::Timestamp => starts_with(message, timestamp_message_prefix()),
        ModuleDefect::Downloads => message == negative_message("downloads"@),
    }
}

/// `module` is what the payload `api` maps to.
pub open spec fn module_mapped(api: api_models::RegistryModule, module: RegistryModule) -> bool {
    &&& parse_outcome(api.uuid@) matches Ok(parts) && parts.0 == module.uuid.name_text()
        && parts.1 == module.uuid.namespace_text()
    &&& module.uuid.text() == api.uuid@
    &&& module.uuid.wf()
    &&& module.name == api.name
    &&& module.description == api.description
    &&& module.author == api.author
    &&& module.category == category_of(api.category)
    &&& module.icon == flattened(api.icon)
    &&& module.screenshot == flattened(api.screenshot)
    &&& module.repo_url == api.repo_url
    &&& module.downloads == api.downloads
    &&& match flattened(api.version) {
        Some(text) => module.version matches Some(version) && Some(version@) == semver_parts(
            text@,
        ),
        None => module.version is None,
    }
    &&& match optional_instant(flattened(api.last_updated)) {
        Ok(Some(instant)) => module.last_updated matches Some(stamp) && stamp@ == instant,
        _ => module.last_updated is None,
    }
    &&& module.rating == flattened(api.rating)
    &&& module.verified_author == api.verified_author
    &&& module.tags == api.tags
    &&& module.checksum == flattened(api.checksum)
    &&& module.license == flattened(api.license)
}

/// Maps one module payload: to the module it describes where it breaks no
/// rule, else to the complaint about the first rule it breaks.
pub fn map_registry_module(api: api_models::RegistryModule) -> (mapped: Result<
    RegistryModule,
    String,
>)
    ensures
        match module_defect(api) {
            None => mapped matches Ok(module) && module_mapped(api, module),
            Some(defect) => mapped matches Err(message) && describes_defect(message@, defect),
        },
{
    let uuid = match parse_module_uuid(api.uuid.as_str()) {
        Ok(uuid) => uuid,
        Err(message) => {
            return Err(message);
        },
    };
    let version = match flatten(api.version) {
        Some(text) => match parse_module_version(text.as_str()) {
            Ok(version) => Some(version),
            Err(message) => {
                return Err(message);
            },
        },
        None => None,
    };
    let last_updated = match parse_optional_timestamp(flatten(api.last_updated)) {
        Ok(stamp) => stamp,
        Err(message) => {
            return Err(message);
        },
    };
    let downloads = match parse_u64(api.downloads, "downloads") {
        Ok(downloads) => downloads,
        Err(message) => {
            return Err(message);
        },
    };
    let category = map_module_category(api.category);
    Ok(
        RegistryModule {
            uuid,
            name: api.name,
            description: api.description,
            author: api.author,
            category,
            icon: flatten(api.icon),
            screenshot: flatten(api.screenshot),
            repo_url: api.repo_url,
            downloads,
            version,
            last_updated,
            rating: flatten(api.rating),
            verified_author: api.verified_author,
            tags: api.tags,
            checksum: flatten(api.checksum),
            license: flatten(api.license),
        },
    )
}

/// No module among the first `upto` of `modules` breaks a rule.
pub open spec fn modules_clean(modules: Seq<api_models::RegistryModule>, upto: int) -> bool {
    forall|i: int| 0 <= i < upto ==> (#[trigger] module_defect(modules[i])) is None
}

/// The module at `at` is the first of `modules` that breaks a rule.
pub open spec fn first_defective(modules: Seq<api_models::RegistryModule>, at: int) -> bool {
    &&& 0 <= at < modules.len()
    &&& module_defect(modules[at]) is Some
    &&& modules_clean(modules, at)
}

/// `mapped` holds, position by position, what each of `modules` maps to.
pub open spec fn modules_mapped(
    modules: Seq<api_models::RegistryModule>,
    mapped: Seq<RegistryModule>,
) -> bool {
    &&& mapped.len() == modules.len()
    &&& forall|i: int| 0 <= i < modules.len() ==> module_mapped(modules[i], #[trigger] mapped[i])
}

/// Maps a list of module payloads, all or nothing: to the modules they
/// describe, in order, where none breaks a rule; else to the complaint about
/// the first one that does.
pub fn map_registry_modules(modules: Vec<api_models::RegistryModule>) -> (mapped: Result<
    Vec<RegistryModule>,
    String,
>)
    ensures
        match mapped {
            Ok(list) => modules_clean(modules@, modules@.len() as int) && modules_mapped(
                modules@,
                list@,
            ),
            Err(message) => exists|at: int| #[trigger]
                first_defective(modules@, at) && describes_defect(
                    message@,
                    module_defect(modules@[at])->0,
                ),
        },
{
    let mut list: Vec<RegistryModule> = Vec::new();
    for api in it: modules
        invariant
            it.seq() == modules@,
            list@.len() == it.index(),
            modules_clean(modules@, it.index() as int),
            forall|i: int| 0 <= i < list@.len() ==> module_mapped(modules@[i], #[trigger] list@[i]),
    {
        let ghost at = list@.len() as int;
        match map_registry_module(api) {
            Ok(module) => {
                list.push(module);
            },
            Err(message) => {
                assert(first_defective(modules@, at));
                return Err(message);
            },
        }
    }
    Ok(list)
}

/// `mapped` holds, position by position, the entries of `categories`, each
/// under its key.
pub open spec fn categories_mapped(
    categories: Seq<api_models::CategoryEntry>,
    mapped: Seq<CategoryEntry>,
) -> bool {
    &&& mapped.len() == categories.len()
    &&& forall|i: int|
        0 <= i < categories.len() ==> {
            &&& (#[trigger] mapped[i]).key == categories[i].key
            &&& mapped[i].info.id == flattened(categories[i].info.id)
            &&& mapped[i].info.name == categories[i].info.name
            &&& mapped[i].info.icon == categories[i].info.icon
        }
}

/// Maps the categories of an index; none can be rejected.
pub fn map_categories(categories: Vec<api_models::CategoryEntry>) -> (mapped: Vec<CategoryEntry>)
    ensures
        categories_mapped(categories@, mapped@),
{
    let mut mapped: Vec<CategoryEntry> = Vec::new();
    for entry in it: categories
        invariant
            it.seq() == categories@,
            mapped@.len() == it.index(),
            forall|i: int|
                0 <= i < mapped@.len() ==> {
                    &&& (#[trigger] mapped@[i]).key == categories@[i].key
                    &&& mapped@[i].info.id == flattened(categories@[i].info.id)
                    &&& mapped@[i].info.name == categories@[i].info.name
                    &&& mapped@[i].info.icon == categories@[i].info.icon
                },
    {
        mapped.push(CategoryEntry { key: entry.key, info: map_category_info(entry.info) });
    }
    mapped
}

/// The index payload breaks no rule: no module does, and the format version
/// is not negative.
pub open spec fn index_clean(api: api_models::RegistryIndex) -> bool {
    modules_clean(api.modules@, api.modules@.len() as int) && api.version >= 0
}

/// `message` is the complaint about the index payload `api`: about its
/// first defective module if it has one, else about its negative version.
pub open spec fn describes_index_defect(
    message: Seq<char>,
    api: api_models::RegistryIndex,
) -> bool {
    ||| exists|at: int| #[trigger]
        first_defective(api.modules@, at) && describes_defect(
            message,
            module_defect(api.modules@[at])->0,
        )
    ||| modules_clean(api.modules@, api.modules@.len() as int) && message == negative_message(
        "registry version"@,
    )
}

/// Maps an index payload, all or nothing. One module that breaks a rule, or
/// a negative format version, fails the whole mapping: the complaint is about
/// the first defective module if there is one, else about the version.
pub fn map_registry_index(api: api_models::RegistryIndex) -> (mapped: Result<RegistryIndex, String>)
    ensures
        mapped is Ok <==> index_clean(api),
        mapped matches Ok(index) ==> {
            &&& index.version == api.version
            &&& modules_mapped(api.modules@, index.modules@)
            &&& categories_mapped(api.categories@, index.categories@)
        },
        mapped matches Err(message) ==> describes_index_defect(message@, api),
{
    let modules = match map_registry_modules(api.modules) {
        Ok(modules) => modules,
        Err(message) => {
            return Err(message);
        },
    };
    let categories = map_categories(api.categories);
    let version = match parse_u32(api.version, "registry version") {
        Ok(version) => version,
        Err(message) => {
            return Err(message);
        },
    };
    Ok(RegistryIndex { version, modules, categories })
}

/// The first rule that a review payload breaks.
pub enum ReviewDefect {
    /// The rating does not fit a byte.
    Rating,
    /// The review's number is negative.
    Id,
    /// The count of helpful votes is negative.
    HelpfulCount,
}

/// The first rule that `api` breaks, in the order rating, number, helpful
/// votes; `None` where it breaks none.
pub open spec fn review_defect(api: api_models::Review) -> Option<ReviewDefect> {
    if api.rating < 0 || api.rating > 255 {
        Some(ReviewDefect::Rating)
    } else if api.id < 0 {
        Some(ReviewDefect::Id)
    } else if api.helpful_count < 0 {
        Some(ReviewDefect::HelpfulCount)
    } else {
        None
    }
}

/// The complaint about `defect`.
pub open spec fn review_defect_message(defect: ReviewDefect) -> Seq<char> {
    match defect {
        ReviewDefect::Rating => rating_message(),
        ReviewDefect::Id => negative_message("review id"@),
        ReviewDefect::HelpfulCount => negative_message("helpful count"@),
    }
}

/// `review` is what the payload `api` maps to.
pub open spec fn review_mapped(api: api_models::Review, review: Review) -> bool {
    &&& review.id == api.id
    &&& review.rating == api.rating
    &&& review.title == flattened(api.title)
    &&& review.body == flattened(api.body)
    &&& review.helpful_count == api.helpful_count
    &&& review.user.username == api.user.username
    &&& review.user.avatar_url == flattened(api.user.avatar_url)
    &&& review.created_at == api.created_at
    &&& review.updated_at == flattened(api.updated_at)
}

/// Maps one review payload: to the review it describes where it breaks no
/// rule, else to the complaint about the first rule it breaks.
pub fn map_review(api: api_models::Review) -> (mapped: Result<Review, String>)
    ensures
        match review_defect(api) {
            None => mapped matches Ok(review) && review_mapped(api, review),
            Some(defect) => mapped matches Err(message) && message@ == review_defect_message(
                defect,
            ),
        },
{
    if api.rating < 0 || api.rating > 255 {
        return Err("review rating must be between 0 and 255".to_owned());
    }
    let rating = api.rating as u8;
    let id = match parse_u64(api.id, "review id") {
        Ok(id) => id,
        Err(message) => {
            return Err(message);
        },
    };
    let helpful_count = match parse_u64(api.helpful_count, "helpful count") {
        Ok(count) => count,
        Err(message) => {
            return Err(message);
        },
    };
    Ok(
        Review {
            id,
            rating,
            title: flatten(api.title),
            body: flatten(api.body),
            helpful_count,
            user: map_review_user(api.user),
            created_at: api.created_at,
            updated_at: flatten(api.updated_at),
        },
    )
}

/// No review among the first `upto` of `reviews` breaks a rule.
pub open spec fn reviews_clean(reviews: Seq<api_models::Review>, upto: int) -> bool {
    forall|i: int| 0 <= i < upto ==> (#[trigger] review_defect(reviews[i])) is None
}

/// The review at `at` is the first of `reviews` that breaks a rule.
pub open spec fn first_defective_review(reviews: Seq<api_models::Review>, at: int) -> bool {
    &&& 0 <= at < reviews.len()
    &&& review_defect(reviews[at]) is Some
    &&& reviews_clean(reviews, at)
}

/// `mapped` holds, position by position, what each of `reviews` maps to.
pub open spec fn reviews_mapped(reviews: Seq<api_models::Review>, mapped: Seq<Review>) -> bool {
    &&& mapped.len() == reviews.len()
    &&& forall|i: int| 0 <= i < reviews.len() ==> review_mapped(reviews[i], #[trigger] mapped[i])
}

/// `message` is the complaint about the page `api`: about its first
/// defective review if it has one, else about its negative total.
pub open spec fn describes_reviews_defect(
    message: Seq<char>,
    api: api_models::ReviewsPage,
) -> bool {
    ||| exists|at: int| #[trigger]
        first_defective_review(api.reviews@, at) && message == review_defect_message(
            review_defect(api.reviews@[at])->0,
        )
    ||| reviews_clean(api.reviews@, api.reviews@.len() as int) && message == negative_message(
        "reviews total"@,
    )
}

/// Maps a page of reviews, all or nothing: the complaint is about the first
/// defective review if there is one, else about a negative total.
pub fn map_reviews_response(api: api_models::ReviewsPage) -> (mapped: Result<
    ReviewsResponse,
    String,
>)
    ensures
        mapped is Ok <==> reviews_clean(api.reviews@, api.reviews@.len() as int) && api.total
            >= 0,
        mapped matches Ok(response) ==> response.total == api.total && reviews_mapped(
            api.reviews@,
            response.reviews@,
        ),
        mapped matches Err(message) ==> describes_reviews_defect(message@, api),
{
    let mut reviews: Vec<Review> = Vec::new();
    let ghost all = api.reviews@;
    for review in it: api.reviews
        invariant
            it.seq() == all,
            all == api.reviews@,
            reviews@.len() == it.index(),
            reviews_clean(all, it.index() as int),
            forall|i: int|
                0 <= i < reviews@.len() ==> review_mapped(all[i], #[trigger] reviews@[i]),
    {
        let ghost at = reviews@.len() as int;
        match map_review(review) {
            Ok(review) => {
                reviews.push(review);
            },
            Err(message) => {
                assert(first_defective_review(all, at));
                return Err(message);
            },
        }
    }
    let total = match parse_usize(api.total, "reviews total") {
        Ok(total) => total,
        Err(message) => {
            return Err(message);
        },
    };
    Ok(ReviewsResponse { reviews, total })
}

/// `author` is what the profile payload `profile` maps to.
pub open spec fn author_mapped(profile: api_models::UserProfile, author: Author) -> bool {
    &&& author.id == profile.id
    &&& author.username == profile.username
    &&& author.display_name == profile.display_name
    &&& author.avatar_url == profile.avatar_url
    &&& author.bio == profile.bio
    &&& author.website_url == profile.website_url
    &&& author.verified_author == profile.verified_author
    &&& author.module_count == profile.module_count
    &&& author.created_at == profile.created_at
}

/// The profile and its modules break no rule.
pub open spec fn profile_clean(
    profile: api_models::UserProfile,
    modules: Seq<api_models::RegistryModule>,
) -> bool {
    profile.id >= 0 && profile.module_count >= 0 && modules_clean(modules, modules.len() as int)
}

/// `message` is the complaint about the profile and its modules: about a
/// negative author number, else a negative module count, else the first
/// defective module.
pub open spec fn describes_profile_defect(
    message: Seq<char>,
    profile: api_models::UserProfile,
    modules: Seq<api_models::RegistryModule>,
) -> bool {
    ||| profile.id < 0 && message == negative_message("author id"@)
    ||| profile.id >= 0 && profile.module_count < 0 && message == negative_message(
        "module count"@,
    )
    ||| profile.id >= 0 && profile.module_count >= 0 && exists|at: int| #[trigger]
        first_defective(modules, at) && describes_defect(message, module_defect(modules[at])->0)
}

/// Maps an author's profile and the modules they published, all or nothing.
/// The complaint is about a negative author number, else a negative module
/// count, else the first defective module.
pub fn map_author_profile(
    profile: api_models::UserProfile,
    modules: Vec<api_models::RegistryModule>,
) -> (mapped: Result<AuthorProfile, String>)
    ensures
        mapped is Ok <==> profile_clean(profile, modules@),
        mapped matches Ok(result) ==> author_mapped(profile, result.author) && modules_mapped(
            modules@,
            result.modules@,
        ),
        mapped matches Err(message) ==> describes_profile_defect(message@, profile, modules@),
{
    let id = match parse_u64(profile.id, "author id") {
        Ok(id) => id,
        Err(message) => {
            return Err(message);
        },
    };
    let module_count = match parse_u64(profile.module_count, "module count") {
        Ok(count) => count,
        Err(message) => {
            return Err(message);
        },
    };
    let author = Author {
        id,
        username: profile.username,
        display_name: profile.display_name,
        avatar_url: profile.avatar_url,
        bio: profile.bio,
        website_url: profile.website_url,
        verified_author: profile.verified_author,
        module_count,
        created_at: profile.created_at,
    };
    let modules = match map_registry_modules(modules) {
        Ok(modules) => modules,
        Err(message) => {
            return Err(message);
        },
    };
    Ok(AuthorProfile { author, modules })
}

/// One negative download count anywhere in an index payload fails the whole
/// mapping: such a payload is not clean, and only clean payloads map.
pub proof fn law_negative_downloads_fail_index(api: api_models::RegistryIndex, at: int)
    requires
        0 <= at < api.modules@.len(),
        api.modules@[at].downloads < 0,
    ensures
        !index_clean(api),
{
    assert(module_defect(api.modules@[at]) is Some);
}

/// Any one module that breaks a rule fails the whole index mapping.
pub proof fn law_defective_module_fails_index(api: api_models::RegistryIndex, at: int)
    requires
        0 <= at < api.modules@.len(),
        module_defect(api.modules@[at]) is Some,
    ensures
        !index_clean(api),
{
}

} // verus!
