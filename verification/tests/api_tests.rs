use waybar_manager::api::{
    flatten, map_author_profile, map_category_info, map_module_category, map_registry_index,
    map_registry_module, map_registry_modules, map_review, map_review_user, map_reviews_response,
    parse_module_uuid, parse_module_version, parse_optional_timestamp, parse_u32, parse_u64,
    parse_usize,
};
use waybar_manager::api_models;
use waybar_manager::domain::category::ModuleCategory;

fn api_module_category() -> api_models::ModuleCategory {
    api_models::ModuleCategory::Weather
}

fn api_registry_module() -> api_models::RegistryModule {
    api_models::RegistryModule {
        uuid: "weather@barforge".to_string(),
        name: "Weather".to_string(),
        description: "Weather module".to_string(),
        author: "barforge".to_string(),
        category: api_module_category(),
        icon: Some(Some("weather-icon".to_string())),
        screenshot: None,
        repo_url: "https://github.com/barforge/weather".to_string(),
        downloads: 42,
        version: Some(Some("1.2.3".to_string())),
        last_updated: Some(Some("2025-01-01T00:00:00Z".to_string())),
        rating: Some(Some(4.5f32.to_bits())),
        verified_author: true,
        tags: vec!["weather".to_string(), "forecast".to_string()],
        checksum: Some(Some("abc123".to_string())),
        license: Some(Some("MIT".to_string())),
    }
}

fn api_review(rating: i32) -> api_models::Review {
    api_models::Review {
        id: 10,
        rating,
        title: Some(Some("Great".to_string())),
        body: Some(Some("Works well".to_string())),
        helpful_count: 2,
        user: api_models::ReviewUser { username: "critic".to_string(), avatar_url: None },
        created_at: "2025-02-01T00:00:00Z".to_string(),
        updated_at: None,
    }
}

fn api_profile() -> api_models::UserProfile {
    api_models::UserProfile {
        version: 1,
        id: 7,
        username: "author".to_string(),
        display_name: Some("Author".to_string()),
        avatar_url: None,
        bio: Some("Bio".to_string()),
        website_url: Some("https://example.com".to_string()),
        github_url: None,
        twitter_url: None,
        bluesky_url: None,
        discord_url: None,
        sponsor_url: None,
        verified_author: true,
        role: api_models::UserRole::User,
        module_count: 2,
        created_at: "2025-01-01T00:00:00Z".to_string(),
    }
}

#[test]
fn map_registry_module_maps_fields() {
    let module = map_registry_module(api_registry_module()).expect("valid module mapping");

    assert_eq!(module.uuid.to_string(), "weather@barforge");
    assert_eq!(module.name, "Weather");
    assert_eq!(module.description, "Weather module");
    assert_eq!(module.author, "barforge");
    assert_eq!(module.category, ModuleCategory::Weather);
    assert_eq!(module.downloads, 42);
    assert_eq!(module.version.expect("version").to_string(), "1.2.3");
    assert!(module.last_updated.is_some());
    assert_eq!(module.tags, vec!["weather", "forecast"]);
    assert_eq!(module.checksum.as_deref(), Some("abc123"));
    assert_eq!(module.license.as_deref(), Some("MIT"));
    assert!(module.verified_author);
}

#[test]
fn map_registry_module_maps_the_remaining_fields() {
    let module = map_registry_module(api_registry_module()).unwrap();
    assert_eq!(module.icon.as_deref(), Some("weather-icon"));
    assert!(module.screenshot.is_none());
    assert_eq!(module.repo_url, "https://github.com/barforge/weather");
    assert_eq!(module.last_updated.unwrap().seconds, 1_735_689_600);
    assert_eq!(module.rating.map(f32::from_bits), Some(4.5));
}

#[test]
fn map_registry_module_rejects_invalid_uuid() {
    let mut module = api_registry_module();
    module.uuid = "invalid-uuid".to_string();

    assert!(map_registry_module(module).is_err());
}

#[test]
fn map_registry_module_rejects_invalid_version() {
    let mut module = api_registry_module();
    module.version = Some(Some("not-a-version".to_string()));

    assert!(map_registry_module(module).is_err());
}

#[test]
fn map_registry_module_rejects_negative_downloads() {
    let mut module = api_registry_module();
    module.downloads = -5;

    assert!(map_registry_module(module).is_err());
}

#[test]
fn map_registry_module_reports_the_first_defect() {
    let mut module = api_registry_module();
    module.uuid = "invalid-uuid".to_string();
    module.version = Some(Some("not-a-version".to_string()));
    module.downloads = -5;
    assert_eq!(
        map_registry_module(module).unwrap_err(),
        "invalid module uuid: missing '@' separator in UUID"
    );

    let mut module = api_registry_module();
    module.version = Some(Some("not-a-version".to_string()));
    module.last_updated = Some(Some("not-a-time".to_string()));
    assert!(map_registry_module(module).unwrap_err().starts_with("invalid module version: "));

    let mut module = api_registry_module();
    module.last_updated = Some(Some("not-a-time".to_string()));
    module.downloads = -1;
    assert!(map_registry_module(module)
        .unwrap_err()
        .starts_with("invalid last_updated timestamp: "));

    let mut module = api_registry_module();
    module.downloads = -1;
    assert_eq!(map_registry_module(module).unwrap_err(), "downloads must be non-negative");
}

#[test]
fn map_registry_module_treats_null_and_missing_alike() {
    let mut module = api_registry_module();
    module.version = Some(None);
    module.last_updated = None;
    module.icon = Some(None);
    let mapped = map_registry_module(module).unwrap();
    assert!(mapped.version.is_none());
    assert!(mapped.last_updated.is_none());
    assert!(mapped.icon.is_none());
}

#[test]
fn map_registry_index_maps_categories() {
    let categories = vec![api_models::CategoryEntry {
        key: "weather".to_string(),
        info: api_models::CategoryInfo {
            id: Some(Some("weather".to_string())),
            name: "Weather".to_string(),
            icon: "weather-icon".to_string(),
        },
    }];

    let api_index =
        api_models::RegistryIndex { version: 1, modules: vec![api_registry_module()], categories };

    let index = map_registry_index(api_index).expect("valid registry index");
    let category = index.category("weather").expect("category entry");

    assert_eq!(index.version, 1);
    assert_eq!(index.modules.len(), 1);
    assert_eq!(category.id.as_deref(), Some("weather"));
    assert_eq!(category.name, "Weather");
}

#[test]
fn map_registry_index_is_all_or_nothing() {
    let mut bad = api_registry_module();
    bad.downloads = -1;
    let api_index = api_models::RegistryIndex {
        version: 1,
        modules: vec![api_registry_module(), api_registry_module(), bad, api_registry_module()],
        categories: Vec::new(),
    };
    assert_eq!(map_registry_index(api_index).unwrap_err(), "downloads must be non-negative");
}

#[test]
fn map_registry_index_rejects_negative_version() {
    let api_index = api_models::RegistryIndex {
        version: -1,
        modules: vec![api_registry_module()],
        categories: Vec::new(),
    };
    assert_eq!(map_registry_index(api_index).unwrap_err(), "registry version must be non-negative");
}

#[test]
fn map_registry_index_keeps_module_order() {
    let mut second = api_registry_module();
    second.uuid = "clock@barforge".to_string();
    let api_index = api_models::RegistryIndex {
        version: 3,
        modules: vec![api_registry_module(), second],
        categories: Vec::new(),
    };
    let index = map_registry_index(api_index).unwrap();
    assert_eq!(index.version, 3);
    assert_eq!(index.modules[0].uuid.to_string(), "weather@barforge");
    assert_eq!(index.modules[1].uuid.to_string(), "clock@barforge");
}

#[test]
fn map_registry_modules_reports_the_first_defective() {
    let mut bad_version = api_registry_module();
    bad_version.version = Some(Some("x".to_string()));
    let mut bad_downloads = api_registry_module();
    bad_downloads.downloads = -1;
    let message =
        map_registry_modules(vec![api_registry_module(), bad_version, bad_downloads]).unwrap_err();
    assert!(message.starts_with("invalid module version: "));
    assert!(map_registry_modules(Vec::new()).unwrap().is_empty());
}

#[test]
fn map_reviews_response_maps_review_fields() {
    let api_response =
        api_models::ReviewsPage { version: 1, reviews: vec![api_review(5)], total: 1 };

    let response = map_reviews_response(api_response).expect("valid reviews response");

    assert_eq!(response.total, 1);
    assert_eq!(response.reviews.len(), 1);
    assert_eq!(response.reviews[0].rating, 5);
    assert_eq!(response.reviews[0].user.username, "critic");
}

#[test]
fn map_author_profile_merges_modules() {
    let modules = vec![api_registry_module()];
    let author_profile = map_author_profile(api_profile(), modules).expect("valid author profile");

    assert_eq!(author_profile.author.username, "author");
    assert_eq!(author_profile.author.display_name.as_deref(), Some("Author"));
    assert_eq!(author_profile.modules.len(), 1);
    assert_eq!(author_profile.modules[0].name, "Weather");
}

#[test]
fn map_author_profile_rejects_negative_numbers_and_bad_modules() {
    let mut profile = api_profile();
    profile.id = -1;
    profile.module_count = -1;
    assert_eq!(
        map_author_profile(profile, Vec::new()).unwrap_err(),
        "author id must be non-negative"
    );
    let mut profile = api_profile();
    profile.module_count = -1;
    assert_eq!(
        map_author_profile(profile, Vec::new()).unwrap_err(),
        "module count must be non-negative"
    );
    let mut bad = api_registry_module();
    bad.uuid = "@x".to_string();
    assert_eq!(
        map_author_profile(api_profile(), vec![bad]).unwrap_err(),
        "invalid module uuid: empty name in UUID"
    );
    let author = map_author_profile(api_profile(), Vec::new()).unwrap().author;
    assert_eq!(author.id, 7);
    assert_eq!(author.module_count, 2);
    assert_eq!(author.bio.as_deref(), Some("Bio"));
    assert_eq!(author.created_at, "2025-01-01T00:00:00Z");
}

#[test]
fn map_reviews_response_rejects_invalid_rating() {
    let mut review = api_review(-1);
    review.title = None;
    review.body = None;
    review.helpful_count = 0;
    let api_response = api_models::ReviewsPage { version: 1, reviews: vec![review], total: 1 };

    assert!(map_reviews_response(api_response).is_err());
}

#[test]
fn map_review_checks_rating_then_id_then_votes() {
    assert_eq!(map_review(api_review(256)).unwrap_err(), "review rating must be between 0 and 255");
    assert_eq!(map_review(api_review(-1)).unwrap_err(), "review rating must be between 0 and 255");
    assert_eq!(map_review(api_review(255)).unwrap().rating, 255);
    assert_eq!(map_review(api_review(0)).unwrap().rating, 0);
    let mut review = api_review(3);
    review.id = -1;
    review.helpful_count = -1;
    assert_eq!(map_review(review).unwrap_err(), "review id must be non-negative");
    let mut review = api_review(3);
    review.helpful_count = -1;
    assert_eq!(map_review(review).unwrap_err(), "helpful count must be non-negative");
    let review = map_review(api_review(3)).unwrap();
    assert_eq!(review.id, 10);
    assert_eq!(review.title.as_deref(), Some("Great"));
    assert_eq!(review.body.as_deref(), Some("Works well"));
    assert_eq!(review.helpful_count, 2);
    assert_eq!(review.created_at, "2025-02-01T00:00:00Z");
    assert!(review.updated_at.is_none());
}

#[test]
fn map_reviews_response_rejects_negative_total() {
    let page = api_models::ReviewsPage { version: 1, reviews: vec![api_review(1)], total: -1 };
    assert_eq!(map_reviews_response(page).unwrap_err(), "reviews total must be non-negative");
}

#[test]
fn parse_numbers_accept_zero_and_reject_negatives() {
    assert_eq!(parse_u64(0, "n"), Ok(0));
    assert_eq!(parse_u64(i64::MAX, "n"), Ok(i64::MAX as u64));
    assert_eq!(parse_u64(-1, "downloads"), Err("downloads must be non-negative".to_string()));
    assert_eq!(parse_u32(7, "n"), Ok(7));
    assert_eq!(parse_u32(i32::MIN, "registry version"),
        Err("registry version must be non-negative".to_string()));
    assert_eq!(parse_usize(i32::MAX, "n"), Ok(i32::MAX as usize));
    assert_eq!(parse_usize(-3, "reviews total"), Err("reviews total must be non-negative".to_string()));
}

#[test]
fn parse_module_uuid_words_each_rejection() {
    assert_eq!(parse_module_uuid("a@b").unwrap().to_string(), "a@b");
    assert_eq!(
        parse_module_uuid("a/b@c").unwrap_err(),
        "invalid module uuid: invalid character in UUID (path separator or null)"
    );
    assert_eq!(
        parse_module_uuid("..@c").unwrap_err(),
        "invalid module uuid: path traversal attempt detected in UUID"
    );
    assert_eq!(parse_module_uuid("a@").unwrap_err(), "invalid module uuid: empty namespace in UUID");
}

#[test]
fn parse_module_version_words_the_rejection() {
    assert_eq!(parse_module_version("1.2.3").unwrap().to_string(), "1.2.3");
    let message = parse_module_version("1.q.r").unwrap_err();
    assert!(message.starts_with("invalid module version: "));
    assert!(message.len() > "invalid module version: ".len());
}

#[test]
fn parse_optional_timestamp_passes_nothing_through() {
    assert_eq!(parse_optional_timestamp(None), Ok(None));
    let stamp = parse_optional_timestamp(Some("1970-01-01T00:00:01+00:00".to_string())).unwrap();
    assert_eq!(stamp.unwrap().seconds, 1);
    let message = parse_optional_timestamp(Some("soon".to_string())).unwrap_err();
    assert!(message.starts_with("invalid last_updated timestamp: "));
}

#[test]
fn flatten_merges_both_layers() {
    assert_eq!(flatten(Some(Some(1))), Some(1));
    assert_eq!(flatten::<i32>(Some(None)), None);
    assert_eq!(flatten::<i32>(None), None);
}

#[test]
fn small_mappings_copy_their_fields() {
    assert_eq!(map_module_category(api_models::ModuleCategory::Tray), ModuleCategory::Tray);
    assert_eq!(map_module_category(api_models::ModuleCategory::System), ModuleCategory::System);
    let info = map_category_info(api_models::CategoryInfo {
        id: Some(None),
        name: "Audio".to_string(),
        icon: "speaker".to_string(),
    });
    assert!(info.id.is_none());
    assert_eq!(info.name, "Audio");
    assert_eq!(info.icon, "speaker");
    let user = map_review_user(api_models::ReviewUser {
        username: "u".to_string(),
        avatar_url: Some(Some("a.png".to_string())),
    });
    assert_eq!(user.username, "u");
    assert_eq!(user.avatar_url.as_deref(), Some("a.png"));
}
