//! Core data model of modules, versions and registry entries.

pub mod author;
pub mod bar_section;
pub mod category;
pub mod installed;
pub mod module;
pub mod registry;
pub mod review;
pub mod timestamp;
pub mod version;
pub mod version_order;

pub use author::{Author, AuthorProfile};
pub use bar_section::{BarSection, ModulePosition};
pub use category::ModuleCategory;
pub use installed::InstalledModule;
pub use module::{ModuleUuid, ModuleUuidError};
pub use registry::{CategoryEntry, CategoryInfo, RegistryIndex, RegistryModule};
pub use review::{Review, ReviewUser, ReviewsResponse};
pub use timestamp::Timestamp;
pub use version::ModuleVersion;
