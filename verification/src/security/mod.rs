//! Gates that untrusted module content must pass before it touches the
//! file system, the network, or the user's decision.

pub mod path_validation;
pub mod script_inspection;
pub mod url_validation;

pub use path_validation::{validate_extraction_path, PathTraversalError};
pub use script_inspection::{inspect_script_safety, RiskyPattern, ScriptInspectionResult};
pub use url_validation::{
    parse_github_url_safe, validate_github_url, validate_web_url, UrlValidationError,
};
