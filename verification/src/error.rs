//! The errors of the services.

use crate::text::joined_text;
use vstd::prelude::*;
use vstd::string::to_string_from_display_ensures;

verus! {

/// `std::io::Error`, carried through as an opaque value.
#[verifier::external_type_specification]
#[verifier::external_body]
pub struct ExIoError(std::io::Error);

/// `reqwest::Error`, carried through as an opaque value.
#[verifier::external_type_specification]
#[verifier::external_body]
pub struct ExReqwestError(reqwest::Error);

/// What went wrong in a service. Errors of the outside world are kept as
/// the text they display.
#[derive(Debug, Clone)]
pub enum ServiceError {
    Io { context: String, source: String },
    JsonParse { context: String, source: String },
    Network { context: String, source: String },
    Archive(String),
    Validation(String),
    NotFound(String),
    Config(String),
    Task(String),
}

/// A failure that a pipeline can meet.
#[derive(Debug, Clone, Copy, PartialEq, Eq, Structural)]
pub enum FailureKind {
    /// An archive entry would leave the install directory.
    PathTraversal,
    /// The archive does not have the checksum that the registry names.
    ChecksumMismatch,
    /// The registry's payload breaks a rule.
    MalformedRegistry,
    /// The index could not be written to the cache.
    CachePersistence,
    /// The bar could not be asked to reload.
    ReloadSignal,
    /// The modules of an author could not be fetched.
    AuthorModulesFetch,
}

/// What a pipeline does about a failure.
#[derive(Debug, Clone, Copy, PartialEq, Eq, Structural)]
pub enum FailurePolicy {
    /// Stop, undo what was done, and tell the user.
    AbortWithRollback,
    /// Write it to the log and go on.
    LogAndContinue,
}

/// What is done about each kind of failure: what threatens the file system
/// or the catalog stops the pipeline, what only spares work does not.
pub open spec fn policy_of(kind: FailureKind) -> FailurePolicy {
    match kind {
        FailureKind::PathTraversal => FailurePolicy::AbortWithRollback,
        FailureKind::ChecksumMismatch => FailurePolicy::AbortWithRollback,
        FailureKind::MalformedRegistry => FailurePolicy::AbortWithRollback,
        FailureKind::CachePersistence => FailurePolicy::LogAndContinue,
        FailureKind::ReloadSignal => FailurePolicy::LogAndContinue,
        FailureKind::AuthorModulesFetch => FailurePolicy::LogAndContinue,
    }
}

/// What is done about a failure of the kind `kind`.
pub fn failure_policy(kind: FailureKind) -> (policy: FailurePolicy)
    ensures
        policy == policy_of(kind),
{
    match kind {
        FailureKind::PathTraversal => FailurePolicy::AbortWithRollback,
        FailureKind::ChecksumMismatch => FailurePolicy::AbortWithRollback,
        FailureKind::MalformedRegistry => FailurePolicy::AbortWithRollback,
        FailureKind::CachePersistence => FailurePolicy::LogAndContinue,
        FailureKind::ReloadSignal => FailurePolicy::LogAndContinue,
        FailureKind::AuthorModulesFetch => FailurePolicy::LogAndContinue,
    }
}

/// `label`, `context`, a dash, and `source`, as errors with a cause display.
pub open spec fn caused_message(label: Seq<char>, context: Seq<char>, source: Seq<char>) -> Seq<
    char,
> {
    label + context + " - "@ + source
}

impl ServiceError {
    /// The sentence that this error displays.
    pub open spec fn spec_message(&self) -> Seq<char> {
        match self {
            ServiceError::Io { context, source } => caused_message(
                "IO error: "@,
                context@,
                source@,
            ),
            ServiceError::JsonParse { context, source } => caused_message(
                "Failed to parse JSON: "@,
                context@,
                source@,
            ),
            ServiceError::Network { context, source } => caused_message(
                "Network error: "@,
                context@,
                source@,
            ),
            ServiceError::Archive(message) => "Archive extraction failed: "@ + message@,
            ServiceError::Validation(message) => "Invalid input: "@ + message@,
            ServiceError::NotFound(uuid) => "Module not found: "@ + uuid@,
            ServiceError::Config(message) => "Config error: "@ + message@,
            ServiceError::Task(message) => "Task failed: "@ + message@,
        }
    }

    /// An input or output failure met while doing `context`.
    pub fn io(context: &str, source: std::io::Error) -> (error: ServiceError)
        ensures
            error matches ServiceError::Io { context: c, source: s } && c@ == context@
                && to_string_from_display_ensures::<std::io::Error>(&source, s),
    {
        ServiceError::Io { context: context.to_owned(), source: source.to_string() }
    }

    /// JSON that could not be read while doing `context`.
    pub fn json_parse(context: &str, source: serde_json::Error) -> (error: ServiceError)
        ensures
            error matches ServiceError::JsonParse { context: c, source: s } && c@ == context@
                && to_string_from_display_ensures::<serde_json::Error>(&source, s),
    {
        ServiceError::JsonParse { context: context.to_owned(), source: source.to_string() }
    }

    /// A network failure met while doing `context`.
    pub fn network(context: &str, source: reqwest::Error) -> (error: ServiceError)
        ensures
            error matches ServiceError::Network { context: c, source: s } && c@ == context@
                && to_string_from_display_ensures::<reqwest::Error>(&source, s),
    {
        ServiceError::Network { context: context.to_owned(), source: source.to_string() }
    }

    /// An archive that could not be extracted.
    pub fn archive(message: &str) -> (error: ServiceError)
        ensures
            error matches ServiceError::Archive(m) && m@ == message@,
    {
        ServiceError::Archive(message.to_owned())
    }

    /// Input that a validator refused.
    pub fn validation(message: &str) -> (error: ServiceError)
        ensures
            error matches ServiceError::Validation(m) && m@ == message@,
    {
        ServiceError::Validation(message.to_owned())
    }

    /// A module that is not there.
    pub fn not_found(uuid: &str) -> (error: ServiceError)
        ensures
            error matches ServiceError::NotFound(m) && m@ == uuid@,
    {
        ServiceError::NotFound(uuid.to_owned())
    }

    /// A bar configuration that cannot be used.
    pub fn config(message: &str) -> (error: ServiceError)
        ensures
            error matches ServiceError::Config(m) && m@ == message@,
    {
        ServiceError::Config(message.to_owned())
    }

    /// A background task that failed.
    pub fn task(message: &str) -> (error: ServiceError)
        ensures
            error matches ServiceError::Task(m) && m@ == message@,
    {
        ServiceError::Task(message.to_owned())
    }

    /// The sentence that this error displays.
    pub fn to_string(&self) -> (text: String)
        ensures
            text@ == self.spec_message(),
    {
        match self {
            ServiceError::Io { context, source } => caused("IO error: ", context, source),
            ServiceError::JsonParse { context, source } => caused(
                "Failed to parse JSON: ",
                context,
                source,
            ),
            ServiceError::Network { context, source } => caused(
                "Network error: ",
                context,
                source,
            ),
            ServiceError::Archive(message) => joined_text(
                "Archive extraction failed: ",
                message.as_str(),
            ),
            ServiceError::Validation(message) => joined_text("Invalid input: ", message.as_str()),
            ServiceError::NotFound(uuid) => joined_text("Module not found: ", uuid.as_str()),
            ServiceError::Config(message) => joined_text("Config error: ", message.as_str()),
            ServiceError::Task(message) => joined_text("Task failed: ", message.as_str()),
        }
    }
}

/// The displayed sentence of an error with a cause.
fn caused(label: &str, context: &String, source: &String) -> (text: String)
    ensures
        text@ == caused_message(label@, context@, source@),
{
    let mut text = label.to_owned();
    text.append(context.as_str());
    text.append(" - ");
    text.append(source.as_str());
    text
}

/// Results of input and output, to which a context can be added.
pub trait IoResultExt<T> {
    /// Turns the failure, if any, into a `ServiceError` that says what was
    /// being done.
    fn with_context(self, context: &str) -> (converted: Result<T, ServiceError>);
}

impl<T> IoResultExt<T> for Result<T, std::io::Error> {
    fn with_context(self, context: &str) -> (converted: Result<T, ServiceError>)
        ensures
            match self {
                Ok(value) => converted matches Ok(v) && v == value,
                Err(source) => converted matches Err(ServiceError::Io { context: c, source: s })
                    && c@ == context@ && to_string_from_display_ensures::<std::io::Error>(
                    &source,
                    s,
                ),
            },
    {
        match self {
            Ok(value) => Ok(value),
            Err(source) => Err(ServiceError::io(context, source)),
        }
    }
}

/// Results of reading JSON, to which a context can be added.
pub trait JsonResultExt<T> {
    /// Turns the failure, if any, into a `ServiceError` that says what was
    /// being done.
    fn with_context(self, context: &str) -> (converted: Result<T, ServiceError>);
}

impl<T> JsonResultExt<T> for Result<T, serde_json::Error> {
    fn with_context(self, context: &str) -> (converted: Result<T, ServiceError>)
        ensures
            match self {
                Ok(value) => converted matches Ok(v) && v == value,
                Err(source) => converted matches Err(
                    ServiceError::JsonParse { context: c, source: s },
                ) && c@ == context@ && to_string_from_display_ensures::<serde_json::Error>(
                    &source,
                    s,
                ),
            },
    {
        match self {
            Ok(value) => Ok(value),
            Err(source) => Err(ServiceError::json_parse(context, source)),
        }
    }
}

/// Results of network requests, to which a context can be added.
pub trait NetworkResultExt<T> {
    /// Turns the failure, if any, into a `ServiceError` that says what was
    /// being done.
    fn with_context(self, context: &str) -> (converted: Result<T, ServiceError>);
}

impl<T> NetworkResultExt<T> for Result<T, reqwest::Error> {
    fn with_context(self, context: &str) -> (converted: Result<T, ServiceError>)
        ensures
            match self {
                Ok(value) => converted matches Ok(v) && v == value,
                Err(source) => converted matches Err(
                    ServiceError::Network { context: c, source: s },
                ) && c@ == context@ && to_string_from_display_ensures::<reqwest::Error>(
                    &source,
                    s,
                ),
            },
    {
        match self {
            Ok(value) => Ok(value),
            Err(source) => Err(ServiceError::network(context, source)),
        }
    }
}

} // verus!
