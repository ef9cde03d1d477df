//! The error taxonomy of the library and its classification helpers.
use vstd::prelude::*;

verus! {

/// Errors surfaced by the library; each carries a human-readable detail.
#[derive(Debug, Clone, PartialEq, Eq)]
pub enum EnvError {
    Config(String),
    Validation(String),
    FileNotFound(String),
    FileOperation(String),
    Environment(String),
    Resource(String),
    Lock(String),
    Workflow(String),
    Template(String),
    Network(String),
    DownloadFailed(String),
    PermissionDenied(String),
    InvalidInput(String),
    Dependency(String),
    ProcessSpawn(String),
    Execution(String),
    InstallationFailed(String),
    PackageManagement(String),
    System(String),
    Io(String),
    Yaml(String),
    Json(String),
    Toml(String),
    Regex(String),
    Utf8(String),
    Chrono(String),
    Serialization(String),
    Deserialization(String),
    Internal(String),
}

/// Result type of the library.
pub type Result<T> = core::result::Result<T, EnvError>;

/// The leading words of an error's rendering.
pub open spec fn label_of(e: EnvError) -> Seq<char> {
    match e {
        EnvError::Config(_) => "Configuration error"@,
        EnvError::Validation(_) => "Validation error"@,
        EnvError::FileNotFound(_) => "File not found"@,
        EnvError::FileOperation(_) => "File operation failed"@,
        EnvError::Environment(_) => "Environment error"@,
        EnvError::Resource(_) => "Resource allocation failed"@,
        EnvError::Lock(_) => "Lock error"@,
        EnvError::Workflow(_) => "Workflow execution failed"@,
        EnvError::Template(_) => "Template rendering failed"@,
        EnvError::Network(_) => "Network error"@,
        EnvError::DownloadFailed(_) => "Download failed"@,
        EnvError::PermissionDenied(_) => "Permission denied"@,
        EnvError::InvalidInput(_) => "Invalid input"@,
        EnvError::Dependency(_) => "Dependency error"@,
        EnvError::ProcessSpawn(_) => "Process spawn error"@,
        EnvError::Execution(_) => "Execution error"@,
        EnvError::InstallationFailed(_) => "Package installation failed"@,
        EnvError::PackageManagement(_) => "Package management error"@,
        EnvError::System(_) => "System error"@,
        EnvError::Io(_) => "IO error"@,
        EnvError::Yaml(_) => "YAML parsing error"@,
        EnvError::Json(_) => "JSON parsing error"@,
        EnvError::Toml(_) => "TOML parsing error"@,
        EnvError::Regex(_) => "Regex error"@,
        EnvError::Utf8(_) => "UTF-8 error"@,
        EnvError::Chrono(_) => "Chrono error"@,
        EnvError::Serialization(_) => "Serialization error"@,
        EnvError::Deserialization(_) => "Deserialization error"@,
        EnvError::Internal(_) => "Internal error"@,
    }
}

/// The detail text an error carries.
pub open spec fn detail_of(e: EnvError) -> Seq<char> {
    match e {
        EnvError::Config(m) => m@,
        EnvError::Validation(m) => m@,
        EnvError::FileNotFound(m) => m@,
        EnvError::FileOperation(m) => m@,
        EnvError::Environment(m) => m@,
        EnvError::Resource(m) => m@,
        EnvError::Lock(m) => m@,
        EnvError::Workflow(m) => m@,
        EnvError::Template(m) => m@,
        EnvError::Network(m) => m@,
        EnvError::DownloadFailed(m) => m@,
        EnvError::PermissionDenied(m) => m@,
        EnvError::InvalidInput(m) => m@,
        EnvError::Dependency(m) => m@,
        EnvError::ProcessSpawn(m) => m@,
        EnvError::Execution(m) => m@,
        EnvError::InstallationFailed(m) => m@,
        EnvError::PackageManagement(m) => m@,
        EnvError::System(m) => m@,
        EnvError::Io(m) => m@,
        EnvError::Yaml(m) => m@,
        EnvError::Json(m) => m@,
        EnvError::Toml(m) => m@,
        EnvError::Regex(m) => m@,
        EnvError::Utf8(m) => m@,
        EnvError::Chrono(m) => m@,
        EnvError::Serialization(m) => m@,
        EnvError::Deserialization(m) => m@,
        EnvError::Internal(m) => m@,
    }
}

/// The rendering of an error: its label, a colon, and its detail.
pub open spec fn error_text(e: EnvError) -> Seq<char> {
    label_of(e) + ": "@ + detail_of(e)
}

/// Variants whose detail is prefixed in place by `with_context`.
pub open spec fn keeps_variant_under_context(e: EnvError) -> bool {
    match e {
        EnvError::Config(_) | EnvError::Workflow(_) | EnvError::Environment(_)
        | EnvError::Resource(_) | EnvError::Template(_) | EnvError::Validation(_)
        | EnvError::FileOperation(_) => true,
        _ => false,
    }
}

/// Same variant as `e`, with detail `m`.
pub open spec fn with_detail(e: EnvError, m: String) -> EnvError {
    match e {
        EnvError::Config(_) => EnvError::Config(m),
        EnvError::Validation(_) => EnvError::Validation(m),
        EnvError::FileNotFound(_) => EnvError::FileNotFound(m),
        EnvError::FileOperation(_) => EnvError::FileOperation(m),
        EnvError::Environment(_) => EnvError::Environment(m),
        EnvError::Resource(_) => EnvError::Resource(m),
        EnvError::Lock(_) => EnvError::Lock(m),
        EnvError::Workflow(_) => EnvError::Workflow(m),
        EnvError::Template(_) => EnvError::Template(m),
        EnvError::Network(_) => EnvError::Network(m),
        EnvError::DownloadFailed(_) => EnvError::DownloadFailed(m),
        EnvError::PermissionDenied(_) => EnvError::PermissionDenied(m),
        EnvError::InvalidInput(_) => EnvError::InvalidInput(m),
        EnvError::Dependency(_) => EnvError::Dependency(m),
        EnvError::ProcessSpawn(_) => EnvError::ProcessSpawn(m),
        EnvError::Execution(_) => EnvError::Execution(m),
        EnvError::InstallationFailed(_) => EnvError::InstallationFailed(m),
        EnvError::PackageManagement(_) => EnvError::PackageManagement(m),
        EnvError::System(_) => EnvError::System(m),
        EnvError::Io(_) => EnvError::Io(m),
        EnvError::Yaml(_) => EnvError::Yaml(m),
        EnvError::Json(_) => EnvError::Json(m),
        EnvError::Toml(_) => EnvError::Toml(m),
        EnvError::Regex(_) => EnvError::Regex(m),
        EnvError::Utf8(_) => EnvError::Utf8(m),
        EnvError::Chrono(_) => EnvError::Chrono(m),
        EnvError::Serialization(_) => EnvError::Serialization(m),
        EnvError::Deserialization(_) => EnvError::Deserialization(m),
        EnvError::Internal(_) => EnvError::Internal(m),
    }
}

/// Error severity levels.
#[derive(Debug, Clone, Copy, PartialEq, Eq)]
pub enum ErrorSeverity {
    Warning,
    Error,
    Critical,
}

pub open spec fn severity_of(e: EnvError) -> ErrorSeverity {
    match e {
        EnvError::Config(_) | EnvError::Validation(_) | EnvError::InvalidInput(_) => ErrorSeverity::Warning,
        EnvError::FileNotFound(_) | EnvError::Workflow(_) => ErrorSeverity::Critical,
        _ => ErrorSeverity::Error,
    }
}

/// Joins `a`, a colon and a space, and `b`.
pub fn colon_join(a: &str, b: &str) -> (r: String)
    ensures
        r@ == a@ + ": "@ + b@,
{
    let mut s = String::from_str(a);
    s.append(": ");
    s.append(b);
    s
}

impl EnvError {
    /// The leading words of this error's rendering.
    pub fn label(&self) -> (r: &'static str)
        ensures
            r@ == label_of(*self),
    {
        match self {
            EnvError::Config(_) => "Configuration error",
            EnvError::Validation(_) => "Validation error",
            EnvError::FileNotFound(_) => "File not found",
            EnvError::FileOperation(_) => "File operation failed",
            EnvError::Environment(_) => "Environment error",
            EnvError::Resource(_) => "Resource allocation failed",
            EnvError::Lock(_) => "Lock error",
            EnvError::Workflow(_) => "Workflow execution failed",
            EnvError::Template(_) => "Template rendering failed",
            EnvError::Network(_) => "Network error",
            EnvError::DownloadFailed(_) => "Download failed",
            EnvError::PermissionDenied(_) => "Permission denied",
            EnvError::InvalidInput(_) => "Invalid input",
            EnvError::Dependency(_) => "Dependency error",
            EnvError::ProcessSpawn(_) => "Process spawn error",
            EnvError::Execution(_) => "Execution error",
            EnvError::InstallationFailed(_) => "Package installation failed",
            EnvError::PackageManagement(_) => "Package management error",
            EnvError::System(_) => "System error",
            EnvError::Io(_) => "IO error",
            EnvError::Yaml(_) => "YAML parsing error",
            EnvError::Json(_) => "JSON parsing error",
            EnvError::Toml(_) => "TOML parsing error",
            EnvError::Regex(_) => "Regex error",
            EnvError::Utf8(_) => "UTF-8 error",
            EnvError::Chrono(_) => "Chrono error",
            EnvError::Serialization(_) => "Serialization error",
            EnvError::Deserialization(_) => "Deserialization error",
            EnvError::Internal(_) => "Internal error",
        }
    }

    /// The detail text of this error.
    pub fn detail(&self) -> (r: &String)
        ensures
            r@ == detail_of(*self),
    {
        match self {
            EnvError::Config(m) => m,
            EnvError::Validation(m) => m,
            EnvError::FileNotFound(m) => m,
            EnvError::FileOperation(m) => m,
            EnvError::Environment(m) => m,
            EnvError::Resource(m) => m,
            EnvError::Lock(m) => m,
            EnvError::Workflow(m) => m,
            EnvError::Template(m) => m,
            EnvError::Network(m) => m,
            EnvError::DownloadFailed(m) => m,
            EnvError::PermissionDenied(m) => m,
            EnvError::InvalidInput(m) => m,
            EnvError::Dependency(m) => m,
            EnvError::ProcessSpawn(m) => m,
            EnvError::Execution(m) => m,
            EnvError::InstallationFailed(m) => m,
            EnvError::PackageManagement(m) => m,
            EnvError::System(m) => m,
            EnvError::Io(m) => m,
            EnvError::Yaml(m) => m,
            EnvError::Json(m) => m,
            EnvError::Toml(m) => m,
            EnvError::Regex(m) => m,
            EnvError::Utf8(m) => m,
            EnvError::Chrono(m) => m,
            EnvError::Serialization(m) => m,
            EnvError::Deserialization(m) => m,
            EnvError::Internal(m) => m,
        }
    }

    /// The rendering of this error, `"<label>: <detail>"`.
    pub fn to_string(&self) -> (r: String)
        ensures
            r@ == error_text(*self),
    {
        colon_join(self.label(), self.detail().as_str())
    }

    /// Prefixes the detail with `context`; variants that do not carry a plain
    /// detail are folded into `Internal` with the whole rendering as detail.
    pub fn with_context(self, context: &str) -> (r: EnvError)
        ensures
            keeps_variant_under_context(self) ==> exists|m: String|
                m@ == context@ + ": "@ + detail_of(self) && r == #[trigger] with_detail(self, m),
            !keeps_variant_under_context(self) ==> r is Internal && detail_of(r) == context@
                + ": "@ + error_text(self),
    {
        let text = self.to_string();
        let m = colon_join(context, self.detail().as_str());
        let ghost gm = m;
        let r = match self {
            EnvError::Config(_) => EnvError::Config(m),
            EnvError::Workflow(_) => EnvError::Workflow(m),
            EnvError::Environment(_) => EnvError::Environment(m),
            EnvError::Resource(_) => EnvError::Resource(m),
            EnvError::Template(_) => EnvError::Template(m),
            EnvError::Validation(_) => EnvError::Validation(m),
            EnvError::FileOperation(_) => EnvError::FileOperation(m),
            _ => EnvError::Internal(colon_join(context, text.as_str())),
        };
        proof {
            if keeps_variant_under_context(self) {
                assert(r == with_detail(self, gm));
            }
        }
        r
    }

    /// Transient failures that a retry may overcome.
    pub fn is_recoverable(&self) -> (r: bool)
        ensures
            r == (self is Workflow || self is Resource || self is Network || self is Environment),
    {
        match self {
            EnvError::Workflow(_) | EnvError::Resource(_) | EnvError::Network(_)
            | EnvError::Environment(_) => true,
            _ => false,
        }
    }

    /// Failures that point at a missing or unusable dependency.
    pub fn is_dependency_error(&self) -> (r: bool)
        ensures
            r == (self is Environment || self is System || self is PermissionDenied),
    {
        match self {
            EnvError::Environment(_) | EnvError::System(_) | EnvError::PermissionDenied(_) => true,
            _ => false,
        }
    }

    /// Severity level of this error.
    pub fn severity(&self) -> (r: ErrorSeverity)
        ensures
            r == severity_of(*self),
    {
        match self {
            EnvError::Config(_) | EnvError::Validation(_) | EnvError::InvalidInput(_) => {
                ErrorSeverity::Warning
            },
            EnvError::FileNotFound(_) | EnvError::Workflow(_) => ErrorSeverity::Critical,
            _ => ErrorSeverity::Error,
        }
    }
}

/// Relies on chrono's `From<SystemTime> for DateTime<Utc>` (which also takes
/// times before the Unix epoch) and `DateTime::timestamp`: the current time,
/// in seconds since the Unix epoch. Nothing is stated: the value depends on
/// the clock.
#[verifier::external_body]
fn now_seconds() -> i64 {
    chrono::DateTime::<chrono::Utc>::from(std::time::SystemTime::now()).timestamp()
}

impl EnvError {
    /// When the error is observed, in seconds since the Unix epoch.
    pub fn timestamp(&self) -> i64 {
        now_seconds()
    }
}

/// Where an error arose.
#[derive(Debug, Clone)]
pub struct ErrorContext {
    pub workflow_id: Option<String>,
    pub step: Option<u32>,
    pub operation: String,
    /// Seconds since the Unix epoch.
    pub timestamp: i64,
}

impl ErrorContext {
    /// A context for `operation`, stamped with the current time.
    pub fn new(operation: &str) -> (r: Self)
        ensures
            r.workflow_id is None,
            r.step is None,
            r.operation@ == operation@,
    {
        ErrorContext {
            workflow_id: None,
            step: None,
            operation: String::from_str(operation),
            timestamp: now_seconds(),
        }
    }

    pub fn with_workflow_id(self, workflow_id: &str) -> (r: Self)
        ensures
            r.workflow_id is Some && r.workflow_id->Some_0@ == workflow_id@,
            r.step == self.step,
            r.operation == self.operation,
            r.timestamp == self.timestamp,
    {
        ErrorContext { workflow_id: Some(String::from_str(workflow_id)), ..self }
    }

    pub fn with_step(self, step: u32) -> (r: Self)
        ensures
            r.step == Some(step),
            r.workflow_id == self.workflow_id,
            r.operation == self.operation,
            r.timestamp == self.timestamp,
    {
        ErrorContext { step: Some(step), ..self }
    }
}

/// An error together with where it arose.
#[derive(Debug, Clone)]
pub struct ContextualError {
    pub error: EnvError,
    pub context: ErrorContext,
}

impl ContextualError {
    pub fn new(error: EnvError, context: ErrorContext) -> (r: Self)
        ensures
            r.error == error,
            r.context == context,
    {
        ContextualError { error, context }
    }

    /// `error` in a fresh context for `operation`.
    pub fn from_error(error: EnvError, operation: &str) -> (r: Self)
        ensures
            r.error == error,
            r.context.operation@ == operation@,
            r.context.workflow_id is None,
            r.context.step is None,
    {
        ContextualError { error, context: ErrorContext::new(operation) }
    }
}

/// Results whose error can be given a context.
pub trait ResultExt<T>: Sized {
    fn with_context(self, operation: &str) -> core::result::Result<T, ContextualError>;
}

impl<T> ResultExt<T> for core::result::Result<T, EnvError> {
    /// Keeps a success as it is; wraps an error in a fresh context for
    /// `operation`.
    fn with_context(self, operation: &str) -> (r: core::result::Result<T, ContextualError>)
        ensures
            self is Ok <==> r is Ok,
            self is Ok ==> r->Ok_0 == self->Ok_0,
            self is Err ==> r->Err_0.error == self->Err_0 && r->Err_0.context.operation@
                == operation@,
    {
        match self {
            Ok(v) => Ok(v),
            Err(e) => Err(ContextualError::from_error(e, operation)),
        }
    }
}

} // verus!
