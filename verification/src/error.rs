//! Errors of the plugin system and their stable wire codes.

use vstd::prelude::*;

verus! {

/// Errors reported by the plugin system. Each variant has a stable wire code
/// (see [`PluginError::code`]); changing the mapping breaks compatibility.
#[derive(Debug, Clone)]
pub enum PluginError {
    /// The entry artifact is missing.
    NotFound(String),
    /// The manifest could not be parsed.
    InvalidManifest(String),
    /// The manifest failed semantic validation.
    Validation(String),
    /// No plugin with this id is installed.
    UnknownPlugin(String),
    /// The plugin is installed but not loaded.
    NotLoaded(String),
    /// Loading the plugin runtime failed.
    LoadFailed(String),
    /// The plugin was built against another host API version.
    ApiVersionMismatch { plugin: u32, host: u32 },
    /// The plugin called an API whose capability it was not granted.
    PermissionDenied(String),
    /// A plugin with this id already exists.
    AlreadyExists(String),
    /// The plugin failed at run time (trap, fuel exhaustion, error code).
    Runtime(String),
    /// A cross-device message could not be delivered.
    MessageDelivery(String),
    /// An I/O operation failed.
    Io(String),
}

/// Result type of plugin operations.
pub type PluginResult<T> = Result<T, PluginError>;

/// The mathematical value of a [`PluginError`]: its variant and the text it
/// carries.
pub enum ErrorView {
    NotFound(Seq<char>),
    InvalidManifest(Seq<char>),
    Validation(Seq<char>),
    UnknownPlugin(Seq<char>),
    NotLoaded(Seq<char>),
    LoadFailed(Seq<char>),
    ApiVersionMismatch { plugin: u32, host: u32 },
    PermissionDenied(Seq<char>),
    AlreadyExists(Seq<char>),
    Runtime(Seq<char>),
    MessageDelivery(Seq<char>),
    Io(Seq<char>),
}

impl View for PluginError {
    type V = ErrorView;

    open spec fn view(&self) -> ErrorView {
        match self {
            PluginError::NotFound(m) => ErrorView::NotFound(m@),
            PluginError::InvalidManifest(m) => ErrorView::InvalidManifest(m@),
            PluginError::Validation(m) => ErrorView::Validation(m@),
            PluginError::UnknownPlugin(m) => ErrorView::UnknownPlugin(m@),
            PluginError::NotLoaded(m) => ErrorView::NotLoaded(m@),
            PluginError::LoadFailed(m) => ErrorView::LoadFailed(m@),
            PluginError::ApiVersionMismatch { plugin, host } => ErrorView::ApiVersionMismatch {
                plugin: *plugin,
                host: *host,
            },
            PluginError::PermissionDenied(m) => ErrorView::PermissionDenied(m@),
            PluginError::AlreadyExists(m) => ErrorView::AlreadyExists(m@),
            PluginError::Runtime(m) => ErrorView::Runtime(m@),
            PluginError::MessageDelivery(m) => ErrorView::MessageDelivery(m@),
            PluginError::Io(m) => ErrorView::Io(m@),
        }
    }
}

/// The wire code of an error (`0` is reserved for success).
pub open spec fn error_code(e: ErrorView) -> i32 {
    match e {
        ErrorView::NotFound(_) => 1,
        ErrorView::InvalidManifest(_) => 2,
        ErrorView::Validation(_) => 3,
        ErrorView::UnknownPlugin(_) => 4,
        ErrorView::NotLoaded(_) => 5,
        ErrorView::LoadFailed(_) => 6,
        ErrorView::ApiVersionMismatch { .. } => 7,
        ErrorView::PermissionDenied(_) => 8,
        ErrorView::AlreadyExists(_) => 9,
        ErrorView::Runtime(_) => 10,
        ErrorView::MessageDelivery(_) => 11,
        ErrorView::Io(_) => 12,
    }
}

/// Whether two errors are of the same variant.
pub open spec fn same_variant(a: ErrorView, b: ErrorView) -> bool {
    match (a, b) {
        (ErrorView::NotFound(_), ErrorView::NotFound(_)) => true,
        (ErrorView::InvalidManifest(_), ErrorView::InvalidManifest(_)) => true,
        (ErrorView::Validation(_), ErrorView::Validation(_)) => true,
        (ErrorView::UnknownPlugin(_), ErrorView::UnknownPlugin(_)) => true,
        (ErrorView::NotLoaded(_), ErrorView::NotLoaded(_)) => true,
        (ErrorView::LoadFailed(_), ErrorView::LoadFailed(_)) => true,
        (ErrorView::ApiVersionMismatch { .. }, ErrorView::ApiVersionMismatch { .. }) => true,
        (ErrorView::PermissionDenied(_), ErrorView::PermissionDenied(_)) => true,
        (ErrorView::AlreadyExists(_), ErrorView::AlreadyExists(_)) => true,
        (ErrorView::Runtime(_), ErrorView::Runtime(_)) => true,
        (ErrorView::MessageDelivery(_), ErrorView::MessageDelivery(_)) => true,
        (ErrorView::Io(_), ErrorView::Io(_)) => true,
        _ => false,
    }
}

impl PluginError {
    /// The stable wire code of this error: 1 not found, 2 invalid manifest,
    /// 3 validation, 4 unknown plugin, 5 not loaded, 6 load failed, 7 api
    /// version mismatch, 8 permission denied, 9 already exists, 10 runtime,
    /// 11 message delivery, 12 io.
    pub fn code(&self) -> (c: i32)
        ensures
            c == error_code(self@),
    {
        match self {
            PluginError::NotFound(_) => 1,
            PluginError::InvalidManifest(_) => 2,
            PluginError::Validation(_) => 3,
            PluginError::UnknownPlugin(_) => 4,
            PluginError::NotLoaded(_) => 5,
            PluginError::LoadFailed(_) => 6,
            PluginError::ApiVersionMismatch { .. } => 7,
            PluginError::PermissionDenied(_) => 8,
            PluginError::AlreadyExists(_) => 9,
            PluginError::Runtime(_) => 10,
            PluginError::MessageDelivery(_) => 11,
            PluginError::Io(_) => 12,
        }
    }
}

/// Every error has a wire code between 1 and 12 (never the success code 0),
/// and two errors share a code exactly when they are of the same variant.
pub proof fn lemma_error_codes_stable(a: ErrorView, b: ErrorView)
    ensures
        1 <= error_code(a) <= 12,
        error_code(a) == error_code(b) <==> same_variant(a, b),
{
}

} // verus!
