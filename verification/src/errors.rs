//! The failures that the library reports.

use vstd::prelude::*;

use crate::paths::OsPath;

verus! {

/// A failure of the operating system's side.
#[derive(Debug, PartialEq, Eq)]
pub enum PlatformError {
    /// The platform has no such facility.
    Unsupported(String),
    /// The facility is there and refused.
    OperationFailed(String),
}

/// What a `PlatformError` says.
pub enum PlatformErrorView {
    Unsupported(Seq<char>),
    OperationFailed(Seq<char>),
}

impl View for PlatformError {
    type V = PlatformErrorView;

    open spec fn view(&self) -> PlatformErrorView {
        match self {
            PlatformError::Unsupported(message) => PlatformErrorView::Unsupported(message@),
            PlatformError::OperationFailed(message) => PlatformErrorView::OperationFailed(message@),
        }
    }
}

/// A failure of the storage side.
#[derive(Clone, Copy, Debug, PartialEq, Eq, Structural)]
pub enum StorageError {
    /// The system names no home directory to put the application's directories in.
    ProjectDirsUnavailable,
}

/// A failure around the core process.
#[derive(Debug, PartialEq, Eq)]
pub enum ProcessError {
    /// The process cannot be started in the present state.
    InvalidState(String),
    /// The file at this path may not be executed.
    PermissionDenied(OsPath),
}

/// What a `ProcessError` says.
pub enum ProcessErrorView {
    InvalidState(Seq<char>),
    PermissionDenied(Seq<u8>),
}

impl View for ProcessError {
    type V = ProcessErrorView;

    open spec fn view(&self) -> ProcessErrorView {
        match self {
            ProcessError::InvalidState(message) => ProcessErrorView::InvalidState(message@),
            ProcessError::PermissionDenied(path) => ProcessErrorView::PermissionDenied(path@),
        }
    }
}

/// A failure in a configuration.
#[derive(Debug, PartialEq, Eq)]
pub enum ConfigError {
    /// A subscription cannot be used.
    Subscription(String),
}

/// What a `ConfigError` says.
pub enum ConfigErrorView {
    Subscription(Seq<char>),
}

impl View for ConfigError {
    type V = ConfigErrorView;

    open spec fn view(&self) -> ConfigErrorView {
        match self {
            ConfigError::Subscription(message) => ConfigErrorView::Subscription(message@),
        }
    }
}

/// Any failure. What the stores, the core and the operating system report in their own terms is
/// carried along as it is.
#[derive(Debug, PartialEq, Eq)]
pub enum AppError<E> {
    Outside(E),
    Process(ProcessError),
    Config(ConfigError),
}

/// What an `AppError` says.
pub enum AppErrorView<E> {
    Outside(E),
    Process(ProcessErrorView),
    Config(ConfigErrorView),
}

impl<E> View for AppError<E> {
    type V = AppErrorView<E>;

    open spec fn view(&self) -> AppErrorView<E> {
        match self {
            AppError::Outside(e) => AppErrorView::Outside(*e),
            AppError::Process(e) => AppErrorView::Process(e@),
            AppError::Config(e) => AppErrorView::Config(e@),
        }
    }
}

} // verus!
