//! Failures reported by the library.

use vstd::prelude::*;

verus! {

/// Every failure the library reports. Underlying causes (an I/O error, a
/// decoding error) are carried as their rendered message.
#[derive(Debug, Clone)]
pub enum NutError {
    AlreadyInWorkspace,
    NotInWorkspace { working_directory: String, data_directory: String },
    CreateDirectoryFailed { path: String, message: String },
    ReadDirectoryFailed { path: String, message: String },
    ReadFileFailed { path: String, message: String },
    WriteFileFailed { path: String, message: String },
    InvalidWorkspaceId { id: String, message: String },
    GetCurrentDirectoryFailed { message: String },
    GetCurrentExecutableFailed { message: String },
    ProjectDirectoriesUnavailable { message: String },
    /// The git executable could not be started.
    GitCommandFailed { command: String, message: String },
    /// git ran but did not exit successfully.
    GitOperationFailed { operation: String },
    /// git was ended by a signal before it exited.
    GitTerminatedBySignal { operation: String, signal: i32 },
    ShellSpawnFailed { message: String },
    GitHubApiError { message: String },
    InvalidUtf8,
    QueryAndPositionalArgsConflict,
    InvalidArgumentCombination,
    InvalidRepositoryName { name: String },
    ApplyMissingCommand,
    ScriptNotExecutable { path: String },
    ScriptPathInvalid { path: String, message: String },
    /// A command run by the apply runner failed in one repository.
    CommandFailed { repo: String, message: String },
    MissingGitHubToken { message: String },
    WorkspaceDirectoryNotConfigured,
    /// A concurrency ceiling of zero was requested.
    ZeroParallelism,
    ConfigLoadFailed { message: String },
    ConfigSaveFailed { message: String },
    HomeDirectoryNotFound { message: String },
}

/// A `NutError` with its text fields seen as character sequences.
pub enum ErrorView {
    AlreadyInWorkspace,
    NotInWorkspace { working_directory: Seq<char>, data_directory: Seq<char> },
    CreateDirectoryFailed { path: Seq<char>, message: Seq<char> },
    ReadDirectoryFailed { path: Seq<char>, message: Seq<char> },
    ReadFileFailed { path: Seq<char>, message: Seq<char> },
    WriteFileFailed { path: Seq<char>, message: Seq<char> },
    InvalidWorkspaceId { id: Seq<char>, message: Seq<char> },
    GetCurrentDirectoryFailed { message: Seq<char> },
    GetCurrentExecutableFailed { message: Seq<char> },
    ProjectDirectoriesUnavailable { message: Seq<char> },
    /// The git executable could not be started.
    GitCommandFailed { command: Seq<char>, message: Seq<char> },
    /// git ran but did not exit successfully.
    GitOperationFailed { operation: Seq<char> },
    /// git was ended by a signal before it exited.
    GitTerminatedBySignal { operation: Seq<char>, signal: i32 },
    ShellSpawnFailed { message: Seq<char> },
    GitHubApiError { message: Seq<char> },
    InvalidUtf8,
    QueryAndPositionalArgsConflict,
    InvalidArgumentCombination,
    InvalidRepositoryName { name: Seq<char> },
    ApplyMissingCommand,
    ScriptNotExecutable { path: Seq<char> },
    ScriptPathInvalid { path: Seq<char>, message: Seq<char> },
    /// A command run by the apply runner failed in one repository.
    CommandFailed { repo: Seq<char>, message: Seq<char> },
    MissingGitHubToken { message: Seq<char> },
    WorkspaceDirectoryNotConfigured,
    /// A concurrency ceiling of zero was requested.
    ZeroParallelism,
    ConfigLoadFailed { message: Seq<char> },
    ConfigSaveFailed { message: Seq<char> },
    HomeDirectoryNotFound { message: Seq<char> },
}

impl View for NutError {
    type V = ErrorView;

    open spec fn view(&self) -> ErrorView {
        match self {
            NutError::AlreadyInWorkspace => ErrorView::AlreadyInWorkspace,
            NutError::NotInWorkspace { working_directory, data_directory } => ErrorView::NotInWorkspace { working_directory: working_directory@, data_directory: data_directory@ },
            NutError::CreateDirectoryFailed { path, message } => ErrorView::CreateDirectoryFailed { path: path@, message: message@ },
            NutError::ReadDirectoryFailed { path, message } => ErrorView::ReadDirectoryFailed { path: path@, message: message@ },
            NutError::ReadFileFailed { path, message } => ErrorView::ReadFileFailed { path: path@, message: message@ },
            NutError::WriteFileFailed { path, message } => ErrorView::WriteFileFailed { path: path@, message: message@ },
            NutError::InvalidWorkspaceId { id, message } => ErrorView::InvalidWorkspaceId { id: id@, message: message@ },
            NutError::GetCurrentDirectoryFailed { message } => ErrorView::GetCurrentDirectoryFailed { message: message@ },
            NutError::GetCurrentExecutableFailed { message } => ErrorView::GetCurrentExecutableFailed { message: message@ },
            NutError::ProjectDirectoriesUnavailable { message } => ErrorView::ProjectDirectoriesUnavailable { message: message@ },
            NutError::GitCommandFailed { command, message } => ErrorView::GitCommandFailed { command: command@, message: message@ },
            NutError::GitOperationFailed { operation } => ErrorView::GitOperationFailed { operation: operation@ },
            NutError::GitTerminatedBySignal { operation, signal } => ErrorView::GitTerminatedBySignal { operation: operation@, signal: *signal },
            NutError::ShellSpawnFailed { message } => ErrorView::ShellSpawnFailed { message: message@ },
            NutError::GitHubApiError { message } => ErrorView::GitHubApiError { message: message@ },
            NutError::InvalidUtf8 => ErrorView::InvalidUtf8,
            NutError::QueryAndPositionalArgsConflict => ErrorView::QueryAndPositionalArgsConflict,
            NutError::InvalidArgumentCombination => ErrorView::InvalidArgumentCombination,
            NutError::InvalidRepositoryName { name } => ErrorView::InvalidRepositoryName { name: name@ },
            NutError::ApplyMissingCommand => ErrorView::ApplyMissingCommand,
            NutError::ScriptNotExecutable { path } => ErrorView::ScriptNotExecutable { path: path@ },
            NutError::ScriptPathInvalid { path, message } => ErrorView::ScriptPathInvalid { path: path@, message: message@ },
            NutError::CommandFailed { repo, message } => ErrorView::CommandFailed { repo: repo@, message: message@ },
            NutError::MissingGitHubToken { message } => ErrorView::MissingGitHubToken { message: message@ },
            NutError::WorkspaceDirectoryNotConfigured => ErrorView::WorkspaceDirectoryNotConfigured,
            NutError::ZeroParallelism => ErrorView::ZeroParallelism,
            NutError::ConfigLoadFailed { message } => ErrorView::ConfigLoadFailed { message: message@ },
            NutError::ConfigSaveFailed { message } => ErrorView::ConfigSaveFailed { message: message@ },
            NutError::HomeDirectoryNotFound { message } => ErrorView::HomeDirectoryNotFound { message: message@ },
        }
    }
}

} // verus!
