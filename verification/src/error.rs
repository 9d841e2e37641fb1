//! The failures that the launcher reports, and the text shown for each.

use vstd::prelude::*;
use vstd::string::*;

verus! {

/// Why an operation of the launcher did not succeed.
#[derive(Debug, Clone, PartialEq, Eq)]
pub enum LauncherError {
    /// A start was requested while a node process is already owned.
    AlreadyRunning,
    /// The location of the launcher itself could not be determined, so no
    /// node-agent binary was looked for.
    BinaryNotFound,
    /// The operating system refused to create the node process.
    SpawnFailed(String),
    /// The termination signal could not be delivered.
    StopFailed(String),
    /// The per-user configuration directory could not be determined (`None`)
    /// or could not be created (the reason).
    ConfigDirUnavailable(Option<String>),
    /// The settings record could not be turned into text.
    SerializeFailed(String),
    /// The settings file could not be written.
    WriteFailed(String),
}

/// Mathematical value of a [`LauncherError`].
pub enum LauncherErrorView {
    AlreadyRunning,
    BinaryNotFound,
    SpawnFailed(Seq<char>),
    StopFailed(Seq<char>),
    ConfigDirUnavailable(Option<Seq<char>>),
    SerializeFailed(Seq<char>),
    WriteFailed(Seq<char>),
}

impl LauncherErrorView {
    /// The text shown to the operator for this failure.
    pub open spec fn message(self) -> Seq<char> {
        match self {
            LauncherErrorView::AlreadyRunning => "Node is already running"@,
            LauncherErrorView::BinaryNotFound => "Could not find node-agent binary"@,
            LauncherErrorView::SpawnFailed(reason) => "Failed to start node: "@ + reason,
            LauncherErrorView::StopFailed(reason) => "Failed to stop node: "@ + reason,
            LauncherErrorView::ConfigDirUnavailable(None) => "Could not determine config directory"@,
            LauncherErrorView::ConfigDirUnavailable(Some(reason)) =>
                "Failed to create config directory: "@ + reason,
            LauncherErrorView::SerializeFailed(reason) => "Failed to serialize settings: "@ + reason,
            LauncherErrorView::WriteFailed(reason) => "Failed to write settings: "@ + reason,
        }
    }
}

impl View for LauncherError {
    type V = LauncherErrorView;

    open spec fn view(&self) -> LauncherErrorView {
        match self {
            LauncherError::AlreadyRunning => LauncherErrorView::AlreadyRunning,
            LauncherError::BinaryNotFound => LauncherErrorView::BinaryNotFound,
            LauncherError::SpawnFailed(reason) => LauncherErrorView::SpawnFailed(reason@),
            LauncherError::StopFailed(reason) => LauncherErrorView::StopFailed(reason@),
            LauncherError::ConfigDirUnavailable(None) => LauncherErrorView::ConfigDirUnavailable(None),
            LauncherError::ConfigDirUnavailable(Some(reason)) =>
                LauncherErrorView::ConfigDirUnavailable(Some(reason@)),
            LauncherError::SerializeFailed(reason) => LauncherErrorView::SerializeFailed(reason@),
            LauncherError::WriteFailed(reason) => LauncherErrorView::WriteFailed(reason@),
        }
    }
}

/// `prefix` followed by `reason`.
fn prefixed(prefix: &str, reason: &String) -> (text: String)
    ensures
        text@ == prefix@ + reason@,
{
    let mut text = prefix.to_owned();
    text.append(reason.as_str());
    text
}

impl LauncherError {
    /// The text shown to the operator for this failure.
    pub fn message(&self) -> (text: String)
        ensures
            text@ == self@.message(),
    {
        match self {
            LauncherError::AlreadyRunning => "Node is already running".to_owned(),
            LauncherError::BinaryNotFound => "Could not find node-agent binary".to_owned(),
            LauncherError::SpawnFailed(reason) => prefixed("Failed to start node: ", reason),
            LauncherError::StopFailed(reason) => prefixed("Failed to stop node: ", reason),
            LauncherError::ConfigDirUnavailable(None) => "Could not determine config directory".to_owned(),
            LauncherError::ConfigDirUnavailable(Some(reason)) =>
                prefixed("Failed to create config directory: ", reason),
            LauncherError::SerializeFailed(reason) => prefixed("Failed to serialize settings: ", reason),
            LauncherError::WriteFailed(reason) => prefixed("Failed to write settings: ", reason),
        }
    }
}

} // verus!
