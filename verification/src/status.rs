//! The status line in words.

use vstd::prelude::*;
use crate::text::{decimal_chars, decimal_string, join2, join3};
use crate::types::Status;

verus! {

/// A count followed by a fixed text.
pub open spec fn counted(n: usize, rest: Seq<char>) -> Seq<char> {
    decimal_chars(n as nat) + rest
}

/// What the status line shows for a status.
pub open spec fn status_text(status: Status) -> Seq<char> {
    match status {
        Status::StartingUp => "Starting up..."@,
        Status::SetupRequired => "Setup required — enter your account details"@,
        Status::PasswordRequired => "Password required"@,
        Status::NotConnectedNoCache => "Not connected — no cached data"@,
        Status::FoldersOfflineCached(n) => counted(n, " folders (offline)"@),
        Status::Connecting(label) => label@ + ": Connecting..."@,
        Status::ConnectedLoadingFolders => "Connected. Loading folders..."@,
        Status::FoldersCached(n) => counted(n, " folders (cached)"@),
        Status::FoldersSyncing(n) => counted(n, " folders (syncing...)"@),
        Status::Folders(n) => counted(n, " folders"@),
        Status::FoldersOffline(n, e) => counted(n, " folders (offline — "@) + e@ + ")"@,
        Status::FoldersSyncFailed(n, e) => counted(n, " folders (sync failed: "@) + e@ + ")"@,
        Status::FoldersFailed(e) => "Failed to load folders: "@ + e@,
        Status::ReauthRequired(e) => "Connection failed: "@ + e@,
        Status::LoadingFolder(name) => "Loading "@ + name@ + "..."@,
        Status::Messages(n) => counted(n, " messages"@),
        Status::MessagesSynced(n) => counted(n, " messages (synced)"@),
        Status::MessagesFailed(e) => "Failed to load messages: "@ + e@,
        Status::SyncFailed(e) => "Sync failed: "@ + e@,
        Status::Refreshing => "Refreshing..."@,
        Status::LoadingMessage => "Loading message..."@,
        Status::Ready => "Ready"@,
        Status::ErrorLoadingMessage => "Error loading message"@,
        Status::NotConnected => "Not connected"@,
        Status::FlagUpdateFailed(e) => "Flag update failed: "@ + e@,
        Status::MoveFailed(e) => "Move failed: "@ + e@,
        Status::TrashNotFound => "Trash folder not found"@,
        Status::ArchiveNotFound => "Archive folder not found"@,
        Status::MutationPending => "Another change to this message is still in progress"@,
        Status::UnknownMailbox => "Unknown mailbox"@,
        Status::NewMail { from, subject } => "New mail from "@ + from@ + ": "@ + subject@,
        Status::WatchStopped(e) => "Watch stopped: "@ + e@,
        Status::AccountRemoved => "Account removed"@,
    }
}

/// A count followed by a fixed text.
pub fn counted_text(n: usize, rest: &str) -> (r: String)
    ensures
        r@ == counted(n, rest@),
{
    let mut out = decimal_string(n as u64);
    out.append(rest);
    out
}

impl Status {
    /// The status in words, as the status line shows it.
    pub fn text(&self) -> (r: String)
        ensures
            r@ == status_text(*self),
    {
        match self {
            Status::StartingUp => "Starting up...".to_owned(),
            Status::SetupRequired => "Setup required — enter your account details".to_owned(),
            Status::PasswordRequired => "Password required".to_owned(),
            Status::NotConnectedNoCache => "Not connected — no cached data".to_owned(),
            Status::FoldersOfflineCached(n) => counted_text(*n, " folders (offline)"),
            Status::Connecting(label) => join2(label.as_str(), ": Connecting..."),
            Status::ConnectedLoadingFolders => "Connected. Loading folders...".to_owned(),
            Status::FoldersCached(n) => counted_text(*n, " folders (cached)"),
            Status::FoldersSyncing(n) => counted_text(*n, " folders (syncing...)"),
            Status::Folders(n) => counted_text(*n, " folders"),
            Status::FoldersOffline(n, e) => {
                let head = counted_text(*n, " folders (offline — ");
                join3(head.as_str(), e.as_str(), ")")
            },
            Status::FoldersSyncFailed(n, e) => {
                let head = counted_text(*n, " folders (sync failed: ");
                join3(head.as_str(), e.as_str(), ")")
            },
            Status::FoldersFailed(e) => join2("Failed to load folders: ", e.as_str()),
            Status::ReauthRequired(e) => join2("Connection failed: ", e.as_str()),
            Status::LoadingFolder(name) => join3("Loading ", name.as_str(), "..."),
            Status::Messages(n) => counted_text(*n, " messages"),
            Status::MessagesSynced(n) => counted_text(*n, " messages (synced)"),
            Status::MessagesFailed(e) => join2("Failed to load messages: ", e.as_str()),
            Status::SyncFailed(e) => join2("Sync failed: ", e.as_str()),
            Status::Refreshing => "Refreshing...".to_owned(),
            Status::LoadingMessage => "Loading message...".to_owned(),
            Status::Ready => "Ready".to_owned(),
            Status::ErrorLoadingMessage => "Error loading message".to_owned(),
            Status::NotConnected => "Not connected".to_owned(),
            Status::FlagUpdateFailed(e) => join2("Flag update failed: ", e.as_str()),
            Status::MoveFailed(e) => join2("Move failed: ", e.as_str()),
            Status::TrashNotFound => "Trash folder not found".to_owned(),
            Status::ArchiveNotFound => "Archive folder not found".to_owned(),
            Status::MutationPending => "Another change to this message is still in progress".to_owned(),
            Status::UnknownMailbox => "Unknown mailbox".to_owned(),
            Status::NewMail { from, subject } => {
                let head = join3("New mail from ", from.as_str(), ": ");
                join2(head.as_str(), subject.as_str())
            },
            Status::WatchStopped(e) => join2("Watch stopped: ", e.as_str()),
            Status::AccountRemoved => "Account removed".to_owned(),
        }
    }
}

} // verus!
