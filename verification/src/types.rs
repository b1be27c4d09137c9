//! The model of the mail client, the events it reacts to and the work it asks for.

use vstd::prelude::*;
use std::collections::HashMap;
use std::collections::HashSet;
use crate::folder_map::FolderMap;
use crate::models::{AttachmentData, Folder, MessageSummary};
use crate::setup::{SetupError, SetupField, SetupForm};

verus! {

/// Number of message summaries that one cache read asks for.
pub const DEFAULT_PAGE_SIZE: u32 = 50;

/// How often a body request waits for a session before it gives up.
pub const MAX_BODY_RETRIES: u8 = 5;

/// The three panes of the main window.
#[derive(Debug, Clone, Copy, PartialEq, Eq, Structural)]
pub enum PaneKind {
    Sidebar,
    MessageList,
    MessageView,
}

/// Where an account's connection stands.
#[derive(Debug, PartialEq, Eq)]
pub enum ConnectionState {
    Disconnected,
    Connecting,
    Connected,
    Syncing,
    /// Left only by an explicit reconnect.
    Error(String),
}

impl Clone for ConnectionState {
    fn clone(&self) -> (r: Self)
        ensures
            r == *self,
    {
        match self {
            ConnectionState::Disconnected => ConnectionState::Disconnected,
            ConnectionState::Connecting => ConnectionState::Connecting,
            ConnectionState::Connected => ConnectionState::Connected,
            ConnectionState::Syncing => ConnectionState::Syncing,
            ConnectionState::Error(e) => ConnectionState::Error(e.clone()),
        }
    }
}

/// The settings for sending mail where they differ from those for receiving:
/// what is `None` is taken from the receiving side.
#[derive(Debug, PartialEq, Eq)]
pub struct SmtpOverrides {
    pub server: Option<String>,
    pub port: Option<u16>,
    pub username: Option<String>,
    pub use_starttls: Option<bool>,
}

impl Clone for SmtpOverrides {
    fn clone(&self) -> (r: Self)
        ensures
            r == *self,
    {
        SmtpOverrides {
            server: crate::text::clone_opt_string(&self.server),
            port: self.port,
            username: crate::text::clone_opt_string(&self.username),
            use_starttls: self.use_starttls,
        }
    }
}

/// What the model needs to know of an account's configuration.
#[derive(Debug, PartialEq, Eq)]
pub struct AccountConfig {
    /// Opaque stable id.
    pub id: String,
    pub label: String,
    pub imap_server: String,
    pub imap_port: u16,
    pub username: String,
    pub use_starttls: bool,
    pub email_addresses: Vec<String>,
    pub smtp_overrides: SmtpOverrides,
}

impl Clone for AccountConfig {
    fn clone(&self) -> (r: Self)
        ensures
            r.id == self.id,
            r.label == self.label,
            r.imap_server == self.imap_server,
            r.imap_port == self.imap_port,
            r.username == self.username,
            r.use_starttls == self.use_starttls,
            r.email_addresses@ == self.email_addresses@,
            r.smtp_overrides == self.smtp_overrides,
    {
        AccountConfig {
            id: self.id.clone(),
            label: self.label.clone(),
            imap_server: self.imap_server.clone(),
            imap_port: self.imap_port,
            username: self.username.clone(),
            use_starttls: self.use_starttls,
            email_addresses: crate::accounts::clone_strings(&self.email_addresses),
            smtp_overrides: self.smtp_overrides.clone(),
        }
    }
}

/// One account: its connection, its folders and the map derived from them.
#[derive(Debug)]
pub struct AccountState {
    pub config: AccountConfig,
    /// The generation of the live session, if there is one.
    pub session: Option<u64>,
    /// Counts the connection attempts; results that carry an older number are stale.
    pub generation: u64,
    pub conn_state: ConnectionState,
    pub folders: Vec<Folder>,
    pub folder_map: FolderMap,
    /// Whether a folder list from the server has been applied since the last connect.
    pub folders_synced: bool,
    /// Whether the account's push stream is being consumed.
    pub watching: bool,
    /// Whether the account's folders are folded away in the sidebar.
    pub collapsed: bool,
}

/// The mathematical model of an account.
pub struct AccountView {
    pub config: AccountConfig,
    pub session: Option<u64>,
    pub generation: u64,
    pub conn_state: ConnectionState,
    pub folders: Seq<Folder>,
    pub folder_map: Map<Seq<char>, u64>,
    pub folders_synced: bool,
    pub watching: bool,
    pub collapsed: bool,
}

impl View for AccountState {
    type V = AccountView;

    open spec fn view(&self) -> AccountView {
        AccountView {
            config: self.config,
            session: self.session,
            generation: self.generation,
            conn_state: self.conn_state,
            folders: self.folders@,
            folder_map: self.folder_map@,
            folders_synced: self.folders_synced,
            watching: self.watching,
            collapsed: self.collapsed,
        }
    }
}

/// A rendered message body with its attachments.
#[derive(Debug, PartialEq, Eq)]
pub struct MessageBody {
    pub markdown: String,
    pub plain: String,
    pub attachments: Vec<AttachmentData>,
}

/// What the preview pane holds.
#[derive(Debug, PartialEq, Eq)]
pub enum Preview {
    Empty,
    Body(MessageBody),
    /// The body could not be loaded, for the reason given.
    Failed(String),
    /// No session came up while the body was waited for.
    Unavailable,
}

/// The record that makes an optimistic change revocable. There is at most one
/// per envelope.
#[derive(Debug, PartialEq, Eq)]
pub enum PendingMutation {
    /// A flag change: the flag byte before the change.
    Flags { account_id: String, prev_flags: u8 },
    /// A move: the message as it was, and the place it was taken from.
    Move { account_id: String, message: MessageSummary, position: usize },
}

/// The tag that the cache stores beside a pending change.
#[derive(Debug, PartialEq, Eq)]
pub enum PendingOp {
    SetSeen,
    UnsetSeen,
    SetFlagged,
    UnsetFlagged,
    /// A move to the mailbox with this identity.
    Move(u64),
}

/// One flag operation on the server.
#[derive(Debug, Clone, Copy, PartialEq, Eq, Structural)]
pub enum FlagChange {
    SetSeen,
    UnsetSeen,
    SetFlagged,
    UnsetFlagged,
}

/// What the status line reports.
#[derive(Debug, PartialEq, Eq)]
pub enum Status {
    StartingUp,
    SetupRequired,
    /// The configuration is there but for the password.
    PasswordRequired,
    /// The set-up was given up and there is no account.
    NotConnectedNoCache,
    /// The set-up was given up; the accounts have this many folders in all.
    FoldersOfflineCached(usize),
    Connecting(String),
    ConnectedLoadingFolders,
    FoldersCached(usize),
    FoldersSyncing(usize),
    Folders(usize),
    FoldersOffline(usize, String),
    FoldersSyncFailed(usize, String),
    FoldersFailed(String),
    /// The connection failed and nothing is cached: the account has to be set up again.
    ReauthRequired(String),
    LoadingFolder(String),
    Messages(usize),
    MessagesSynced(usize),
    MessagesFailed(String),
    SyncFailed(String),
    Refreshing,
    LoadingMessage,
    Ready,
    ErrorLoadingMessage,
    NotConnected,
    FlagUpdateFailed(String),
    MoveFailed(String),
    TrashNotFound,
    ArchiveNotFound,
    /// A change was refused because an earlier one on the same message is still in flight.
    MutationPending,
    /// A request named a mailbox or an account that the registry does not know.
    UnknownMailbox,
    NewMail { from: String, subject: String },
    WatchStopped(String),
    AccountRemoved,
}

/// An event of an account's push stream.
#[derive(Debug, PartialEq, Eq)]
pub enum ImapWatchEvent {
    NewMessage { mailbox_hash: u64, subject: String, from: String },
    MessageRemoved { mailbox_hash: u64, envelope_hash: u64 },
    FlagsChanged { mailbox_hash: u64, envelope_hash: u64, flags: u8 },
    Rescan,
    WatchError(String),
    WatchEnded,
}

/// Everything the model reacts to: the user's intents and the results of the
/// work done outside.
#[derive(Debug, PartialEq, Eq)]
#[allow(inconsistent_fields)]
pub enum Message {
    AccountConfigured(AccountConfig),
    AccountConnected { account_id: String, generation: u64, result: Result<(), String> },
    CachedFoldersLoaded { account_id: String, result: Result<Vec<Folder>, String> },
    SyncFoldersComplete { account_id: String, generation: u64, result: Result<Vec<Folder>, String> },
    CachedMessagesLoaded {
        account_id: String,
        mailbox_hash: u64,
        offset: u32,
        result: Result<Vec<MessageSummary>, String>,
    },
    SyncMessagesComplete {
        account_id: String,
        generation: u64,
        mailbox_hash: u64,
        result: Result<(), String>,
    },
    MessagesLoaded {
        account_id: String,
        generation: u64,
        mailbox_hash: u64,
        result: Result<Vec<MessageSummary>, String>,
    },
    /// Account index, then folder index within the account.
    SelectFolder(usize, usize),
    LoadMoreMessages,
    ForceReconnect(String),
    Refresh,
    ViewBody(usize),
    BodyDeferred,
    CachedBodyLoaded { envelope_hash: u64, body: Option<MessageBody> },
    BodyFetched { envelope_hash: u64, result: Result<MessageBody, String> },
    BodyLoaded { envelope_hash: u64, result: Result<MessageBody, String> },
    ToggleRead(usize),
    ToggleStar(usize),
    AutoMarkRead(u64),
    Trash(usize),
    Archive(usize),
    DragMessageToFolder { envelope_hash: u64, source_mailbox: u64, dest_mailbox: u64 },
    /// A dragged message has come over the sidebar row with this index.
    FolderDragEnter(usize),
    FolderDragLeave,
    FlagOpComplete { envelope_hash: u64, result: Result<u8, String> },
    MoveOpComplete { envelope_hash: u64, result: Result<(), String> },
    SelectionUp,
    SelectionDown,
    ActivateSelection,
    ToggleThreadCollapse,
    ImapEvent(String, ImapWatchEvent),
    AccountRemove(String),
    ToggleAccountCollapse(usize),
    /// The set-up dialog opens with this form.
    SetupOpened(SetupForm),
    SetupFieldChanged(SetupField, String),
    SetupToggled(SetupField, bool),
    /// The form has been checked: the configuration it stands for, or its fault.
    SetupChecked(Result<AccountConfig, SetupError>),
    /// The configuration has been written out, or could not be.
    SetupSaved { config: AccountConfig, result: Result<(), String> },
    SetupCancel,
    Noop,
}

/// Work that the model asks for. Whoever performs it hands the outcome back as
/// a `Message`.
#[derive(Debug, PartialEq, Eq)]
pub enum Effect {
    /// Open a session; answered by `AccountConnected` with the same generation.
    Connect { account_id: String, generation: u64 },
    /// Tear down whatever session the account still has.
    DropSession { account_id: String },
    /// Read the account's folders from the cache; answered by `CachedFoldersLoaded`.
    LoadCachedFolders { account_id: String },
    /// Fetch the folders from the server and store them; answered by `SyncFoldersComplete`.
    FetchFolders { account_id: String, generation: u64 },
    /// Read one page of a mailbox from the cache; answered by `CachedMessagesLoaded`.
    LoadCachedMessages { account_id: String, mailbox_hash: u64, limit: u32, offset: u32 },
    /// Fetch a mailbox from the server and store it; answered by `SyncMessagesComplete`.
    SyncMessages { account_id: String, generation: u64, mailbox_hash: u64 },
    /// Fetch a mailbox from the server when there is no cache; answered by `MessagesLoaded`.
    FetchMessages { account_id: String, generation: u64, mailbox_hash: u64 },
    /// Read a body from the cache; answered by `CachedBodyLoaded`.
    LoadCachedBody { account_id: String, envelope_hash: u64 },
    /// Fetch a body from the server; answered by `BodyFetched`.
    FetchBody { account_id: String, generation: u64, envelope_hash: u64 },
    /// Store a body in the cache; answered by `BodyLoaded` with the same body.
    SaveBody { account_id: String, envelope_hash: u64, body: MessageBody },
    /// Deliver `BodyDeferred` after a short wait.
    RetryBodyLater,
    /// Deliver `AutoMarkRead` for the envelope after the dwell time.
    StartAutoReadTimer { envelope_hash: u64 },
    /// Store the new flag byte and the pending tag for the envelope.
    MarkPending { account_id: String, envelope_hash: u64, flags: u8, op: PendingOp },
    /// Change a flag on the server; answered by `FlagOpComplete`.
    SetFlags {
        account_id: String,
        envelope_hash: u64,
        mailbox_hash: u64,
        change: FlagChange,
        new_flags: u8,
    },
    /// Move a message on the server; answered by `MoveOpComplete`.
    MoveMessage { account_id: String, envelope_hash: u64, source_mailbox: u64, dest_mailbox: u64 },
    /// Clear the pending tag and store the confirmed flag byte.
    ClearPending { account_id: String, envelope_hash: u64, flags: u8 },
    /// Put the cache row back to what it was before the pending change.
    RevertPending { account_id: String, envelope_hash: u64 },
    /// Remove a message from the cache.
    RemoveCachedMessage { account_id: String, envelope_hash: u64 },
    /// Remove every cache row of an account.
    RemoveCachedAccount { account_id: String },
    /// Delete the stored credential of an account.
    ReleaseCredential { account_id: String, username: String, server: String },
    /// Store the passwords and write the configuration out; answered by
    /// `SetupSaved` with the same configuration.
    SaveAccount { config: AccountConfig, password: String, smtp_password: String },
}

/// The whole in-memory state of the client.
#[derive(Debug)]
pub struct AppModel {
    pub accounts: Vec<AccountState>,
    pub active_account: Option<usize>,
    /// Whether a cache is at hand; without one the model works from the network alone.
    pub cache_available: bool,
    pub selected_folder: Option<usize>,
    /// The messages of the selected folder, newest first.
    pub messages: Vec<MessageSummary>,
    /// The selected visible row.
    pub selected_message: Option<usize>,
    pub messages_offset: u32,
    pub has_more_messages: bool,
    pub preview: Preview,
    /// Threads whose replies are hidden.
    pub collapsed_threads: HashSet<u64>,
    /// Outstanding optimistic changes, by envelope.
    pub pending: HashMap<u64, PendingMutation>,
    pub status: Status,
    /// The row whose body is waited for until a session exists.
    pub pending_body: Option<usize>,
    pub body_defer_retries: u8,
    /// Set when the user marks a message unread by hand: the dwell timer then does nothing.
    pub auto_read_suppressed: bool,
    /// The sidebar row that a dragged message hovers over.
    pub folder_drag_target: Option<usize>,
    /// The form of the set-up dialog while the dialog is open.
    pub setup: Option<SetupForm>,
}

/// The mathematical model of the client's state.
pub struct ModelView {
    pub accounts: Seq<AccountView>,
    pub active_account: Option<usize>,
    pub cache_available: bool,
    pub selected_folder: Option<usize>,
    pub messages: Seq<MessageSummary>,
    pub selected_message: Option<usize>,
    pub messages_offset: u32,
    pub has_more_messages: bool,
    pub preview: Preview,
    pub collapsed_threads: Set<u64>,
    pub pending: Map<u64, PendingMutation>,
    pub status: Status,
    pub pending_body: Option<usize>,
    pub body_defer_retries: u8,
    pub auto_read_suppressed: bool,
    pub folder_drag_target: Option<usize>,
    pub setup: Option<SetupForm>,
}

/// The models of a list of accounts.
pub open spec fn account_views(accounts: Seq<AccountState>) -> Seq<AccountView> {
    Seq::new(accounts.len(), |i: int| accounts[i]@)
}

impl View for AppModel {
    type V = ModelView;

    open spec fn view(&self) -> ModelView {
        ModelView {
            accounts: account_views(self.accounts@),
            active_account: self.active_account,
            cache_available: self.cache_available,
            selected_folder: self.selected_folder,
            messages: self.messages@,
            selected_message: self.selected_message,
            messages_offset: self.messages_offset,
            has_more_messages: self.has_more_messages,
            preview: self.preview,
            collapsed_threads: self.collapsed_threads@,
            pending: self.pending@,
            status: self.status,
            pending_body: self.pending_body,
            body_defer_retries: self.body_defer_retries,
            auto_read_suppressed: self.auto_read_suppressed,
            folder_drag_target: self.folder_drag_target,
            setup: self.setup,
        }
    }
}

/// A transition's outcome: the next model and the work it asks for, in order.
pub struct Step {
    pub model: ModelView,
    pub effects: Seq<Effect>,
}

impl AccountState {
    /// A fresh account: disconnected, without folders.
    pub fn new(config: AccountConfig) -> (r: Self)
        ensures
            r.config == config,
            r.session is None,
            r.generation == 0,
            r.conn_state == ConnectionState::Disconnected,
            r.folders@.len() == 0,
            r.folder_map@ == Map::<Seq<char>, u64>::empty(),
            !r.folders_synced,
            !r.watching,
            !r.collapsed,
    {
        AccountState {
            config,
            session: None,
            generation: 0,
            conn_state: ConnectionState::Disconnected,
            folders: Vec::new(),
            folder_map: FolderMap::new(),
            folders_synced: false,
            watching: false,
            collapsed: false,
        }
    }

    /// Rebuilds the path map from the folder list: cleared, then filled again,
    /// never patched.
    pub fn rebuild_folder_map(&mut self)
        ensures
            final(self).folder_map@ == crate::folder_map::folder_map_of(old(self).folders@),
            final(self)@ == (AccountView {
                folder_map: crate::folder_map::folder_map_of(old(self).folders@),
                ..old(self)@
            }),
    {
        self.folder_map = FolderMap::from_folders(&self.folders);
    }
}

} // verus!
