//! Connection lifecycle and the cache-first loading of folders and messages.

use vstd::prelude::*;
use crate::folder_map::folder_map_of;
use crate::models::{Folder, MessageSummary};
use crate::registry::{active_index, find_account, find_folder, folder_index, selected_mailbox};
use crate::types::{
    AccountView, AppModel, ConnectionState, Effect, ModelView, Preview, Status, Step,
    DEFAULT_PAGE_SIZE,
};

verus! {

/// The number of the connection attempt that follows attempt `g`.
pub open spec fn next_generation(g: u64) -> u64 {
    if g == u64::MAX {
        0
    } else {
        (g + 1) as u64
    }
}

/// A step that changes nothing and asks for nothing.
pub open spec fn unchanged(v: ModelView) -> Step {
    Step { model: v, effects: Seq::empty() }
}

/// The outcome of a connection attempt.
///
/// An answer to an attempt that is no longer the account's latest is dropped.
/// Success stores the session, marks the account connected and asks for its
/// folders. Failure puts the account into the error state and keeps whatever
/// is cached; with nothing cached the status asks for the account to be set
/// up again.
pub open spec fn connected_step(
    v: ModelView,
    account_id: String,
    generation: u64,
    result: Result<(), String>,
) -> Step {
    match find_account(v.accounts, account_id@, 0) {
        None => unchanged(v),
        Some(i) => {
            let a = v.accounts[i as int];
            if a.generation != generation {
                unchanged(v)
            } else {
                match result {
                    Ok(_) => Step {
                        model: ModelView {
                            accounts: v.accounts.update(
                                i as int,
                                AccountView {
                                    session: Some(generation),
                                    conn_state: ConnectionState::Connected,
                                    watching: true,
                                    folders_synced: false,
                                    ..a
                                },
                            ),
                            status: if a.folders.len() == 0 {
                                Status::ConnectedLoadingFolders
                            } else {
                                Status::FoldersSyncing(a.folders.len() as usize)
                            },
                            ..v
                        },
                        effects: seq![Effect::FetchFolders { account_id, generation }],
                    },
                    Err(e) => Step {
                        model: ModelView {
                            accounts: v.accounts.update(
                                i as int,
                                AccountView {
                                    session: None,
                                    conn_state: ConnectionState::Error(e),
                                    watching: false,
                                    ..a
                                },
                            ),
                            status: if a.folders.len() == 0 {
                                Status::ReauthRequired(e)
                            } else {
                                Status::FoldersOffline(a.folders.len() as usize, e)
                            },
                            ..v
                        },
                        effects: Seq::empty(),
                    },
                }
            }
        },
    }
}

/// The model after a folder has been chosen: the list, the selection and the
/// preview are emptied and paging starts again.
pub open spec fn select(v: ModelView, account: usize, folder: usize) -> ModelView {
    ModelView {
        active_account: Some(account),
        selected_folder: Some(folder),
        messages: Seq::empty(),
        selected_message: None,
        messages_offset: 0,
        has_more_messages: false,
        preview: Preview::Empty,
        pending_body: None,
        body_defer_retries: 0,
        ..v
    }
}

/// The path of the folder that is opened when nothing is selected.
pub open spec fn inbox_path() -> Seq<char> {
    "INBOX"@
}

/// The read of the first page of a mailbox from the cache, if there is a cache.
pub open spec fn first_page_read(v: ModelView, account: usize, mailbox: u64) -> Seq<Effect> {
    if v.cache_available {
        seq![
            Effect::LoadCachedMessages {
                account_id: v.accounts[account as int].config.id,
                mailbox_hash: mailbox,
                limit: DEFAULT_PAGE_SIZE,
                offset: 0,
            },
        ]
    } else {
        Seq::empty()
    }
}

/// The fetch of a mailbox over a live session: through the cache where there
/// is one, straight into the model where there is none.
pub open spec fn network_read(v: ModelView, account: usize, generation: u64, mailbox: u64) -> Seq<
    Effect,
> {
    if v.cache_available {
        seq![
            Effect::SyncMessages {
                account_id: v.accounts[account as int].config.id,
                generation,
                mailbox_hash: mailbox,
            },
        ]
    } else {
        seq![
            Effect::FetchMessages {
                account_id: v.accounts[account as int].config.id,
                generation,
                mailbox_hash: mailbox,
            },
        ]
    }
}

/// An account's folders as read from the cache.
///
/// A failed or empty read changes nothing, and neither does a read that comes
/// after the server's list. Otherwise the folders and their path map are
/// taken over; if no folder is selected yet, the account's INBOX is selected
/// and its first page is read from the cache.
pub open spec fn cached_folders_step(
    v: ModelView,
    account_id: String,
    result: Result<Vec<Folder>, String>,
) -> Step {
    match (result, find_account(v.accounts, account_id@, 0)) {
        (Ok(folders), Some(i)) => {
            let a = v.accounts[i as int];
            if folders@.len() == 0 || a.folders_synced {
                unchanged(v)
            } else {
                let v1 = ModelView {
                    accounts: v.accounts.update(
                        i as int,
                        AccountView {
                            folders: folders@,
                            folder_map: folder_map_of(folders@),
                            ..a
                        },
                    ),
                    status: Status::FoldersCached(folders@.len() as usize),
                    ..v
                };
                match (v.selected_folder, find_folder(folders@, inbox_path(), 0)) {
                    (None, Some(f)) => Step {
                        model: select(v1, i, f),
                        effects: first_page_read(v1, i, folders@[f as int].mailbox_hash),
                    },
                    _ => Step { model: v1, effects: Seq::empty() },
                }
            }
        },
        _ => unchanged(v),
    }
}

/// An account's folders as fetched from the server.
///
/// An answer that does not belong to the account's live session is dropped.
/// A failure leaves the folders as they are. A fetched list replaces the
/// folders and the path map whole, whatever the cache had said; if no folder
/// is selected the account's INBOX is, and if the account is the active one
/// the selected folder's messages are fetched.
pub open spec fn folders_synced_step(
    v: ModelView,
    account_id: String,
    generation: u64,
    result: Result<Vec<Folder>, String>,
) -> Step {
    match find_account(v.accounts, account_id@, 0) {
        None => unchanged(v),
        Some(i) => {
            let a = v.accounts[i as int];
            if a.session != Some(generation) {
                unchanged(v)
            } else {
                match result {
                    Err(e) => Step {
                        model: ModelView {
                            accounts: v.accounts.update(
                                i as int,
                                AccountView { conn_state: ConnectionState::Connected, ..a },
                            ),
                            status: if a.folders.len() == 0 {
                                Status::FoldersFailed(e)
                            } else {
                                Status::FoldersSyncFailed(a.folders.len() as usize, e)
                            },
                            ..v
                        },
                        effects: Seq::empty(),
                    },
                    Ok(folders) => {
                        let v1 = ModelView {
                            accounts: v.accounts.update(
                                i as int,
                                AccountView {
                                    folders: folders@,
                                    folder_map: folder_map_of(folders@),
                                    folders_synced: true,
                                    conn_state: ConnectionState::Connected,
                                    ..a
                                },
                            ),
                            status: Status::Folders(folders@.len() as usize),
                            ..v
                        };
                        let v2 = match (v.selected_folder, find_folder(folders@, inbox_path(), 0)) {
                            (None, Some(f)) => select(v1, i, f),
                            _ => v1,
                        };
                        Step {
                            model: v2,
                            effects: match selected_mailbox(v2) {
                                Some(mailbox) => if active_index(v2) == Some(i) {
                                    network_read(v2, i, generation, mailbox)
                                } else {
                                    Seq::empty()
                                },
                                None => Seq::empty(),
                            },
                        }
                    },
                }
            }
        },
    }
}

/// The choice of a folder.
///
/// A choice that names no folder is refused and only reported. Otherwise the
/// list, the selection and the preview are emptied at once and the offset
/// goes back to zero; the first page is read from the cache, and with a live
/// session the folder is fetched from the server as well.
pub open spec fn select_folder_step(v: ModelView, account: usize, folder: usize) -> Step {
    if account >= v.accounts.len() || folder >= v.accounts[account as int].folders.len() {
        Step { model: ModelView { status: Status::UnknownMailbox, ..v }, effects: Seq::empty() }
    } else {
        let a = v.accounts[account as int];
        let mailbox = a.folders[folder as int].mailbox_hash;
        let v1 = select(v, account, folder);
        match a.session {
            Some(g) => Step {
                model: ModelView {
                    accounts: v.accounts.update(
                        account as int,
                        AccountView { conn_state: ConnectionState::Syncing, ..a },
                    ),
                    status: Status::LoadingFolder(a.folders[folder as int].name),
                    ..v1
                },
                effects: first_page_read(v, account, mailbox) + network_read(v, account, g, mailbox),
            },
            None => Step { model: v1, effects: first_page_read(v, account, mailbox) },
        }
    }
}

/// Whether a page read from the cache answers the read that the model is
/// waiting for: same account, same folder, same offset.
pub open spec fn page_is_current(v: ModelView, account_id: Seq<char>, mailbox: u64, offset: u32) -> bool {
    match active_index(v) {
        Some(a) => v.accounts[a as int].config.id@ == account_id && selected_mailbox(v) == Some(mailbox)
            && v.messages_offset == offset,
        None => false,
    }
}

/// One page of messages as read from the cache.
///
/// A page for another folder, account or offset is stale and dropped, and a
/// failed read changes nothing. A page at offset zero becomes the list; a
/// later page is added at its end. More can be asked for iff the page is full.
pub open spec fn cached_messages_step(
    v: ModelView,
    account_id: String,
    mailbox_hash: u64,
    offset: u32,
    result: Result<Vec<MessageSummary>, String>,
) -> Step {
    match result {
        Ok(page) => if page_is_current(v, account_id@, mailbox_hash, offset) {
            let list = if offset == 0 {
                page@
            } else {
                v.messages + page@
            };
            Step {
                model: ModelView {
                    messages: list,
                    has_more_messages: page@.len() == DEFAULT_PAGE_SIZE,
                    status: if list.len() > 0 {
                        Status::Messages(list.len() as usize)
                    } else {
                        v.status
                    },
                    ..v
                },
                effects: Seq::empty(),
            }
        } else {
            unchanged(v)
        },
        Err(_) => unchanged(v),
    }
}

/// The end of a fetch-and-store of a mailbox.
///
/// An answer that does not belong to the account's live session is dropped.
/// After a success for the folder on display the list is read again from the
/// cache, from offset zero: what is shown is what was stored. A success for
/// another folder only ends the syncing state; a failure is reported.
pub open spec fn messages_synced_step(
    v: ModelView,
    account_id: String,
    generation: u64,
    mailbox_hash: u64,
    result: Result<(), String>,
) -> Step {
    match find_account(v.accounts, account_id@, 0) {
        None => unchanged(v),
        Some(i) => {
            let a = v.accounts[i as int];
            if a.session != Some(generation) {
                unchanged(v)
            } else {
                let settled = v.accounts.update(
                    i as int,
                    AccountView { conn_state: ConnectionState::Connected, ..a },
                );
                match result {
                    Err(e) => Step {
                        model: ModelView { accounts: settled, status: Status::SyncFailed(e), ..v },
                        effects: Seq::empty(),
                    },
                    Ok(_) => if active_index(v) == Some(i) && selected_mailbox(v) == Some(
                        mailbox_hash,
                    ) {
                        if v.cache_available {
                            Step {
                                model: ModelView { accounts: settled, messages_offset: 0, ..v },
                                effects: first_page_read(v, i, mailbox_hash),
                            }
                        } else {
                            Step {
                                model: ModelView {
                                    accounts: settled,
                                    status: Status::MessagesSynced(v.messages.len() as usize),
                                    ..v
                                },
                                effects: Seq::empty(),
                            }
                        }
                    } else {
                        Step { model: ModelView { accounts: settled, ..v }, effects: Seq::empty() }
                    },
                }
            }
        },
    }
}

/// A mailbox as fetched from the server when there is no cache.
///
/// An answer for a dead session is dropped. A list for the folder on display
/// becomes the list; a list for another folder only ends the syncing state.
pub open spec fn messages_loaded_step(
    v: ModelView,
    account_id: String,
    generation: u64,
    mailbox_hash: u64,
    result: Result<Vec<MessageSummary>, String>,
) -> Step {
    match find_account(v.accounts, account_id@, 0) {
        None => unchanged(v),
        Some(i) => {
            let a = v.accounts[i as int];
            if a.session != Some(generation) {
                unchanged(v)
            } else {
                let settled = v.accounts.update(
                    i as int,
                    AccountView { conn_state: ConnectionState::Connected, ..a },
                );
                match result {
                    Err(e) => Step {
                        model: ModelView { accounts: settled, status: Status::MessagesFailed(e), ..v },
                        effects: Seq::empty(),
                    },
                    Ok(list) => if active_index(v) == Some(i) && selected_mailbox(v) == Some(
                        mailbox_hash,
                    ) {
                        Step {
                            model: ModelView {
                                accounts: settled,
                                messages: list@,
                                messages_offset: 0,
                                has_more_messages: false,
                                status: Status::Messages(list@.len() as usize),
                                ..v
                            },
                            effects: Seq::empty(),
                        }
                    } else {
                        Step { model: ModelView { accounts: settled, ..v }, effects: Seq::empty() }
                    },
                }
            }
        },
    }
}

/// The request for the next page.
///
/// It does something only if the last page was full, a cache is at hand and a
/// folder is on display: the offset then grows by one page and that page is
/// read from the cache alone.
pub open spec fn load_more_step(v: ModelView) -> Step {
    match (active_index(v), selected_mailbox(v)) {
        (Some(a), Some(mailbox)) => if v.has_more_messages && v.cache_available && v.messages_offset
            + DEFAULT_PAGE_SIZE <= u32::MAX {
            Step {
                model: ModelView {
                    messages_offset: (v.messages_offset + DEFAULT_PAGE_SIZE) as u32,
                    ..v
                },
                effects: seq![
                    Effect::LoadCachedMessages {
                        account_id: v.accounts[a as int].config.id,
                        mailbox_hash: mailbox,
                        limit: DEFAULT_PAGE_SIZE,
                        offset: (v.messages_offset + DEFAULT_PAGE_SIZE) as u32,
                    },
                ],
            }
        } else {
            unchanged(v)
        },
        _ => unchanged(v),
    }
}

/// The request to connect an account anew.
///
/// It is honoured from the connected and the error state only. The session is
/// given up, the attempt counter moves on so that answers to the old session
/// are recognised as stale, and a new attempt starts.
pub open spec fn force_reconnect_step(v: ModelView, account_id: String) -> Step {
    match find_account(v.accounts, account_id@, 0) {
        None => unchanged(v),
        Some(i) => {
            let a = v.accounts[i as int];
            if a.conn_state is Connected || a.conn_state is Error {
                Step {
                    model: ModelView {
                        accounts: v.accounts.update(
                            i as int,
                            AccountView {
                                session: None,
                                generation: next_generation(a.generation),
                                conn_state: ConnectionState::Connecting,
                                watching: false,
                                ..a
                            },
                        ),
                        status: Status::Connecting(a.config.label),
                        ..v
                    },
                    effects: seq![
                        Effect::DropSession { account_id: a.config.id },
                        Effect::Connect { account_id, generation: next_generation(a.generation) },
                    ],
                }
            } else {
                unchanged(v)
            }
        },
    }
}

impl AppModel {
    /// Applies the outcome of a connection attempt.
    pub fn on_account_connected(
        &mut self,
        account_id: String,
        generation: u64,
        result: Result<(), String>,
    ) -> (effects: Vec<Effect>)
        ensures
            final(self)@ == connected_step(old(self)@, account_id, generation, result).model,
            effects@ == connected_step(old(self)@, account_id, generation, result).effects,
    {
        let idx = match self.account_index(account_id.as_str()) {
            Some(i) => i,
            None => {
                return Vec::new();
            },
        };
        if self.accounts[idx].generation != generation {
            return Vec::new();
        }
        let count = self.accounts[idx].folders.len();
        let mut effects: Vec<Effect> = Vec::new();
        match result {
            Ok(_) => {
                self.accounts[idx].session = Some(generation);
                self.accounts[idx].conn_state = ConnectionState::Connected;
                self.accounts[idx].watching = true;
                self.accounts[idx].folders_synced = false;
                self.status = if count == 0 {
                    Status::ConnectedLoadingFolders
                } else {
                    Status::FoldersSyncing(count)
                };
                effects.push(Effect::FetchFolders { account_id, generation });
            },
            Err(e) => {
                self.accounts[idx].session = None;
                self.accounts[idx].conn_state = ConnectionState::Error(e.clone());
                self.accounts[idx].watching = false;
                self.status = if count == 0 {
                    Status::ReauthRequired(e)
                } else {
                    Status::FoldersOffline(count, e)
                };
            },
        }
        assert(self@.accounts =~= connected_step(
            old(self)@,
            account_id,
            generation,
            result,
        ).model.accounts);
        effects
    }
}

impl AppModel {
    /// Makes a folder the one on display and empties what belonged to the old one.
    pub fn select(&mut self, account: usize, folder: usize)
        ensures
            final(self)@ == select(old(self)@, account, folder),
    {
        self.active_account = Some(account);
        self.selected_folder = Some(folder);
        self.messages = Vec::new();
        self.selected_message = None;
        self.messages_offset = 0;
        self.has_more_messages = false;
        self.preview = Preview::Empty;
        self.pending_body = None;
        self.body_defer_retries = 0;
    }

    /// Adds the cache read of a mailbox's first page to `effects`.
    pub(crate) fn push_first_page_read(&self, account: usize, mailbox: u64, effects: &mut Vec<Effect>)
        requires
            account < self.accounts@.len(),
        ensures
            final(effects)@ == old(effects)@ + first_page_read(self@, account, mailbox),
    {
        if self.cache_available {
            effects.push(
                Effect::LoadCachedMessages {
                    account_id: self.accounts[account].config.id.clone(),
                    mailbox_hash: mailbox,
                    limit: DEFAULT_PAGE_SIZE,
                    offset: 0,
                },
            );
        }
    }

    /// Adds the fetch of a mailbox from the server to `effects`.
    pub(crate) fn push_network_read(
        &self,
        account: usize,
        generation: u64,
        mailbox: u64,
        effects: &mut Vec<Effect>,
    )
        requires
            account < self.accounts@.len(),
        ensures
            final(effects)@ == old(effects)@ + network_read(self@, account, generation, mailbox),
    {
        let account_id = self.accounts[account].config.id.clone();
        if self.cache_available {
            effects.push(Effect::SyncMessages { account_id, generation, mailbox_hash: mailbox });
        } else {
            effects.push(Effect::FetchMessages { account_id, generation, mailbox_hash: mailbox });
        }
    }

    /// Applies an account's folders as read from the cache.
    pub fn on_cached_folders(&mut self, account_id: String, result: Result<Vec<Folder>, String>) -> (effects:
        Vec<Effect>)
        ensures
            final(self)@ == cached_folders_step(old(self)@, account_id, result).model,
            effects@ == cached_folders_step(old(self)@, account_id, result).effects,
    {
        let mut effects: Vec<Effect> = Vec::new();
        let folders = match result {
            Ok(folders) => folders,
            Err(_) => {
                return effects;
            },
        };
        let idx = match self.account_index(account_id.as_str()) {
            Some(i) => i,
            None => {
                return effects;
            },
        };
        if folders.len() == 0 || self.accounts[idx].folders_synced {
            return effects;
        }
        let inbox = folder_index(&folders, "INBOX");
        self.status = Status::FoldersCached(folders.len());
        self.accounts[idx].folders = folders;
        self.accounts[idx].rebuild_folder_map();
        let ghost v1 = self@;
        assert(v1.accounts =~= old(self)@.accounts.update(
            idx as int,
            AccountView {
                folders: folders@,
                folder_map: folder_map_of(folders@),
                ..old(self)@.accounts[idx as int]
            },
        ));
        match (self.selected_folder, inbox) {
            (None, Some(f)) => {
                let mailbox = self.accounts[idx].folders[f].mailbox_hash;
                self.push_first_page_read(idx, mailbox, &mut effects);
                self.select(idx, f);
            },
            _ => {},
        }
        effects
    }

    /// Applies an account's folders as fetched from the server.
    pub fn on_folders_synced(
        &mut self,
        account_id: String,
        generation: u64,
        result: Result<Vec<Folder>, String>,
    ) -> (effects: Vec<Effect>)
        ensures
            final(self)@ == folders_synced_step(old(self)@, account_id, generation, result).model,
            effects@ == folders_synced_step(old(self)@, account_id, generation, result).effects,
    {
        let mut effects: Vec<Effect> = Vec::new();
        let idx = match self.account_index(account_id.as_str()) {
            Some(i) => i,
            None => {
                return effects;
            },
        };
        match self.accounts[idx].session {
            Some(g) => {
                if g != generation {
                    return effects;
                }
            },
            None => {
                return effects;
            },
        }
        let count = self.accounts[idx].folders.len();
        match result {
            Err(e) => {
                self.accounts[idx].conn_state = ConnectionState::Connected;
                self.status = if count == 0 {
                    Status::FoldersFailed(e)
                } else {
                    Status::FoldersSyncFailed(count, e)
                };
                assert(self@.accounts =~= folders_synced_step(
                    old(self)@,
                    account_id,
                    generation,
                    result,
                ).model.accounts);
            },
            Ok(folders) => {
                let inbox = folder_index(&folders, "INBOX");
                self.status = Status::Folders(folders.len());
                self.accounts[idx].folders = folders;
                self.accounts[idx].rebuild_folder_map();
                self.accounts[idx].folders_synced = true;
                self.accounts[idx].conn_state = ConnectionState::Connected;
                assert(self@.accounts =~= old(self)@.accounts.update(
                    idx as int,
                    AccountView {
                        folders: folders@,
                        folder_map: folder_map_of(folders@),
                        folders_synced: true,
                        conn_state: ConnectionState::Connected,
                        ..old(self)@.accounts[idx as int]
                    },
                ));
                match (self.selected_folder, inbox) {
                    (None, Some(f)) => {
                        self.select(idx, f);
                    },
                    _ => {},
                }
                match self.current_mailbox() {
                    Some(mailbox) => {
                        if self.active_account == Some(idx) {
                            self.push_network_read(idx, generation, mailbox, &mut effects);
                        }
                    },
                    None => {},
                }
            },
        }
        effects
    }

    /// Applies the choice of a folder.
    pub fn on_select_folder(&mut self, account: usize, folder: usize) -> (effects: Vec<Effect>)
        ensures
            final(self)@ == select_folder_step(old(self)@, account, folder).model,
            effects@ == select_folder_step(old(self)@, account, folder).effects,
    {
        let mut effects: Vec<Effect> = Vec::new();
        if account >= self.accounts.len() || folder >= self.accounts[account].folders.len() {
            self.status = Status::UnknownMailbox;
            return effects;
        }
        let mailbox = self.accounts[account].folders[folder].mailbox_hash;
        self.push_first_page_read(account, mailbox, &mut effects);
        match self.accounts[account].session {
            Some(g) => {
                self.push_network_read(account, g, mailbox, &mut effects);
                self.select(account, folder);
                self.status = Status::LoadingFolder(self.accounts[account].folders[folder].name.clone());
                self.accounts[account].conn_state = ConnectionState::Syncing;
                assert(self@.accounts =~= select_folder_step(
                    old(self)@,
                    account,
                    folder,
                ).model.accounts);
            },
            None => {
                self.select(account, folder);
            },
        }
        effects
    }

    /// Whether a page from the cache answers the read that is waited for.
    pub fn page_is_current(&self, account_id: &str, mailbox: u64, offset: u32) -> (r: bool)
        ensures
            r == page_is_current(self@, account_id@, mailbox, offset),
    {
        match self.active_account_index() {
            Some(a) => {
                crate::text::text_is(&self.accounts[a].config.id, account_id)
                    && self.current_mailbox() == Some(mailbox) && self.messages_offset == offset
            },
            None => false,
        }
    }

    /// Applies one page of messages as read from the cache.
    pub fn on_cached_messages(
        &mut self,
        account_id: String,
        mailbox_hash: u64,
        offset: u32,
        result: Result<Vec<MessageSummary>, String>,
    ) -> (effects: Vec<Effect>)
        ensures
            final(self)@ == cached_messages_step(
                old(self)@,
                account_id,
                mailbox_hash,
                offset,
                result,
            ).model,
            effects@ == cached_messages_step(
                old(self)@,
                account_id,
                mailbox_hash,
                offset,
                result,
            ).effects,
    {
        let effects: Vec<Effect> = Vec::new();
        let mut page = match result {
            Ok(page) => page,
            Err(_) => {
                return effects;
            },
        };
        if !self.page_is_current(account_id.as_str(), mailbox_hash, offset) {
            return effects;
        }
        self.has_more_messages = page.len() == DEFAULT_PAGE_SIZE as usize;
        if offset == 0 {
            self.messages = page;
        } else {
            self.messages.append(&mut page);
        }
        if self.messages.len() > 0 {
            self.status = Status::Messages(self.messages.len());
        }
        effects
    }

    /// Applies the end of a fetch-and-store of a mailbox.
    pub fn on_messages_synced(
        &mut self,
        account_id: String,
        generation: u64,
        mailbox_hash: u64,
        result: Result<(), String>,
    ) -> (effects: Vec<Effect>)
        ensures
            final(self)@ == messages_synced_step(
                old(self)@,
                account_id,
                generation,
                mailbox_hash,
                result,
            ).model,
            effects@ == messages_synced_step(
                old(self)@,
                account_id,
                generation,
                mailbox_hash,
                result,
            ).effects,
    {
        let mut effects: Vec<Effect> = Vec::new();
        let idx = match self.account_index(account_id.as_str()) {
            Some(i) => i,
            None => {
                return effects;
            },
        };
        match self.accounts[idx].session {
            Some(g) => {
                if g != generation {
                    return effects;
                }
            },
            None => {
                return effects;
            },
        }
        let current = self.active_account_index() == Some(idx) && self.current_mailbox() == Some(
            mailbox_hash,
        );
        match result {
            Err(e) => {
                self.status = Status::SyncFailed(e);
            },
            Ok(_) => {
                if current {
                    if self.cache_available {
                        self.push_first_page_read(idx, mailbox_hash, &mut effects);
                        self.messages_offset = 0;
                    } else {
                        self.status = Status::MessagesSynced(self.messages.len());
                    }
                }
            },
        }
        self.accounts[idx].conn_state = ConnectionState::Connected;
        assert(self@.accounts =~= old(self)@.accounts.update(
            idx as int,
            AccountView { conn_state: ConnectionState::Connected, ..old(self)@.accounts[idx as int] },
        ));
        effects
    }

    /// Applies a mailbox as fetched from the server when there is no cache.
    pub fn on_messages_loaded(
        &mut self,
        account_id: String,
        generation: u64,
        mailbox_hash: u64,
        result: Result<Vec<MessageSummary>, String>,
    ) -> (effects: Vec<Effect>)
        ensures
            final(self)@ == messages_loaded_step(
                old(self)@,
                account_id,
                generation,
                mailbox_hash,
                result,
            ).model,
            effects@ == messages_loaded_step(
                old(self)@,
                account_id,
                generation,
                mailbox_hash,
                result,
            ).effects,
    {
        let effects: Vec<Effect> = Vec::new();
        let idx = match self.account_index(account_id.as_str()) {
            Some(i) => i,
            None => {
                return effects;
            },
        };
        match self.accounts[idx].session {
            Some(g) => {
                if g != generation {
                    return effects;
                }
            },
            None => {
                return effects;
            },
        }
        let current = self.active_account_index() == Some(idx) && self.current_mailbox() == Some(
            mailbox_hash,
        );
        match result {
            Err(e) => {
                self.status = Status::MessagesFailed(e);
            },
            Ok(list) => {
                if current {
                    self.status = Status::Messages(list.len());
                    self.messages = list;
                    self.messages_offset = 0;
                    self.has_more_messages = false;
                }
            },
        }
        self.accounts[idx].conn_state = ConnectionState::Connected;
        assert(self@.accounts =~= old(self)@.accounts.update(
            idx as int,
            AccountView { conn_state: ConnectionState::Connected, ..old(self)@.accounts[idx as int] },
        ));
        effects
    }

    /// Applies the request for the next page.
    pub fn on_load_more(&mut self) -> (effects: Vec<Effect>)
        ensures
            final(self)@ == load_more_step(old(self)@).model,
            effects@ == load_more_step(old(self)@).effects,
    {
        let mut effects: Vec<Effect> = Vec::new();
        match (self.active_account_index(), self.current_mailbox()) {
            (Some(a), Some(mailbox)) => {
                if self.has_more_messages && self.cache_available && self.messages_offset
                    <= u32::MAX - DEFAULT_PAGE_SIZE {
                    let offset: u32 = self.messages_offset + DEFAULT_PAGE_SIZE;
                    self.messages_offset = offset;
                    effects.push(
                        Effect::LoadCachedMessages {
                            account_id: self.accounts[a].config.id.clone(),
                            mailbox_hash: mailbox,
                            limit: DEFAULT_PAGE_SIZE,
                            offset,
                        },
                    );
                }
            },
            _ => {},
        }
        effects
    }

    /// Applies the request to connect an account anew.
    pub fn on_force_reconnect(&mut self, account_id: String) -> (effects: Vec<Effect>)
        ensures
            final(self)@ == force_reconnect_step(old(self)@, account_id).model,
            effects@ == force_reconnect_step(old(self)@, account_id).effects,
    {
        let mut effects: Vec<Effect> = Vec::new();
        let idx = match self.account_index(account_id.as_str()) {
            Some(i) => i,
            None => {
                return effects;
            },
        };
        let valid = match self.accounts[idx].conn_state {
            ConnectionState::Connected => true,
            ConnectionState::Error(_) => true,
            _ => false,
        };
        if !valid {
            return effects;
        }
        let generation = bump(self.accounts[idx].generation);
        self.status = Status::Connecting(self.accounts[idx].config.label.clone());
        effects.push(Effect::DropSession { account_id: self.accounts[idx].config.id.clone() });
        effects.push(Effect::Connect { account_id, generation });
        self.accounts[idx].session = None;
        self.accounts[idx].generation = generation;
        self.accounts[idx].conn_state = ConnectionState::Connecting;
        self.accounts[idx].watching = false;
        assert(self@.accounts =~= force_reconnect_step(old(self)@, account_id).model.accounts);
        effects
    }
}

/// The number of the next connection attempt.
pub fn bump(generation: u64) -> (r: u64)
    ensures
        r == next_generation(generation),
{
    if generation == u64::MAX {
        0
    } else {
        generation + 1
    }
}

} // verus!
