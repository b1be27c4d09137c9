//! The account registry: lookups by account id, by mailbox and by envelope.

use vstd::prelude::*;
use crate::models::{Folder, MessageSummary};
use crate::text::text_is;
use crate::types::{AccountView, AppModel, ModelView};

verus! {

/// The first account at or after `from` that has the id.
pub open spec fn find_account(accounts: Seq<AccountView>, id: Seq<char>, from: int) -> Option<usize>
    decreases accounts.len() - from,
{
    if from < 0 || from >= accounts.len() {
        None
    } else if accounts[from].config.id@ == id {
        Some(from as usize)
    } else {
        find_account(accounts, id, from + 1)
    }
}

/// The first folder at or after `from` that has the path.
pub open spec fn find_folder(folders: Seq<Folder>, path: Seq<char>, from: int) -> Option<usize>
    decreases folders.len() - from,
{
    if from < 0 || from >= folders.len() {
        None
    } else if folders[from].path@ == path {
        Some(from as usize)
    } else {
        find_folder(folders, path, from + 1)
    }
}

/// Whether one of the folders at or after `from` is the mailbox.
pub open spec fn has_mailbox(folders: Seq<Folder>, mailbox: u64, from: int) -> bool
    decreases folders.len() - from,
{
    if from < 0 || from >= folders.len() {
        false
    } else if folders[from].mailbox_hash == mailbox {
        true
    } else {
        has_mailbox(folders, mailbox, from + 1)
    }
}

/// The first account at or after `from` that owns the mailbox.
pub open spec fn owner_of_mailbox(accounts: Seq<AccountView>, mailbox: u64, from: int) -> Option<
    usize,
>
    decreases accounts.len() - from,
{
    if from < 0 || from >= accounts.len() {
        None
    } else if has_mailbox(accounts[from].folders, mailbox, 0) {
        Some(from as usize)
    } else {
        owner_of_mailbox(accounts, mailbox, from + 1)
    }
}

/// The first message at or after `from` that has the envelope identity.
pub open spec fn find_envelope(messages: Seq<MessageSummary>, envelope: u64, from: int) -> Option<
    usize,
>
    decreases messages.len() - from,
{
    if from < 0 || from >= messages.len() {
        None
    } else if messages[from].envelope_hash == envelope {
        Some(from as usize)
    } else {
        find_envelope(messages, envelope, from + 1)
    }
}

/// The account that is active, if the index names one.
pub open spec fn active_index(v: ModelView) -> Option<usize> {
    match v.active_account {
        Some(a) => if a < v.accounts.len() {
            Some(a)
        } else {
            None
        },
        None => None,
    }
}

/// The mailbox of the selected folder of the active account.
pub open spec fn selected_mailbox(v: ModelView) -> Option<u64> {
    match (active_index(v), v.selected_folder) {
        (Some(a), Some(f)) => if f < v.accounts[a as int].folders.len() {
            Some(v.accounts[a as int].folders[f as int].mailbox_hash)
        } else {
            None
        },
        _ => None,
    }
}

/// Whether the account at `index` is active and shows the mailbox.
pub open spec fn is_current(v: ModelView, index: usize, mailbox: u64) -> bool {
    active_index(v) == Some(index) && selected_mailbox(v) == Some(mailbox)
}

/// A found account lies in the list, has the id, and no earlier one at or after `from` has it.
pub proof fn lemma_find_account(accounts: Seq<AccountView>, id: Seq<char>, from: int)
    requires
        0 <= from,
        accounts.len() <= usize::MAX,
    ensures
        match find_account(accounts, id, from) {
            Some(i) => from <= i < accounts.len() && accounts[i as int].config.id@ == id
                && forall|j: int| from <= j < i ==> (#[trigger] accounts[j]).config.id@ != id,
            None => forall|j: int| from <= j < accounts.len() ==> (#[trigger] accounts[j]).config.id@ != id,
        },
    decreases accounts.len() - from,
{
    if from < accounts.len() && accounts[from].config.id@ != id {
        lemma_find_account(accounts, id, from + 1);
    }
}

/// A found envelope lies in the list and has the identity asked for.
pub proof fn lemma_find_envelope(messages: Seq<MessageSummary>, envelope: u64, from: int)
    requires
        0 <= from,
        messages.len() <= usize::MAX,
    ensures
        match find_envelope(messages, envelope, from) {
            Some(i) => from <= i < messages.len() && messages[i as int].envelope_hash == envelope
                && forall|j: int| from <= j < i ==> (#[trigger] messages[j]).envelope_hash != envelope,
            None => forall|j: int|
                from <= j < messages.len() ==> (#[trigger] messages[j]).envelope_hash != envelope,
        },
    decreases messages.len() - from,
{
    if from < messages.len() && messages[from].envelope_hash != envelope {
        lemma_find_envelope(messages, envelope, from + 1);
    }
}

/// The owner of a mailbox lies in the account list.
pub proof fn lemma_owner_in_range(accounts: Seq<AccountView>, mailbox: u64, from: int)
    requires
        0 <= from,
        accounts.len() <= usize::MAX,
    ensures
        match owner_of_mailbox(accounts, mailbox, from) {
            Some(i) => from <= i < accounts.len() && has_mailbox(accounts[i as int].folders, mailbox, 0),
            None => true,
        },
    decreases accounts.len() - from,
{
    if from < accounts.len() && !has_mailbox(accounts[from].folders, mailbox, 0) {
        lemma_owner_in_range(accounts, mailbox, from + 1);
    }
}

/// A found folder lies in the list and has the path.
pub proof fn lemma_find_folder(folders: Seq<Folder>, path: Seq<char>, from: int)
    requires
        0 <= from,
        folders.len() <= usize::MAX,
    ensures
        match find_folder(folders, path, from) {
            Some(i) => from <= i < folders.len() && folders[i as int].path@ == path,
            None => true,
        },
    decreases folders.len() - from,
{
    if from < folders.len() && folders[from].path@ != path {
        lemma_find_folder(folders, path, from + 1);
    }
}

/// Index of the first folder with the given path.
pub fn folder_index(folders: &Vec<Folder>, path: &str) -> (r: Option<usize>)
    ensures
        r == find_folder(folders@, path@, 0),
        r matches Some(i) ==> i < folders@.len(),
{
    let mut i: usize = 0;
    while i < folders.len()
        invariant
            i <= folders@.len(),
            find_folder(folders@, path@, 0) == find_folder(folders@, path@, i as int),
        decreases folders@.len() - i,
    {
        if text_is(&folders[i].path, path) {
            return Some(i);
        }
        i += 1;
    }
    None
}

/// Whether a folder list holds the mailbox.
pub fn folders_have_mailbox(folders: &Vec<Folder>, mailbox: u64) -> (r: bool)
    ensures
        r == has_mailbox(folders@, mailbox, 0),
{
    let mut i: usize = 0;
    while i < folders.len()
        invariant
            i <= folders@.len(),
            has_mailbox(folders@, mailbox, 0) == has_mailbox(folders@, mailbox, i as int),
        decreases folders@.len() - i,
    {
        if folders[i].mailbox_hash == mailbox {
            return true;
        }
        i += 1;
    }
    false
}

/// Index of the first message with the given envelope identity.
pub fn envelope_index(messages: &Vec<MessageSummary>, envelope: u64) -> (r: Option<usize>)
    ensures
        r == find_envelope(messages@, envelope, 0),
        r matches Some(i) ==> i < messages@.len() && messages@[i as int].envelope_hash == envelope,
{
    let mut i: usize = 0;
    while i < messages.len()
        invariant
            i <= messages@.len(),
            find_envelope(messages@, envelope, 0) == find_envelope(messages@, envelope, i as int),
        decreases messages@.len() - i,
    {
        if messages[i].envelope_hash == envelope {
            return Some(i);
        }
        i += 1;
    }
    None
}

impl AppModel {
    /// Index of the account with the given id.
    pub fn account_index(&self, account_id: &str) -> (r: Option<usize>)
        ensures
            r == find_account(self@.accounts, account_id@, 0),
            r matches Some(i) ==> i < self.accounts@.len() && self.accounts@[i as int].config.id@
                == account_id@,
    {
        let mut i: usize = 0;
        while i < self.accounts.len()
            invariant
                i <= self.accounts@.len(),
                find_account(self@.accounts, account_id@, 0) == find_account(
                    self@.accounts,
                    account_id@,
                    i as int,
                ),
            decreases self.accounts@.len() - i,
        {
            if text_is(&self.accounts[i].config.id, account_id) {
                return Some(i);
            }
            i += 1;
        }
        None
    }

    /// Index of the account that owns the mailbox.
    pub fn account_for_mailbox(&self, mailbox_hash: u64) -> (r: Option<usize>)
        ensures
            r == owner_of_mailbox(self@.accounts, mailbox_hash, 0),
            r matches Some(i) ==> i < self.accounts@.len(),
    {
        let mut i: usize = 0;
        while i < self.accounts.len()
            invariant
                i <= self.accounts@.len(),
                owner_of_mailbox(self@.accounts, mailbox_hash, 0) == owner_of_mailbox(
                    self@.accounts,
                    mailbox_hash,
                    i as int,
                ),
            decreases self.accounts@.len() - i,
        {
            if folders_have_mailbox(&self.accounts[i].folders, mailbox_hash) {
                return Some(i);
            }
            i += 1;
        }
        None
    }

    /// The session generation of the account that owns the mailbox, if that
    /// account has a live session.
    pub fn session_for_mailbox(&self, mailbox_hash: u64) -> (r: Option<u64>)
        ensures
            r == match owner_of_mailbox(self@.accounts, mailbox_hash, 0) {
                Some(i) => self@.accounts[i as int].session,
                None => None,
            },
    {
        match self.account_for_mailbox(mailbox_hash) {
            Some(i) => self.accounts[i].session,
            None => None,
        }
    }

    /// The path map of the account that owns the mailbox.
    pub fn folder_map_for_mailbox(&self, mailbox_hash: u64) -> (r: Option<&crate::folder_map::FolderMap>)
        ensures
            match owner_of_mailbox(self@.accounts, mailbox_hash, 0) {
                Some(i) => r is Some && r->0@ == self@.accounts[i as int].folder_map,
                None => r is None,
            },
    {
        match self.account_for_mailbox(mailbox_hash) {
            Some(i) => Some(&self.accounts[i].folder_map),
            None => None,
        }
    }

    /// The index of the active account, if it names an account.
    pub fn active_account_index(&self) -> (r: Option<usize>)
        ensures
            r == active_index(self@),
            r matches Some(a) ==> a < self.accounts@.len(),
    {
        match self.active_account {
            Some(a) => if a < self.accounts.len() {
                Some(a)
            } else {
                None
            },
            None => None,
        }
    }

    /// The active account's id, or the empty string.
    pub fn active_account_id(&self) -> (r: String)
        ensures
            r@ == match active_index(self@) {
                Some(a) => self@.accounts[a as int].config.id@,
                None => Seq::<char>::empty(),
            },
    {
        match self.active_account_index() {
            Some(a) => self.accounts[a].config.id.clone(),
            None => String::new(),
        }
    }

    /// The session generation of the active account, if it has a live session.
    pub fn active_session(&self) -> (r: Option<u64>)
        ensures
            r == match active_index(self@) {
                Some(a) => self@.accounts[a as int].session,
                None => None,
            },
    {
        match self.active_account_index() {
            Some(a) => self.accounts[a].session,
            None => None,
        }
    }

    /// The mailbox of the selected folder of the active account.
    pub fn current_mailbox(&self) -> (r: Option<u64>)
        ensures
            r == selected_mailbox(self@),
    {
        match (self.active_account_index(), self.selected_folder) {
            (Some(a), Some(f)) => if f < self.accounts[a].folders.len() {
                Some(self.accounts[a].folders[f].mailbox_hash)
            } else {
                None
            },
            _ => None,
        }
    }

    /// Whether the active account is connecting or syncing.
    pub fn is_busy(&self) -> (r: bool)
        ensures
            r == match active_index(self@) {
                Some(a) => self@.accounts[a as int].conn_state is Connecting
                    || self@.accounts[a as int].conn_state is Syncing,
                None => false,
            },
    {
        match self.active_account_index() {
            Some(a) => match self.accounts[a].conn_state {
                crate::types::ConnectionState::Connecting => true,
                crate::types::ConnectionState::Syncing => true,
                _ => false,
            },
            None => false,
        }
    }
}

} // verus!
