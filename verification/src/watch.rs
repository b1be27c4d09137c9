//! Folding the server's push events into the model.

use vstd::prelude::*;
use crate::actions::{clamp_row, clamp_selection, with_flags};
use crate::flags::{byte_is_read, byte_is_starred, flags_from_u8};
use crate::registry::{active_index, envelope_index, find_account, find_envelope, is_current, selected_mailbox};
use crate::sync::{network_read, unchanged};
use crate::threads::{compute_visible, visible_rows};
use crate::types::{
    AccountView, AppModel, ConnectionState, Effect, ImapWatchEvent, ModelView,
    Preview, Status, Step,
};

verus! {

/// The model without the message at index `idx`: the selection stays within
/// the rows that remain, and with no row left the preview is emptied.
pub open spec fn list_without(v: ModelView, idx: usize) -> ModelView {
    let messages = v.messages.remove(idx as int);
    let rows = visible_rows(messages, v.collapsed_threads).len();
    ModelView {
        messages,
        selected_message: clamp_row(v.selected_message, rows),
        preview: if rows == 0 {
            Preview::Empty
        } else {
            v.preview
        },
        ..v
    }
}

/// A new fetch of a mailbox of the account at `index`, if the account has a session.
pub open spec fn resync(v: ModelView, index: usize, mailbox: u64) -> Step {
    match v.accounts[index as int].session {
        Some(g) => Step {
            model: ModelView {
                accounts: v.accounts.update(
                    index as int,
                    AccountView { conn_state: ConnectionState::Syncing, ..v.accounts[index as int] },
                ),
                ..v
            },
            effects: network_read(v, index, g, mailbox),
        },
        None => unchanged(v),
    }
}

/// One event of an account's push stream.
///
/// An event of an unknown account is dropped. An event that names an envelope
/// with a pending change is suppressed whole: the pending change's outcome
/// decides. Otherwise a removal or a flag change is stored in the cache, and
/// reaches the list only if it is for the folder on display. New mail for the
/// folder on display and a rescan fetch that folder again. An error or the
/// end of the stream stops the watch and leaves the connection state alone.
pub open spec fn watch_step(v: ModelView, account_id: String, event: ImapWatchEvent) -> Step {
    match find_account(v.accounts, account_id@, 0) {
        None => unchanged(v),
        Some(i) => {
            let account = v.accounts[i as int];
            match event {
                ImapWatchEvent::NewMessage { mailbox_hash, subject, from } => {
                    let told = ModelView { status: Status::NewMail { from, subject }, ..v };
                    if is_current(v, i, mailbox_hash) {
                        resync(told, i, mailbox_hash)
                    } else {
                        unchanged(told)
                    }
                },
                ImapWatchEvent::MessageRemoved { mailbox_hash, envelope_hash } => {
                    if v.pending.contains_key(envelope_hash) {
                        unchanged(v)
                    } else {
                        Step {
                            model: match find_envelope(v.messages, envelope_hash, 0) {
                                Some(idx) => if is_current(v, i, mailbox_hash) {
                                    list_without(v, idx)
                                } else {
                                    v
                                },
                                None => v,
                            },
                            effects: if v.cache_available {
                                seq![
                                    Effect::RemoveCachedMessage {
                                        account_id: account.config.id,
                                        envelope_hash,
                                    },
                                ]
                            } else {
                                Seq::empty()
                            },
                        }
                    }
                },
                ImapWatchEvent::FlagsChanged { mailbox_hash, envelope_hash, flags } => {
                    if v.pending.contains_key(envelope_hash) {
                        unchanged(v)
                    } else {
                        Step {
                            model: match find_envelope(v.messages, envelope_hash, 0) {
                                Some(idx) => if is_current(v, i, mailbox_hash) {
                                    ModelView {
                                        messages: v.messages.update(
                                            idx as int,
                                            with_flags(
                                                v.messages[idx as int],
                                                byte_is_read(flags),
                                                byte_is_starred(flags),
                                            ),
                                        ),
                                        ..v
                                    }
                                } else {
                                    v
                                },
                                None => v,
                            },
                            effects: if v.cache_available {
                                seq![
                                    Effect::ClearPending {
                                        account_id: account.config.id,
                                        envelope_hash,
                                        flags,
                                    },
                                ]
                            } else {
                                Seq::empty()
                            },
                        }
                    }
                },
                ImapWatchEvent::Rescan => match selected_mailbox(v) {
                    Some(mailbox) => if active_index(v) == Some(i) {
                        resync(v, i, mailbox)
                    } else {
                        unchanged(v)
                    },
                    None => unchanged(v),
                },
                ImapWatchEvent::WatchError(e) => Step {
                    model: ModelView {
                        accounts: v.accounts.update(i as int, AccountView { watching: false, ..account }),
                        status: Status::WatchStopped(e),
                        ..v
                    },
                    effects: Seq::empty(),
                },
                ImapWatchEvent::WatchEnded => Step {
                    model: ModelView {
                        accounts: v.accounts.update(i as int, AccountView { watching: false, ..account }),
                        ..v
                    },
                    effects: Seq::empty(),
                },
            }
        },
    }
}

impl AppModel {
    /// Takes the message at index `idx` out of the list.
    pub(crate) fn remove_from_list(&mut self, idx: usize)
        requires
            idx < old(self).messages@.len(),
        ensures
            final(self)@ == list_without(old(self)@, idx),
    {
        self.messages.remove(idx);
        let rows = compute_visible(&self.messages, &self.collapsed_threads).len();
        self.selected_message = clamp_selection(self.selected_message, rows);
        if rows == 0 {
            self.preview = Preview::Empty;
        }
    }

    /// Starts a new fetch of a mailbox of the account at `index`.
    pub(crate) fn resync(&mut self, index: usize, mailbox: u64) -> (effects: Vec<Effect>)
        requires
            index < old(self).accounts@.len(),
        ensures
            final(self)@ == resync(old(self)@, index, mailbox).model,
            effects@ == resync(old(self)@, index, mailbox).effects,
    {
        let mut effects: Vec<Effect> = Vec::new();
        match self.accounts[index].session {
            Some(g) => {
                self.push_network_read(index, g, mailbox, &mut effects);
                self.accounts[index].conn_state = ConnectionState::Syncing;
                assert(self@.accounts =~= resync(old(self)@, index, mailbox).model.accounts);
            },
            None => {},
        }
        effects
    }

    /// Whether the account at `index` is active and shows the mailbox.
    pub fn is_current(&self, index: usize, mailbox: u64) -> (r: bool)
        ensures
            r == is_current(self@, index, mailbox),
    {
        self.active_account_index() == Some(index) && self.current_mailbox() == Some(mailbox)
    }

    /// Applies one event of an account's push stream.
    pub fn on_watch_event(&mut self, account_id: String, event: ImapWatchEvent) -> (effects: Vec<Effect>)
        ensures
            final(self)@ == watch_step(old(self)@, account_id, event).model,
            effects@ == watch_step(old(self)@, account_id, event).effects,
    {
        let mut effects: Vec<Effect> = Vec::new();
        let i = match self.account_index(account_id.as_str()) {
            Some(i) => i,
            None => {
                return effects;
            },
        };
        match event {
            ImapWatchEvent::NewMessage { mailbox_hash, subject, from } => {
                let current = self.is_current(i, mailbox_hash);
                self.status = Status::NewMail { from, subject };
                if current {
                    effects = self.resync(i, mailbox_hash);
                }
            },
            ImapWatchEvent::MessageRemoved { mailbox_hash, envelope_hash } => {
                if self.pending.contains_key(&envelope_hash) {
                    return effects;
                }
                if self.cache_available {
                    effects.push(
                        Effect::RemoveCachedMessage {
                            account_id: self.accounts[i].config.id.clone(),
                            envelope_hash,
                        },
                    );
                }
                match envelope_index(&self.messages, envelope_hash) {
                    Some(idx) => {
                        if self.is_current(i, mailbox_hash) {
                            self.remove_from_list(idx);
                        }
                    },
                    None => {},
                }
            },
            ImapWatchEvent::FlagsChanged { mailbox_hash, envelope_hash, flags } => {
                if self.pending.contains_key(&envelope_hash) {
                    return effects;
                }
                if self.cache_available {
                    effects.push(
                        Effect::ClearPending {
                            account_id: self.accounts[i].config.id.clone(),
                            envelope_hash,
                            flags,
                        },
                    );
                }
                match envelope_index(&self.messages, envelope_hash) {
                    Some(idx) => {
                        if self.is_current(i, mailbox_hash) {
                            let (is_read, is_starred) = flags_from_u8(flags);
                            self.messages[idx].is_read = is_read;
                            self.messages[idx].is_starred = is_starred;
                            assert(self@.messages =~= watch_step(
                                old(self)@,
                                account_id,
                                event,
                            ).model.messages);
                        }
                    },
                    None => {},
                }
            },
            ImapWatchEvent::Rescan => {
                match self.current_mailbox() {
                    Some(mailbox) => {
                        if self.active_account_index() == Some(i) {
                            effects = self.resync(i, mailbox);
                        }
                    },
                    None => {},
                }
            },
            ImapWatchEvent::WatchError(e) => {
                self.accounts[i].watching = false;
                self.status = Status::WatchStopped(e);
                assert(self@.accounts =~= watch_step(old(self)@, account_id, event).model.accounts);
            },
            ImapWatchEvent::WatchEnded => {
                self.accounts[i].watching = false;
                assert(self@.accounts =~= watch_step(old(self)@, account_id, event).model.accounts);
            },
        }
        effects
    }
}

} // verus!
