//! Loading a message body: from the cache first, from the server on a miss,
//! and with a bounded wait while no session exists.

use vstd::prelude::*;
use crate::actions::refused;
use crate::registry::owner_of_mailbox;
use crate::sync::unchanged;
use crate::threads::row_target;
use crate::types::{
    AppModel, Effect, MessageBody, ModelView, Preview, Status, Step, MAX_BODY_RETRIES,
};

verus! {

/// The message that the selected row shows and the account that owns it, both
/// as indices.
pub open spec fn selected_target(v: ModelView) -> Option<(usize, usize)> {
    match v.selected_message {
        Some(row) => match row_target(v.messages, v.collapsed_threads, row) {
            Some(idx) => match owner_of_mailbox(v.accounts, v.messages[idx as int].mailbox_hash, 0) {
                Some(a) => Some((idx, a)),
                None => None,
            },
            None => None,
        },
        None => None,
    }
}

/// Whether an answer about an envelope is about the selected message. An
/// answer about any other message is stale.
pub open spec fn answers_selection(v: ModelView, envelope_hash: u64) -> bool {
    match selected_target(v) {
        Some((idx, _)) => v.messages[idx as int].envelope_hash == envelope_hash,
        None => false,
    }
}

/// A body request that finds no session: it waits, at most
/// `MAX_BODY_RETRIES` times, and then gives up.
pub open spec fn defer(v: ModelView, row: usize) -> Step {
    if v.body_defer_retries < MAX_BODY_RETRIES {
        Step {
            model: ModelView {
                pending_body: Some(row),
                body_defer_retries: (v.body_defer_retries + 1) as u8,
                status: Status::LoadingMessage,
                ..v
            },
            effects: seq![Effect::RetryBodyLater],
        }
    } else {
        Step {
            model: ModelView {
                pending_body: None,
                preview: Preview::Unavailable,
                status: Status::NotConnected,
                ..v
            },
            effects: Seq::empty(),
        }
    }
}

/// The request for the body of the message in a visible row: the cache is
/// asked first; without a cache the server is; without a session the request waits.
pub open spec fn request_body(v: ModelView, row: usize) -> Step {
    match row_target(v.messages, v.collapsed_threads, row) {
        None => unchanged(v),
        Some(idx) => {
            let m = v.messages[idx as int];
            match owner_of_mailbox(v.accounts, m.mailbox_hash, 0) {
                None => refused(v, Status::UnknownMailbox),
                Some(a) => {
                    let account = v.accounts[a as int];
                    if v.cache_available {
                        Step {
                            model: ModelView { status: Status::LoadingMessage, ..v },
                            effects: seq![
                                Effect::LoadCachedBody {
                                    account_id: account.config.id,
                                    envelope_hash: m.envelope_hash,
                                },
                            ],
                        }
                    } else {
                        match account.session {
                            Some(g) => Step {
                                model: ModelView { status: Status::LoadingMessage, ..v },
                                effects: seq![
                                    Effect::FetchBody {
                                        account_id: account.config.id,
                                        generation: g,
                                        envelope_hash: m.envelope_hash,
                                    },
                                ],
                            },
                            None => defer(v, row),
                        }
                    }
                },
            }
        },
    }
}

/// A message is opened: the row is selected, earlier waiting is forgotten, the
/// dwell timer may act again, and the body is asked for.
pub open spec fn view_body_step(v: ModelView, row: usize) -> Step {
    request_body(
        ModelView {
            selected_message: Some(row),
            pending_body: None,
            body_defer_retries: 0,
            auto_read_suppressed: false,
            ..v
        },
        row,
    )
}

/// The wait of a deferred body request is over: the request is made again.
pub open spec fn body_deferred_step(v: ModelView) -> Step {
    match v.pending_body {
        Some(row) => request_body(ModelView { pending_body: None, ..v }, row),
        None => unchanged(v),
    }
}

/// A body is put on display. An unread message with no pending change starts
/// its dwell timer.
pub open spec fn show_body(v: ModelView, idx: usize, body: MessageBody) -> Step {
    let m = v.messages[idx as int];
    Step {
        model: ModelView { preview: Preview::Body(body), status: Status::Ready, ..v },
        effects: if !m.is_read && !v.pending.contains_key(m.envelope_hash) {
            seq![Effect::StartAutoReadTimer { envelope_hash: m.envelope_hash }]
        } else {
            Seq::empty()
        },
    }
}

/// A body could not be had: the preview says why.
pub open spec fn body_failed(v: ModelView, reason: String) -> Step {
    Step {
        model: ModelView {
            preview: Preview::Failed(reason),
            status: Status::ErrorLoadingMessage,
            ..v
        },
        effects: Seq::empty(),
    }
}

/// The cache's answer to a body read.
///
/// An answer about a message that is no longer selected is dropped. A hit is
/// shown. On a miss the body is fetched from the server, or the request
/// waits for a session.
pub open spec fn cached_body_step(v: ModelView, envelope_hash: u64, body: Option<MessageBody>) -> Step {
    match selected_target(v) {
        Some((idx, a)) => if v.messages[idx as int].envelope_hash != envelope_hash {
            unchanged(v)
        } else {
            match body {
                Some(b) => show_body(v, idx, b),
                None => match v.accounts[a as int].session {
                    Some(g) => Step {
                        model: v,
                        effects: seq![
                            Effect::FetchBody {
                                account_id: v.accounts[a as int].config.id,
                                generation: g,
                                envelope_hash,
                            },
                        ],
                    },
                    None => defer(v, v.selected_message->0),
                },
            }
        },
        None => unchanged(v),
    }
}

/// The server's answer to a body fetch.
///
/// An answer about a message that is no longer selected is dropped. With a
/// cache a fetched body is stored first and shown only when the store has
/// answered; without one it is shown at once. A failure is shown as such.
pub open spec fn body_fetched_step(v: ModelView, envelope_hash: u64, result: Result<MessageBody, String>) -> Step {
    match selected_target(v) {
        Some((idx, a)) => if v.messages[idx as int].envelope_hash != envelope_hash {
            unchanged(v)
        } else {
            match result {
                Ok(b) => if v.cache_available {
                    Step {
                        model: v,
                        effects: seq![
                            Effect::SaveBody {
                                account_id: v.accounts[a as int].config.id,
                                envelope_hash,
                                body: b,
                            },
                        ],
                    }
                } else {
                    show_body(v, idx, b)
                },
                Err(e) => body_failed(v, e),
            }
        },
        None => unchanged(v),
    }
}

/// A body is ready for display, after it has been stored.
///
/// An answer about a message that is no longer selected is dropped.
pub open spec fn body_loaded_step(v: ModelView, envelope_hash: u64, result: Result<MessageBody, String>) -> Step {
    match selected_target(v) {
        Some((idx, _)) => if v.messages[idx as int].envelope_hash != envelope_hash {
            unchanged(v)
        } else {
            match result {
                Ok(b) => show_body(v, idx, b),
                Err(e) => body_failed(v, e),
            }
        },
        None => unchanged(v),
    }
}

impl AppModel {
    /// The message that the selected row shows and the account that owns it.
    pub fn selected_target(&self) -> (r: Option<(usize, usize)>)
        ensures
            r == selected_target(self@),
            r matches Some((idx, a)) ==> idx < self.messages@.len() && a < self.accounts@.len(),
    {
        let row = match self.selected_message {
            Some(row) => row,
            None => {
                return None;
            },
        };
        let idx = match self.target_of_row(row) {
            Some(idx) => idx,
            None => {
                return None;
            },
        };
        match self.account_for_mailbox(self.messages[idx].mailbox_hash) {
            Some(a) => Some((idx, a)),
            None => None,
        }
    }

    /// Lets a body request wait for a session, or gives it up.
    pub fn defer(&mut self, row: usize) -> (effects: Vec<Effect>)
        ensures
            final(self)@ == defer(old(self)@, row).model,
            effects@ == defer(old(self)@, row).effects,
    {
        let mut effects: Vec<Effect> = Vec::new();
        if self.body_defer_retries < MAX_BODY_RETRIES {
            self.pending_body = Some(row);
            self.body_defer_retries = self.body_defer_retries + 1;
            self.status = Status::LoadingMessage;
            effects.push(Effect::RetryBodyLater);
        } else {
            self.pending_body = None;
            self.preview = Preview::Unavailable;
            self.status = Status::NotConnected;
        }
        effects
    }

    /// Asks for the body of the message in a visible row.
    pub fn request_body(&mut self, row: usize) -> (effects: Vec<Effect>)
        ensures
            final(self)@ == request_body(old(self)@, row).model,
            effects@ == request_body(old(self)@, row).effects,
    {
        let mut effects: Vec<Effect> = Vec::new();
        let idx = match self.target_of_row(row) {
            Some(idx) => idx,
            None => {
                return effects;
            },
        };
        let envelope_hash = self.messages[idx].envelope_hash;
        let a = match self.account_for_mailbox(self.messages[idx].mailbox_hash) {
            Some(a) => a,
            None => {
                self.status = Status::UnknownMailbox;
                return effects;
            },
        };
        if self.cache_available {
            self.status = Status::LoadingMessage;
            effects.push(
                Effect::LoadCachedBody {
                    account_id: self.accounts[a].config.id.clone(),
                    envelope_hash,
                },
            );
            return effects;
        }
        match self.accounts[a].session {
            Some(g) => {
                self.status = Status::LoadingMessage;
                effects.push(
                    Effect::FetchBody {
                        account_id: self.accounts[a].config.id.clone(),
                        generation: g,
                        envelope_hash,
                    },
                );
                effects
            },
            None => self.defer(row),
        }
    }

    /// Opens the message in a visible row.
    pub fn on_view_body(&mut self, row: usize) -> (effects: Vec<Effect>)
        ensures
            final(self)@ == view_body_step(old(self)@, row).model,
            effects@ == view_body_step(old(self)@, row).effects,
    {
        self.selected_message = Some(row);
        self.pending_body = None;
        self.body_defer_retries = 0;
        self.auto_read_suppressed = false;
        self.request_body(row)
    }

    /// Makes a deferred body request again.
    pub fn on_body_deferred(&mut self) -> (effects: Vec<Effect>)
        ensures
            final(self)@ == body_deferred_step(old(self)@).model,
            effects@ == body_deferred_step(old(self)@).effects,
    {
        match self.pending_body {
            Some(row) => {
                self.pending_body = None;
                self.request_body(row)
            },
            None => Vec::new(),
        }
    }

    /// Puts a body on display.
    pub(crate) fn show_body(&mut self, idx: usize, body: MessageBody) -> (effects: Vec<Effect>)
        requires
            idx < old(self).messages@.len(),
        ensures
            final(self)@ == show_body(old(self)@, idx, body).model,
            effects@ == show_body(old(self)@, idx, body).effects,
    {
        let mut effects: Vec<Effect> = Vec::new();
        let envelope_hash = self.messages[idx].envelope_hash;
        if !self.messages[idx].is_read && !self.pending.contains_key(&envelope_hash) {
            effects.push(Effect::StartAutoReadTimer { envelope_hash });
        }
        self.preview = Preview::Body(body);
        self.status = Status::Ready;
        effects
    }

    /// Shows that a body could not be had.
    pub fn body_failed(&mut self, reason: String)
        ensures
            final(self)@ == body_failed(old(self)@, reason).model,
    {
        self.preview = Preview::Failed(reason);
        self.status = Status::ErrorLoadingMessage;
    }

    /// Applies the cache's answer to a body read.
    pub fn on_cached_body(&mut self, envelope_hash: u64, body: Option<MessageBody>) -> (effects: Vec<Effect>)
        ensures
            final(self)@ == cached_body_step(old(self)@, envelope_hash, body).model,
            effects@ == cached_body_step(old(self)@, envelope_hash, body).effects,
    {
        let mut effects: Vec<Effect> = Vec::new();
        let (idx, a) = match self.selected_target() {
            Some(t) => t,
            None => {
                return effects;
            },
        };
        if self.messages[idx].envelope_hash != envelope_hash {
            return effects;
        }
        match body {
            Some(b) => self.show_body(idx, b),
            None => match self.accounts[a].session {
                Some(g) => {
                    effects.push(
                        Effect::FetchBody {
                            account_id: self.accounts[a].config.id.clone(),
                            generation: g,
                            envelope_hash,
                        },
                    );
                    effects
                },
                None => {
                    let row = match self.selected_message {
                        Some(row) => row,
                        None => 0,
                    };
                    self.defer(row)
                },
            },
        }
    }

    /// Applies the server's answer to a body fetch.
    pub fn on_body_fetched(&mut self, envelope_hash: u64, result: Result<MessageBody, String>) -> (effects:
        Vec<Effect>)
        ensures
            final(self)@ == body_fetched_step(old(self)@, envelope_hash, result).model,
            effects@ == body_fetched_step(old(self)@, envelope_hash, result).effects,
    {
        let mut effects: Vec<Effect> = Vec::new();
        let (idx, a) = match self.selected_target() {
            Some(t) => t,
            None => {
                return effects;
            },
        };
        if self.messages[idx].envelope_hash != envelope_hash {
            return effects;
        }
        match result {
            Ok(b) => {
                if self.cache_available {
                    effects.push(
                        Effect::SaveBody {
                            account_id: self.accounts[a].config.id.clone(),
                            envelope_hash,
                            body: b,
                        },
                    );
                    effects
                } else {
                    self.show_body(idx, b)
                }
            },
            Err(e) => {
                self.body_failed(e);
                effects
            },
        }
    }

    /// Applies a body that is ready for display.
    pub fn on_body_loaded(&mut self, envelope_hash: u64, result: Result<MessageBody, String>) -> (effects:
        Vec<Effect>)
        ensures
            final(self)@ == body_loaded_step(old(self)@, envelope_hash, result).model,
            effects@ == body_loaded_step(old(self)@, envelope_hash, result).effects,
    {
        let effects: Vec<Effect> = Vec::new();
        let (idx, _a) = match self.selected_target() {
            Some(t) => t,
            None => {
                return effects;
            },
        };
        if self.messages[idx].envelope_hash != envelope_hash {
            return effects;
        }
        match result {
            Ok(b) => self.show_body(idx, b),
            Err(e) => {
                self.body_failed(e);
                effects
            },
        }
    }
}

} // verus!
