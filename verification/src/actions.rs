//! Optimistic changes: a flag toggle or a move shows at once, is recorded so
//! that it can be taken back, and is settled when the server has answered.

use vstd::prelude::*;
use crate::flags::{byte_is_read, byte_is_starred, flag_byte, flags_from_u8, flags_to_u8};
use crate::models::MessageSummary;
use crate::registry::{
    active_index, envelope_index, find_envelope, folders_have_mailbox, has_mailbox,
    owner_of_mailbox, selected_mailbox,
};
use crate::sync::unchanged;
use crate::threads::{compute_visible, row_target, visible_rows};
use crate::types::{
    AppModel, Effect, FlagChange, ModelView, PendingMutation,
    PendingOp, Preview, Status, Step,
};

verus! {

/// The two flags a user can toggle.
#[derive(Debug, Clone, Copy, PartialEq, Eq, Structural)]
pub enum FlagKind {
    Read,
    Starred,
}

/// The two places a message can be sent to with one key.
#[derive(Debug, Clone, Copy, PartialEq, Eq, Structural)]
pub enum MoveTarget {
    Trash,
    Archive,
}

/// The server operation that gives a flag the value `on`.
pub open spec fn change_of(kind: FlagKind, on: bool) -> FlagChange {
    match kind {
        FlagKind::Read => if on {
            FlagChange::SetSeen
        } else {
            FlagChange::UnsetSeen
        },
        FlagKind::Starred => if on {
            FlagChange::SetFlagged
        } else {
            FlagChange::UnsetFlagged
        },
    }
}

/// The cache tag of a flag operation.
pub open spec fn op_of(change: FlagChange) -> PendingOp {
    match change {
        FlagChange::SetSeen => PendingOp::SetSeen,
        FlagChange::UnsetSeen => PendingOp::UnsetSeen,
        FlagChange::SetFlagged => PendingOp::SetFlagged,
        FlagChange::UnsetFlagged => PendingOp::UnsetFlagged,
    }
}

/// A selection kept within `rows` visible rows; with no row left there is none.
pub open spec fn clamp_row(selected: Option<usize>, rows: nat) -> Option<usize> {
    match selected {
        Some(s) => if rows == 0 {
            None
        } else if s >= rows {
            Some((rows - 1) as usize)
        } else {
            Some(s)
        },
        None => None,
    }
}

/// A message with its two flags set as given.
pub open spec fn with_flags(m: MessageSummary, is_read: bool, is_starred: bool) -> MessageSummary {
    MessageSummary { is_read, is_starred, ..m }
}

/// A refusal: nothing changes but the status line.
pub open spec fn refused(v: ModelView, status: Status) -> Step {
    Step { model: ModelView { status, ..v }, effects: Seq::empty() }
}

/// The toggle of one flag of the message at index `idx` of the list.
///
/// It is refused while another change of the same message is in flight, and
/// when no account owns the message's mailbox. Otherwise the flag changes at
/// once; the change is marked in the cache; and with a live session it is
/// sent to the server and recorded, with the flags as they were, until the
/// server answers. Marking a message unread by hand switches the dwell timer off.
pub open spec fn toggle_at(v: ModelView, idx: usize, kind: FlagKind, by_hand: bool) -> Step {
    let m = v.messages[idx as int];
    if v.pending.contains_key(m.envelope_hash) {
        refused(v, Status::MutationPending)
    } else {
        match owner_of_mailbox(v.accounts, m.mailbox_hash, 0) {
            None => refused(v, Status::UnknownMailbox),
            Some(a) => {
                let account = v.accounts[a as int];
                let is_read = if kind == FlagKind::Read {
                    !m.is_read
                } else {
                    m.is_read
                };
                let is_starred = if kind == FlagKind::Starred {
                    !m.is_starred
                } else {
                    m.is_starred
                };
                let change = change_of(
                    kind,
                    if kind == FlagKind::Read {
                        is_read
                    } else {
                        is_starred
                    },
                );
                let new_flags = flag_byte(is_read, is_starred);
                let marked = if v.cache_available {
                    seq![
                        Effect::MarkPending {
                            account_id: account.config.id,
                            envelope_hash: m.envelope_hash,
                            flags: new_flags,
                            op: op_of(change),
                        },
                    ]
                } else {
                    Seq::empty()
                };
                let sent = if account.session is Some {
                    seq![
                        Effect::SetFlags {
                            account_id: account.config.id,
                            envelope_hash: m.envelope_hash,
                            mailbox_hash: m.mailbox_hash,
                            change,
                            new_flags,
                        },
                    ]
                } else {
                    Seq::empty()
                };
                Step {
                    model: ModelView {
                        messages: v.messages.update(idx as int, with_flags(m, is_read, is_starred)),
                        pending: if account.session is Some {
                            v.pending.insert(
                                m.envelope_hash,
                                PendingMutation::Flags {
                                    account_id: account.config.id,
                                    prev_flags: flag_byte(m.is_read, m.is_starred),
                                },
                            )
                        } else {
                            v.pending
                        },
                        auto_read_suppressed: if by_hand && kind == FlagKind::Read && !is_read {
                            true
                        } else {
                            v.auto_read_suppressed
                        },
                        ..v
                    },
                    effects: marked + sent,
                }
            },
        }
    }
}

/// The toggle of a flag of the message in a visible row. A row that does not
/// exist changes nothing.
pub open spec fn toggle_step(v: ModelView, row: usize, kind: FlagKind) -> Step {
    match row_target(v.messages, v.collapsed_threads, row) {
        Some(idx) => toggle_at(v, idx, kind, true),
        None => unchanged(v),
    }
}

/// The dwell timer of a message has run out.
///
/// The message is marked read, as by a toggle, if it is still the selected
/// one, still unread, not under a pending change, and the user has not marked
/// a message unread by hand since it was opened.
pub open spec fn auto_read_step(v: ModelView, envelope_hash: u64) -> Step {
    match v.selected_message {
        Some(row) => match row_target(v.messages, v.collapsed_threads, row) {
            Some(idx) => {
                let m = v.messages[idx as int];
                if !v.auto_read_suppressed && m.envelope_hash == envelope_hash && !m.is_read
                    && !v.pending.contains_key(envelope_hash) {
                    toggle_at(v, idx, FlagKind::Read, false)
                } else {
                    unchanged(v)
                }
            },
            None => unchanged(v),
        },
        None => unchanged(v),
    }
}

/// The server's answer to a flag change.
///
/// Without a flag record for the envelope the answer is dropped. On success
/// the record goes and the confirmed flags are stored. On failure the message,
/// if it is on display, gets back the flags it had before the change, the
/// record goes, the cache row is put back and the failure is reported.
pub open spec fn flag_complete_step(v: ModelView, envelope_hash: u64, result: Result<u8, String>) -> Step {
    if !v.pending.contains_key(envelope_hash) {
        unchanged(v)
    } else {
        match v.pending[envelope_hash] {
            PendingMutation::Flags { account_id, prev_flags } => match result {
                Ok(flags) => Step {
                    model: ModelView { pending: v.pending.remove(envelope_hash), ..v },
                    effects: if v.cache_available {
                        seq![Effect::ClearPending { account_id, envelope_hash, flags }]
                    } else {
                        Seq::empty()
                    },
                },
                Err(e) => Step {
                    model: ModelView {
                        messages: match find_envelope(v.messages, envelope_hash, 0) {
                            Some(i) => v.messages.update(
                                i as int,
                                with_flags(
                                    v.messages[i as int],
                                    byte_is_read(prev_flags),
                                    byte_is_starred(prev_flags),
                                ),
                            ),
                            None => v.messages,
                        },
                        pending: v.pending.remove(envelope_hash),
                        status: Status::FlagUpdateFailed(e),
                        ..v
                    },
                    effects: if v.cache_available {
                        seq![Effect::RevertPending { account_id, envelope_hash }]
                    } else {
                        Seq::empty()
                    },
                },
            },
            PendingMutation::Move { .. } => unchanged(v),
        }
    }
}

/// The move of the message at index `idx` to the mailbox `dest` of the
/// account at `account`.
///
/// It is refused while another change of the same message is in flight.
/// Otherwise the message leaves the list at once and the selection is kept
/// within the rows that remain; the move is marked in the cache; and with a
/// live session it is sent to the server and recorded, with the message and
/// its place, until the server answers.
pub open spec fn move_at(v: ModelView, idx: usize, account: usize, dest: u64) -> Step {
    let m = v.messages[idx as int];
    let owner = v.accounts[account as int];
    if v.pending.contains_key(m.envelope_hash) {
        refused(v, Status::MutationPending)
    } else {
        let messages = v.messages.remove(idx as int);
        let rows = visible_rows(messages, v.collapsed_threads).len();
        let marked = if v.cache_available {
            seq![
                Effect::MarkPending {
                    account_id: owner.config.id,
                    envelope_hash: m.envelope_hash,
                    flags: flag_byte(m.is_read, m.is_starred),
                    op: PendingOp::Move(dest),
                },
            ]
        } else {
            Seq::empty()
        };
        let sent = if owner.session is Some {
            seq![
                Effect::MoveMessage {
                    account_id: owner.config.id,
                    envelope_hash: m.envelope_hash,
                    source_mailbox: m.mailbox_hash,
                    dest_mailbox: dest,
                },
            ]
        } else {
            Seq::empty()
        };
        Step {
            model: ModelView {
                messages,
                selected_message: clamp_row(v.selected_message, rows),
                preview: if rows == 0 {
                    Preview::Empty
                } else {
                    v.preview
                },
                pending: if owner.session is Some {
                    v.pending.insert(
                        m.envelope_hash,
                        PendingMutation::Move {
                            account_id: owner.config.id,
                            message: m,
                            position: idx,
                        },
                    )
                } else {
                    v.pending
                },
                ..v
            },
            effects: marked + sent,
        }
    }
}

/// The two paths under which a target folder is looked for, in order.
pub open spec fn target_paths(target: MoveTarget) -> (Seq<char>, Seq<char>) {
    match target {
        MoveTarget::Trash => ("Trash"@, "INBOX.Trash"@),
        MoveTarget::Archive => ("Archive"@, "INBOX.Archive"@),
    }
}

/// The mailbox that a target resolves to in a path map, if any.
pub open spec fn resolve_target(map: Map<Seq<char>, u64>, target: MoveTarget) -> Option<u64> {
    let paths = target_paths(target);
    if map.contains_key(paths.0) {
        Some(map[paths.0])
    } else if map.contains_key(paths.1) {
        Some(map[paths.1])
    } else {
        None
    }
}

/// The status that reports a target folder that does not exist.
pub open spec fn missing_target(target: MoveTarget) -> Status {
    match target {
        MoveTarget::Trash => Status::TrashNotFound,
        MoveTarget::Archive => Status::ArchiveNotFound,
    }
}

/// The move of the message in a visible row to the trash or the archive.
///
/// A row that does not exist changes nothing. If no account owns the
/// message's mailbox, or the account has no such folder, the move is refused
/// and reported before anything changes.
pub open spec fn move_step(v: ModelView, row: usize, target: MoveTarget) -> Step {
    match row_target(v.messages, v.collapsed_threads, row) {
        None => unchanged(v),
        Some(idx) => match owner_of_mailbox(v.accounts, v.messages[idx as int].mailbox_hash, 0) {
            None => refused(v, Status::UnknownMailbox),
            Some(a) => match resolve_target(v.accounts[a as int].folder_map, target) {
                None => refused(v, missing_target(target)),
                Some(dest) => move_at(v, idx, a, dest),
            },
        },
    }
}

/// The move that a drop asks for.
///
/// A message that is not on display changes nothing, and neither does a drop
/// on the folder the message is in. The move is refused if the source is not
/// the message's mailbox, or if no single account owns both mailboxes.
pub open spec fn drop_move(v: ModelView, envelope_hash: u64, source_mailbox: u64, dest_mailbox: u64) -> Step {
    match find_envelope(v.messages, envelope_hash, 0) {
        None => unchanged(v),
        Some(idx) => if v.messages[idx as int].mailbox_hash != source_mailbox {
            refused(v, Status::UnknownMailbox)
        } else {
            match owner_of_mailbox(v.accounts, source_mailbox, 0) {
                None => refused(v, Status::UnknownMailbox),
                Some(a) => if !has_mailbox(v.accounts[a as int].folders, dest_mailbox, 0) {
                    refused(v, Status::UnknownMailbox)
                } else if source_mailbox == dest_mailbox {
                    unchanged(v)
                } else {
                    move_at(v, idx, a, dest_mailbox)
                },
            }
        },
    }
}

/// A message dropped on a folder: the hover ends, and the message is moved
/// as `drop_move` says.
pub open spec fn drag_step(v: ModelView, envelope_hash: u64, source_mailbox: u64, dest_mailbox: u64) -> Step {
    drop_move(ModelView { folder_drag_target: None, ..v }, envelope_hash, source_mailbox, dest_mailbox)
}

/// A dragged message hovers over a sidebar row, or has left the sidebar.
pub open spec fn drag_hover_step(v: ModelView, target: Option<usize>) -> Step {
    Step { model: ModelView { folder_drag_target: target, ..v }, effects: Seq::empty() }
}

/// Whether the list on display is that of the given mailbox of the given account.
pub open spec fn shows(v: ModelView, account_id: Seq<char>, mailbox: u64) -> bool {
    match active_index(v) {
        Some(a) => v.accounts[a as int].config.id@ == account_id && selected_mailbox(v) == Some(mailbox),
        None => false,
    }
}

/// The place at which a message that was taken out goes back in.
pub open spec fn restore_position(position: usize, len: nat) -> int {
    if position <= len {
        position as int
    } else {
        len as int
    }
}

/// The server's answer to a move.
///
/// Without a move record for the envelope the answer is dropped. On success
/// the record goes and the message leaves the cache. On failure the message
/// goes back into the list at the place it was taken from, if its mailbox is
/// still on display; the record goes, the cache row is put back and the
/// failure is reported.
pub open spec fn move_complete_step(v: ModelView, envelope_hash: u64, result: Result<(), String>) -> Step {
    if !v.pending.contains_key(envelope_hash) {
        unchanged(v)
    } else {
        match v.pending[envelope_hash] {
            PendingMutation::Move { account_id, message, position } => match result {
                Ok(_) => Step {
                    model: ModelView { pending: v.pending.remove(envelope_hash), ..v },
                    effects: if v.cache_available {
                        seq![Effect::RemoveCachedMessage { account_id, envelope_hash }]
                    } else {
                        Seq::empty()
                    },
                },
                Err(e) => Step {
                    model: ModelView {
                        messages: if shows(v, account_id@, message.mailbox_hash) {
                            v.messages.insert(restore_position(position, v.messages.len()), message)
                        } else {
                            v.messages
                        },
                        pending: v.pending.remove(envelope_hash),
                        status: Status::MoveFailed(e),
                        ..v
                    },
                    effects: if v.cache_available {
                        seq![Effect::RevertPending { account_id, envelope_hash }]
                    } else {
                        Seq::empty()
                    },
                },
            },
            PendingMutation::Flags { .. } => unchanged(v),
        }
    }
}

/// The server operation that gives a flag the value `on`.
pub fn flag_change(kind: FlagKind, on: bool) -> (r: FlagChange)
    ensures
        r == change_of(kind, on),
{
    match kind {
        FlagKind::Read => if on {
            FlagChange::SetSeen
        } else {
            FlagChange::UnsetSeen
        },
        FlagKind::Starred => if on {
            FlagChange::SetFlagged
        } else {
            FlagChange::UnsetFlagged
        },
    }
}

/// The cache tag of a flag operation.
pub fn pending_op(change: FlagChange) -> (r: PendingOp)
    ensures
        r == op_of(change),
{
    match change {
        FlagChange::SetSeen => PendingOp::SetSeen,
        FlagChange::UnsetSeen => PendingOp::UnsetSeen,
        FlagChange::SetFlagged => PendingOp::SetFlagged,
        FlagChange::UnsetFlagged => PendingOp::UnsetFlagged,
    }
}

/// Keeps a selection within `rows` visible rows.
pub fn clamp_selection(selected: Option<usize>, rows: usize) -> (r: Option<usize>)
    ensures
        r == clamp_row(selected, rows as nat),
{
    match selected {
        Some(s) => if rows == 0 {
            None
        } else if s >= rows {
            Some(rows - 1)
        } else {
            Some(s)
        },
        None => None,
    }
}

impl AppModel {
    /// The index in the list of the message that a visible row shows.
    pub fn target_of_row(&self, row: usize) -> (r: Option<usize>)
        ensures
            r == row_target(self@.messages, self@.collapsed_threads, row),
            r matches Some(i) ==> i < self.messages@.len(),
    {
        let rows = compute_visible(&self.messages, &self.collapsed_threads);
        if row < rows.len() {
            Some(rows[row])
        } else {
            None
        }
    }

    /// Whether the list on display is that of the given mailbox of the given account.
    pub fn shows(&self, account_id: &str, mailbox: u64) -> (r: bool)
        ensures
            r == shows(self@, account_id@, mailbox),
    {
        match self.active_account_index() {
            Some(a) => crate::text::text_is(&self.accounts[a].config.id, account_id)
                && self.current_mailbox() == Some(mailbox),
            None => false,
        }
    }

    /// Toggles one flag of the message at index `idx` of the list.
    pub(crate) fn toggle_at(&mut self, idx: usize, kind: FlagKind, by_hand: bool) -> (effects: Vec<Effect>)
        requires
            idx < old(self).messages@.len(),
        ensures
            final(self)@ == toggle_at(old(self)@, idx, kind, by_hand).model,
            effects@ == toggle_at(old(self)@, idx, kind, by_hand).effects,
    {
        let mut effects: Vec<Effect> = Vec::new();
        let envelope_hash = self.messages[idx].envelope_hash;
        let mailbox_hash = self.messages[idx].mailbox_hash;
        let was_read = self.messages[idx].is_read;
        let was_starred = self.messages[idx].is_starred;
        if self.pending.contains_key(&envelope_hash) {
            self.status = Status::MutationPending;
            return effects;
        }
        let a = match self.account_for_mailbox(mailbox_hash) {
            Some(a) => a,
            None => {
                self.status = Status::UnknownMailbox;
                return effects;
            },
        };
        let (is_read, is_starred, on) = match kind {
            FlagKind::Read => (!was_read, was_starred, !was_read),
            FlagKind::Starred => (was_read, !was_starred, !was_starred),
        };
        let change = flag_change(kind, on);
        let new_flags = flags_to_u8(is_read, is_starred);
        if self.cache_available {
            effects.push(
                Effect::MarkPending {
                    account_id: self.accounts[a].config.id.clone(),
                    envelope_hash,
                    flags: new_flags,
                    op: pending_op(change),
                },
            );
        }
        if self.accounts[a].session.is_some() {
            effects.push(
                Effect::SetFlags {
                    account_id: self.accounts[a].config.id.clone(),
                    envelope_hash,
                    mailbox_hash,
                    change,
                    new_flags,
                },
            );
            self.pending.insert(
                envelope_hash,
                PendingMutation::Flags {
                    account_id: self.accounts[a].config.id.clone(),
                    prev_flags: flags_to_u8(was_read, was_starred),
                },
            );
        }
        self.messages[idx].is_read = is_read;
        self.messages[idx].is_starred = is_starred;
        if by_hand && kind == FlagKind::Read && !is_read {
            self.auto_read_suppressed = true;
        }
        assert(self@.messages =~= toggle_at(old(self)@, idx, kind, by_hand).model.messages);
        effects
    }

    /// Toggles a flag of the message in a visible row.
    pub fn on_toggle(&mut self, row: usize, kind: FlagKind) -> (effects: Vec<Effect>)
        ensures
            final(self)@ == toggle_step(old(self)@, row, kind).model,
            effects@ == toggle_step(old(self)@, row, kind).effects,
    {
        match self.target_of_row(row) {
            Some(idx) => self.toggle_at(idx, kind, true),
            None => Vec::new(),
        }
    }

    /// Applies the end of a message's dwell time.
    pub fn on_auto_mark_read(&mut self, envelope_hash: u64) -> (effects: Vec<Effect>)
        ensures
            final(self)@ == auto_read_step(old(self)@, envelope_hash).model,
            effects@ == auto_read_step(old(self)@, envelope_hash).effects,
    {
        let row = match self.selected_message {
            Some(row) => row,
            None => {
                return Vec::new();
            },
        };
        match self.target_of_row(row) {
            Some(idx) => {
                if !self.auto_read_suppressed && self.messages[idx].envelope_hash == envelope_hash
                    && !self.messages[idx].is_read && !self.pending.contains_key(&envelope_hash) {
                    self.toggle_at(idx, FlagKind::Read, false)
                } else {
                    Vec::new()
                }
            },
            None => Vec::new(),
        }
    }

    /// Applies the server's answer to a flag change.
    pub fn on_flag_complete(&mut self, envelope_hash: u64, result: Result<u8, String>) -> (effects: Vec<
        Effect,
    >)
        ensures
            final(self)@ == flag_complete_step(old(self)@, envelope_hash, result).model,
            effects@ == flag_complete_step(old(self)@, envelope_hash, result).effects,
    {
        let mut effects: Vec<Effect> = Vec::new();
        let is_flags = match self.pending.get(&envelope_hash) {
            Some(PendingMutation::Flags { .. }) => true,
            _ => false,
        };
        if !is_flags {
            return effects;
        }
        let (account_id, prev_flags) = match self.pending.remove(&envelope_hash) {
            Some(PendingMutation::Flags { account_id, prev_flags }) => (account_id, prev_flags),
            _ => {
                assert(false);
                return effects;
            },
        };
        match result {
            Ok(flags) => {
                if self.cache_available {
                    effects.push(Effect::ClearPending { account_id, envelope_hash, flags });
                }
            },
            Err(e) => {
                match envelope_index(&self.messages, envelope_hash) {
                    Some(i) => {
                        let (is_read, is_starred) = flags_from_u8(prev_flags);
                        self.messages[i].is_read = is_read;
                        self.messages[i].is_starred = is_starred;
                    },
                    None => {},
                }
                self.status = Status::FlagUpdateFailed(e);
                if self.cache_available {
                    effects.push(Effect::RevertPending { account_id, envelope_hash });
                }
            },
        }
        assert(self@.messages =~= flag_complete_step(old(self)@, envelope_hash, result).model.messages);
        effects
    }

    /// Moves the message at index `idx` to the mailbox `dest` of the account at `account`.
    pub(crate) fn move_at(&mut self, idx: usize, account: usize, dest: u64) -> (effects: Vec<Effect>)
        requires
            idx < old(self).messages@.len(),
            account < old(self).accounts@.len(),
        ensures
            final(self)@ == move_at(old(self)@, idx, account, dest).model,
            effects@ == move_at(old(self)@, idx, account, dest).effects,
    {
        let mut effects: Vec<Effect> = Vec::new();
        let envelope_hash = self.messages[idx].envelope_hash;
        if self.pending.contains_key(&envelope_hash) {
            self.status = Status::MutationPending;
            return effects;
        }
        let message = self.messages.remove(idx);
        if self.cache_available {
            effects.push(
                Effect::MarkPending {
                    account_id: self.accounts[account].config.id.clone(),
                    envelope_hash,
                    flags: flags_to_u8(message.is_read, message.is_starred),
                    op: PendingOp::Move(dest),
                },
            );
        }
        let rows = compute_visible(&self.messages, &self.collapsed_threads).len();
        self.selected_message = clamp_selection(self.selected_message, rows);
        if rows == 0 {
            self.preview = Preview::Empty;
        }
        if self.accounts[account].session.is_some() {
            effects.push(
                Effect::MoveMessage {
                    account_id: self.accounts[account].config.id.clone(),
                    envelope_hash,
                    source_mailbox: message.mailbox_hash,
                    dest_mailbox: dest,
                },
            );
            self.pending.insert(
                envelope_hash,
                PendingMutation::Move {
                    account_id: self.accounts[account].config.id.clone(),
                    message,
                    position: idx,
                },
            );
        }
        effects
    }

    /// The mailbox that a move target resolves to in the account's path map.
    pub(crate) fn resolve_target(&self, account: usize, target: MoveTarget) -> (r: Option<u64>)
        requires
            account < self.accounts@.len(),
        ensures
            r == resolve_target(self@.accounts[account as int].folder_map, target),
    {
        let (first, second) = match target {
            MoveTarget::Trash => ("Trash", "INBOX.Trash"),
            MoveTarget::Archive => ("Archive", "INBOX.Archive"),
        };
        match self.accounts[account].folder_map.get(first) {
            Some(mailbox) => Some(mailbox),
            None => self.accounts[account].folder_map.get(second),
        }
    }

    /// Moves the message in a visible row to the trash or the archive.
    pub fn on_move(&mut self, row: usize, target: MoveTarget) -> (effects: Vec<Effect>)
        ensures
            final(self)@ == move_step(old(self)@, row, target).model,
            effects@ == move_step(old(self)@, row, target).effects,
    {
        let idx = match self.target_of_row(row) {
            Some(idx) => idx,
            None => {
                return Vec::new();
            },
        };
        let a = match self.account_for_mailbox(self.messages[idx].mailbox_hash) {
            Some(a) => a,
            None => {
                self.status = Status::UnknownMailbox;
                return Vec::new();
            },
        };
        match self.resolve_target(a, target) {
            Some(dest) => self.move_at(idx, a, dest),
            None => {
                self.status = match target {
                    MoveTarget::Trash => Status::TrashNotFound,
                    MoveTarget::Archive => Status::ArchiveNotFound,
                };
                Vec::new()
            },
        }
    }

    /// Notes the sidebar row that a dragged message hovers over.
    pub fn on_drag_hover(&mut self, target: Option<usize>) -> (effects: Vec<Effect>)
        ensures
            final(self)@ == drag_hover_step(old(self)@, target).model,
            effects@ == drag_hover_step(old(self)@, target).effects,
    {
        self.folder_drag_target = target;
        Vec::new()
    }

    /// Applies a message dropped on a folder.
    pub fn on_drag_to_folder(&mut self, envelope_hash: u64, source_mailbox: u64, dest_mailbox: u64) -> (effects:
        Vec<Effect>)
        ensures
            final(self)@ == drag_step(old(self)@, envelope_hash, source_mailbox, dest_mailbox).model,
            effects@ == drag_step(old(self)@, envelope_hash, source_mailbox, dest_mailbox).effects,
    {
        self.folder_drag_target = None;
        let idx = match envelope_index(&self.messages, envelope_hash) {
            Some(idx) => idx,
            None => {
                return Vec::new();
            },
        };
        if self.messages[idx].mailbox_hash != source_mailbox {
            self.status = Status::UnknownMailbox;
            return Vec::new();
        }
        let a = match self.account_for_mailbox(source_mailbox) {
            Some(a) => a,
            None => {
                self.status = Status::UnknownMailbox;
                return Vec::new();
            },
        };
        if !folders_have_mailbox(&self.accounts[a].folders, dest_mailbox) {
            self.status = Status::UnknownMailbox;
            return Vec::new();
        }
        if source_mailbox == dest_mailbox {
            return Vec::new();
        }
        self.move_at(idx, a, dest_mailbox)
    }

    /// Applies the server's answer to a move.
    pub fn on_move_complete(&mut self, envelope_hash: u64, result: Result<(), String>) -> (effects: Vec<
        Effect,
    >)
        ensures
            final(self)@ == move_complete_step(old(self)@, envelope_hash, result).model,
            effects@ == move_complete_step(old(self)@, envelope_hash, result).effects,
    {
        let mut effects: Vec<Effect> = Vec::new();
        let is_move = match self.pending.get(&envelope_hash) {
            Some(PendingMutation::Move { .. }) => true,
            _ => false,
        };
        if !is_move {
            return effects;
        }
        let (account_id, message, position) = match self.pending.remove(&envelope_hash) {
            Some(PendingMutation::Move { account_id, message, position }) => (
                account_id,
                message,
                position,
            ),
            _ => {
                assert(false);
                return effects;
            },
        };
        match result {
            Ok(_) => {
                if self.cache_available {
                    effects.push(Effect::RemoveCachedMessage { account_id, envelope_hash });
                }
            },
            Err(e) => {
                if self.shows(account_id.as_str(), message.mailbox_hash) {
                    let at = if position <= self.messages.len() {
                        position
                    } else {
                        self.messages.len()
                    };
                    self.messages.insert(at, message);
                }
                self.status = Status::MoveFailed(e);
                if self.cache_available {
                    effects.push(Effect::RevertPending { account_id, envelope_hash });
                }
            },
        }
        effects
    }
}

} // verus!
