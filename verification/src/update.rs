//! The single update step: every event goes through here.

use vstd::prelude::*;
use crate::accounts::{remove_account_step, toggle_account_collapse_step};
use crate::actions::{
    auto_read_step, drag_hover_step, drag_step, flag_complete_step, move_complete_step, move_step, toggle_step,
    FlagKind, MoveTarget,
};
use crate::body::{
    body_deferred_step, body_fetched_step, body_loaded_step, cached_body_step, view_body_step,
};
use crate::navigation::{
    activate_step, selection_down_step, selection_up_step, toggle_collapse_step,
};
use crate::setup_flow::{
    setup_cancel_step, setup_checked_step, setup_field_step, setup_opened_step, setup_saved_step,
    setup_toggle_step,
};
use crate::startup::{configured_step, refresh_step};
use crate::sync::{
    cached_folders_step, cached_messages_step, connected_step, folders_synced_step,
    force_reconnect_step, load_more_step, messages_loaded_step, messages_synced_step,
    select_folder_step, unchanged,
};
use crate::types::{AppModel, Effect, Message, ModelView, Step};
use crate::watch::watch_step;

verus! {

/// The model's reaction to one event: the next model, and the work that has
/// to be done outside, in order.
pub open spec fn step(v: ModelView, message: Message) -> Step {
    match message {
        Message::AccountConfigured(config) => configured_step(v, config),
        Message::AccountConnected { account_id, generation, result } => connected_step(
            v,
            account_id,
            generation,
            result,
        ),
        Message::CachedFoldersLoaded { account_id, result } => cached_folders_step(
            v,
            account_id,
            result,
        ),
        Message::SyncFoldersComplete { account_id, generation, result } => folders_synced_step(
            v,
            account_id,
            generation,
            result,
        ),
        Message::CachedMessagesLoaded {
            account_id,
            mailbox_hash,
            offset,
            result,
        } => cached_messages_step(v, account_id, mailbox_hash, offset, result),
        Message::SyncMessagesComplete {
            account_id,
            generation,
            mailbox_hash,
            result,
        } => messages_synced_step(v, account_id, generation, mailbox_hash, result),
        Message::MessagesLoaded {
            account_id,
            generation,
            mailbox_hash,
            result,
        } => messages_loaded_step(v, account_id, generation, mailbox_hash, result),
        Message::SelectFolder(account, folder) => select_folder_step(v, account, folder),
        Message::LoadMoreMessages => load_more_step(v),
        Message::ForceReconnect(account_id) => force_reconnect_step(v, account_id),
        Message::Refresh => refresh_step(v),
        Message::ViewBody(row) => view_body_step(v, row),
        Message::BodyDeferred => body_deferred_step(v),
        Message::CachedBodyLoaded { envelope_hash, body } => cached_body_step(v, envelope_hash, body),
        Message::BodyFetched { envelope_hash, result } => body_fetched_step(v, envelope_hash, result),
        Message::BodyLoaded { envelope_hash, result } => body_loaded_step(v, envelope_hash, result),
        Message::ToggleRead(row) => toggle_step(v, row, FlagKind::Read),
        Message::ToggleStar(row) => toggle_step(v, row, FlagKind::Starred),
        Message::AutoMarkRead(envelope_hash) => auto_read_step(v, envelope_hash),
        Message::Trash(row) => move_step(v, row, MoveTarget::Trash),
        Message::Archive(row) => move_step(v, row, MoveTarget::Archive),
        Message::DragMessageToFolder { envelope_hash, source_mailbox, dest_mailbox } => drag_step(
            v,
            envelope_hash,
            source_mailbox,
            dest_mailbox,
        ),
        Message::FolderDragEnter(index) => drag_hover_step(v, Some(index)),
        Message::FolderDragLeave => drag_hover_step(v, None),
        Message::FlagOpComplete { envelope_hash, result } => flag_complete_step(
            v,
            envelope_hash,
            result,
        ),
        Message::MoveOpComplete { envelope_hash, result } => move_complete_step(
            v,
            envelope_hash,
            result,
        ),
        Message::SelectionUp => selection_up_step(v),
        Message::SelectionDown => selection_down_step(v),
        Message::ActivateSelection => activate_step(v),
        Message::ToggleThreadCollapse => toggle_collapse_step(v),
        Message::ImapEvent(account_id, event) => watch_step(v, account_id, event),
        Message::AccountRemove(account_id) => remove_account_step(v, account_id),
        Message::ToggleAccountCollapse(index) => toggle_account_collapse_step(v, index),
        Message::SetupOpened(form) => setup_opened_step(v, form),
        Message::SetupFieldChanged(field, value) => setup_field_step(v, field, value),
        Message::SetupToggled(field, value) => setup_toggle_step(v, field, value),
        Message::SetupChecked(outcome) => setup_checked_step(v, outcome),
        Message::SetupSaved { config, result } => setup_saved_step(v, config, result),
        Message::SetupCancel => setup_cancel_step(v),
        Message::Noop => unchanged(v),
    }
}

impl AppModel {
    /// Takes one event, moves the model on and returns the work that has to
    /// be done outside. It never blocks and never fails: a result that has
    /// gone stale, or a request that names nothing, leaves the model as it is
    /// or only changes the status line.
    pub fn update(&mut self, message: Message) -> (effects: Vec<Effect>)
        ensures
            final(self)@ == step(old(self)@, message).model,
            effects@ == step(old(self)@, message).effects,
    {
        match message {
            Message::AccountConfigured(config) => self.on_account_configured(config),
            Message::AccountConnected { account_id, generation, result } => {
                self.on_account_connected(account_id, generation, result)
            },
            Message::CachedFoldersLoaded { account_id, result } => {
                self.on_cached_folders(account_id, result)
            },
            Message::SyncFoldersComplete { account_id, generation, result } => {
                self.on_folders_synced(account_id, generation, result)
            },
            Message::CachedMessagesLoaded { account_id, mailbox_hash, offset, result } => {
                self.on_cached_messages(account_id, mailbox_hash, offset, result)
            },
            Message::SyncMessagesComplete { account_id, generation, mailbox_hash, result } => {
                self.on_messages_synced(account_id, generation, mailbox_hash, result)
            },
            Message::MessagesLoaded { account_id, generation, mailbox_hash, result } => {
                self.on_messages_loaded(account_id, generation, mailbox_hash, result)
            },
            Message::SelectFolder(account, folder) => self.on_select_folder(account, folder),
            Message::LoadMoreMessages => self.on_load_more(),
            Message::ForceReconnect(account_id) => self.on_force_reconnect(account_id),
            Message::Refresh => self.on_refresh(),
            Message::ViewBody(row) => self.on_view_body(row),
            Message::BodyDeferred => self.on_body_deferred(),
            Message::CachedBodyLoaded { envelope_hash, body } => {
                self.on_cached_body(envelope_hash, body)
            },
            Message::BodyFetched { envelope_hash, result } => {
                self.on_body_fetched(envelope_hash, result)
            },
            Message::BodyLoaded { envelope_hash, result } => self.on_body_loaded(envelope_hash, result),
            Message::ToggleRead(row) => self.on_toggle(row, FlagKind::Read),
            Message::ToggleStar(row) => self.on_toggle(row, FlagKind::Starred),
            Message::AutoMarkRead(envelope_hash) => self.on_auto_mark_read(envelope_hash),
            Message::Trash(row) => self.on_move(row, MoveTarget::Trash),
            Message::Archive(row) => self.on_move(row, MoveTarget::Archive),
            Message::DragMessageToFolder { envelope_hash, source_mailbox, dest_mailbox } => {
                self.on_drag_to_folder(envelope_hash, source_mailbox, dest_mailbox)
            },
            Message::FolderDragEnter(index) => self.on_drag_hover(Some(index)),
            Message::FolderDragLeave => self.on_drag_hover(None),
            Message::FlagOpComplete { envelope_hash, result } => {
                self.on_flag_complete(envelope_hash, result)
            },
            Message::MoveOpComplete { envelope_hash, result } => {
                self.on_move_complete(envelope_hash, result)
            },
            Message::SelectionUp => self.on_selection_up(),
            Message::SelectionDown => self.on_selection_down(),
            Message::ActivateSelection => self.on_activate(),
            Message::ToggleThreadCollapse => self.on_toggle_collapse(),
            Message::ImapEvent(account_id, event) => self.on_watch_event(account_id, event),
            Message::AccountRemove(account_id) => self.on_account_remove(account_id),
            Message::ToggleAccountCollapse(index) => self.on_toggle_account_collapse(index),
            Message::SetupOpened(form) => self.on_setup_opened(form),
            Message::SetupFieldChanged(field, value) => self.on_setup_field(field, value),
            Message::SetupToggled(field, value) => self.on_setup_toggle(field, value),
            Message::SetupChecked(outcome) => self.on_setup_checked(outcome),
            Message::SetupSaved { config, result } => self.on_setup_saved(config, result),
            Message::SetupCancel => self.on_setup_cancel(),
            Message::Noop => Vec::new(),
        }
    }
}

} // verus!
