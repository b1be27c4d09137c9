//! What holds of the transitions, whatever the model and the event.

use vstd::prelude::*;
use crate::actions::{
    flag_complete_step, missing_target, move_at, move_complete_step, move_step, resolve_target,
    shows, toggle_at, toggle_step, FlagKind, MoveTarget,
};
use crate::flags::lemma_flags_roundtrip;
use crate::folder_map::{folder_map_of, folder_paths, lemma_folder_map_dom};
use crate::models::{Folder, MessageSummary};
use crate::navigation::collapse_thread;
use crate::registry::{
    find_account, find_envelope, lemma_find_account, lemma_find_envelope, lemma_owner_in_range,
    owner_of_mailbox,
};
use crate::sync::{
    cached_folders_step, cached_messages_step, connected_step, folders_synced_step, force_reconnect_step,
    messages_loaded_step, messages_synced_step, page_is_current, select_folder_step,
};
use crate::setup::{SetupError, SetupFault};
use crate::setup_flow::{setup_cancel_step, setup_checked_step, setup_saved_step, with_report};
use crate::threads::{lemma_toggle_twice, lemma_visible_rows, row_target, visible_rows};
use crate::types::{AccountConfig, Status};
use crate::types::{AccountView, Effect, ImapWatchEvent, Message, ModelView, DEFAULT_PAGE_SIZE};
use crate::watch::watch_step;
use crate::update::step;

verus! {

/// No two messages of the list have the same envelope identity.
pub open spec fn envelopes_distinct(messages: Seq<MessageSummary>) -> bool {
    forall|i: int, j: int|
        0 <= i < j < messages.len() ==> (#[trigger] messages[i]).envelope_hash != (
        #[trigger] messages[j]).envelope_hash
}

/// The lists of the model are no longer than a machine can hold.
pub open spec fn representable(v: ModelView) -> bool {
    v.accounts.len() <= usize::MAX && v.messages.len() <= usize::MAX
}

/// After a folder list from the server has been applied, the account's path
/// map knows exactly the paths of that list, whatever it knew before, and the
/// account's folders are that list.
pub proof fn law_folder_map_is_last_sync(
    v: ModelView,
    account_id: String,
    generation: u64,
    folders: Vec<Folder>,
)
    requires
        representable(v),
        find_account(v.accounts, account_id@, 0) is Some,
        v.accounts[find_account(v.accounts, account_id@, 0)->0 as int].session == Some(generation),
    ensures
        ({
            let i = find_account(v.accounts, account_id@, 0)->0 as int;
            let after = folders_synced_step(v, account_id, generation, Ok(folders)).model;
            &&& after.accounts.len() == v.accounts.len()
            &&& after.accounts[i].folders == folders@
            &&& after.accounts[i].folder_map == folder_map_of(folders@)
            &&& after.accounts[i].folder_map.dom() == folder_paths(folders@)
        }),
{
    lemma_find_account(v.accounts, account_id@, 0);
    lemma_folder_map_dom(folders@);
}

/// A flag toggle that was sent to the server and failed there leaves the list
/// exactly as it was before the toggle, leaves no record behind, and asks for
/// the cache row to be put back.
pub proof fn law_failed_toggle_rolls_back(v: ModelView, row: usize, kind: FlagKind, reason: String)
    requires
        representable(v),
        envelopes_distinct(v.messages),
        toggle_step(v, row, kind).effects.len() > 0,
        toggle_step(v, row, kind).effects.last() is SetFlags,
    ensures
        ({
            let idx = row_target(v.messages, v.collapsed_threads, row)->0;
            let envelope = v.messages[idx as int].envelope_hash;
            let toggled = toggle_step(v, row, kind).model;
            let settled = flag_complete_step(toggled, envelope, Err(reason));
            &&& row_target(v.messages, v.collapsed_threads, row) is Some
            &&& toggled.pending.contains_key(envelope)
            &&& settled.model.messages == v.messages
            &&& settled.model.pending == v.pending
            &&& v.cache_available ==> settled.effects.len() == 1 && settled.effects[0] is RevertPending
                && settled.effects[0]->RevertPending_envelope_hash == envelope
        }),
{
    lemma_visible_rows(v.messages, v.collapsed_threads);
    let idx = row_target(v.messages, v.collapsed_threads, row)->0;
    let m = v.messages[idx as int];
    let envelope = m.envelope_hash;
    lemma_owner_in_range(v.accounts, m.mailbox_hash, 0);
    let toggled = toggle_step(v, row, kind).model;
    lemma_find_envelope(toggled.messages, envelope, 0);
    lemma_flags_roundtrip(m.is_read, m.is_starred);
    let found = find_envelope(toggled.messages, envelope, 0);
    assert(toggled.messages[idx as int].envelope_hash == envelope);
    assert(found == Some(idx)) by {
        let f = found->0;
        if f < idx {
            assert(v.messages[f as int].envelope_hash == toggled.messages[f as int].envelope_hash);
        }
    }
    let settled = flag_complete_step(toggled, envelope, Err(reason));
    assert(settled.model.messages =~= v.messages);
    assert(settled.model.pending =~= v.pending);
}

/// While a flag change is in flight there is exactly one record for its
/// envelope: the toggle that was sent writes it, a further toggle of the same
/// message is refused and leaves list and records alone, and the server's
/// confirmation takes the record away again.
pub proof fn law_one_record_per_envelope(
    v: ModelView,
    row: usize,
    kind: FlagKind,
    again: FlagKind,
    confirmed: u8,
)
    requires
        representable(v),
        toggle_step(v, row, kind).effects.len() > 0,
        toggle_step(v, row, kind).effects.last() is SetFlags,
    ensures
        ({
            let idx = row_target(v.messages, v.collapsed_threads, row)->0;
            let envelope = v.messages[idx as int].envelope_hash;
            let toggled = toggle_step(v, row, kind).model;
            let second = toggle_at(toggled, idx, again, true).model;
            let settled = flag_complete_step(toggled, envelope, Ok(confirmed)).model;
            &&& !v.pending.contains_key(envelope)
            &&& toggled.pending.dom() == v.pending.dom().insert(envelope)
            &&& toggled.pending[envelope] is Flags
            &&& second.pending == toggled.pending
            &&& second.messages == toggled.messages
            &&& settled.pending == v.pending
            &&& settled.messages == toggled.messages
        }),
{
    lemma_visible_rows(v.messages, v.collapsed_threads);
    let idx = row_target(v.messages, v.collapsed_threads, row)->0;
    let m = v.messages[idx as int];
    lemma_owner_in_range(v.accounts, m.mailbox_hash, 0);
    let toggled = toggle_step(v, row, kind).model;
    assert(toggled.pending.dom() =~= v.pending.dom().insert(m.envelope_hash));
    let settled = flag_complete_step(toggled, m.envelope_hash, Ok(confirmed)).model;
    assert(settled.pending =~= v.pending);
}

/// Whether a step leaves the record of an envelope in place and as it is.
pub open spec fn keeps_record(v: ModelView, next: ModelView, envelope: u64) -> bool {
    next.pending.contains_key(envelope) && next.pending[envelope] == v.pending[envelope]
}

proof fn lemma_toggle_keeps_record(v: ModelView, idx: usize, kind: FlagKind, by_hand: bool, envelope: u64)
    requires
        v.pending.contains_key(envelope),
    ensures
        keeps_record(v, toggle_at(v, idx, kind, by_hand).model, envelope),
{
}

proof fn lemma_move_keeps_record(v: ModelView, idx: usize, account: usize, dest: u64, envelope: u64)
    requires
        v.pending.contains_key(envelope),
    ensures
        keeps_record(v, move_at(v, idx, account, dest).model, envelope),
{
}

proof fn lemma_body_keeps_record(v: ModelView, envelope: u64, message: Message)
    requires
        v.pending.contains_key(envelope),
        message is ViewBody || message is BodyDeferred || message is CachedBodyLoaded
            || message is BodyFetched || message is BodyLoaded || message is ActivateSelection,
    ensures
        keeps_record(v, step(v, message).model, envelope),
{
}

proof fn lemma_sync_keeps_record(v: ModelView, envelope: u64, message: Message)
    requires
        v.pending.contains_key(envelope),
        message is AccountConfigured || message is AccountConnected || message is CachedFoldersLoaded
            || message is SyncFoldersComplete || message is CachedMessagesLoaded
            || message is SyncMessagesComplete || message is MessagesLoaded || message is SelectFolder
            || message is LoadMoreMessages || message is ForceReconnect || message is Refresh,
    ensures
        keeps_record(v, step(v, message).model, envelope),
{
}

proof fn lemma_rest_keeps_record(v: ModelView, envelope: u64, message: Message)
    requires
        v.pending.contains_key(envelope),
        message is SelectionUp || message is SelectionDown || message is ToggleThreadCollapse
            || message is FolderDragEnter || message is FolderDragLeave || message is SetupOpened
            || message is SetupFieldChanged || message is SetupToggled || message is SetupChecked
            || message is SetupSaved || message is SetupCancel
            || message is ImapEvent || message is AccountRemove || message is ToggleAccountCollapse
            || message is Noop,
    ensures
        keeps_record(v, step(v, message).model, envelope),
{
}

/// A record is touched by nothing but the answer to its own operation: every
/// other event leaves it in place, as it is.
pub proof fn law_record_outlives_other_events(v: ModelView, envelope: u64, message: Message)
    requires
        v.pending.contains_key(envelope),
        !(message matches Message::FlagOpComplete { envelope_hash, .. } && envelope_hash == envelope),
        !(message matches Message::MoveOpComplete { envelope_hash, .. } && envelope_hash == envelope),
    ensures
        keeps_record(v, step(v, message).model, envelope),
{
    match message {
        Message::ToggleRead(row) => {
            let t = row_target(v.messages, v.collapsed_threads, row);
            if t is Some {
                lemma_toggle_keeps_record(v, t->0, FlagKind::Read, true, envelope);
            }
        },
        Message::ToggleStar(row) => {
            let t = row_target(v.messages, v.collapsed_threads, row);
            if t is Some {
                lemma_toggle_keeps_record(v, t->0, FlagKind::Starred, true, envelope);
            }
        },
        Message::AutoMarkRead(e) => {
            if v.selected_message is Some {
                let t = row_target(v.messages, v.collapsed_threads, v.selected_message->0);
                if t is Some {
                    lemma_toggle_keeps_record(v, t->0, FlagKind::Read, false, envelope);
                }
            }
        },
        Message::Trash(row) => {
            let t = row_target(v.messages, v.collapsed_threads, row);
            if t is Some {
                let a = owner_of_mailbox(v.accounts, v.messages[t->0 as int].mailbox_hash, 0);
                if a is Some {
                    let d = resolve_target(v.accounts[a->0 as int].folder_map, MoveTarget::Trash);
                    if d is Some {
                        lemma_move_keeps_record(v, t->0, a->0, d->0, envelope);
                    }
                }
            }
        },
        Message::Archive(row) => {
            let t = row_target(v.messages, v.collapsed_threads, row);
            if t is Some {
                let a = owner_of_mailbox(v.accounts, v.messages[t->0 as int].mailbox_hash, 0);
                if a is Some {
                    let d = resolve_target(v.accounts[a->0 as int].folder_map, MoveTarget::Archive);
                    if d is Some {
                        lemma_move_keeps_record(v, t->0, a->0, d->0, envelope);
                    }
                }
            }
        },
        Message::DragMessageToFolder { envelope_hash, source_mailbox, dest_mailbox } => {
            let w = ModelView { folder_drag_target: None, ..v };
            let t = find_envelope(w.messages, envelope_hash, 0);
            if t is Some {
                let a = owner_of_mailbox(w.accounts, source_mailbox, 0);
                if a is Some {
                    lemma_move_keeps_record(w, t->0, a->0, dest_mailbox, envelope);
                }
            }
        },
        Message::FlagOpComplete { envelope_hash, result } => {},
        Message::MoveOpComplete { envelope_hash, result } => {},
        Message::ViewBody(_) => lemma_body_keeps_record(v, envelope, message),
        Message::BodyDeferred => lemma_body_keeps_record(v, envelope, message),
        Message::CachedBodyLoaded { .. } => lemma_body_keeps_record(v, envelope, message),
        Message::BodyFetched { .. } => lemma_body_keeps_record(v, envelope, message),
        Message::BodyLoaded { .. } => lemma_body_keeps_record(v, envelope, message),
        Message::ActivateSelection => lemma_body_keeps_record(v, envelope, message),
        Message::SelectionUp => lemma_rest_keeps_record(v, envelope, message),
        Message::SelectionDown => lemma_rest_keeps_record(v, envelope, message),
        Message::ToggleThreadCollapse => lemma_rest_keeps_record(v, envelope, message),
        Message::ImapEvent(_, _) => lemma_rest_keeps_record(v, envelope, message),
        Message::AccountRemove(_) => lemma_rest_keeps_record(v, envelope, message),
        Message::ToggleAccountCollapse(_) => lemma_rest_keeps_record(v, envelope, message),
        Message::Noop => lemma_rest_keeps_record(v, envelope, message),
        Message::FolderDragEnter(_) => lemma_rest_keeps_record(v, envelope, message),
        Message::FolderDragLeave => lemma_rest_keeps_record(v, envelope, message),
        Message::SetupOpened(_) => lemma_rest_keeps_record(v, envelope, message),
        Message::SetupFieldChanged(_, _) => lemma_rest_keeps_record(v, envelope, message),
        Message::SetupToggled(_, _) => lemma_rest_keeps_record(v, envelope, message),
        Message::SetupChecked(_) => lemma_rest_keeps_record(v, envelope, message),
        Message::SetupSaved { .. } => lemma_rest_keeps_record(v, envelope, message),
        Message::SetupCancel => lemma_rest_keeps_record(v, envelope, message),
        _ => lemma_sync_keeps_record(v, envelope, message),
    }
}

/// Read, fetch-and-store, read again: once the fetch of the folder on display
/// has been stored, the model asks the cache for the first page, and the page
/// that comes back is the list, with nothing of the earlier list left in it.
pub proof fn law_list_is_what_was_stored(
    v: ModelView,
    account_id: String,
    generation: u64,
    mailbox_hash: u64,
    stored: Vec<MessageSummary>,
)
    requires
        representable(v),
        v.cache_available,
        find_account(v.accounts, account_id@, 0) matches Some(i) && v.accounts[i as int].session
            == Some(generation) && v.active_account == Some(i),
        crate::registry::selected_mailbox(v) == Some(mailbox_hash),
    ensures
        ({
            let synced = messages_synced_step(v, account_id, generation, mailbox_hash, Ok(()));
            let shown = cached_messages_step(synced.model, account_id, mailbox_hash, 0, Ok(stored));
            &&& synced.effects.len() == 1
            &&& synced.effects[0] matches Effect::LoadCachedMessages { mailbox_hash: m, offset, limit, .. }
                && m == mailbox_hash && offset == 0 && limit == DEFAULT_PAGE_SIZE
            &&& shown.model.messages == stored@
        }),
{
    lemma_find_account(v.accounts, account_id@, 0);
    let i = find_account(v.accounts, account_id@, 0)->0;
    let synced = messages_synced_step(v, account_id, generation, mailbox_hash, Ok(()));
    assert(synced.model.accounts[i as int].config == v.accounts[i as int].config);
    assert(synced.model.accounts[i as int].folders == v.accounts[i as int].folders);
    assert(page_is_current(synced.model, account_id@, mailbox_hash, 0));
}

/// Folding a thread and unfolding it again gives back the collapsed set and
/// the visible rows.
pub proof fn law_collapse_twice(v: ModelView, thread: u64)
    ensures
        collapse_thread(collapse_thread(v, thread), thread).collapsed_threads == v.collapsed_threads,
        visible_rows(
            v.messages,
            collapse_thread(collapse_thread(v, thread), thread).collapsed_threads,
        ) == visible_rows(v.messages, v.collapsed_threads),
        collapse_thread(collapse_thread(v, thread), thread).messages == v.messages,
{
    lemma_toggle_twice(v.collapsed_threads, thread);
}

/// The number of messages that a read of one page returns when `remaining`
/// messages lie at or behind its offset.
pub open spec fn page_len(remaining: nat) -> nat {
    if remaining < DEFAULT_PAGE_SIZE {
        remaining
    } else {
        DEFAULT_PAGE_SIZE as nat
    }
}

/// After a page has been applied, more can be asked for iff the page was
/// full: with more than a page remaining there is more, with less than a page
/// there is not.
pub proof fn law_has_more(
    v: ModelView,
    account_id: String,
    mailbox_hash: u64,
    offset: u32,
    page: Vec<MessageSummary>,
    remaining: nat,
)
    requires
        page_is_current(v, account_id@, mailbox_hash, offset),
        page@.len() == page_len(remaining),
        remaining != DEFAULT_PAGE_SIZE,
    ensures
        cached_messages_step(v, account_id, mailbox_hash, offset, Ok(page)).model.has_more_messages
            == (remaining > DEFAULT_PAGE_SIZE),
{
}

/// Two syncs in a row: the path map is that of the second list alone, and a
/// path that only the first list had is gone.
pub proof fn law_resync_leaves_no_stale_path(
    v: ModelView,
    account_id: String,
    generation: u64,
    first: Vec<Folder>,
    second: Vec<Folder>,
    path: Seq<char>,
)
    requires
        representable(v),
        find_account(v.accounts, account_id@, 0) is Some,
        v.accounts[find_account(v.accounts, account_id@, 0)->0 as int].session == Some(generation),
        !folder_paths(second@).contains(path),
    ensures
        ({
            let i = find_account(v.accounts, account_id@, 0)->0 as int;
            let once = folders_synced_step(v, account_id, generation, Ok(first)).model;
            let twice = folders_synced_step(once, account_id, generation, Ok(second)).model;
            &&& twice.accounts[i].folder_map == folder_map_of(second@)
            &&& !twice.accounts[i].folder_map.contains_key(path)
        }),
{
    lemma_find_account(v.accounts, account_id@, 0);
    let i = find_account(v.accounts, account_id@, 0)->0 as int;
    let once = folders_synced_step(v, account_id, generation, Ok(first)).model;
    assert(once.accounts.len() == v.accounts.len());
    assert forall|j: int| 0 <= j < once.accounts.len() implies (#[trigger] once.accounts[j]).config
        == v.accounts[j].config by {}
    lemma_same_ids_same_account(v.accounts, once.accounts, account_id@, 0);
    lemma_folder_map_dom(second@);
}

proof fn lemma_same_ids_same_account(a: Seq<AccountView>, b: Seq<AccountView>, id: Seq<char>, from: int)
    requires
        0 <= from,
        a.len() == b.len(),
        forall|j: int| 0 <= j < a.len() ==> (#[trigger] b[j]).config == a[j].config,
    ensures
        find_account(a, id, from) == find_account(b, id, from),
    decreases a.len() - from,
{
    if from < a.len() {
        assert(b[from].config == a[from].config);
        lemma_same_ids_same_account(a, b, id, from + 1);
    }
}

/// An answer that carries the number of a session that is no longer the
/// account's live one changes nothing, whatever it says.
pub proof fn law_stale_answers_are_dropped(
    v: ModelView,
    account_id: String,
    generation: u64,
    mailbox_hash: u64,
    folders: Result<Vec<Folder>, String>,
    synced: Result<(), String>,
    list: Result<Vec<MessageSummary>, String>,
)
    requires
        representable(v),
        find_account(v.accounts, account_id@, 0) matches Some(i) ==> v.accounts[i as int].session
            != Some(generation),
    ensures
        folders_synced_step(v, account_id, generation, folders).model == v,
        folders_synced_step(v, account_id, generation, folders).effects.len() == 0,
        messages_synced_step(v, account_id, generation, mailbox_hash, synced).model == v,
        messages_synced_step(v, account_id, generation, mailbox_hash, synced).effects.len() == 0,
        messages_loaded_step(v, account_id, generation, mailbox_hash, list).model == v,
        messages_loaded_step(v, account_id, generation, mailbox_hash, list).effects.len() == 0,
{
}

/// The outcome of a connection attempt that is not the account's latest
/// changes nothing; and after a reconnect the attempt that was the latest
/// before is not the latest any more.
pub proof fn law_reconnect_outdates_the_old_attempt(v: ModelView, account_id: String, result: Result<(), String>)
    requires
        representable(v),
        find_account(v.accounts, account_id@, 0) is Some,
        force_reconnect_step(v, account_id).effects.len() > 0,
    ensures
        ({
            let i = find_account(v.accounts, account_id@, 0)->0 as int;
            let old = v.accounts[i].generation;
            let after = force_reconnect_step(v, account_id).model;
            &&& after.accounts[i].generation != old
            &&& after.accounts[i].session is None
            &&& after.accounts[i].conn_state == crate::types::ConnectionState::Connecting
            &&& after.accounts[i].folders == v.accounts[i].folders
            &&& connected_step(after, account_id, old, result).model == after
            &&& connected_step(after, account_id, old, result).effects.len() == 0
        }),
{
    lemma_find_account(v.accounts, account_id@, 0);
    let i = find_account(v.accounts, account_id@, 0)->0 as int;
    let after = force_reconnect_step(v, account_id).model;
    assert forall|j: int| 0 <= j < after.accounts.len() implies (#[trigger] after.accounts[j]).config
        == v.accounts[j].config by {}
    lemma_same_ids_same_account(v.accounts, after.accounts, account_id@, 0);
}

/// A page that was read for another folder, another account or another
/// offset than the one on display is dropped.
pub proof fn law_stale_pages_are_dropped(
    v: ModelView,
    account_id: String,
    mailbox_hash: u64,
    offset: u32,
    result: Result<Vec<MessageSummary>, String>,
)
    requires
        !page_is_current(v, account_id@, mailbox_hash, offset),
    ensures
        cached_messages_step(v, account_id, mailbox_hash, offset, result).model == v,
        cached_messages_step(v, account_id, mailbox_hash, offset, result).effects.len() == 0,
{
}

/// A folder switch empties the list and the preview, forgets the selected
/// message and puts the offset back to zero in the same step, before any
/// answer can arrive.
pub proof fn law_folder_switch_clears_at_once(v: ModelView, account: usize, folder: usize)
    requires
        account < v.accounts.len(),
        folder < v.accounts[account as int].folders.len(),
    ensures
        ({
            let after = select_folder_step(v, account, folder).model;
            &&& after.messages.len() == 0
            &&& after.selected_message is None
            &&& after.preview == crate::types::Preview::Empty
            &&& after.messages_offset == 0
            &&& !after.has_more_messages
            &&& after.active_account == Some(account)
            &&& after.selected_folder == Some(folder)
        }),
{
}

/// A change that cannot be routed is refused before anything is changed: a
/// toggle or a move of a message whose mailbox no account owns leaves the
/// list and the records alone and asks for no work.
pub proof fn law_unroutable_change_is_refused(v: ModelView, row: usize, kind: FlagKind, target: MoveTarget)
    requires
        row_target(v.messages, v.collapsed_threads, row) matches Some(idx) && owner_of_mailbox(
            v.accounts,
            v.messages[idx as int].mailbox_hash,
            0,
        ) is None,
    ensures
        toggle_step(v, row, kind).model.messages == v.messages,
        toggle_step(v, row, kind).model.pending == v.pending,
        toggle_step(v, row, kind).effects.len() == 0,
        move_step(v, row, target).model.messages == v.messages,
        move_step(v, row, target).model.pending == v.pending,
        move_step(v, row, target).effects.len() == 0,
{
}

/// A move to a folder that the owning account does not have is refused
/// before anything is changed.
pub proof fn law_move_without_target_is_refused(v: ModelView, row: usize, target: MoveTarget)
    requires
        row_target(v.messages, v.collapsed_threads, row) matches Some(idx) && (owner_of_mailbox(
            v.accounts,
            v.messages[idx as int].mailbox_hash,
            0,
        ) matches Some(a) && resolve_target(v.accounts[a as int].folder_map, target) is None),
    ensures
        move_step(v, row, target).model == (ModelView { status: missing_target(target), ..v }),
        move_step(v, row, target).effects.len() == 0,
{
}

/// A push event that names an envelope with a pending change is suppressed
/// whole: the model stays as it is and no work is asked for.
pub proof fn law_watch_yields_to_pending(
    v: ModelView,
    account_id: String,
    mailbox_hash: u64,
    envelope_hash: u64,
    flags: u8,
)
    requires
        v.pending.contains_key(envelope_hash),
    ensures
        watch_step(
            v,
            account_id,
            ImapWatchEvent::FlagsChanged { mailbox_hash, envelope_hash, flags },
        ).model == v,
        watch_step(
            v,
            account_id,
            ImapWatchEvent::FlagsChanged { mailbox_hash, envelope_hash, flags },
        ).effects.len() == 0,
        watch_step(v, account_id, ImapWatchEvent::MessageRemoved { mailbox_hash, envelope_hash }).model
            == v,
        watch_step(
            v,
            account_id,
            ImapWatchEvent::MessageRemoved { mailbox_hash, envelope_hash },
        ).effects.len() == 0,
{
}

/// The end or the failure of a push stream leaves every account's connection
/// state and session as they are.
pub proof fn law_watch_end_keeps_connection(v: ModelView, account_id: String, reason: String, j: int)
    requires
        representable(v),
        0 <= j < v.accounts.len(),
    ensures
        ({
            let ended = watch_step(v, account_id, ImapWatchEvent::WatchEnded).model;
            let failed = watch_step(v, account_id, ImapWatchEvent::WatchError(reason)).model;
            &&& ended.accounts.len() == v.accounts.len()
            &&& failed.accounts.len() == v.accounts.len()
            &&& ended.accounts[j].conn_state == v.accounts[j].conn_state
            &&& ended.accounts[j].session == v.accounts[j].session
            &&& failed.accounts[j].conn_state == v.accounts[j].conn_state
            &&& failed.accounts[j].session == v.accounts[j].session
        }),
{
    lemma_find_account(v.accounts, account_id@, 0);
}

/// A move that was sent to the server and failed there puts the message back
/// at the place it was taken from: the list is exactly as before the move,
/// no record is left, and the cache row is asked to be put back.
pub proof fn law_failed_move_restores_list(
    v: ModelView,
    idx: usize,
    account: usize,
    dest: u64,
    reason: String,
)
    requires
        representable(v),
        idx < v.messages.len(),
        account < v.accounts.len(),
        v.accounts[account as int].session is Some,
        !v.pending.contains_key(v.messages[idx as int].envelope_hash),
        shows(v, v.accounts[account as int].config.id@, v.messages[idx as int].mailbox_hash),
    ensures
        ({
            let envelope = v.messages[idx as int].envelope_hash;
            let moved = move_at(v, idx, account, dest);
            let settled = move_complete_step(moved.model, envelope, Err(reason));
            &&& moved.model.messages == v.messages.remove(idx as int)
            &&& moved.model.pending.contains_key(envelope)
            &&& settled.model.messages == v.messages
            &&& settled.model.pending == v.pending
            &&& settled.model.status == crate::types::Status::MoveFailed(reason)
            &&& v.cache_available ==> settled.effects.len() == 1 && settled.effects[0] is RevertPending
        }),
{
    let envelope = v.messages[idx as int].envelope_hash;
    let moved = move_at(v, idx, account, dest);
    let settled = move_complete_step(moved.model, envelope, Err(reason));
    assert(shows(moved.model, v.accounts[account as int].config.id@, v.messages[idx as int].mailbox_hash));
    assert(settled.model.messages =~= v.messages);
    assert(settled.model.pending =~= v.pending);
}

/// A failed connection attempt puts the account into the error state and
/// takes nothing away: the folders of every account and the list on display
/// stay as they are.
pub proof fn law_connection_failure_keeps_cache(
    v: ModelView,
    account_id: String,
    generation: u64,
    reason: String,
    j: int,
)
    requires
        representable(v),
        find_account(v.accounts, account_id@, 0) matches Some(i) && v.accounts[i as int].generation
            == generation,
        0 <= j < v.accounts.len(),
    ensures
        ({
            let i = find_account(v.accounts, account_id@, 0)->0 as int;
            let failed = connected_step(v, account_id, generation, Err(reason));
            &&& failed.effects.len() == 0
            &&& failed.model.messages == v.messages
            &&& failed.model.accounts.len() == v.accounts.len()
            &&& failed.model.accounts[j].folders == v.accounts[j].folders
            &&& failed.model.accounts[j].folder_map == v.accounts[j].folder_map
            &&& failed.model.accounts[i].conn_state == crate::types::ConnectionState::Error(reason)
            &&& failed.model.accounts[i].session is None
        }),
{
    lemma_find_account(v.accounts, account_id@, 0);
}

/// A failed read of the cache changes nothing and asks for nothing: the
/// model goes on with what the network gives it.
pub proof fn law_cache_errors_are_swallowed(
    v: ModelView,
    account_id: String,
    mailbox_hash: u64,
    offset: u32,
    reason: String,
)
    ensures
        cached_folders_step(v, account_id, Err(reason)).model == v,
        cached_folders_step(v, account_id, Err(reason)).effects.len() == 0,
        cached_messages_step(v, account_id, mailbox_hash, offset, Err(reason)).model == v,
        cached_messages_step(v, account_id, mailbox_hash, offset, Err(reason)).effects.len() == 0,
{
}

/// A configuration that could not be written out changes no account and
/// starts no connection: the dialog stays open and reports the failure.
pub proof fn law_failed_save_keeps_accounts(v: ModelView, config: AccountConfig, reason: String)
    ensures
        ({
            let failed = setup_saved_step(v, config, Err(reason));
            &&& failed.effects.len() == 0
            &&& failed.model.accounts == v.accounts
            &&& failed.model.status == v.status
            &&& failed.model.messages == v.messages
            &&& v.setup matches Some(form) ==> failed.model.setup == Some(
                with_report(form, SetupFault::SaveFailed(reason)),
            )
        }),
{
}

/// A form with a fault changes nothing but the report in the dialog, and a
/// form without one changes nothing at all until it has been saved.
pub proof fn law_checked_form_waits_for_the_save(v: ModelView, outcome: Result<AccountConfig, SetupError>)
    ensures
        ({
            let checked = setup_checked_step(v, outcome);
            &&& checked.model.accounts == v.accounts
            &&& checked.model.status == v.status
            &&& outcome is Err ==> checked.effects.len() == 0
            &&& outcome is Ok ==> checked.model == v
        }),
{
}

/// Giving the set-up up closes the dialog and tells what is left; accounts,
/// list and records stay as they are and no work is asked for.
pub proof fn law_cancel_closes_the_dialog(v: ModelView)
    ensures
        ({
            let cancelled = setup_cancel_step(v);
            &&& cancelled.effects.len() == 0
            &&& cancelled.model.setup is None
            &&& cancelled.model.accounts == v.accounts
            &&& cancelled.model.messages == v.messages
            &&& cancelled.model.pending == v.pending
            &&& v.accounts.len() == 0 ==> cancelled.model.status == Status::NotConnectedNoCache
            &&& v.accounts.len() > 0 ==> cancelled.model.status is FoldersOfflineCached
        }),
{
}

} // verus!
