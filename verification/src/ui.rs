//! The texts and choices of the three panes, as values: what a widget tree
//! would show, without the widgets.

use vstd::prelude::*;
use crate::models::{Folder, MessageSummary};
use crate::text::{decimal_chars, decimal_string, join2, join3};
use crate::types::ConnectionState;

verus! {

/// The connection pill at the foot of the sidebar.
#[derive(Debug, PartialEq, Eq)]
pub struct StatusPill {
    pub label: String,
    /// Whether a click on the pill asks for a reconnect.
    pub clickable: bool,
}

/// The text of the connection pill.
pub open spec fn pill_label(state: ConnectionState) -> Seq<char> {
    match state {
        ConnectionState::Connected => "● Connected"@,
        ConnectionState::Connecting => "◌ Connecting..."@,
        ConnectionState::Syncing => "◌ Syncing..."@,
        ConnectionState::Error(reason) => "● Offline — "@ + reason@,
        ConnectionState::Disconnected => "○ Disconnected"@,
    }
}

/// The pill can be clicked unless a connection or a sync is under way.
pub open spec fn pill_clickable(state: ConnectionState) -> bool {
    state is Connected || state is Error || state is Disconnected
}

/// The text of a folder's row in the sidebar: the name, and the unread count
/// in brackets if there is unread mail.
pub open spec fn folder_label_text(folder: Folder) -> Seq<char> {
    if folder.unread_count > 0 {
        folder.name@ + " ("@ + decimal_chars(folder.unread_count as nat) + ")"@
    } else {
        folder.name@
    }
}

/// The second line of a message's row: sender and date.
pub open spec fn message_meta_text(message: MessageSummary) -> Seq<char> {
    message.from@ + " — "@ + message.date@
}

/// The dialog that lies over the window.
#[derive(Debug, Clone, Copy, PartialEq, Eq, Structural)]
pub enum Dialog {
    Nothing,
    Setup,
    Compose,
}

/// The dialog on top: the set-up dialog goes before the composer.
pub open spec fn dialog_shown(setup_open: bool, compose_open: bool) -> Dialog {
    if setup_open {
        Dialog::Setup
    } else if compose_open {
        Dialog::Compose
    } else {
        Dialog::Nothing
    }
}

/// The title of the set-up dialog.
pub open spec fn setup_title_text(password_only: bool) -> Seq<char> {
    if password_only {
        "Enter Password"@
    } else {
        "Account Setup"@
    }
}

/// What the message pane shows for a body: the body, or a hint if it is empty.
pub open spec fn preview_text(body: Seq<char>) -> Seq<char> {
    if body.len() == 0 {
        "Select a message to read"@
    } else {
        body
    }
}

/// Builds the connection pill for an account's connection state.
pub fn status_pill_view(conn_state: &ConnectionState) -> (r: StatusPill)
    ensures
        r.label@ == pill_label(*conn_state),
        r.clickable == pill_clickable(*conn_state),
{
    match conn_state {
        ConnectionState::Connected => StatusPill { label: "● Connected".to_owned(), clickable: true },
        ConnectionState::Connecting => StatusPill {
            label: "◌ Connecting...".to_owned(),
            clickable: false,
        },
        ConnectionState::Syncing => StatusPill { label: "◌ Syncing...".to_owned(), clickable: false },
        ConnectionState::Error(reason) => StatusPill {
            label: join2("● Offline — ", reason.as_str()),
            clickable: true,
        },
        ConnectionState::Disconnected => StatusPill {
            label: "○ Disconnected".to_owned(),
            clickable: true,
        },
    }
}

/// The text of a folder's row in the sidebar.
pub fn folder_label(folder: &Folder) -> (r: String)
    ensures
        r@ == folder_label_text(*folder),
{
    if folder.unread_count > 0 {
        let count = decimal_string(folder.unread_count as u64);
        let head = join3(folder.name.as_str(), " (", count.as_str());
        join2(head.as_str(), ")")
    } else {
        folder.name.clone()
    }
}

/// The second line of a message's row in the list.
pub fn message_meta(message: &MessageSummary) -> (r: String)
    ensures
        r@ == message_meta_text(*message),
{
    join3(message.from.as_str(), " — ", message.date.as_str())
}

/// Chooses the dialog that lies over the window.
pub fn dialog(setup_open: bool, compose_open: bool) -> (r: Dialog)
    ensures
        r == dialog_shown(setup_open, compose_open),
{
    if setup_open {
        Dialog::Setup
    } else if compose_open {
        Dialog::Compose
    } else {
        Dialog::Nothing
    }
}

/// The title of the set-up dialog.
pub fn setup_title(password_only: bool) -> (r: String)
    ensures
        r@ == setup_title_text(password_only),
{
    if password_only {
        "Enter Password".to_owned()
    } else {
        "Account Setup".to_owned()
    }
}

/// What the message pane shows for a body.
pub fn preview_or_hint(body: &str) -> (r: String)
    ensures
        r@ == preview_text(body@),
{
    if body.is_empty() {
        "Select a message to read".to_owned()
    } else {
        body.to_owned()
    }
}

/// One folder row of the sidebar.
#[derive(Debug, PartialEq, Eq)]
pub struct FolderRow {
    pub label: String,
    /// The mailbox that a message dropped on the row is moved to.
    pub mailbox_hash: u64,
    /// Whether a dragged message hovers over the row.
    pub drop_target: bool,
}

/// One row of the message list.
#[derive(Debug, PartialEq, Eq)]
pub struct MessageRow {
    /// The index of the row's message in the list.
    pub index: usize,
    pub subject: String,
    pub meta: String,
    pub selected: bool,
    /// For the root of a collapsed thread, the number of hidden messages.
    pub hidden_in_thread: usize,
}

/// Whether a folder row is what the sidebar shows for the folder at `index`.
pub open spec fn is_folder_row(row: FolderRow, folder: Folder, index: int, drag_target: Option<usize>) -> bool {
    &&& row.label@ == folder_label_text(folder)
    &&& row.mailbox_hash == folder.mailbox_hash
    &&& row.drop_target == (drag_target == Some(index as usize))
}

/// The number of messages that the row of a message stands for besides
/// itself: for the root of a collapsed thread the rest of the thread, else none.
pub open spec fn hidden_count(
    message: MessageSummary,
    collapsed: Set<u64>,
    sizes: Map<u64, usize>,
) -> usize {
    match message.thread_id {
        Some(t) => if message.thread_depth == 0 && collapsed.contains(t) && sizes.contains_key(t)
            && sizes[t] > 0 {
            (sizes[t] - 1) as usize
        } else {
            0
        },
        None => 0,
    }
}

/// The rows of the sidebar for a folder list: one per folder, in order.
pub fn sidebar_rows(folders: &Vec<Folder>, drag_target: Option<usize>) -> (rows: Vec<FolderRow>)
    ensures
        rows@.len() == folders@.len(),
        forall|i: int| 0 <= i < rows@.len() ==> is_folder_row(#[trigger] rows@[i], folders@[i], i, drag_target),
{
    let mut rows: Vec<FolderRow> = Vec::new();
    let mut i: usize = 0;
    while i < folders.len()
        invariant
            i <= folders@.len(),
            rows@.len() == i,
            forall|j: int| 0 <= j < i ==> is_folder_row(#[trigger] rows@[j], folders@[j], j, drag_target),
        decreases folders@.len() - i,
    {
        let drop_target = match drag_target {
            Some(t) => t == i,
            None => false,
        };
        rows.push(
            FolderRow {
                label: folder_label(&folders[i]),
                mailbox_hash: folders[i].mailbox_hash,
                drop_target,
            },
        );
        i += 1;
    }
    rows
}

/// The rows of the sidebar for the account at `index`, with the row marked
/// that a dragged message hovers over; no rows if there is no such account.
pub fn account_rows(model: &crate::types::AppModel, index: usize) -> (rows: Vec<FolderRow>)
    ensures
        index >= model.accounts@.len() ==> rows@.len() == 0,
        index < model.accounts@.len() ==> {
            let folders = model.accounts@[index as int].folders@;
            &&& rows@.len() == folders.len()
            &&& forall|i: int|
                0 <= i < rows@.len() ==> is_folder_row(
                    #[trigger] rows@[i],
                    folders[i],
                    i,
                    model.folder_drag_target,
                )
        },
{
    if index < model.accounts.len() {
        sidebar_rows(&model.accounts[index].folders, model.folder_drag_target)
    } else {
        Vec::new()
    }
}

/// The rows of the message list: one per visible row, in order.
pub fn message_rows(model: &crate::types::AppModel) -> (rows: Vec<MessageRow>)
    ensures
        rows@.len() == crate::threads::visible_rows(model@.messages, model@.collapsed_threads).len(),
        forall|k: int|
            0 <= k < rows@.len() ==> {
                let index = crate::threads::visible_rows(model@.messages, model@.collapsed_threads)[k];
                let message = model@.messages[index as int];
                &&& (#[trigger] rows@[k]).index == index
                &&& rows@[k].subject == message.subject
                &&& rows@[k].meta@ == message_meta_text(message)
                &&& rows@[k].selected == (model@.selected_message == Some(k as usize))
                &&& rows@[k].hidden_in_thread == hidden_count(
                    message,
                    model@.collapsed_threads,
                    crate::threads::thread_sizes_of(model@.messages),
                )
            },
{
    let visible = model.visible_indices();
    let sizes = model.thread_sizes();
    let mut rows: Vec<MessageRow> = Vec::new();
    let mut k: usize = 0;
    while k < visible.len()
        invariant
            k <= visible@.len(),
            rows@.len() == k,
            visible@ == crate::threads::visible_rows(model@.messages, model@.collapsed_threads),
            sizes@ == crate::threads::thread_sizes_of(model@.messages),
            forall|j: int| 0 <= j < visible@.len() ==> (#[trigger] visible@[j]) < model.messages@.len(),
            forall|j: int|
                0 <= j < k ==> {
                    let index = visible@[j];
                    let message = model@.messages[index as int];
                    &&& (#[trigger] rows@[j]).index == index
                    &&& rows@[j].subject == message.subject
                    &&& rows@[j].meta@ == message_meta_text(message)
                    &&& rows@[j].selected == (model@.selected_message == Some(j as usize))
                    &&& rows@[j].hidden_in_thread == hidden_count(
                        message,
                        model@.collapsed_threads,
                        sizes@,
                    )
                },
        decreases visible@.len() - k,
    {
        let index = visible[k];
        let message = &model.messages[index];
        let hidden_in_thread: usize = match message.thread_id {
            Some(t) => {
                if message.thread_depth == 0 && model.collapsed_threads.contains(&t) {
                    match sizes.get(&t) {
                        Some(n) => if *n > 0 {
                            *n - 1
                        } else {
                            0
                        },
                        None => 0,
                    }
                } else {
                    0
                }
            },
            None => 0,
        };
        let selected = match model.selected_message {
            Some(s) => s == k,
            None => false,
        };
        rows.push(
            MessageRow {
                index,
                subject: message.subject.clone(),
                meta: message_meta(message),
                selected,
                hidden_in_thread,
            },
        );
        k += 1;
    }
    rows
}

} // verus!
