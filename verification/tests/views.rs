use nevermail::flags::{flags_from_u8, flags_to_u8, FLAG_READ, FLAG_STARRED};
use nevermail::folder_map::FolderMap;
use nevermail::models::{AttachmentData, Folder, MessageSummary};
use nevermail::registry::{envelope_index, folder_index, folders_have_mailbox};
use nevermail::startup::Subscription;
use nevermail::status::counted_text;
use nevermail::text::{find_byte, join2, join3, same_text, text_is};
use nevermail::types::{
    AccountConfig, AccountState, AppModel, ConnectionState, ImapWatchEvent, Message, PaneKind,
    SmtpOverrides,
    Status,
};
use nevermail::ui::{
    folder_label, message_meta, preview_or_hint, setup_title, status_pill_view, StatusPill,
};

fn named(name: &str, path: &str, unread_count: u32, mailbox_hash: u64) -> Folder {
    Folder { name: name.to_string(), path: path.to_string(), unread_count, total_count: 9, mailbox_hash }
}

fn attachment(mime_type: &str) -> AttachmentData {
    AttachmentData { filename: "f".to_string(), mime_type: mime_type.to_string(), data: vec![1, 2] }
}

fn account(id: &str) -> AccountConfig {
    AccountConfig {
        id: id.to_string(),
        label: id.to_string(),
        imap_server: "s".to_string(),
        imap_port: 993,
        username: "u".to_string(),
        use_starttls: false,
        email_addresses: Vec::new(),
        smtp_overrides: SmtpOverrides { server: None, port: None, username: None, use_starttls: None },
    }
}

#[test]
fn image_attachments_are_known_by_their_type() {
    assert!(attachment("image/png").is_image());
    assert!(attachment("IMAGE/JPEG").is_image());
    assert!(attachment("Image/").is_image());
    assert!(!attachment("image").is_image());
    assert!(!attachment("").is_image());
    assert!(!attachment("text/image/png").is_image());
    assert!(!attachment("application/pdf").is_image());
    assert!(!attachment("ımage/png").is_image());
    for t in ["image/gif", "imagE/x", "video/mp4", "imag", "İmage/png"] {
        assert_eq!(
            attachment(t).is_image(),
            t.to_ascii_lowercase().starts_with("image/"),
            "{:?}",
            t
        );
    }
}

#[test]
fn flag_byte_packs_read_and_starred() {
    assert_eq!(flags_to_u8(false, false), 0);
    assert_eq!(flags_to_u8(true, false), 1);
    assert_eq!(flags_to_u8(false, true), 2);
    assert_eq!(flags_to_u8(true, true), 3);
    assert_eq!((FLAG_READ, FLAG_STARRED), (1, 2));
    for r in [false, true] {
        for s in [false, true] {
            assert_eq!(flags_from_u8(flags_to_u8(r, s)), (r, s));
        }
    }
    // Other bits are ignored.
    assert_eq!(flags_from_u8(0b1111_1101), (true, false));
    assert_eq!(flags_from_u8(0b0000_0110), (false, true));
}

#[test]
fn folder_map_last_path_wins() {
    let folders = vec![named("A", "x", 0, 1), named("B", "y", 0, 2), named("C", "x", 0, 3)];
    let map = FolderMap::from_folders(&folders);
    assert_eq!(map.get("x"), Some(3));
    assert_eq!(map.get("y"), Some(2));
    assert_eq!(map.get("z"), None);
    assert_eq!(map.get(""), None);
    assert_eq!(FolderMap::new().get("x"), None);
    assert_eq!(FolderMap::from_folders(&Vec::new()).get("x"), None);
}

#[test]
fn account_state_rebuilds_its_map_from_its_folders() {
    let mut a = AccountState::new(account("a"));
    assert_eq!(a.conn_state, ConnectionState::Disconnected);
    assert_eq!(a.session, None);
    assert!(a.folders.is_empty());
    assert!(!a.collapsed);
    a.folders = vec![named("Inbox", "INBOX", 2, 7)];
    assert_eq!(a.folder_map.get("INBOX"), None);
    a.rebuild_folder_map();
    assert_eq!(a.folder_map.get("INBOX"), Some(7));
    a.folders = vec![named("Sent", "Sent", 0, 8)];
    a.rebuild_folder_map();
    assert_eq!(a.folder_map.get("INBOX"), None);
    assert_eq!(a.folder_map.get("Sent"), Some(8));
}

#[test]
fn lookups_take_the_first_match() {
    let folders = vec![named("A", "x", 0, 1), named("B", "y", 0, 2), named("C", "x", 0, 3)];
    assert_eq!(folder_index(&folders, "x"), Some(0));
    assert_eq!(folder_index(&folders, "y"), Some(1));
    assert_eq!(folder_index(&folders, "q"), None);
    assert!(folders_have_mailbox(&folders, 3));
    assert!(!folders_have_mailbox(&folders, 4));
    let list: Vec<MessageSummary> = Vec::new();
    assert_eq!(envelope_index(&list, 1), None);
    assert_eq!(find_byte(b"a,b,c", b','), Some(1));
    assert_eq!(find_byte(b"abc", b','), None);
    assert!(same_text("a", "a") && !same_text("a", "b") && !same_text("a", "ab"));
    assert!(text_is(&"é".to_string(), "é"));
    assert_eq!(join2("a", "b"), "ab");
    assert_eq!(join3("a", "", "c"), "ac");
}

#[test]
fn status_pill_follows_the_connection_state() {
    assert_eq!(
        status_pill_view(&ConnectionState::Connected),
        StatusPill { label: "● Connected".to_string(), clickable: true }
    );
    assert_eq!(
        status_pill_view(&ConnectionState::Connecting),
        StatusPill { label: "◌ Connecting...".to_string(), clickable: false }
    );
    assert_eq!(
        status_pill_view(&ConnectionState::Syncing),
        StatusPill { label: "◌ Syncing...".to_string(), clickable: false }
    );
    assert_eq!(
        status_pill_view(&ConnectionState::Error("timeout".to_string())),
        StatusPill { label: "● Offline — timeout".to_string(), clickable: true }
    );
    assert_eq!(
        status_pill_view(&ConnectionState::Disconnected),
        StatusPill { label: "○ Disconnected".to_string(), clickable: true }
    );
    let e = ConnectionState::Error("x".to_string());
    assert_eq!(e.clone(), e);
    assert_eq!(PaneKind::Sidebar, PaneKind::Sidebar);
    assert_ne!(PaneKind::MessageList, PaneKind::MessageView);
}

#[test]
fn row_texts() {
    assert_eq!(folder_label(&named("Inbox", "INBOX", 12, 1)), "Inbox (12)");
    assert_eq!(folder_label(&named("Inbox", "INBOX", 0, 1)), "Inbox");
    assert_eq!(folder_label(&named("Big", "Big", u32::MAX, 1)), "Big (4294967295)");
    let m = MessageSummary {
        uid: 1,
        subject: "s".to_string(),
        from: "alice".to_string(),
        date: "today".to_string(),
        is_read: false,
        is_starred: false,
        has_attachments: false,
        thread_id: None,
        envelope_hash: 1,
        timestamp: 0,
        mailbox_hash: 1,
        message_id: String::new(),
        in_reply_to: Some("x".to_string()),
        reply_to: None,
        thread_depth: 0,
    };
    assert_eq!(message_meta(&m), "alice — today");
    assert_eq!(m.clone(), m);
    assert_eq!(setup_title(true), "Enter Password");
    assert_eq!(setup_title(false), "Account Setup");
    assert_eq!(preview_or_hint(""), "Select a message to read");
    assert_eq!(preview_or_hint("body"), "body");
    let f = named("Inbox", "INBOX", 12, 1);
    assert_eq!(f.clone(), f);
}

#[test]
fn status_texts() {
    assert_eq!(Status::StartingUp.text(), "Starting up...");
    assert_eq!(Status::ConnectedLoadingFolders.text(), "Connected. Loading folders...");
    assert_eq!(Status::FoldersCached(3).text(), "3 folders (cached)");
    assert_eq!(Status::FoldersSyncing(10).text(), "10 folders (syncing...)");
    assert_eq!(Status::Folders(0).text(), "0 folders");
    assert_eq!(Status::FoldersFailed("x".to_string()).text(), "Failed to load folders: x");
    assert_eq!(Status::MessagesSynced(120).text(), "120 messages (synced)");
    assert_eq!(Status::SyncFailed("x".to_string()).text(), "Sync failed: x");
    assert_eq!(Status::Refreshing.text(), "Refreshing...");
    assert_eq!(Status::LoadingMessage.text(), "Loading message...");
    assert_eq!(Status::Ready.text(), "Ready");
    assert_eq!(Status::ErrorLoadingMessage.text(), "Error loading message");
    assert_eq!(Status::NotConnected.text(), "Not connected");
    assert_eq!(Status::ArchiveNotFound.text(), "Archive folder not found");
    assert_eq!(
        Status::MutationPending.text(),
        "Another change to this message is still in progress"
    );
    assert_eq!(counted_text(usize::MAX, "!"), format!("{}!", usize::MAX));
    assert_eq!(counted_text(1000, ""), "1000");
}

#[test]
fn subscriptions_follow_the_sessions() {
    let (mut model, _) = AppModel::with_accounts(true, vec![account("a"), account("b"), account("c")]);
    assert!(model.subscriptions().is_empty());
    model.update(Message::AccountConnected {
        account_id: "b".to_string(),
        generation: 1,
        result: Ok(()),
    });
    assert_eq!(
        model.subscriptions(),
        vec![
            Subscription::Watch { index: 1, account_id: "b".to_string() },
            Subscription::PeriodicRefresh,
        ]
    );
    model.update(Message::AccountConnected {
        account_id: "a".to_string(),
        generation: 1,
        result: Ok(()),
    });
    assert_eq!(
        model.subscriptions(),
        vec![
            Subscription::Watch { index: 0, account_id: "a".to_string() },
            Subscription::Watch { index: 1, account_id: "b".to_string() },
            Subscription::PeriodicRefresh,
        ]
    );
    model.update(Message::ForceReconnect("b".to_string()));
    assert_eq!(model.subscriptions().len(), 2);
    // A watch that has ended is no longer listened to; the clock goes on.
    model.update(Message::ImapEvent("a".to_string(), ImapWatchEvent::WatchEnded));
    assert_eq!(model.subscriptions(), vec![Subscription::PeriodicRefresh]);
}
