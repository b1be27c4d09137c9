use nevermail::models::{Folder, MessageSummary};
use nevermail::setup::{blank_form, form_for_edit, join_strings, split_addresses, submit_setup};
use nevermail::types::{AccountConfig, AppModel, Message, SmtpOverrides};
use nevermail::ui::{message_rows, sidebar_rows, FolderRow};

fn box_folder(name: &str, unread_count: u32, mailbox_hash: u64) -> Folder {
    Folder {
        name: name.to_string(),
        path: name.to_string(),
        unread_count,
        total_count: unread_count,
        mailbox_hash,
    }
}

fn reply(envelope_hash: u64, thread_id: Option<u64>, thread_depth: u32) -> MessageSummary {
    MessageSummary {
        uid: envelope_hash,
        subject: format!("S{envelope_hash}"),
        from: "bob".to_string(),
        date: "Mon".to_string(),
        is_read: true,
        is_starred: false,
        has_attachments: false,
        thread_id,
        envelope_hash,
        timestamp: 0,
        mailbox_hash: 5,
        message_id: String::new(),
        in_reply_to: None,
        reply_to: None,
        thread_depth,
    }
}

fn settings() -> AccountConfig {
    AccountConfig {
        id: "acc".to_string(),
        label: "Work".to_string(),
        imap_server: "mail.example.com".to_string(),
        imap_port: 143,
        username: "me".to_string(),
        use_starttls: true,
        email_addresses: vec!["me@example.com".to_string(), "alias@example.com".to_string()],
        smtp_overrides: SmtpOverrides {
            server: Some("smtp.example.com".to_string()),
            port: Some(465),
            username: None,
            use_starttls: Some(false),
        },
    }
}

#[test]
fn sidebar_has_one_row_per_folder() {
    let folders = vec![box_folder("INBOX", 3, 5), box_folder("Sent", 0, 6)];
    assert_eq!(
        sidebar_rows(&folders, Some(1)),
        vec![
            FolderRow { label: "INBOX (3)".to_string(), mailbox_hash: 5, drop_target: false },
            FolderRow { label: "Sent".to_string(), mailbox_hash: 6, drop_target: true },
        ]
    );
    assert!(sidebar_rows(&folders, None).iter().all(|r| !r.drop_target));
    assert!(sidebar_rows(&folders, Some(2)).iter().all(|r| !r.drop_target));
    assert!(sidebar_rows(&Vec::new(), Some(0)).is_empty());
}

#[test]
fn message_rows_follow_the_projection() {
    let (mut model, _) = AppModel::with_accounts(true, vec![settings()]);
    model.update(Message::CachedFoldersLoaded {
        account_id: "acc".to_string(),
        result: Ok(vec![box_folder("INBOX", 0, 5)]),
    });
    model.update(Message::CachedMessagesLoaded {
        account_id: "acc".to_string(),
        mailbox_hash: 5,
        offset: 0,
        result: Ok(vec![
            reply(1, Some(10), 0),
            reply(2, Some(10), 1),
            reply(3, None, 0),
            reply(4, Some(10), 2),
        ]),
    });
    let sizes = model.thread_sizes();
    assert_eq!(sizes.get(&10), Some(&3));
    assert_eq!(sizes.len(), 1);
    model.update(Message::SelectionDown);
    model.update(Message::SelectionDown);
    let rows = message_rows(&model);
    assert_eq!(rows.len(), 4);
    assert_eq!(rows.iter().map(|r| r.index).collect::<Vec<_>>(), vec![0, 1, 2, 3]);
    assert_eq!(rows.iter().map(|r| r.selected).collect::<Vec<_>>(), vec![false, true, false, false]);
    assert!(rows.iter().all(|r| r.hidden_in_thread == 0));
    assert_eq!(rows[2].subject, "S3");
    assert_eq!(rows[2].meta, "bob — Mon");

    model.toggle_collapse(10);
    let rows = message_rows(&model);
    assert_eq!(rows.iter().map(|r| r.index).collect::<Vec<_>>(), vec![0, 2]);
    assert_eq!(rows[0].hidden_in_thread, 2);
    assert_eq!(rows[1].hidden_in_thread, 0);
    assert_eq!(rows.iter().map(|r| r.selected).collect::<Vec<_>>(), vec![false, true]);
    assert!(model.folder_map_for_mailbox(5).is_some());
    assert_eq!(model.folder_map_for_mailbox(5).unwrap().get("INBOX"), Some(5));
    assert!(model.folder_map_for_mailbox(99).is_none());
}

#[test]
fn strings_are_joined_with_the_separator_between() {
    let none: Vec<String> = Vec::new();
    assert_eq!(join_strings(&none, ", "), "");
    assert_eq!(join_strings(&vec!["a".to_string()], ", "), "a");
    assert_eq!(join_strings(&vec!["a".to_string(), "b".to_string(), "c".to_string()], ", "), "a, b, c");
    assert_eq!(join_strings(&vec![String::new(), String::new()], "-"), "-");
}

#[test]
fn edit_form_is_filled_from_the_account() {
    let form = form_for_edit(&settings());
    assert_eq!(form.account_id, Some("acc".to_string()));
    assert!(!form.password_only);
    assert_eq!(form.label, "Work");
    assert_eq!(form.server, "mail.example.com");
    assert_eq!(form.port, "143");
    assert_eq!(form.username, "me");
    assert_eq!(form.password, "");
    assert!(form.starttls);
    assert_eq!(form.email_addresses, "me@example.com, alias@example.com");
    assert_eq!(form.smtp_server, "smtp.example.com");
    assert_eq!(form.smtp_port, "465");
    assert_eq!(form.smtp_username, "");
    assert_eq!(form.smtp_password, "");
    assert!(!form.smtp_starttls);
    assert_eq!(split_addresses(&form.email_addresses), settings().email_addresses);
    // With the password typed in, the form stands for the account it came from.
    let mut form = form;
    form.password = "pw".to_string();
    assert_eq!(submit_setup(&form, "unused".to_string()), Ok(settings()));
}

#[test]
fn blank_form_has_the_usual_port_and_no_fault_but_missing_fields() {
    let form = blank_form();
    assert_eq!(form.account_id, None);
    assert_eq!(form.port, "993");
    assert!(form.label.is_empty() && form.server.is_empty() && form.username.is_empty());
    assert!(form.password.is_empty() && form.email_addresses.is_empty());
    assert!(!form.starttls && !form.password_only);
    assert!(form.smtp_server.is_empty() && form.smtp_username.is_empty());
    assert!(form.smtp_password.is_empty());
    assert_eq!(form.smtp_port, "587");
    assert!(form.smtp_starttls);
    assert_eq!(
        submit_setup(&form, "x".to_string()),
        Err(nevermail::setup::SetupError::MissingFields)
    );
}

#[test]
fn drag_hover_marks_a_sidebar_row_until_the_drop() {
    let (mut model, _) = AppModel::with_accounts(true, vec![settings()]);
    model.update(Message::CachedFoldersLoaded {
        account_id: "acc".to_string(),
        result: Ok(vec![box_folder("INBOX", 0, 5), box_folder("Work", 1, 6)]),
    });
    model.update(Message::CachedMessagesLoaded {
        account_id: "acc".to_string(),
        mailbox_hash: 5,
        offset: 0,
        result: Ok(vec![reply(1, None, 0)]),
    });
    assert_eq!(model.folder_drag_target, None);
    let effects = model.update(Message::FolderDragEnter(1));
    assert!(effects.is_empty());
    assert_eq!(model.folder_drag_target, Some(1));
    let rows = nevermail::ui::account_rows(&model, 0);
    assert_eq!(rows.iter().map(|r| r.drop_target).collect::<Vec<_>>(), vec![false, true]);
    assert_eq!(rows[1].label, "Work (1)");
    assert!(nevermail::ui::account_rows(&model, 3).is_empty());
    model.update(Message::FolderDragLeave);
    assert_eq!(model.folder_drag_target, None);
    model.update(Message::FolderDragEnter(1));
    model.update(Message::DragMessageToFolder {
        envelope_hash: 1,
        source_mailbox: 5,
        dest_mailbox: 6,
    });
    assert_eq!(model.folder_drag_target, None);
    assert!(model.messages.is_empty());
}
