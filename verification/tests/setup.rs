use nevermail::keys::{key_intent, Key, KeyIntent};
use nevermail::setup::{
    read_optional, split_addresses, submit_setup, SetupError, SetupField, SetupForm,
};
use nevermail::types::{AccountConfig, Message, SmtpOverrides};
use nevermail::ui::{dialog, Dialog};

fn form() -> SetupForm {
    SetupForm {
        account_id: None,
        password_only: false,
        label: "  Work ".to_string(),
        server: " mail.example.com\n".to_string(),
        port: " 993 ".to_string(),
        username: "\tme@example.com ".to_string(),
        password: "pw".to_string(),
        starttls: true,
        email_addresses: "me@example.com, alias@example.com".to_string(),
        smtp_server: String::new(),
        smtp_port: "587".to_string(),
        smtp_username: String::new(),
        smtp_password: String::new(),
        smtp_starttls: true,
        error: None,
    }
}

#[test]
fn addresses_are_split_trimmed_and_filtered() {
    assert_eq!(split_addresses("a@x, b@y"), vec!["a@x".to_string(), "b@y".to_string()]);
    assert_eq!(split_addresses("a@x"), vec!["a@x".to_string()]);
    assert_eq!(split_addresses(" a@x ,, ,b@y , "), vec!["a@x".to_string(), "b@y".to_string()]);
    assert!(split_addresses("").is_empty());
    assert!(split_addresses(" , ,,").is_empty());
    assert_eq!(split_addresses(",ünï@x\u{a0},"), vec!["ünï@x".to_string()]);
    for text in ["a,b", ",", "a,", ",a", " a , b ,c", "a b, c"] {
        let expected: Vec<String> =
            text.split(',').map(|s| s.trim().to_string()).filter(|s| !s.is_empty()).collect();
        assert_eq!(split_addresses(text), expected, "{:?}", text);
    }
}

#[test]
fn accepted_form_becomes_a_configuration() {
    let config = submit_setup(&form(), "fresh".to_string());
    assert_eq!(
        config,
        Ok(AccountConfig {
            id: "fresh".to_string(),
            label: "Work".to_string(),
            imap_server: "mail.example.com".to_string(),
            imap_port: 993,
            username: "me@example.com".to_string(),
            use_starttls: true,
            email_addresses: vec!["me@example.com".to_string(), "alias@example.com".to_string()],
            smtp_overrides: SmtpOverrides {
                server: None,
                port: Some(587),
                username: None,
                use_starttls: Some(true),
            },
        })
    );
}

#[test]
fn edited_account_keeps_its_id_and_empty_label_becomes_user_name() {
    let mut f = form();
    f.account_id = Some("acc-1".to_string());
    f.label = "   ".to_string();
    let config = submit_setup(&f, "fresh".to_string()).unwrap();
    assert_eq!(config.id, "acc-1");
    assert_eq!(config.label, "me@example.com");
}

#[test]
fn form_faults_in_order() {
    let mut f = form();
    f.server = "  ".to_string();
    f.port = "x".to_string();
    assert_eq!(submit_setup(&f, String::new()), Err(SetupError::MissingFields));
    let mut f = form();
    f.username = String::new();
    assert_eq!(submit_setup(&f, String::new()), Err(SetupError::MissingFields));
    let mut f = form();
    f.password = String::new();
    assert_eq!(submit_setup(&f, String::new()), Err(SetupError::MissingFields));
    // A password of blanks is a password.
    let mut f = form();
    f.password = " ".to_string();
    assert!(submit_setup(&f, String::new()).is_ok());
    let mut f = form();
    f.port = "imap".to_string();
    f.email_addresses = String::new();
    assert_eq!(submit_setup(&f, String::new()), Err(SetupError::BadPort));
    let mut f = form();
    f.port = "65536".to_string();
    assert_eq!(submit_setup(&f, String::new()), Err(SetupError::BadPort));
    let mut f = form();
    f.email_addresses = " , ".to_string();
    assert_eq!(submit_setup(&f, String::new()), Err(SetupError::NoEmailAddress));
    // When only the password is asked for, no address is needed.
    let mut f = form();
    f.email_addresses = String::new();
    f.password_only = true;
    f.account_id = Some("acc-1".to_string());
    let config = submit_setup(&f, String::new()).unwrap();
    assert!(config.email_addresses.is_empty());
    assert_eq!(SetupError::MissingFields.message(), "All fields are required");
    assert_eq!(SetupError::BadPort.message(), "Port must be a number (e.g. 993)");
    assert_eq!(
        SetupError::NoEmailAddress.message(),
        "At least one email address is required for sending"
    );
}

#[test]
fn sending_settings_are_optional() {
    let mut f = form();
    f.smtp_server = "  smtp.example.com ".to_string();
    f.smtp_port = " 465".to_string();
    f.smtp_username = "sender".to_string();
    f.smtp_starttls = false;
    let config = submit_setup(&f, "fresh".to_string()).unwrap();
    assert_eq!(
        config.smtp_overrides,
        SmtpOverrides {
            server: Some("smtp.example.com".to_string()),
            port: Some(465),
            username: Some("sender".to_string()),
            use_starttls: Some(false),
        }
    );
    assert_eq!(config.smtp_overrides.clone(), config.smtp_overrides);
    // A port that is no port number stands for none, and is no fault.
    let mut f = form();
    f.smtp_port = "smtp".to_string();
    f.smtp_username = " \t".to_string();
    let config = submit_setup(&f, "fresh".to_string()).unwrap();
    assert_eq!(config.smtp_overrides.port, None);
    assert_eq!(config.smtp_overrides.username, None);
    assert_eq!(read_optional(""), None);
    assert_eq!(read_optional(" x y "), Some("x y".to_string()));
}

#[test]
fn typing_changes_one_field() {
    let mut f = form();
    let untouched = form();
    f.set_field(SetupField::Server, "imap.other.org".to_string());
    assert_eq!(f.server, "imap.other.org");
    f.set_field(SetupField::Label, "L".to_string());
    f.set_field(SetupField::Port, "1".to_string());
    f.set_field(SetupField::Username, "u".to_string());
    f.set_field(SetupField::Password, "p".to_string());
    f.set_field(SetupField::EmailAddresses, "e".to_string());
    f.set_field(SetupField::SmtpServer, "ss".to_string());
    f.set_field(SetupField::SmtpPort, "sp".to_string());
    f.set_field(SetupField::SmtpUsername, "su".to_string());
    f.set_field(SetupField::SmtpPassword, "sw".to_string());
    assert_eq!(
        (f.label.as_str(), f.port.as_str(), f.username.as_str(), f.password.as_str()),
        ("L", "1", "u", "p")
    );
    assert_eq!(
        (
            f.email_addresses.as_str(),
            f.smtp_server.as_str(),
            f.smtp_port.as_str(),
            f.smtp_username.as_str(),
            f.smtp_password.as_str()
        ),
        ("e", "ss", "sp", "su", "sw")
    );
    assert_eq!((f.starttls, f.smtp_starttls), (untouched.starttls, untouched.smtp_starttls));
    // A text for a switch, or a switch for a text field, changes nothing.
    let mut g = form();
    g.set_field(SetupField::Starttls, "true".to_string());
    g.set_toggle(SetupField::Server, false);
    assert_eq!(g, untouched);
    g.set_toggle(SetupField::Starttls, false);
    g.set_toggle(SetupField::SmtpStarttls, false);
    assert!(!g.starttls && !g.smtp_starttls);
    assert_eq!(g.server, untouched.server);
}

#[test]
fn password_only_dialog_shows_the_password_alone() {
    let mut f = form();
    assert_eq!(f.visible_fields().len(), 12);
    assert_eq!(f.visible_fields()[0], SetupField::Label);
    assert_eq!(f.visible_fields()[4], SetupField::Password);
    assert_eq!(f.visible_fields()[11], SetupField::SmtpStarttls);
    f.password_only = true;
    assert_eq!(f.visible_fields(), vec![SetupField::Password]);
    assert_eq!(dialog(true, true), Dialog::Setup);
    assert_eq!(dialog(true, false), Dialog::Setup);
    assert_eq!(dialog(false, true), Dialog::Compose);
    assert_eq!(dialog(false, false), Dialog::Nothing);
}

#[test]
fn keys_mean_what_the_shortcuts_say() {
    assert_eq!(key_intent(Key::ArrowDown, false, false), Some(KeyIntent::SelectionDown));
    assert_eq!(key_intent(Key::ArrowUp, false, false), Some(KeyIntent::SelectionUp));
    assert_eq!(key_intent(Key::Enter, false, false), Some(KeyIntent::ActivateSelection));
    assert_eq!(key_intent(Key::Escape, false, false), Some(KeyIntent::SearchClear));
    assert_eq!(key_intent(Key::Character('j'), false, false), Some(KeyIntent::SelectionDown));
    assert_eq!(key_intent(Key::Character('k'), false, false), Some(KeyIntent::SelectionUp));
    assert_eq!(key_intent(Key::Character('/'), false, false), Some(KeyIntent::SearchActivate));
    assert_eq!(key_intent(Key::Character('c'), false, false), Some(KeyIntent::ComposeNew));
    assert_eq!(key_intent(Key::Character('r'), false, false), Some(KeyIntent::ComposeReply));
    assert_eq!(key_intent(Key::Character('f'), false, false), Some(KeyIntent::ComposeForward));
    assert_eq!(key_intent(Key::Character(' '), false, false), Some(KeyIntent::ToggleThreadCollapse));
    assert_eq!(key_intent(Key::Character('x'), false, false), None);
    assert_eq!(key_intent(Key::Character('J'), false, false), None);
    assert_eq!(key_intent(Key::Other, false, false), None);
    // With Control a letter is no shortcut; the space bar and the arrows still are.
    for c in ['j', 'k', '/', 'c', 'r', 'f'] {
        assert_eq!(key_intent(Key::Character(c), true, false), None);
    }
    assert_eq!(key_intent(Key::Character(' '), true, false), Some(KeyIntent::ToggleThreadCollapse));
    assert_eq!(key_intent(Key::ArrowDown, true, false), Some(KeyIntent::SelectionDown));
    // In the search field only Escape is taken.
    assert_eq!(key_intent(Key::Escape, false, true), Some(KeyIntent::SearchClear));
    for key in [Key::ArrowDown, Key::Enter, Key::Character('j'), Key::Character(' '), Key::Other] {
        assert_eq!(key_intent(key, false, true), None);
    }
    assert_eq!(KeyIntent::SelectionDown.message(), Some(Message::SelectionDown));
    assert_eq!(KeyIntent::SelectionUp.message(), Some(Message::SelectionUp));
    assert_eq!(KeyIntent::ActivateSelection.message(), Some(Message::ActivateSelection));
    assert_eq!(KeyIntent::ToggleThreadCollapse.message(), Some(Message::ToggleThreadCollapse));
    assert_eq!(KeyIntent::ComposeNew.message(), None);
    assert_eq!(KeyIntent::SearchActivate.message(), None);
}
