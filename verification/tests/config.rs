use nevermail::config::{read_port, Config, DEFAULT_IMAP_PORT};
use nevermail::keyring::{delete_password, get_password, set_password, KeyringFailure, SERVICE};

fn some(s: &str) -> Option<String> {
    Some(s.to_string())
}

#[test]
fn config_from_complete_environment() {
    let c = Config::from_env(some("mail.runbox.com"), some("me"), some("pw"), some("143"), some("true"));
    assert_eq!(
        c,
        Config {
            imap_server: "mail.runbox.com".to_string(),
            imap_port: 143,
            username: "me".to_string(),
            password: "pw".to_string(),
            use_starttls: true,
        }
    );
    assert_eq!(c.clone(), c);
}

#[test]
fn config_defaults() {
    let c = Config::from_env(some("s"), some("u"), some("p"), None, None);
    assert_eq!(c.imap_port, 993);
    assert_eq!(DEFAULT_IMAP_PORT, 993);
    assert!(!c.use_starttls);
    for bad in ["", "imap", "65536", "-1", "99999999999999999999999", " 143"] {
        let c = Config::from_env(some("s"), some("u"), some("p"), some(bad), None);
        assert_eq!(c.imap_port, 993, "{:?}", bad);
    }
    assert_eq!(Config::from_env(some("s"), some("u"), some("p"), some("65535"), None).imap_port, 65535);
    assert_eq!(Config::from_env(some("s"), some("u"), some("p"), some("0"), None).imap_port, 0);
    let d = Config::default();
    assert_eq!(d.imap_port, 0);
    assert!(d.imap_server.is_empty() && d.username.is_empty() && d.password.is_empty());
    assert!(!d.use_starttls);
}

#[test]
fn starttls_is_on_for_true_and_one_only() {
    for (value, expected) in
        [("true", true), ("1", true), ("TRUE", false), ("yes", false), ("0", false), ("", false), ("11", false)]
    {
        let c = Config::from_env(some("s"), some("u"), some("p"), None, some(value));
        assert_eq!(c.use_starttls, expected, "{:?}", value);
    }
}

#[test]
fn ports_are_read_as_std_reads_them() {
    for text in ["993", "+993", "0", "65535", "65536", "x", "", "0993"] {
        assert_eq!(read_port(text), text.parse::<u16>().ok(), "{:?}", text);
    }
}

#[test]
fn keyring_outcomes_are_put_into_words() {
    assert_eq!(SERVICE, "nevermail");
    assert_eq!(get_password(Ok("secret".to_string())), Ok("secret".to_string()));
    assert_eq!(
        get_password(Err(KeyringFailure::Entry("no backend".to_string()))),
        Err("keyring error: no backend".to_string())
    );
    assert_eq!(
        get_password(Err(KeyringFailure::Access("locked".to_string()))),
        Err("keyring get: locked".to_string())
    );
    assert_eq!(set_password(Ok(())), Ok(()));
    assert_eq!(
        set_password(Err(KeyringFailure::Access("locked".to_string()))),
        Err("keyring set: locked".to_string())
    );
    assert_eq!(
        set_password(Err(KeyringFailure::Entry("bad user".to_string()))),
        Err("keyring error: bad user".to_string())
    );
    assert_eq!(delete_password(Ok(())), Ok(()));
    assert_eq!(
        delete_password(Err(KeyringFailure::Access("missing".to_string()))),
        Err("keyring delete: missing".to_string())
    );
    assert_eq!(
        delete_password(Err(KeyringFailure::Entry("x".to_string()))),
        Err("keyring error: x".to_string())
    );
}
