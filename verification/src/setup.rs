//! The account set-up form: what it takes for a form to be accepted, and the
//! account configuration that an accepted form stands for.

use vstd::prelude::*;
use vstd::string::StringSliceAdditionalSpecFns;
use vstd::utf8::{decode_utf8, encode_utf8};
use crate::config::{parse_port, read_port};
use crate::text::{find_byte, first_byte, trim_text, trimmed};
use crate::types::{AccountConfig, SmtpOverrides};

verus! {

broadcast use vstd::utf8::group_utf8_lib;

/// The fields of the set-up dialog, as typed.
#[derive(Debug, PartialEq, Eq)]
pub struct SetupForm {
    /// The account that is edited, or asked for its password; `None` for a new account.
    pub account_id: Option<String>,
    /// Whether only the password is asked for.
    pub password_only: bool,
    pub label: String,
    pub server: String,
    pub port: String,
    pub username: String,
    pub password: String,
    pub starttls: bool,
    /// The sender addresses, separated by commas.
    pub email_addresses: String,
    /// The server for sending; empty for the receiving server.
    pub smtp_server: String,
    pub smtp_port: String,
    /// The user name for sending; empty for the receiving one.
    pub smtp_username: String,
    /// The password for sending; empty for the receiving one.
    pub smtp_password: String,
    pub smtp_starttls: bool,
    /// What the dialog reports above its fields.
    pub error: Option<SetupFault>,
}

/// What the set-up dialog reports.
#[derive(Debug, PartialEq, Eq)]
pub enum SetupFault {
    /// The form has a fault.
    Invalid(SetupError),
    /// The configuration could not be written out, for the reason given.
    SaveFailed(String),
    /// The stored configuration was turned down, for the reason given.
    Rejected(String),
}

/// What has to be asked of the user before any account can be started.
#[derive(Debug, PartialEq, Eq)]
pub enum ConfigNeedsInput {
    /// There is no configuration.
    FullSetup,
    /// There is an account, but not its password.
    PasswordOnly {
        account_id: String,
        server: String,
        port: u16,
        username: String,
        starttls: bool,
        error: Option<String>,
    },
}

/// Why a form was not accepted.
#[derive(Debug, Clone, Copy, PartialEq, Eq, Structural)]
pub enum SetupError {
    /// Server, user name or password is empty.
    MissingFields,
    /// The port is no number between 0 and 65535.
    BadPort,
    /// A full set-up names no sender address.
    NoEmailAddress,
}

/// What one piece of an address list contributes: itself without the white
/// space at its ends, or nothing if nothing is left.
pub open spec fn entry(piece: Seq<u8>) -> Seq<Seq<char>> {
    let t = trimmed(decode_utf8(piece));
    if t.len() > 0 {
        seq![t]
    } else {
        Seq::empty()
    }
}

/// The addresses of a comma-separated list, given as bytes: the pieces
/// between the commas, each without the white space at its ends, the empty
/// ones left out.
pub open spec fn addresses(bytes: Seq<u8>) -> Seq<Seq<char>>
    decreases bytes.len(),
{
    match first_byte(bytes, 44, 0) {
        Some(k) => if 0 <= k < bytes.len() {
            entry(bytes.subrange(0, k)) + addresses(bytes.subrange(k + 1, bytes.len() as int))
        } else {
            entry(bytes)
        },
        None => entry(bytes),
    }
}

/// The texts of a list of strings.
pub open spec fn texts(list: Seq<String>) -> Seq<Seq<char>> {
    Seq::new(list.len(), |i: int| list[i]@)
}

/// The label of an account: what was typed, white space at the ends apart,
/// or the user name if nothing was typed.
pub open spec fn label_of(form: SetupForm) -> Seq<char> {
    if trimmed(form.label@).len() == 0 {
        trimmed(form.username@)
    } else {
        trimmed(form.label@)
    }
}

/// The fault of a form, if it has one; the first of the three that applies.
pub open spec fn fault_of(form: SetupForm) -> Option<SetupError> {
    if trimmed(form.server@).len() == 0 || trimmed(form.username@).len() == 0
        || form.password@.len() == 0 {
        Some(SetupError::MissingFields)
    } else if parse_port(encode_utf8(trimmed(form.port@))) is None {
        Some(SetupError::BadPort)
    } else if !form.password_only && addresses(encode_utf8(form.email_addresses@)).len() == 0 {
        Some(SetupError::NoEmailAddress)
    } else {
        None
    }
}

/// A typed text as an optional setting: without the white space at its ends,
/// and absent if nothing is left.
pub open spec fn optional_text(typed: Seq<char>) -> Option<Seq<char>> {
    if trimmed(typed).len() == 0 {
        None
    } else {
        Some(trimmed(typed))
    }
}

/// The text of an optional string.
pub open spec fn text_of_option(setting: Option<String>) -> Option<Seq<char>> {
    match setting {
        Some(s) => Some(s@),
        None => None,
    }
}

/// Whether sending settings are the ones that a form stands for: an empty
/// server or user name and a port that is no port number stand for none.
pub open spec fn overrides_of(smtp: SmtpOverrides, form: SetupForm) -> bool {
    &&& text_of_option(smtp.server) == optional_text(form.smtp_server@)
    &&& smtp.port == parse_port(encode_utf8(trimmed(form.smtp_port@)))
    &&& text_of_option(smtp.username) == optional_text(form.smtp_username@)
    &&& smtp.use_starttls == Some(form.smtp_starttls)
}

/// Whether a configuration is the one that an accepted form stands for.
pub open spec fn stands_for(config: AccountConfig, form: SetupForm, fresh_id: String) -> bool {
    &&& config.id == match form.account_id {
        Some(id) => id,
        None => fresh_id,
    }
    &&& config.label@ == label_of(form)
    &&& config.imap_server@ == trimmed(form.server@)
    &&& Some(config.imap_port) == parse_port(encode_utf8(trimmed(form.port@)))
    &&& config.username@ == trimmed(form.username@)
    &&& config.use_starttls == form.starttls
    &&& texts(config.email_addresses@) == addresses(encode_utf8(form.email_addresses@))
    &&& overrides_of(config.smtp_overrides, form)
}

/// Adds what a piece of an address list contributes to `out`.
fn push_entry(piece: &str, out: &mut Vec<String>)
    ensures
        texts(final(out)@) == texts(old(out)@) + entry(piece.spec_bytes()),
{
    let t = trim_text(piece);
    if !t.is_empty() {
        out.push(t.to_owned());
    }
}

/// Splits a comma-separated list of addresses.
pub fn split_addresses(list: &str) -> (r: Vec<String>)
    ensures
        texts(r@) == addresses(encode_utf8(list@)),
{
    let mut out: Vec<String> = Vec::new();
    let mut rest: &str = list;
    loop
        invariant_except_break
            texts(out@) + addresses(rest.spec_bytes()) == addresses(encode_utf8(list@)),
        ensures
            texts(out@) == addresses(encode_utf8(list@)),
        decreases rest.spec_bytes().len(),
    {
        let ghost bytes = rest.spec_bytes();
        match find_byte(rest.as_bytes(), 44) {
            Some(k) => {
                proof {
                    crate::text::lemma_mark_is_boundary(bytes, k as int);
                }
                let (head, tail) = rest.split_at(k);
                let (_comma, next) = tail.split_at(1);
                push_entry(head, &mut out);
                proof {
                    assert(next.spec_bytes() =~= bytes.subrange(k + 1, bytes.len() as int));
                }
                rest = next;
            },
            None => {
                push_entry(rest, &mut out);
                break;
            },
        }
    }
    out
}

/// Reads an optional setting from what was typed.
pub fn read_optional(typed: &str) -> (r: Option<String>)
    ensures
        text_of_option(r) == optional_text(typed@),
{
    let t = trim_text(typed);
    if t.is_empty() {
        None
    } else {
        Some(t.to_owned())
    }
}

/// Checks a form and, if it has no fault, builds the account configuration
/// that it stands for. A new account gets `fresh_id` as its id.
pub fn submit_setup(form: &SetupForm, fresh_id: String) -> (r: Result<AccountConfig, SetupError>)
    ensures
        match r {
            Ok(config) => fault_of(*form) is None && stands_for(config, *form, fresh_id),
            Err(e) => fault_of(*form) == Some(e),
        },
{
    let server = trim_text(form.server.as_str());
    let username = trim_text(form.username.as_str());
    if server.is_empty() || username.is_empty() || form.password.as_str().is_empty() {
        return Err(SetupError::MissingFields);
    }
    let imap_port = match read_port(trim_text(form.port.as_str())) {
        Some(port) => port,
        None => {
            return Err(SetupError::BadPort);
        },
    };
    let email_addresses = split_addresses(form.email_addresses.as_str());
    if !form.password_only && email_addresses.len() == 0 {
        return Err(SetupError::NoEmailAddress);
    }
    let typed_label = trim_text(form.label.as_str());
    let label = if typed_label.is_empty() {
        username.to_owned()
    } else {
        typed_label.to_owned()
    };
    let imap_server = server.to_owned();
    let username = username.to_owned();
    let smtp_overrides = SmtpOverrides {
        server: read_optional(form.smtp_server.as_str()),
        port: read_port(trim_text(form.smtp_port.as_str())),
        username: read_optional(form.smtp_username.as_str()),
        use_starttls: Some(form.smtp_starttls),
    };
    let id = match &form.account_id {
        Some(id) => id.clone(),
        None => fresh_id,
    };
    Ok(
        AccountConfig {
            id,
            label,
            imap_server,
            imap_port,
            username,
            use_starttls: form.starttls,
            email_addresses,
            smtp_overrides,
        },
    )
}

impl SetupError {
    /// The fault in words, as the dialog shows it.
    pub fn message(&self) -> (r: String)
        ensures
            r@ == error_text(*self),
    {
        match self {
            SetupError::MissingFields => "All fields are required".to_owned(),
            SetupError::BadPort => "Port must be a number (e.g. 993)".to_owned(),
            SetupError::NoEmailAddress => "At least one email address is required for sending".to_owned(),
        }
    }
}

/// The texts of a list in a row, with a separator between neighbours.
pub open spec fn joined(list: Seq<Seq<char>>, separator: Seq<char>) -> Seq<char>
    decreases list.len(),
{
    if list.len() == 0 {
        Seq::empty()
    } else if list.len() == 1 {
        list[0]
    } else {
        joined(list.drop_last(), separator) + separator + list.last()
    }
}

/// Joins the strings of a list with a separator.
pub fn join_strings(list: &Vec<String>, separator: &str) -> (r: String)
    ensures
        r@ == joined(texts(list@), separator@),
{
    let mut out = String::new();
    let mut i: usize = 0;
    while i < list.len()
        invariant
            i <= list@.len(),
            out@ == joined(texts(list@).take(i as int), separator@),
        decreases list@.len() - i,
    {
        proof {
            assert(texts(list@).take(i + 1).drop_last() =~= texts(list@).take(i as int));
        }
        if i > 0 {
            out.append(separator);
        }
        out.append(list[i].as_str());
        i += 1;
    }
    assert(texts(list@).take(i as int) =~= texts(list@));
    out
}

/// Whether a form is the one for a new account: everything empty, the usual
/// ports filled in, nothing reported.
pub open spec fn is_blank(form: SetupForm) -> bool {
    &&& form.account_id is None
    &&& !form.password_only
    &&& form.label@.len() == 0
    &&& form.server@.len() == 0
    &&& form.port@ == "993"@
    &&& form.username@.len() == 0
    &&& form.password@.len() == 0
    &&& !form.starttls
    &&& form.email_addresses@.len() == 0
    &&& form.smtp_server@.len() == 0
    &&& form.smtp_port@ == "587"@
    &&& form.smtp_username@.len() == 0
    &&& form.smtp_password@.len() == 0
    &&& form.smtp_starttls
    &&& form.error is None
}

/// Whether a form is the one that asks for what is needed: the blank form for
/// a full set-up; for a password alone the account's settings filled in, the
/// password empty, and the reason shown if one was given.
pub open spec fn asks_for(form: SetupForm, needs: ConfigNeedsInput) -> bool {
    match needs {
        ConfigNeedsInput::FullSetup => is_blank(form),
        ConfigNeedsInput::PasswordOnly { account_id, server, port, username, starttls, error } => {
            &&& form.account_id == Some(account_id)
            &&& form.password_only
            &&& form.label@.len() == 0
            &&& form.server == server
            &&& form.port@ == crate::text::decimal_chars(port as nat)
            &&& form.username == username
            &&& form.password@.len() == 0
            &&& form.starttls == starttls
            &&& form.email_addresses@.len() == 0
            &&& form.smtp_server@.len() == 0
            &&& form.smtp_port@ == "587"@
            &&& form.smtp_username@.len() == 0
            &&& form.smtp_password@.len() == 0
            &&& form.smtp_starttls
            &&& form.error == match error {
                Some(reason) => Some(SetupFault::Rejected(reason)),
                None => None,
            }
        },
    }
}

/// The form for a new account: everything empty, the usual ports filled in.
pub fn blank_form() -> (r: SetupForm)
    ensures
        is_blank(r),
{
    SetupForm {
        account_id: None,
        password_only: false,
        label: String::new(),
        server: String::new(),
        port: "993".to_owned(),
        username: String::new(),
        password: String::new(),
        starttls: false,
        email_addresses: String::new(),
        smtp_server: String::new(),
        smtp_port: "587".to_owned(),
        smtp_username: String::new(),
        smtp_password: String::new(),
        smtp_starttls: true,
        error: None,
    }
}

/// The form that asks for what the configuration lacks.
pub fn form_for_needs(needs: ConfigNeedsInput) -> (r: SetupForm)
    ensures
        asks_for(r, needs),
{
    match needs {
        ConfigNeedsInput::FullSetup => blank_form(),
        ConfigNeedsInput::PasswordOnly { account_id, server, port, username, starttls, error } => {
            SetupForm {
                account_id: Some(account_id),
                password_only: true,
                label: String::new(),
                server,
                port: crate::text::decimal_string(port as u64),
                username,
                password: String::new(),
                starttls,
                email_addresses: String::new(),
                smtp_server: String::new(),
                smtp_port: "587".to_owned(),
                smtp_username: String::new(),
                smtp_password: String::new(),
                smtp_starttls: true,
                error: match error {
                    Some(reason) => Some(SetupFault::Rejected(reason)),
                    None => None,
                },
            }
        },
    }
}

/// What the dialog shows for a report.
pub open spec fn fault_text(fault: SetupFault) -> Seq<char> {
    match fault {
        SetupFault::Invalid(e) => error_text(e),
        SetupFault::SaveFailed(reason) => "Failed to save config: "@ + reason@,
        SetupFault::Rejected(reason) => reason@,
    }
}

/// A fault of a form in words.
pub open spec fn error_text(e: SetupError) -> Seq<char> {
    match e {
        SetupError::MissingFields => "All fields are required"@,
        SetupError::BadPort => "Port must be a number (e.g. 993)"@,
        SetupError::NoEmailAddress => "At least one email address is required for sending"@,
    }
}

impl SetupFault {
    /// The report in words, as the dialog shows it.
    pub fn text(&self) -> (r: String)
        ensures
            r@ == fault_text(*self),
    {
        match self {
            SetupFault::Invalid(e) => e.message(),
            SetupFault::SaveFailed(reason) => crate::text::join2("Failed to save config: ", reason.as_str()),
            SetupFault::Rejected(reason) => reason.clone(),
        }
    }
}

impl Clone for SetupFault {
    fn clone(&self) -> (r: Self)
        ensures
            r == *self,
    {
        match self {
            SetupFault::Invalid(e) => SetupFault::Invalid(*e),
            SetupFault::SaveFailed(reason) => SetupFault::SaveFailed(reason.clone()),
            SetupFault::Rejected(reason) => SetupFault::Rejected(reason.clone()),
        }
    }
}

impl Clone for SetupForm {
    fn clone(&self) -> (r: Self)
        ensures
            r == *self,
    {
        SetupForm {
            account_id: crate::text::clone_opt_string(&self.account_id),
            password_only: self.password_only,
            label: self.label.clone(),
            server: self.server.clone(),
            port: self.port.clone(),
            username: self.username.clone(),
            password: self.password.clone(),
            starttls: self.starttls,
            email_addresses: self.email_addresses.clone(),
            smtp_server: self.smtp_server.clone(),
            smtp_port: self.smtp_port.clone(),
            smtp_username: self.smtp_username.clone(),
            smtp_password: self.smtp_password.clone(),
            smtp_starttls: self.smtp_starttls,
            error: match &self.error {
                Some(fault) => Some(fault.clone()),
                None => None,
            },
        }
    }
}

/// Whether a form is the one for editing an account: the account's settings
/// filled in, the passwords left empty, nothing reported.
pub open spec fn edits(form: SetupForm, config: AccountConfig) -> bool {
    &&& form.account_id == Some(config.id)
    &&& !form.password_only
    &&& form.label == config.label
    &&& form.server == config.imap_server
    &&& form.port@ == crate::text::decimal_chars(config.imap_port as nat)
    &&& form.username == config.username
    &&& form.password@.len() == 0
    &&& form.starttls == config.use_starttls
    &&& form.email_addresses@ == joined(texts(config.email_addresses@), ", "@)
    &&& form.smtp_server@ == match config.smtp_overrides.server {
        Some(s) => s@,
        None => Seq::<char>::empty(),
    }
    &&& form.smtp_port@ == match config.smtp_overrides.port {
        Some(p) => crate::text::decimal_chars(p as nat),
        None => "587"@,
    }
    &&& form.smtp_username@ == match config.smtp_overrides.username {
        Some(s) => s@,
        None => Seq::<char>::empty(),
    }
    &&& form.smtp_password@.len() == 0
    &&& form.smtp_starttls == match config.smtp_overrides.use_starttls {
        Some(b) => b,
        None => true,
    }
    &&& form.error is None
}

/// The form for editing an account: its settings filled in, the password left empty.
pub fn form_for_edit(config: &AccountConfig) -> (r: SetupForm)
    ensures
        edits(r, *config),
{
    let smtp_server = match &config.smtp_overrides.server {
        Some(s) => s.clone(),
        None => String::new(),
    };
    let smtp_port = match config.smtp_overrides.port {
        Some(p) => crate::text::decimal_string(p as u64),
        None => "587".to_owned(),
    };
    let smtp_username = match &config.smtp_overrides.username {
        Some(s) => s.clone(),
        None => String::new(),
    };
    let smtp_starttls = match config.smtp_overrides.use_starttls {
        Some(b) => b,
        None => true,
    };
    SetupForm {
        account_id: Some(config.id.clone()),
        password_only: false,
        label: config.label.clone(),
        server: config.imap_server.clone(),
        port: crate::text::decimal_string(config.imap_port as u64),
        username: config.username.clone(),
        password: String::new(),
        starttls: config.use_starttls,
        email_addresses: join_strings(&config.email_addresses, ", "),
        smtp_server,
        smtp_port,
        smtp_username,
        smtp_password: String::new(),
        smtp_starttls,
        error: None,
    }
}

/// The fields of the set-up dialog.
#[derive(Debug, Clone, Copy, PartialEq, Eq, Structural)]
pub enum SetupField {
    Label,
    Server,
    Port,
    Username,
    Password,
    EmailAddresses,
    Starttls,
    SmtpServer,
    SmtpPort,
    SmtpUsername,
    SmtpPassword,
    SmtpStarttls,
}

/// A form after a text has been typed into one of its fields. A switch takes
/// no text: the form stays as it is.
pub open spec fn with_text(form: SetupForm, field: SetupField, value: String) -> SetupForm {
    match field {
        SetupField::Label => SetupForm { label: value, ..form },
        SetupField::Server => SetupForm { server: value, ..form },
        SetupField::Port => SetupForm { port: value, ..form },
        SetupField::Username => SetupForm { username: value, ..form },
        SetupField::Password => SetupForm { password: value, ..form },
        SetupField::EmailAddresses => SetupForm { email_addresses: value, ..form },
        SetupField::SmtpServer => SetupForm { smtp_server: value, ..form },
        SetupField::SmtpPort => SetupForm { smtp_port: value, ..form },
        SetupField::SmtpUsername => SetupForm { smtp_username: value, ..form },
        SetupField::SmtpPassword => SetupForm { smtp_password: value, ..form },
        SetupField::Starttls => form,
        SetupField::SmtpStarttls => form,
    }
}

/// A form after one of its switches has been set. A text field is no switch:
/// the form stays as it is.
pub open spec fn with_switch(form: SetupForm, field: SetupField, value: bool) -> SetupForm {
    match field {
        SetupField::Starttls => SetupForm { starttls: value, ..form },
        SetupField::SmtpStarttls => SetupForm { smtp_starttls: value, ..form },
        _ => form,
    }
}

/// The fields that the dialog shows, from top to bottom: all of them for a
/// full set-up, the password alone when only the password is asked for.
pub open spec fn fields_shown(password_only: bool) -> Seq<SetupField> {
    if password_only {
        seq![SetupField::Password]
    } else {
        seq![
            SetupField::Label,
            SetupField::Server,
            SetupField::Port,
            SetupField::Username,
            SetupField::Password,
            SetupField::EmailAddresses,
            SetupField::Starttls,
            SetupField::SmtpServer,
            SetupField::SmtpPort,
            SetupField::SmtpUsername,
            SetupField::SmtpPassword,
            SetupField::SmtpStarttls,
        ]
    }
}

impl SetupForm {
    /// Takes the text typed into a field.
    pub fn set_field(&mut self, field: SetupField, value: String)
        ensures
            *final(self) == with_text(*old(self), field, value),
    {
        match field {
            SetupField::Label => {
                self.label = value;
            },
            SetupField::Server => {
                self.server = value;
            },
            SetupField::Port => {
                self.port = value;
            },
            SetupField::Username => {
                self.username = value;
            },
            SetupField::Password => {
                self.password = value;
            },
            SetupField::EmailAddresses => {
                self.email_addresses = value;
            },
            SetupField::SmtpServer => {
                self.smtp_server = value;
            },
            SetupField::SmtpPort => {
                self.smtp_port = value;
            },
            SetupField::SmtpUsername => {
                self.smtp_username = value;
            },
            SetupField::SmtpPassword => {
                self.smtp_password = value;
            },
            SetupField::Starttls => {},
            SetupField::SmtpStarttls => {},
        }
    }

    /// Sets one of the two switches.
    pub fn set_toggle(&mut self, field: SetupField, value: bool)
        ensures
            *final(self) == with_switch(*old(self), field, value),
    {
        match field {
            SetupField::Starttls => {
                self.starttls = value;
            },
            SetupField::SmtpStarttls => {
                self.smtp_starttls = value;
            },
            _ => {},
        }
    }

    /// The fields that the dialog shows for this form, from top to bottom.
    pub fn visible_fields(&self) -> (r: Vec<SetupField>)
        ensures
            r@ == fields_shown(self.password_only),
    {
        let mut out: Vec<SetupField> = Vec::new();
        if self.password_only {
            out.push(SetupField::Password);
        } else {
            out.push(SetupField::Label);
            out.push(SetupField::Server);
            out.push(SetupField::Port);
            out.push(SetupField::Username);
            out.push(SetupField::Password);
            out.push(SetupField::EmailAddresses);
            out.push(SetupField::Starttls);
            out.push(SetupField::SmtpServer);
            out.push(SetupField::SmtpPort);
            out.push(SetupField::SmtpUsername);
            out.push(SetupField::SmtpPassword);
            out.push(SetupField::SmtpStarttls);
        }
        assert(out@ =~= fields_shown(self.password_only));
        out
    }
}

} // verus!
