//! Drag-and-drop payloads: files dropped from outside, and a message dragged
//! onto a folder.

use vstd::prelude::*;
use vstd::string::StrSliceExecFns;
use vstd::utf8::{decode_utf8, encode_utf8, valid_utf8};
use vstd::string::StringSliceAdditionalSpecFns;
use crate::text::{
    decimal_chars, decimal_string, find_byte, first_byte, parse_error_text, same_text,
    std_parse_u64, string_from_utf8, utf8_error_text,
};

verus! {

broadcast use vstd::utf8::group_utf8_lib;

/// The fault of a dropped payload.
#[derive(Debug, Clone, Copy, PartialEq, Eq, Structural)]
pub enum DragFault {
    /// The bytes are not UTF-8.
    NotUtf8,
    /// A message payload without the `:` between its two numbers.
    MissingSeparator,
    /// What stands before the `:` is no number that fits 64 bits.
    BadEnvelopeHash,
    /// What stands after the `:` is no number that fits 64 bits.
    BadMailboxHash,
}

/// Why a dropped payload was refused: the fault, and for a fault that std
/// finds, std's words for it.
#[derive(Debug, PartialEq, Eq)]
pub enum DragDataError {
    NotUtf8(String),
    MissingSeparator,
    BadEnvelopeHash(String),
    BadMailboxHash(String),
}

/// The fault that an error reports.
pub open spec fn kind_of(e: DragDataError) -> DragFault {
    match e {
        DragDataError::NotUtf8(_) => DragFault::NotUtf8,
        DragDataError::MissingSeparator => DragFault::MissingSeparator,
        DragDataError::BadEnvelopeHash(_) => DragFault::BadEnvelopeHash,
        DragDataError::BadMailboxHash(_) => DragFault::BadMailboxHash,
    }
}

/// An error in words: the words that came with it, or those of the missing `:`.
pub open spec fn error_words(e: DragDataError) -> Seq<char> {
    match e {
        DragDataError::NotUtf8(words) => words@,
        DragDataError::MissingSeparator => "missing ':' separator"@,
        DragDataError::BadEnvelopeHash(words) => words@,
        DragDataError::BadMailboxHash(words) => words@,
    }
}

/// Files dropped from a file manager: a list of URIs, one per line.
#[derive(Debug, PartialEq, Eq)]
pub struct DraggedFiles(pub String);

/// A message on its way to a folder.
#[derive(Debug, Clone, Copy, PartialEq, Eq, Structural)]
pub struct DraggedMessage {
    pub envelope_hash: u64,
    pub source_mailbox: u64,
}

/// The MIME type of a dropped list of files.
pub open spec fn uri_list_mime() -> Seq<char> {
    "text/uri-list"@
}

/// The MIME type of a dragged message.
pub open spec fn message_mime() -> Seq<char> {
    "application/x-nevermail-message"@
}

/// Whether a byte is an ASCII decimal digit.
pub open spec fn is_digit(b: u8) -> bool {
    48 <= b <= 57
}

/// Whether every byte is a digit.
pub open spec fn all_digits(d: Seq<u8>) -> bool {
    forall|i: int| 0 <= i < d.len() ==> is_digit(#[trigger] d[i])
}

/// The number that a run of digits writes in decimal.
pub open spec fn digits_value(d: Seq<u8>) -> int
    decreases d.len(),
{
    if d.len() == 0 {
        0
    } else {
        digits_value(d.drop_last()) * 10 + (d.last() - 48)
    }
}

/// A number as text: an optional `+`, then one digit or more, with a value
/// that fits 64 bits. Anything else is no number.
pub open spec fn parse_u64(text: Seq<u8>) -> Option<u64> {
    if text.len() > 0 && text[0] == 43 {
        parse_digits(text.drop_first())
    } else {
        parse_digits(text)
    }
}

/// A number as text without a sign: one digit or more, with a value that
/// fits 64 bits.
pub open spec fn parse_digits(d: Seq<u8>) -> Option<u64> {
    if d.len() > 0 && all_digits(d) && digits_value(d) <= u64::MAX {
        Some(digits_value(d) as u64)
    } else {
        None
    }
}

/// What a message payload says: UTF-8 text of two numbers with the first
/// `:` between them. The first fault that is met decides the error.
pub open spec fn parse_message(bytes: Seq<u8>) -> Result<DraggedMessage, DragFault> {
    if !valid_utf8(bytes) {
        Err(DragFault::NotUtf8)
    } else {
        match first_byte(bytes, 58, 0) {
            None => Err(DragFault::MissingSeparator),
            Some(k) => match parse_u64(bytes.subrange(0, k)) {
                None => Err(DragFault::BadEnvelopeHash),
                Some(envelope_hash) => match parse_u64(bytes.subrange(k + 1, bytes.len() as int)) {
                    None => Err(DragFault::BadMailboxHash),
                    Some(source_mailbox) => Ok(DraggedMessage { envelope_hash, source_mailbox }),
                },
            },
        }
    }
}

/// The text of a message payload: the two numbers in decimal with `:` between.
pub open spec fn message_text(m: DraggedMessage) -> Seq<char> {
    decimal_chars(m.envelope_hash as nat) + seq![':'] + decimal_chars(m.source_mailbox as nat)
}

/// A longer run of digits does not write a smaller number than its beginning.
pub proof fn lemma_digits_grow(d: Seq<u8>, n: int)
    requires
        all_digits(d),
        0 <= n <= d.len(),
    ensures
        0 <= digits_value(d.take(n)) <= digits_value(d),
    decreases d.len() - n,
{
    if n == d.len() {
        assert(d.take(n) =~= d);
        lemma_digits_nonneg(d);
    } else {
        lemma_digits_grow(d, n + 1);
        assert(d.take(n + 1).drop_last() =~= d.take(n));
        lemma_digits_nonneg_take(d, n);
    }
}

proof fn lemma_digits_nonneg(d: Seq<u8>)
    requires
        all_digits(d),
    ensures
        digits_value(d) >= 0,
    decreases d.len(),
{
    if d.len() > 0 {
        lemma_digits_nonneg(d.drop_last());
    }
}

proof fn lemma_digits_nonneg_take(d: Seq<u8>, n: int)
    requires
        all_digits(d),
        0 <= n <= d.len(),
    ensures
        digits_value(d.take(n)) >= 0,
{
    lemma_digits_nonneg(d.take(n));
}

/// Reads a number from text.
pub fn read_u64(text: &[u8]) -> (r: Option<u64>)
    ensures
        r == parse_u64(text@),
{
    let start: usize = if text.len() > 0 && text[0] == 43 {
        1
    } else {
        0
    };
    let ghost d = text@.subrange(start as int, text@.len() as int);
    proof {
        if start == 1 {
        } else {
            assert(d =~= text@);
        }
    }
    if start == text.len() {
        return None;
    }
    let mut value: u64 = 0;
    let mut i: usize = start;
    while i < text.len()
        invariant
            start <= i <= text@.len(),
            start < text@.len(),
            d == text@.subrange(start as int, text@.len() as int),
            parse_u64(text@) == parse_digits(d),
            all_digits(d.take(i - start)),
            value == digits_value(d.take(i - start)),
        decreases text@.len() - i,
    {
        let b = text[i];
        proof {
            assert(d[i - start] == b);
            assert(d.take(i - start + 1).drop_last() =~= d.take(i - start));
        }
        if b < 48 || b > 57 {
            return None;
        }
        let digit: u64 = (b - 48) as u64;
        if value > (u64::MAX - digit) / 10 {
            proof {
                if all_digits(d) {
                    lemma_digits_grow(d, i - start + 1);
                }
            }
            return None;
        }
        value = value * 10 + digit;
        i += 1;
    }
    assert(d.take(i - start) =~= d);
    Some(value)
}

impl DraggedFiles {
    /// The MIME types that a drop of files may have.
    pub fn allowed() -> (r: Vec<String>)
        ensures
            r@.len() == 1,
            r@[0]@ == uri_list_mime(),
    {
        let mut out: Vec<String> = Vec::new();
        out.push("text/uri-list".to_owned());
        out
    }

    /// Reads a dropped list of files; the MIME type is not looked at.
    pub fn try_from(bytes: Vec<u8>, mime: String) -> (r: Result<DraggedFiles, DragDataError>)
        ensures
            match r {
                Ok(files) => valid_utf8(bytes@) && files.0@ == decode_utf8(bytes@),
                Err(e) => !valid_utf8(bytes@) && e is NotUtf8,
            },
    {
        match string_from_utf8(bytes) {
            Ok(s) => Ok(DraggedFiles(s)),
            Err(e) => Err(DragDataError::NotUtf8(utf8_error_text(&e))),
        }
    }
}

impl DraggedMessage {
    /// The MIME types under which a dragged message is offered.
    pub fn available(&self) -> (r: Vec<String>)
        ensures
            r@.len() == 1,
            r@[0]@ == message_mime(),
    {
        let mut out: Vec<String> = Vec::new();
        out.push("application/x-nevermail-message".to_owned());
        out
    }

    /// The MIME types that a drop of a message may have.
    pub fn allowed() -> (r: Vec<String>)
        ensures
            r@.len() == 1,
            r@[0]@ == message_mime(),
    {
        let mut out: Vec<String> = Vec::new();
        out.push("application/x-nevermail-message".to_owned());
        out
    }

    /// The payload for a MIME type: for the message type the two numbers in
    /// decimal with `:` between, for any other type nothing.
    pub fn as_bytes(&self, mime_type: &str) -> (r: Option<Vec<u8>>)
        ensures
            match r {
                Some(bytes) => mime_type@ == message_mime() && bytes@ == encode_utf8(message_text(*self)),
                None => mime_type@ != message_mime(),
            },
    {
        if same_text(mime_type, "application/x-nevermail-message") {
            let mut text = decimal_string(self.envelope_hash);
            proof {
                reveal_strlit(":");
                assert(":"@ =~= seq![':']);
            }
            text.append(":");
            text.append(decimal_string(self.source_mailbox).as_str());
            Some(text.as_str().as_bytes_vec())
        } else {
            None
        }
    }

    /// Reads a dragged message from its payload; the MIME type is not looked at.
    pub fn try_from(bytes: Vec<u8>, mime: String) -> (r: Result<DraggedMessage, DragDataError>)
        ensures
            match r {
                Ok(message) => parse_message(bytes@) == Ok::<DraggedMessage, DragFault>(message),
                Err(e) => parse_message(bytes@) == Err::<DraggedMessage, DragFault>(kind_of(e)),
            },
    {
        let text = match string_from_utf8(bytes) {
            Ok(s) => s,
            Err(e) => {
                return Err(DragDataError::NotUtf8(utf8_error_text(&e)));
            },
        };
        let whole = text.as_str();
        let k = match find_byte(whole.as_bytes(), 58) {
            Some(k) => k,
            None => {
                return Err(DragDataError::MissingSeparator);
            },
        };
        proof {
            crate::text::lemma_mark_is_boundary(whole.spec_bytes(), k as int);
        }
        let (head, tail) = whole.split_at(k);
        let (_colon, rest) = tail.split_at(1);
        proof {
            assert(head.spec_bytes() =~= bytes@.subrange(0, k as int));
            assert(rest.spec_bytes() =~= bytes@.subrange(k + 1, bytes@.len() as int));
        }
        let envelope_hash = match read_u64(head.as_bytes()) {
            Some(n) => n,
            None => {
                return Err(DragDataError::BadEnvelopeHash(number_fault_words(head)));
            },
        };
        let source_mailbox = match read_u64(rest.as_bytes()) {
            Some(n) => n,
            None => {
                return Err(DragDataError::BadMailboxHash(number_fault_words(rest)));
            },
        };
        Ok(DraggedMessage { envelope_hash, source_mailbox })
    }
}

/// The words of std for a text that is no number. The text is handed to
/// std's parser for its error only; whether it is a number was decided before.
fn number_fault_words(text: &str) -> String {
    match std_parse_u64(text) {
        Err(e) => parse_error_text(&e),
        Ok(_) => "invalid number".to_owned(),
    }
}

impl DragDataError {
    /// The fault that the error reports.
    pub fn fault(&self) -> (r: DragFault)
        ensures
            r == kind_of(*self),
    {
        match self {
            DragDataError::NotUtf8(_) => DragFault::NotUtf8,
            DragDataError::MissingSeparator => DragFault::MissingSeparator,
            DragDataError::BadEnvelopeHash(_) => DragFault::BadEnvelopeHash,
            DragDataError::BadMailboxHash(_) => DragFault::BadMailboxHash,
        }
    }

    /// The error in words.
    pub fn message(&self) -> (r: String)
        ensures
            r@ == error_words(*self),
    {
        match self {
            DragDataError::NotUtf8(words) => words.clone(),
            DragDataError::MissingSeparator => "missing ':' separator".to_owned(),
            DragDataError::BadEnvelopeHash(words) => words.clone(),
            DragDataError::BadMailboxHash(words) => words.clone(),
        }
    }
}

/// The decimal digits of `n` as bytes.
pub open spec fn decimal_bytes(n: nat) -> Seq<u8>
    decreases n,
{
    if n < 10 {
        seq![(48 + n) as u8]
    } else {
        decimal_bytes(n / 10).push((48 + n % 10) as u8)
    }
}

/// The decimal text of a number is made of ASCII digits that write the number.
pub proof fn lemma_decimal_digits(n: nat)
    ensures
        decimal_chars(n).len() == decimal_bytes(n).len(),
        decimal_bytes(n).len() >= 1,
        forall|i: int| 0 <= i < decimal_chars(n).len() ==> (#[trigger] decimal_chars(n)[i]) as u8 == decimal_bytes(n)[i],
        vstd::utf8::is_ascii_chars(decimal_chars(n)),
        all_digits(decimal_bytes(n)),
        digits_value(decimal_bytes(n)) == n,
    decreases n,
{
    if n < 10 {
        let one = decimal_bytes(n);
        assert(digits_value(one.drop_last()) == 0);
    } else {
        lemma_decimal_digits(n / 10);
        let init = decimal_bytes(n / 10);
        let all = decimal_bytes(n);
        assert(all.drop_last() =~= init);
        assert forall|i: int| 0 <= i < decimal_chars(n).len() implies '\0' <= #[trigger] decimal_chars(
            n,
        )[i] <= '\u{7f}' by {}
    }
}

proof fn lemma_colon_after_digits(bytes: Seq<u8>, k: int, from: int)
    requires
        0 <= from <= k < bytes.len(),
        bytes[k] == 58,
        forall|i: int| 0 <= i < k ==> is_digit(#[trigger] bytes[i]),
    ensures
        first_byte(bytes, 58, from) == Some(k),
    decreases k - from,
{
    if from < k {
        lemma_colon_after_digits(bytes, k, from + 1);
    }
}

/// What `as_bytes` writes, `try_from` reads back: the payload of a message
/// parses to that message.
pub proof fn law_payload_roundtrip(m: DraggedMessage)
    ensures
        parse_message(encode_utf8(message_text(m))) == Ok::<DraggedMessage, DragFault>(m),
{
    let a = decimal_chars(m.envelope_hash as nat);
    let x = decimal_bytes(m.envelope_hash as nat);
    let y = decimal_bytes(m.source_mailbox as nat);
    let text = message_text(m);
    let bytes = encode_utf8(text);
    lemma_decimal_digits(m.envelope_hash as nat);
    lemma_decimal_digits(m.source_mailbox as nat);
    assert forall|i: int| 0 <= i < text.len() implies '\0' <= #[trigger] text[i] <= '\u{7f}' by {}
    vstd::utf8::is_ascii_chars_encode_utf8(text);
    let k = a.len() as int;
    lemma_colon_after_digits(bytes, k, 0);
    assert(bytes.subrange(0, k) =~= x);
    assert(bytes.subrange(k + 1, bytes.len() as int) =~= y);
}

} // verus!
