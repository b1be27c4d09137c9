//! Rendering a message body for display: as plain text, or as Markdown made
//! from sanitised HTML.

use vstd::prelude::*;
use vstd::string::StringSliceAdditionalSpecFns;
use vstd::utf8::{decode_utf8, encode_utf8, is_char_boundary};
use crate::models::ascii_lower;
use crate::text::{trim_text, trimmed};

verus! {

broadcast use vstd::utf8::group_utf8_lib;

/// Largest HTML input, in bytes, that is converted; the rest is cut off.
pub const MAX_HTML_BYTES: usize = 524288;

/// Largest Markdown output, in bytes; the rest is cut off.
pub const MAX_MD_CHARS: usize = 200000;

/// Deepest nesting of elements in sanitised HTML that is still converted to
/// Markdown.
pub const MAX_NESTING: usize = 128;

/// Column at which converted plain text is wrapped.
pub const TEXT_WIDTH: usize = 80;

/// What `html2text::from_read` makes of an HTML document, given as bytes, at
/// a line width; `None` where it reports an error.
pub uninterp spec fn html2text_plain(html: Seq<u8>, width: nat) -> Option<Seq<char>>;

/// What `ammonia::Builder::clean` leaves of an HTML fragment when the builder
/// is the default one but for its set of allowed tags.
pub uninterp spec fn ammonia_clean(tags: Seq<Seq<char>>, html: Seq<char>) -> Seq<char>;

/// The Markdown that `html2md::parse_html` makes of an HTML document.
pub uninterp spec fn html2md_markdown(html: Seq<char>) -> Seq<char>;

/// The text shown when a message has neither a plain nor an HTML part.
pub open spec fn no_content() -> Seq<char> {
    "[No displayable content]"@
}

/// The names of a list of tags.
pub open spec fn tag_names(tags: Seq<&'static str>) -> Seq<Seq<char>> {
    Seq::new(tags.len(), |i: int| tags[i]@)
}

/// Whether a tag may be allowed: the sanitiser drops `script` and `style`
/// with their content and refuses them in the set of allowed tags.
pub open spec fn survives(tag: Seq<char>) -> bool {
    tag != "script"@ && tag != "style"@
}

/// Calls `html2text::from_read` on the bytes with the given width and turns
/// its error into `None`. Trusted: the result is the named value
/// `html2text_plain` of the two arguments; nothing is claimed of what it holds.
#[verifier::external_body]
fn html2text_from_read(html: &[u8], width: usize) -> (r: Option<String>)
    ensures
        match r {
            Some(s) => html2text_plain(html@, width as nat) == Some(s@),
            None => html2text_plain(html@, width as nat) is None,
        },
{
    html2text::from_read(html, width).ok()
}

/// Calls `ammonia::Builder::new().tags(..).clean(..)` and writes the cleaned
/// document out. Trusted: the result is the named value `ammonia_clean` of
/// the tag names and the input. The builder refuses a tag set that holds
/// `script` or `style`, whose content it is set to drop: such a set is left out.
#[verifier::external_body]
fn ammonia_sanitize(tags: &[&'static str], html: &str) -> (r: String)
    requires
        forall|i: int| 0 <= i < tags@.len() ==> survives(#[trigger] tags@[i]@),
    ensures
        r@ == ammonia_clean(tag_names(tags@), html@),
{
    let set: std::collections::HashSet<&str> = tags.iter().copied().collect();
    ammonia::Builder::new().tags(set).clean(html).to_string()
}

/// Calls `html2md::parse_html`. Trusted: the result is the named value
/// `html2md_markdown` of the input. The conversion walks the element tree by
/// recursion, one call for each level of nesting. Its input is HTML as the
/// sanitiser writes it, where every `<` opens or closes a tag and the tags
/// are properly nested, so that `nesting` is the depth of its element tree;
/// a text that nests deeper than `MAX_NESTING` is left out. So is a text with
/// a list item outside any list: for such an item the conversion rewrites
/// the white space of everything written so far, and the elements around the
/// item then cut the output at places that are no longer theirs.
#[verifier::external_body]
fn html2md_parse(html: &CleanHtml) -> (r: String)
    requires
        convertible(html@),
    ensures
        r@ == html2md_markdown(html@),
{
    html2md::parse_html(html.text.as_str())
}

/// The number of line feeds among the bytes.
pub open spec fn line_feeds(bytes: Seq<u8>) -> nat
    decreases bytes.len(),
{
    if bytes.len() == 0 {
        0
    } else if bytes.last() == 10 {
        line_feeds(bytes.drop_last()) + 1
    } else {
        line_feeds(bytes.drop_last())
    }
}

/// The number of lines of a text given as bytes: every line feed ends a
/// line, and what follows the last line feed is a line if it is not empty.
pub open spec fn line_count(bytes: Seq<u8>) -> nat {
    if bytes.len() == 0 {
        0
    } else if bytes.last() == 10 {
        line_feeds(bytes)
    } else {
        line_feeds(bytes) + 1
    }
}

/// Whether a plain-text part, white space at its ends apart, is too short to
/// be the message: empty, under 40 bytes, or of no more than two lines.
pub open spec fn is_junk(s: Seq<char>) -> bool {
    let t = encode_utf8(trimmed(s));
    t.len() < 40 || line_count(t) <= 2
}

/// The largest character boundary of the text that is not beyond `at`.
pub open spec fn floor_boundary(bytes: Seq<u8>, at: int) -> int
    decreases at,
{
    if at <= 0 {
        0
    } else if is_char_boundary(bytes, at) {
        at
    } else {
        floor_boundary(bytes, at - 1)
    }
}

/// A text cut to at most `limit` bytes, at a character boundary.
pub open spec fn cut(s: Seq<char>, limit: usize) -> Seq<char> {
    let bytes = encode_utf8(s);
    let at = if limit < bytes.len() {
        limit as int
    } else {
        bytes.len() as int
    };
    decode_utf8(bytes.subrange(0, floor_boundary(bytes, at)))
}

/// The tags that survive sanitising: those that carry meaning in Markdown.
pub open spec fn allowed_tags() -> Seq<Seq<char>> {
    seq![
        "p"@,
        "br"@,
        "hr"@,
        "blockquote"@,
        "pre"@,
        "h1"@,
        "h2"@,
        "h3"@,
        "h4"@,
        "h5"@,
        "h6"@,
        "b"@,
        "strong"@,
        "i"@,
        "em"@,
        "code"@,
        "s"@,
        "del"@,
        "u"@,
        "small"@,
        "sub"@,
        "sup"@,
        "ul"@,
        "ol"@,
        "li"@,
        "a"@,
    ]
}

/// Whether a byte is an ASCII letter.
pub open spec fn is_letter(b: u8) -> bool {
    65 <= b <= 90 || 97 <= b <= 122
}

/// Whether an opening tag starts at place `i`: a `<` with a letter behind it.
pub open spec fn tag_opens_at(bytes: Seq<u8>, i: int) -> bool {
    0 <= i && i + 1 < bytes.len() && bytes[i] == 60 && is_letter(bytes[i + 1])
}

/// Whether a closing tag starts at place `i`: a `<` with a `/` behind it.
pub open spec fn tag_closes_at(bytes: Seq<u8>, i: int) -> bool {
    0 <= i && i + 1 < bytes.len() && bytes[i] == 60 && bytes[i + 1] == 47
}

/// Whether the tag that opens at place `i` is `br` or `hr`, which hold
/// nothing and are never closed.
pub open spec fn tag_is_void_at(bytes: Seq<u8>, i: int) -> bool {
    &&& 0 <= i && i + 3 < bytes.len()
    &&& bytes[i + 1] == 98 || bytes[i + 1] == 104
    &&& bytes[i + 2] == 114
    &&& bytes[i + 3] == 62 || bytes[i + 3] == 32 || bytes[i + 3] == 47
}

/// The depth after the byte at place `i`, from the depth before it: an
/// opening tag that is not void goes one level down, a closing tag one level up.
pub open spec fn depth_step(bytes: Seq<u8>, depth: nat, i: int) -> nat {
    if tag_closes_at(bytes, i) {
        if depth > 0 {
            (depth - 1) as nat
        } else {
            0
        }
    } else if tag_opens_at(bytes, i) && !tag_is_void_at(bytes, i) {
        depth + 1
    } else {
        depth
    }
}

/// The number of elements that are open after the first `n` bytes.
pub open spec fn depth_before(bytes: Seq<u8>, n: int) -> nat
    decreases n,
{
    if n <= 0 {
        0
    } else {
        depth_step(bytes, depth_before(bytes, n - 1), n - 1)
    }
}

/// The largest number of elements that are open at once within the first `n` bytes.
pub open spec fn nesting_before(bytes: Seq<u8>, n: int) -> nat
    decreases n,
{
    if n <= 0 {
        0
    } else if depth_before(bytes, n) > nesting_before(bytes, n - 1) {
        depth_before(bytes, n)
    } else {
        nesting_before(bytes, n - 1)
    }
}

/// How deep an HTML text nests its elements.
pub open spec fn nesting(bytes: Seq<u8>) -> nat {
    nesting_before(bytes, bytes.len() as int)
}

/// Whether a byte can stand in a tag name: a letter, a digit or a hyphen.
pub open spec fn is_name_byte(b: u8) -> bool {
    is_letter(b) || 48 <= b <= 57 || b == 45
}

/// Whether the tag name that starts at place `at` is `name`, letters compared
/// without regard to case.
pub open spec fn name_at(bytes: Seq<u8>, at: int, name: Seq<u8>) -> bool {
    &&& 0 <= at && at + name.len() <= bytes.len()
    &&& forall|k: int| 0 <= k < name.len() ==> ascii_lower(#[trigger] bytes[at + k]) == name[k]
    &&& at + name.len() < bytes.len() ==> !is_name_byte(bytes[at + name.len()])
}

/// Whether the tag name at place `at` is that of a list: `ul`, `ol` or `menu`.
pub open spec fn list_name_at(bytes: Seq<u8>, at: int) -> bool {
    ||| name_at(bytes, at, seq![117u8, 108u8])
    ||| name_at(bytes, at, seq![111u8, 108u8])
    ||| name_at(bytes, at, seq![109u8, 101u8, 110u8, 117u8])
}

/// Whether the tag name at place `at` is that of a list item, `li`.
pub open spec fn item_name_at(bytes: Seq<u8>, at: int) -> bool {
    name_at(bytes, at, seq![108u8, 105u8])
}

/// The number of open lists after the byte at place `i`, from the number before it.
pub open spec fn lists_step(bytes: Seq<u8>, open: nat, i: int) -> nat {
    if tag_closes_at(bytes, i) && list_name_at(bytes, i + 2) {
        if open > 0 {
            (open - 1) as nat
        } else {
            0
        }
    } else if tag_opens_at(bytes, i) && list_name_at(bytes, i + 1) {
        open + 1
    } else {
        open
    }
}

/// The number of lists that are open after the first `n` bytes.
pub open spec fn lists_before(bytes: Seq<u8>, n: int) -> nat
    decreases n,
{
    if n <= 0 {
        0
    } else {
        lists_step(bytes, lists_before(bytes, n - 1), n - 1)
    }
}

/// Whether a list item opens at place `i` while no list is open.
pub open spec fn orphan_item_at(bytes: Seq<u8>, i: int) -> bool {
    tag_opens_at(bytes, i) && item_name_at(bytes, i + 1) && lists_before(bytes, i) == 0
}

/// Whether a list item opens outside any list within the first `n` bytes.
pub open spec fn orphan_item_before(bytes: Seq<u8>, n: int) -> bool
    decreases n,
{
    if n <= 0 {
        false
    } else {
        orphan_item_before(bytes, n - 1) || orphan_item_at(bytes, n - 1)
    }
}

/// Whether an HTML text has a list item outside any list.
pub open spec fn has_orphan_item(bytes: Seq<u8>) -> bool {
    orphan_item_before(bytes, bytes.len() as int)
}

/// Whether an HTML text can be converted to Markdown: it is flat enough, and
/// every list item of it stands in a list.
pub open spec fn convertible(html: Seq<char>) -> bool {
    nesting(encode_utf8(html)) <= MAX_NESTING && !has_orphan_item(encode_utf8(html))
}

/// HTML as the sanitiser has written it.
#[derive(Debug, PartialEq, Eq)]
pub struct CleanHtml {
    text: String,
}

impl View for CleanHtml {
    type V = Seq<char>;

    closed spec fn view(&self) -> Seq<char> {
        self.text@
    }
}

impl CleanHtml {
    /// The sanitised HTML as text.
    pub fn as_str(&self) -> (r: &str)
        ensures
            r@ == self@,
    {
        self.text.as_str()
    }
}

/// The HTML part as it is converted: cut to `MAX_HTML_BYTES` and sanitised
/// down to the allowed tags.
pub open spec fn sanitised(html: Seq<char>) -> Seq<char> {
    ammonia_clean(allowed_tags(), cut(html, MAX_HTML_BYTES))
}

/// The Markdown of an HTML part: the sanitised HTML converted and cut to
/// `MAX_MD_CHARS`; none if the sanitised HTML cannot be converted.
pub open spec fn markdown_of(html: Seq<char>) -> Option<Seq<char>> {
    if convertible(sanitised(html)) {
        Some(cut(html2md_markdown(sanitised(html)), MAX_MD_CHARS))
    } else {
        None
    }
}

/// The plain text of an HTML part; empty where the conversion fails.
pub open spec fn text_of(html: Seq<char>) -> Seq<char> {
    match html2text_plain(encode_utf8(html), TEXT_WIDTH as nat) {
        Some(s) => s,
        None => Seq::empty(),
    }
}

/// The body as plain text: the plain part if there is one, else the HTML part
/// converted, else a notice.
pub open spec fn body_text(text_plain: Option<&str>, text_html: Option<&str>) -> Seq<char> {
    match (text_plain, text_html) {
        (Some(plain), _) => plain@,
        (None, Some(html)) => text_of(html@),
        (None, None) => no_content(),
    }
}

/// What is shown of an HTML part of which `head` is read: its Markdown, or
/// its plain text where it cannot be converted; either way cut to `MAX_MD_CHARS`.
pub open spec fn rendering_of(head: Seq<char>) -> Seq<char> {
    let clean = ammonia_clean(allowed_tags(), head);
    if convertible(clean) {
        cut(html2md_markdown(clean), MAX_MD_CHARS)
    } else {
        cut(text_of(head), MAX_MD_CHARS)
    }
}

/// What is shown of an HTML part: the rendering of its first `MAX_HTML_BYTES` bytes.
pub open spec fn html_rendering(html: Seq<char>) -> Seq<char> {
    rendering_of(cut(html, MAX_HTML_BYTES))
}

/// The body as Markdown: the plain part if it looks like the message, else
/// the HTML part rendered, else the plain part whatever it looks like, else
/// a notice.
pub open spec fn body_markdown(text_plain: Option<&str>, text_html: Option<&str>) -> Seq<char> {
    match (text_plain, text_html) {
        (Some(plain), Some(html)) => if is_junk(plain@) {
            html_rendering(html@)
        } else {
            plain@
        },
        (Some(plain), None) => plain@,
        (None, Some(html)) => html_rendering(html@),
        (None, None) => no_content(),
    }
}

/// Whether the HTML part decides what is shown: there is one, and the plain
/// part is missing or does not look like the message.
pub open spec fn html_decides(text_plain: Option<&str>, text_html: Option<&str>) -> bool {
    text_html is Some && match text_plain {
        Some(plain) => is_junk(plain@),
        None => true,
    }
}

/// Two HTML parts with the same first `MAX_HTML_BYTES` bytes are shown alike:
/// nothing behind the cut is read.
pub proof fn law_only_the_head_is_read(a: Seq<char>, b: Seq<char>)
    requires
        cut(a, MAX_HTML_BYTES) == cut(b, MAX_HTML_BYTES),
    ensures
        html_rendering(a) == html_rendering(b),
        markdown_of(a) == markdown_of(b),
{
}

/// The converted text, or the empty text where the conversion failed.
pub fn text_or_empty(converted: Option<String>) -> (r: String)
    ensures
        r@ == match converted {
            Some(s) => s@,
            None => Seq::<char>::empty(),
        },
{
    match converted {
        Some(s) => s,
        None => String::new(),
    }
}

/// Converts an HTML body to plain text wrapped at `TEXT_WIDTH` columns.
pub fn html_to_text(html: &str) -> (r: String)
    ensures
        r@ == text_of(html@),
{
    text_or_empty(html2text_from_read(html.as_bytes(), TEXT_WIDTH))
}

/// Renders a message body as plain text for display.
pub fn render_body(text_plain: Option<&str>, text_html: Option<&str>) -> (r: String)
    ensures
        r@ == body_text(text_plain, text_html),
{
    match text_plain {
        Some(plain) => plain.to_owned(),
        None => match text_html {
            Some(html) => html_to_text(html),
            None => "[No displayable content]".to_owned(),
        },
    }
}

/// Counts the lines of a text given as bytes.
pub fn count_lines(bytes: &[u8]) -> (r: usize)
    ensures
        r == line_count(bytes@),
{
    let mut feeds: usize = 0;
    let mut i: usize = 0;
    while i < bytes.len()
        invariant
            i <= bytes@.len(),
            feeds == line_feeds(bytes@.take(i as int)),
            feeds <= i,
        decreases bytes@.len() - i,
    {
        proof {
            assert(bytes@.take(i + 1).drop_last() =~= bytes@.take(i as int));
        }
        if bytes[i] == 10 {
            feeds += 1;
        }
        i += 1;
    }
    assert(bytes@.take(i as int) =~= bytes@);
    if bytes.len() == 0 {
        0
    } else if bytes[bytes.len() - 1] == 10 {
        feeds
    } else {
        proof {
            lemma_line_feeds_bound(bytes@.drop_last());
        }
        feeds + 1
    }
}

/// There are no more line feeds than bytes.
pub proof fn lemma_line_feeds_bound(bytes: Seq<u8>)
    ensures
        line_feeds(bytes) <= bytes.len(),
    decreases bytes.len(),
{
    if bytes.len() > 0 {
        lemma_line_feeds_bound(bytes.drop_last());
    }
}

/// Whether a plain-text part looks like a teaser or tracking junk rather than
/// the message itself.
pub fn plain_is_junk(s: &str) -> (r: bool)
    ensures
        r == is_junk(s@),
{
    let t = trim_text(s).as_bytes();
    t.len() < 40 || count_lines(t) <= 2
}

/// Cuts a text to at most `limit` bytes without splitting a character.
pub fn truncate_text(s: &str, limit: usize) -> (r: &str)
    ensures
        r@ == cut(s@, limit),
        r.spec_bytes().len() <= limit,
{
    let len = s.as_bytes().len();
    let start: usize = if limit < len {
        limit
    } else {
        len
    };
    let mut at: usize = start;
    while at > 0 && !s.is_char_boundary(at)
        invariant
            at <= start,
            floor_boundary(s.spec_bytes(), start as int) == floor_boundary(s.spec_bytes(), at as int),
        decreases at,
    {
        at -= 1;
    }
    let (head, _rest) = s.split_at(at);
    head
}

/// Strips an HTML mail down to the tags that carry meaning in Markdown. The
/// text inside a stripped tag stays; layout tables, images and styles go.
pub fn clean_email_html(html: &str) -> (r: CleanHtml)
    ensures
        r@ == ammonia_clean(allowed_tags(), html@),
{
    let tags: [&'static str; 26] = [
        "p",
        "br",
        "hr",
        "blockquote",
        "pre",
        "h1",
        "h2",
        "h3",
        "h4",
        "h5",
        "h6",
        "b",
        "strong",
        "i",
        "em",
        "code",
        "s",
        "del",
        "u",
        "small",
        "sub",
        "sup",
        "ul",
        "ol",
        "li",
        "a",
    ];
    proof {
        reveal_strlit("script");
        reveal_strlit("style");
        reveal_strlit("p");
        reveal_strlit("br");
        reveal_strlit("hr");
        reveal_strlit("blockquote");
        reveal_strlit("pre");
        reveal_strlit("h1");
        reveal_strlit("h2");
        reveal_strlit("h3");
        reveal_strlit("h4");
        reveal_strlit("h5");
        reveal_strlit("h6");
        reveal_strlit("b");
        reveal_strlit("strong");
        reveal_strlit("i");
        reveal_strlit("em");
        reveal_strlit("code");
        reveal_strlit("s");
        reveal_strlit("del");
        reveal_strlit("u");
        reveal_strlit("small");
        reveal_strlit("sub");
        reveal_strlit("sup");
        reveal_strlit("ul");
        reveal_strlit("ol");
        reveal_strlit("li");
        reveal_strlit("a");
        assert("script"@.len() == 6);
        assert("style"@.len() == 5);
        assert(survives("strong"@)) by {
            assert("strong"@[1] != "script"@[1]);
        }
        assert(survives("small"@)) by {
            assert("small"@[1] != "style"@[1]);
        }
        assert(tag_names(tags@) =~= allowed_tags());
    }
    CleanHtml { text: ammonia_sanitize(tags.as_slice(), html) }
}

/// Measures how deep an HTML text nests its elements.
pub fn nesting_depth(bytes: &[u8]) -> (r: usize)
    ensures
        r == nesting(bytes@),
{
    let mut depth: usize = 0;
    let mut deepest: usize = 0;
    let mut i: usize = 0;
    while i < bytes.len()
        invariant
            i <= bytes@.len(),
            depth == depth_before(bytes@, i as int),
            deepest == nesting_before(bytes@, i as int),
            depth <= i,
            deepest <= i,
        decreases bytes@.len() - i,
    {
        if bytes[i] == 60 && i + 1 < bytes.len() {
            let next = bytes[i + 1];
            if next == 47 {
                if depth > 0 {
                    depth -= 1;
                }
            } else if (65 <= next && next <= 90) || (97 <= next && next <= 122) {
                let void = bytes.len() - i > 3 && (next == 98 || next == 104) && bytes[i + 2] == 114
                    && (bytes[i + 3] == 62 || bytes[i + 3] == 32 || bytes[i + 3] == 47);
                if !void {
                    depth += 1;
                }
            }
        }
        if depth > deepest {
            deepest = depth;
        }
        i += 1;
    }
    deepest
}

/// Whether the tag name at place `at` is `name`, letters compared without
/// regard to case.
pub fn name_is(bytes: &[u8], at: usize, name: &[u8]) -> (r: bool)
    ensures
        r == name_at(bytes@, at as int, name@),
{
    if at > bytes.len() || name.len() > bytes.len() - at {
        return false;
    }
    let total = bytes.len();
    let mut k: usize = 0;
    while k < name.len()
        invariant
            k <= name@.len(),
            total == bytes@.len(),
            at + name@.len() <= bytes@.len(),
            forall|j: int| 0 <= j < k ==> ascii_lower(#[trigger] bytes@[at + j]) == name@[j],
        decreases name@.len() - k,
    {
        let b = bytes[at + k];
        let low = if 65 <= b && b <= 90 {
            b + 32
        } else {
            b
        };
        if low != name[k] {
            assert(ascii_lower(bytes@[at + k]) != name@[k as int]);
            return false;
        }
        k += 1;
    }
    let end = at + name.len();
    if end < bytes.len() {
        let b = bytes[end];
        let in_name = (65 <= b && b <= 90) || (97 <= b && b <= 122) || (48 <= b && b <= 57) || b == 45;
        !in_name
    } else {
        true
    }
}

/// Whether the tag name at place `at` is that of a list.
pub fn is_list_name(bytes: &[u8], at: usize) -> (r: bool)
    ensures
        r == list_name_at(bytes@, at as int),
{
    let ul: [u8; 2] = [117u8, 108u8];
    let ol: [u8; 2] = [111u8, 108u8];
    let menu: [u8; 4] = [109u8, 101u8, 110u8, 117u8];
    proof {
        assert(ul@ =~= seq![117u8, 108u8]);
        assert(ol@ =~= seq![111u8, 108u8]);
        assert(menu@ =~= seq![109u8, 101u8, 110u8, 117u8]);
    }
    name_is(bytes, at, ul.as_slice()) || name_is(bytes, at, ol.as_slice()) || name_is(
        bytes,
        at,
        menu.as_slice(),
    )
}

/// Whether the tag name at place `at` is that of a list item.
pub fn is_item_name(bytes: &[u8], at: usize) -> (r: bool)
    ensures
        r == item_name_at(bytes@, at as int),
{
    let li: [u8; 2] = [108u8, 105u8];
    proof {
        assert(li@ =~= seq![108u8, 105u8]);
    }
    name_is(bytes, at, li.as_slice())
}

/// Looks for a list item outside any list.
pub fn find_orphan_item(bytes: &[u8]) -> (r: bool)
    ensures
        r == has_orphan_item(bytes@),
{
    let mut open: usize = 0;
    let mut i: usize = 0;
    while i < bytes.len()
        invariant
            i <= bytes@.len(),
            open == lists_before(bytes@, i as int),
            open <= i,
            !orphan_item_before(bytes@, i as int),
        decreases bytes@.len() - i,
    {
        if bytes[i] == 60 && bytes.len() - i > 1 {
            let next = bytes[i + 1];
            if next == 47 {
                if is_list_name(bytes, i + 2) && open > 0 {
                    open -= 1;
                }
            } else if (65 <= next && next <= 90) || (97 <= next && next <= 122) {
                if is_item_name(bytes, i + 1) && open == 0 {
                    assert(orphan_item_at(bytes@, i as int));
                    proof {
                        lemma_orphan_stays(bytes@, i + 1, bytes@.len() as int);
                    }
                    return true;
                }
                if is_list_name(bytes, i + 1) {
                    open += 1;
                }
            }
        }
        i += 1;
    }
    false
}

/// An orphan item found within the first `n` bytes is found within any more.
pub proof fn lemma_orphan_stays(bytes: Seq<u8>, n: int, m: int)
    requires
        n <= m,
        orphan_item_before(bytes, n),
    ensures
        orphan_item_before(bytes, m),
    decreases m - n,
{
    if n < m {
        lemma_orphan_stays(bytes, n, m - 1);
    }
}

/// Whether sanitised HTML can be converted to Markdown.
pub fn can_convert(clean: &CleanHtml) -> (r: bool)
    ensures
        r == convertible(clean@),
{
    let bytes = clean.as_str().as_bytes();
    nesting_depth(bytes) <= MAX_NESTING && !find_orphan_item(bytes)
}

/// Converts an HTML part to Markdown; `None` if it cannot be converted.
pub fn html_to_markdown(html: &str) -> (r: Option<String>)
    ensures
        match r {
            Some(markdown) => markdown_of(html@) == Some(markdown@),
            None => markdown_of(html@) is None,
        },
        r matches Some(markdown) ==> encode_utf8(markdown@).len() <= MAX_MD_CHARS,
{
    let head = truncate_text(html, MAX_HTML_BYTES);
    let clean = clean_email_html(head);
    if !can_convert(&clean) {
        return None;
    }
    let markdown = html2md_parse(&clean);
    Some(truncate_text(markdown.as_str(), MAX_MD_CHARS).to_owned())
}

/// Renders an HTML part for the preview: as Markdown, or as plain text where
/// it cannot be converted. Only the first `MAX_HTML_BYTES` bytes are read, and
/// no more than `MAX_MD_CHARS` bytes are returned.
pub fn render_html(html: &str) -> (r: String)
    ensures
        r@ == html_rendering(html@),
        encode_utf8(r@).len() <= MAX_MD_CHARS,
{
    let head = truncate_text(html, MAX_HTML_BYTES);
    let clean = clean_email_html(head);
    if can_convert(&clean) {
        let markdown = html2md_parse(&clean);
        truncate_text(markdown.as_str(), MAX_MD_CHARS).to_owned()
    } else {
        let text = html_to_text(head);
        truncate_text(text.as_str(), MAX_MD_CHARS).to_owned()
    }
}

/// Renders a message body as Markdown for the preview. Where the HTML part
/// decides, the result is no longer than `MAX_MD_CHARS` bytes.
pub fn render_body_markdown(text_plain: Option<&str>, text_html: Option<&str>) -> (r: String)
    ensures
        r@ == body_markdown(text_plain, text_html),
        html_decides(text_plain, text_html) ==> encode_utf8(r@).len() <= MAX_MD_CHARS,
{
    match (text_plain, text_html) {
        (Some(plain), Some(html)) => if plain_is_junk(plain) {
            render_html(html)
        } else {
            plain.to_owned()
        },
        (Some(plain), None) => plain.to_owned(),
        (None, Some(html)) => render_html(html),
        (None, None) => "[No displayable content]".to_owned(),
    }
}

} // verus!
