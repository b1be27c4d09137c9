use nevermail::mime::{
    clean_email_html, count_lines, find_orphan_item, html_to_markdown, html_to_text, name_is,
    nesting_depth, plain_is_junk, render_html,
    render_body, render_body_markdown, text_or_empty, truncate_text, MAX_HTML_BYTES, MAX_MD_CHARS,
    MAX_NESTING,
};

// A plain-text invoice and its HTML twin: nested layout tables, conditional
// comments for Outlook, inline styles and a tracking pixel.
const FIXTURE_PLAIN: &str = "1Password\n\nThanks for your payment!\n\nHi Test Family,\n\nWe've charged your card for your 1Password Families Plan subscription.\n\nInvoice number: INV-00012345\nBilling period: Jan 1, 2025 - Jan 1, 2026\n\n1Password Families Plan (annual)      $59.88\nTax                                    $3.56\nTotal                                 $63.44\n\nYou can view your invoices at any time:\nhttps://testfamily.1password.com/billing\n\nIf you have any questions, reply to this email and we'll be happy to help.\n\nThe 1Password Team\n";
const FIXTURE_HTML: &str = "<!DOCTYPE html PUBLIC \"-//W3C//DTD XHTML 1.0 Transitional//EN\" \"http://www.w3.org/TR/xhtml1/DTD/xhtml1-transitional.dtd\">\n<html xmlns=\"http://www.w3.org/1999/xhtml\" xmlns:o=\"urn:schemas-microsoft-com:office:office\">\n<head>\n<meta http-equiv=\"Content-Type\" content=\"text/html; charset=UTF-8\" />\n<!--[if mso]>\n<style type=\"text/css\">\ntable { mso-table-lspace: 0pt; mso-table-rspace: 0pt; border-collapse: collapse; }\n</style>\n<![endif]-->\n<style type=\"text/css\">\nbody { margin: 0; padding: 0; background-color: #f4f4f4; }\ntable { border-collapse: collapse; }\n.wrapper { width: 100%; background-color: #f4f4f4; }\n.content { max-width: 600px; background-color: #ffffff; }\n</style>\n</head>\n<body style=\"margin:0;padding:0;background-color:#f4f4f4;\">\n<table class=\"wrapper\" width=\"100%\" cellpadding=\"0\" cellspacing=\"0\" border=\"0\" style=\"background-color:#f4f4f4;border-collapse:collapse;\">\n<tr><td align=\"center\">\n<!--[if mso]><table width=\"600\" style=\"mso-table-lspace:0pt\"><tr><td><![endif]-->\n<table class=\"content\" width=\"600\" cellpadding=\"0\" cellspacing=\"0\" border=\"0\" style=\"border-collapse:collapse;background-color:#ffffff;\">\n<tr><td style=\"padding:24px;\"><img src=\"https://cdn.example.com/logo.png\" width=\"120\" height=\"24\" alt=\"1Password\" /></td></tr>\n<tr><td style=\"padding:24px;\">\n<h1 style=\"font-size:24px;\">Thanks for your payment!</h1>\n<p style=\"color:#333333;\">Hi Test Family,</p>\n<p style=\"color:#333333;\">We've charged your card for your <strong>1Password Families Plan</strong> subscription.</p>\n<table width=\"100%\" cellpadding=\"0\" cellspacing=\"0\" border=\"0\" style=\"border-collapse:collapse;\">\n<tr><td><p>Families Plan (annual)</p></td><td align=\"right\"><p>$59.88</p></td></tr>\n<tr><td><p>Tax</p></td><td align=\"right\"><p>$3.56</p></td></tr>\n<tr><td><p><strong>Total</strong></p></td><td align=\"right\"><p><strong>$63.44</strong></p></td></tr>\n</table>\n<p>You can <a href=\"https://testfamily.1password.com/billing\" style=\"color:#0572ec;\">view your invoices</a> at any time.</p>\n</td></tr>\n<tr><td style=\"padding:24px;background-color:#f4f4f4;\"><p style=\"font-size:12px;\">The 1Password Team</p></td></tr>\n</table>\n<!--[if mso]></td></tr></table><![endif]-->\n</td></tr>\n</table>\n<img src=\"https://track.example.com/open.gif?id=12345\" width=\"1\" height=\"1\" alt=\"\" />\n</body>\n</html>\n";

#[test]
fn plain_text_preferred_over_html() {
    let result = render_body(Some("Hello, world"), Some("<p>Hello, world</p>"));
    assert_eq!(result, "Hello, world");
}

#[test]
fn falls_back_to_html_when_no_plain() {
    let result = render_body(None, Some("<p>Hello</p>"));
    assert!(!result.is_empty());
    assert!(result.contains("Hello"));
    // Should not contain raw HTML tags
    assert!(!result.contains("<p>"));
}

#[test]
fn no_content_when_both_none() {
    let result = render_body(None, None);
    assert_eq!(result, "[No displayable content]");
}

#[test]
fn plain_text_returned_verbatim() {
    let input = "Line one\n\nLine two\n  indented";
    assert_eq!(render_body(Some(input), None), input);
}

#[test]
fn markdown_prefers_real_plain_text() {
    let plain = "Hey,\n\nThis is a real email body with enough content to pass the junk filter.\n\nCheers";
    let html = "<p>HTML version</p>";
    let result = render_body_markdown(Some(plain), Some(html));
    assert_eq!(result, plain);
}

#[test]
fn markdown_skips_junk_plain_for_html() {
    let junk = "View online";
    let html = "<p>This is the <strong>real</strong> email content right here.</p>";
    let result = render_body_markdown(Some(junk), Some(html));
    assert_ne!(result, junk);
    assert!(result.contains("real"));
}

#[test]
fn markdown_shows_junk_plain_when_no_html() {
    let junk = "View online";
    let result = render_body_markdown(Some(junk), None);
    assert_eq!(result, junk);
}

#[test]
fn markdown_no_content_fallback() {
    assert_eq!(render_body_markdown(None, None), "[No displayable content]");
}

#[test]
fn markdown_strips_tracking_pixels() {
    let html = "<p>Real content</p><img src=\"https://track.example.com/open.gif\" width=\"1\" height=\"1\">";
    let result = render_body_markdown(None, Some(html));
    assert!(result.contains("Real content"));
    assert!(!result.contains("track.example.com"));
}

#[test]
fn markdown_strips_layout_tables() {
    let html = "\n            <table><tr><td>\n                <p>Actual message</p>\n            </td></tr></table>\n        ";
    let result = render_body_markdown(None, Some(html));
    assert!(result.contains("Actual message"));
    assert!(!result.contains("|"));
}

#[test]
fn markdown_preserves_links() {
    let html = "<p>Click <a href=\"https://example.com\">here</a></p>";
    let result = render_body_markdown(None, Some(html));
    assert!(result.contains("https://example.com"));
    assert!(result.contains("here"));
}

#[test]
fn markdown_preserves_formatting() {
    let html = "<p>This is <strong>bold</strong> and <em>italic</em></p>";
    let result = render_body_markdown(None, Some(html));
    assert!(result.contains("**bold**") || result.contains("__bold__"));
    assert!(result.contains("*italic*") || result.contains("_italic_"));
}

#[test]
fn markdown_strips_style_and_script() {
    let html = "\n            <style>.foo { color: red; }</style>\n            <script>alert('xss')</script>\n            <p>Safe content</p>\n        ";
    let result = render_body_markdown(None, Some(html));
    assert!(result.contains("Safe content"));
    assert!(!result.contains("color: red"));
    assert!(!result.contains("alert"));
}

#[test]
fn markdown_truncates_huge_html() {
    let huge = "<p>".to_string() + &"x".repeat(MAX_HTML_BYTES + 1000) + "</p>";
    let result = render_body_markdown(None, Some(&huge));
    assert!(result.len() <= MAX_MD_CHARS);
}

#[test]
fn empty_plain_is_junk() {
    let result = render_body_markdown(Some(""), Some("<p>Fallback</p>"));
    assert!(result.contains("Fallback"));
}

#[test]
fn whitespace_only_is_junk() {
    let result = render_body_markdown(Some("   \n\t  \n  "), Some("<p>Fallback</p>"));
    assert!(result.contains("Fallback"));
}

#[test]
fn short_stub_is_junk() {
    let result = render_body_markdown(
        Some("Click here to view"),
        Some("<p>Full newsletter content here for your reading pleasure.</p>"),
    );
    assert!(result.contains("Full newsletter"));
}

#[test]
fn multiline_real_content_not_junk() {
    let real = "Hey,\n\nJust wanted to follow up on our conversation from yesterday.\n\nLet me know what you think.\n\nThanks";
    let result = render_body_markdown(Some(real), Some("<p>HTML version</p>"));
    assert_eq!(result, real);
}

#[test]
fn invoice_plain_text_not_flagged_as_junk() {
    assert!(!plain_is_junk(FIXTURE_PLAIN));
}

#[test]
fn invoice_prefers_plain_over_html() {
    let result = render_body_markdown(Some(FIXTURE_PLAIN), Some(FIXTURE_HTML));
    assert_eq!(result, FIXTURE_PLAIN);
}

#[test]
fn invoice_html_renders_without_table_soup() {
    let result = render_body_markdown(None, Some(FIXTURE_HTML));
    assert!(result.contains("63.44"));
    assert!(result.contains("Families Plan"));
    let pipe_count = result.matches('|').count();
    assert!(
        pipe_count < 10,
        "too many pipe chars ({pipe_count}) — layout tables leaking as markdown tables"
    );
}

#[test]
fn invoice_html_strips_styles_and_mso() {
    let result = render_body_markdown(None, Some(FIXTURE_HTML));
    assert!(!result.contains("mso-table"));
    assert!(!result.contains("border-collapse"));
    assert!(!result.contains("background-color"));
}

#[test]
fn invoice_html_preserves_links() {
    let result = render_body_markdown(None, Some(FIXTURE_HTML));
    assert!(result.contains("testfamily.1password.com"));
}

#[test]
fn invoice_html_output_is_reasonable_size() {
    let result = render_body_markdown(None, Some(FIXTURE_HTML));
    assert!(
        result.len() < 5_000,
        "output too large ({} bytes) — likely layout cruft leaking through",
        result.len()
    );
}

#[test]
fn junk_is_decided_after_trimming() {
    // 39 bytes between the white space: too short.
    let short = format!("  \n{}\n\t ", "a\nb\nc\n".to_string() + &"x".repeat(33));
    assert!(plain_is_junk(&short));
    // 40 bytes on three lines: not junk.
    let enough = format!("  \n{}\n\t ", "a\nb\n".to_string() + &"x".repeat(36));
    assert!(!plain_is_junk(&enough));
    // 40 bytes and more, but only two lines: junk.
    let two_lines = format!("{}\n{}", "x".repeat(30), "y".repeat(30));
    assert!(plain_is_junk(&two_lines));
    // A no-break space and an ideographic space count as white space.
    assert!(plain_is_junk("\u{a0}\u{3000}  \u{2003}"));
}

#[test]
fn lines_are_counted_as_std_counts_them() {
    for text in ["", "a", "a\n", "a\nb", "a\nb\n", "\n", "\n\n", "a\r\nb", "a\rb"] {
        assert_eq!(count_lines(text.as_bytes()), text.lines().count(), "{:?}", text);
    }
}

#[test]
fn truncation_never_splits_a_character() {
    assert_eq!(truncate_text("hello", 10), "hello");
    assert_eq!(truncate_text("hello", 5), "hello");
    assert_eq!(truncate_text("hello", 2), "he");
    assert_eq!(truncate_text("hello", 0), "");
    // "é" takes two bytes: a cut inside it falls back to the boundary before.
    assert_eq!(truncate_text("héllo", 2), "h");
    assert_eq!(truncate_text("héllo", 3), "hé");
    // A four-byte character.
    assert_eq!(truncate_text("a\u{1F600}b", 4), "a");
    assert_eq!(truncate_text("a\u{1F600}b", 5), "a\u{1F600}");
}

#[test]
fn huge_html_with_wide_characters_is_cut_without_panic() {
    // The byte at MAX_HTML_BYTES falls inside a two-byte character.
    let huge = "<p>".to_string() + &"é".repeat(MAX_HTML_BYTES / 2 + 500) + "</p>";
    let result = render_body_markdown(None, Some(&huge));
    assert!(result.len() <= MAX_MD_CHARS);
    assert!(result.starts_with('é'));
}

#[test]
fn failed_conversion_gives_empty_text() {
    assert_eq!(text_or_empty(None), "");
    assert_eq!(text_or_empty(Some("abc".to_string())), "abc");
}

#[test]
fn html_to_text_wraps_and_drops_tags() {
    let text = html_to_text("<h1>Title</h1><p>Some <b>bold</b> words</p>");
    assert!(text.contains("Title"));
    assert!(text.contains("bold"));
    assert!(!text.contains('<'));
    let long = html_to_text(&format!("<p>{}</p>", "word ".repeat(60)));
    assert!(long.lines().all(|l| l.chars().count() <= 80));
    assert!(long.lines().count() > 1);
}

#[test]
fn sanitiser_keeps_text_and_semantic_tags_only() {
    let clean = clean_email_html("<div><table><tr><td><p>Hi <b>there</b></p></td></tr></table></div>");
    let clean = clean.as_str();
    assert!(clean.contains("<p>"));
    assert!(clean.contains("<b>there</b>"));
    assert!(!clean.contains("<table"));
    assert!(!clean.contains("<div"));
    assert!(!clean.contains("<td"));
}

#[test]
fn html_to_markdown_converts_headings_and_lists() {
    let md = html_to_markdown("<h2>News</h2><ul><li>one</li><li>two</li></ul>").unwrap();
    assert!(md.contains("News"));
    assert!(md.contains("one"));
    assert!(md.contains("two"));
    assert!(!md.contains("<li>"));
}

#[test]
fn nesting_is_measured_by_open_and_close_tags() {
    assert_eq!(nesting_depth(b""), 0);
    assert_eq!(nesting_depth(b"<"), 0);
    assert_eq!(nesting_depth(b"plain text"), 0);
    assert_eq!(nesting_depth(b"<p>"), 1);
    assert_eq!(nesting_depth(b"<p>a</p><p>b</p><p>c</p>"), 1);
    assert_eq!(nesting_depth(b"<ul><li><b>x</b></li><li>y</li></ul>"), 3);
    assert_eq!(nesting_depth(b"<p>a<br>b<br>c<hr>d</p>"), 1);
    assert_eq!(nesting_depth(b"<p>a<br></p>"), 1);
    assert_eq!(nesting_depth(b"<b>bold</b><blockquote><b>x</b></blockquote>"), 2);
    assert_eq!(nesting_depth(b"<a href=\"x\">l</a>"), 1);
    assert_eq!(nesting_depth(b"</p></p><p>"), 1);
    assert_eq!(nesting_depth(b"1 &lt; 2"), 0);
}

#[test]
fn html_that_nests_too_deep_is_shown_as_text() {
    // Many tags side by side are no matter.
    let many = "<p>x</p>".repeat(5000);
    assert!(html_to_markdown(&many).is_some());
    let breaks = "<p>".to_string() + &"line<br>".repeat(5000) + "</p>";
    assert!(html_to_markdown(&breaks).is_some());
    // Just within the limit: converted.
    let deep = "<b>".repeat(MAX_NESTING) + "bottom";
    assert!(html_to_markdown(&deep).unwrap().contains("bottom"));
    let quoted = "<blockquote>".repeat(MAX_NESTING) + "bottom";
    assert!(html_to_markdown(&quoted).unwrap().contains("bottom"));
    let lists = "<ul><li>".repeat(MAX_NESTING / 2) + "bottom";
    assert!(html_to_markdown(&lists).unwrap().contains("bottom"));
    // One level more: not converted; the plain part gives way, or plain text is made.
    let too_deep = "<blockquote>".repeat(MAX_NESTING + 1) + "bottom";
    assert_eq!(html_to_markdown(&too_deep), None);
    let too_bold = "<b>".repeat(MAX_NESTING + 1) + "bottom";
    assert_eq!(html_to_markdown(&too_bold), None);
    let shown = render_body_markdown(None, Some(&too_bold));
    assert!(shown.contains("bottom"));
    assert!(!shown.contains("<b>"));
    // A junk plain part does not stand in for it.
    let shown = render_body_markdown(Some("View online"), Some(&too_bold));
    assert!(shown.contains("bottom"));
    assert_eq!(shown, render_html(&too_bold));
    // Layout that the sanitiser drops does not count.
    let layout = "<div>".repeat(1000) + "<p>inside</p>";
    assert!(html_to_markdown(&layout).unwrap().contains("inside"));
}

#[test]
fn very_deep_html_is_not_handed_to_the_converter() {
    let deep = "<blockquote>".repeat(3000) + "bottom";
    assert_eq!(html_to_markdown(&deep), None);
    assert_eq!(render_body_markdown(Some(""), Some(&deep)), "");
}

#[test]
fn plain_rendering_survives_deep_nesting() {
    let deep = "<b>".repeat(5000) + "bottom";
    assert!(render_body(None, Some(&deep)).contains("bottom"));
    let divs = "<div>".repeat(5000) + "bottom";
    assert!(html_to_text(&divs).contains("bottom"));
    let quotes = "<blockquote>".repeat(5000) + "bottom";
    let _ = html_to_text(&quotes);
}

#[test]
fn list_items_outside_a_list_are_found() {
    assert!(find_orphan_item(b"<li>x</li>"));
    assert!(find_orphan_item(b"<p></p><b><li></li></b>"));
    assert!(find_orphan_item(b"<ul><li>a</li></ul><li>b</li>"));
    assert!(find_orphan_item(b"<LI>x"));
    assert!(find_orphan_item(b"<li class=\"x\">y</li>"));
    assert!(find_orphan_item(b"</ul><li>"));
    assert!(!find_orphan_item(b""));
    assert!(!find_orphan_item(b"<ul><li>a</li><li>b</li></ul>"));
    assert!(!find_orphan_item(b"<ol><li>a<ul><li>b</li></ul></li><li>c</li></ol>"));
    assert!(!find_orphan_item(b"<menu><li>a</li></menu>"));
    assert!(!find_orphan_item(b"<ul><b><li>a</li></b></ul>"));
    assert!(!find_orphan_item(b"<link><lit>x</lit><li-x>"));
    assert!(!find_orphan_item(b"<p>li</p> &lt;li&gt;"));
    assert!(name_is(b"<ul>", 1, b"ul"));
    assert!(name_is(b"<UL ", 1, b"ul"));
    assert!(name_is(b"<ul", 1, b"ul"));
    assert!(!name_is(b"<ulx>", 1, b"ul"));
    assert!(!name_is(b"<u", 1, b"ul"));
    assert!(!name_is(b"<ul>", 9, b"ul"));
}

#[test]
fn list_item_outside_a_list_is_not_handed_to_the_converter() {
    let html = "<p></p><b><li></li></b>";
    assert_eq!(html_to_markdown(html), None);
    let _ = render_body_markdown(None, Some(html));
    let _ = render_body_markdown(Some("junk"), Some(html));
    let wide = "<p>äöü €€€</p><blockquote><a href=\"x\"><b><li>日本語</li></b></a></blockquote>";
    assert_eq!(html_to_markdown(wide), None);
    let shown = render_body_markdown(None, Some(wide));
    assert!(shown.contains("日本語"));
    // A list item in its list is converted as before.
    let listed = html_to_markdown("<p></p><b><ul><li>item</li></ul></b>").unwrap();
    assert!(listed.contains("item"));
}

#[test]
fn html_rendering_is_capped_whatever_the_branch() {
    // Not convertible and long: the plain text is cut as the Markdown would be.
    let long_text = "word ".repeat(60_000);
    let html = "<li>".to_string() + &long_text + "</li>";
    assert_eq!(html_to_markdown(&html), None);
    let shown = render_body_markdown(None, Some(&html));
    assert!(shown.len() <= MAX_MD_CHARS);
    assert!(shown.len() > MAX_MD_CHARS / 2);
    let shown = render_body_markdown(Some("two\nlines"), Some(&html));
    assert!(shown.len() <= MAX_MD_CHARS);
    // Behind the first MAX_HTML_BYTES bytes nothing is read, in either branch.
    let head = "<li>a</li>".to_string() + &"é".repeat(MAX_HTML_BYTES / 2);
    let one = head.clone() + "<p>TAIL ONE</p>";
    let two = head.clone() + "<ul><li>TAIL TWO</li></ul>";
    assert_eq!(render_html(&one), render_html(&two));
    assert!(!render_html(&one).contains("TAIL"));
    let head = "<p>a</p>".to_string() + &"é".repeat(MAX_HTML_BYTES / 2);
    let one = head.clone() + "<p>TAIL ONE</p>";
    let two = head + "<li>TAIL TWO</li>";
    assert_eq!(render_html(&one), render_html(&two));
    assert!(render_html(&one).len() <= MAX_MD_CHARS);
    // Long Markdown is cut inside a multi-byte character's neighbourhood without panic.
    let wide = "<p>".to_string() + &"€".repeat(100_000) + "</p>";
    let shown = render_body_markdown(None, Some(&wide));
    assert!(shown.len() <= MAX_MD_CHARS);
    assert!(shown.chars().all(|c| c == '€'));
}
