use nevermail::mime::{html_to_markdown, render_body_markdown, MAX_MD_CHARS};

const TOKENS: [&str; 48] = [
    "<p>", "</p>", "<b>", "</b>", "<ul>", "</ul>", "<li>", "</li>", "<a href=\"x y\">", "</a>",
    "<blockquote>", "</blockquote>", "<pre>", "</pre>", "<code>", "</code>", "<h1>", "</h1>",
    "text ", "é\n ", "<br>", "<hr>", "<sub>", "</sub>", "<ol>", "</ol>", "<i>", "</i>", " \n ", "<s>",
    "</s>", "<em>", "</em>", "<strong>", "</strong>", "<del>", "</del>", "<u>", "</u>", "<h3>", "</h3>",
    "<table><tr><td>", "</td></tr></table>", "<div>", "</div>", "日本 ", "* - # > ", "<a name=\"n\">",
];

#[test]
fn conversion_survives_every_short_mix_of_tags() {
    let n = TOKENS.len() as u64;
    let mut state: u64 = 0x9E3779B97F4A7C15;
    let mut converted = 0;
    for round in 0..20000 {
        let mut html = String::new();
        for _ in 0..(3 + round % 12) {
            state = state.wrapping_mul(6364136223846793005).wrapping_add(1442695040888963407);
            html.push_str(TOKENS[((state >> 33) % n) as usize]);
        }
        if html_to_markdown(&html).is_some() {
            converted += 1;
        }
        assert!(render_body_markdown(None, Some(&html)).len() <= MAX_MD_CHARS);
    }
    assert!(converted > 5000);
}
