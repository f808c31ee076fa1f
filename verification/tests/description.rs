use anilist_bot::description::{prepare_html, shorten_description, shortenable, tidy_markdown};

#[test]
fn prepare_turns_paragraph_breaks_into_br() {
    assert_eq!(prepare_html("a\n\nb\nc"), "a<br>b\nc");
    assert_eq!(prepare_html("\n\n\n"), "<br>\n");
    assert_eq!(prepare_html("\n\n\n\n"), "<br><br>");
    assert_eq!(prepare_html(""), "");
}

#[test]
fn tidy_removes_rules_then_hashes() {
    assert_eq!(tidy_markdown("# Title\n---\ntext"), " Title\n\ntext");
    assert_eq!(tidy_markdown("a----b"), "a-b");
    assert_eq!(tidy_markdown("-#--"), "---");
    assert_eq!(tidy_markdown("plain"), "plain");
}

#[test]
fn short_text_is_unchanged() {
    let text = "x".repeat(499);
    assert!(shortenable(&text));
    assert_eq!(shorten_description(&text), text);
    assert_eq!(shorten_description(""), "");
}

#[test]
fn long_text_is_cut_after_four_hundred_bytes() {
    let text = "y".repeat(500);
    let out = shorten_description(&text);
    assert_eq!(out, format!("{}...", "y".repeat(400)));
    assert_eq!(out.len(), 403);
}

#[test]
fn multibyte_text_is_cut_on_the_byte_count() {
    // 200 two-byte characters make 400 bytes.
    let text = "é".repeat(300);
    assert!(shortenable(&text));
    assert_eq!(shorten_description(&text), format!("{}...", "é".repeat(200)));
}

#[test]
fn cut_inside_a_character_is_refused() {
    let text = format!("{}{}", "a", "é".repeat(300));
    assert!(!text.is_char_boundary(400));
    assert!(!shortenable(&text));
}

#[test]
fn shortening_twice_changes_nothing_more() {
    let text = "z".repeat(1000);
    let once = shorten_description(&text);
    let twice = shorten_description(&once);
    assert_eq!(once, twice);
}
