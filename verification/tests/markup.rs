use paper_plane::markup::{
    convert_to_markup, linkify, parse_formatted_text, FormattedText, TextEntity, TextEntityKind,
};
use paper_plane::text::escape;

fn entity(offset: i32, length: i32, kind: TextEntityKind) -> TextEntity {
    TextEntity { offset, length, kind }
}

fn render(text: &str, entities: Vec<TextEntity>) -> String {
    parse_formatted_text(&FormattedText { text: text.to_string(), entities })
}

#[test]
fn escape_replaces_markup_characters() {
    assert_eq!(escape("a & b < c > d ' e \" f"), "a &amp; b &lt; c &gt; d &apos; e &quot; f");
    assert_eq!(escape(""), "");
    assert_eq!(escape("&amp;"), "&amp;amp;");
}

#[test]
fn linkify_adds_scheme_when_missing() {
    assert_eq!(linkify("example.com"), "http://example.com");
    assert_eq!(linkify("https://example.com"), "https://example.com");
    assert_eq!(linkify("ftp://host"), "ftp://host");
    assert_eq!(linkify("://x"), "http://://x");
}

#[test]
fn convert_to_markup_each_kind() {
    let t = || "x".to_string();
    assert_eq!(convert_to_markup(t(), &TextEntityKind::Bold), "<b>x</b>");
    assert_eq!(convert_to_markup(t(), &TextEntityKind::Italic), "<i>x</i>");
    assert_eq!(convert_to_markup(t(), &TextEntityKind::Underline), "<u>x</u>");
    assert_eq!(convert_to_markup(t(), &TextEntityKind::Strikethrough), "<s>x</s>");
    assert_eq!(convert_to_markup(t(), &TextEntityKind::Code), "<tt>x</tt>");
    assert_eq!(convert_to_markup(t(), &TextEntityKind::Pre), "<tt>x</tt>");
    assert_eq!(
        convert_to_markup(t(), &TextEntityKind::PreCode("rust".to_string())),
        "<tt>x</tt>"
    );
    assert_eq!(
        convert_to_markup(t(), &TextEntityKind::EmailAddress),
        "<a href='mailto:x'>x</a>"
    );
    assert_eq!(convert_to_markup(t(), &TextEntityKind::PhoneNumber), "<a href='tel:x'>x</a>");
    assert_eq!(
        convert_to_markup("a.org".to_string(), &TextEntityKind::Url),
        "<a href='http://a.org'>a.org</a>"
    );
    assert_eq!(
        convert_to_markup(t(), &TextEntityKind::TextUrl("https://a.org/?a=1&b=2".to_string())),
        "<a href='https://a.org/?a=1&amp;b=2'>x</a>"
    );
    assert_eq!(convert_to_markup(t(), &TextEntityKind::Mention), "x");
    assert_eq!(convert_to_markup(t(), &TextEntityKind::Spoiler), "x");
}

#[test]
fn plain_text_is_escaped() {
    assert_eq!(render("1 < 2 & 3", vec![]), "1 &lt; 2 &amp; 3");
    assert_eq!(render("", vec![]), "");
}

#[test]
fn entity_in_the_middle() {
    assert_eq!(
        render("say hello now", vec![entity(4, 5, TextEntityKind::Bold)]),
        "say <b>hello</b> now"
    );
}

#[test]
fn whole_text_entity() {
    assert_eq!(render("a<b", vec![entity(0, 3, TextEntityKind::Italic)]), "<i>a&lt;b</i>");
}

#[test]
fn nested_entities_share_an_offset() {
    assert_eq!(
        render(
            "bold it",
            vec![entity(0, 4, TextEntityKind::Bold), entity(0, 4, TextEntityKind::Italic)]
        ),
        "<b><i>bold</i></b> it"
    );
}

#[test]
fn offsets_count_utf16_code_units() {
    // The emoji takes two UTF-16 code units.
    assert_eq!(
        render("😀 ok", vec![entity(3, 2, TextEntityKind::Code)]),
        "😀 <tt>ok</tt>"
    );
}

#[test]
fn two_consecutive_entities() {
    assert_eq!(
        render(
            "ab",
            vec![entity(0, 1, TextEntityKind::Bold), entity(1, 1, TextEntityKind::Underline)]
        ),
        "<b>a</b><u>b</u>"
    );
}

#[test]
fn url_entity_is_linkified() {
    assert_eq!(
        render("see t.me", vec![entity(4, 4, TextEntityKind::Url)]),
        "see <a href='http://t.me'>t.me</a>"
    );
}

#[test]
fn entity_past_the_end_leaves_text_plain() {
    assert_eq!(render("short", vec![entity(10, 3, TextEntityKind::Bold)]), "short");
}
