use marcador::bookmark::Bookmark;
use marcador::models::{Bookmarks, Tags};

#[test]
fn pieces_carry_their_colors_when_colors_are_on() {
    colored::control::set_override(true);
    let row = Bookmarks { id: 7, url: "u".to_string(), description: "d".to_string() };
    let tags = vec![Tags { id: 1, tag: "t".to_string() }, Tags { id: 2, tag: "s".to_string() }];
    let bookmark = Bookmark::new(&row, &tags);
    let shown = bookmark.shown();
    assert_eq!(shown.id, "\u{1b}[36m7\u{1b}[0m");
    assert_eq!(shown.description, "\u{1b}[32md\u{1b}[0m");
    assert_eq!(shown.arrow, "\u{1b}[31m>\u{1b}[0m");
    assert_eq!(shown.url, "\u{1b}[33mu\u{1b}[0m");
    assert_eq!(shown.hash, "\u{1b}[31m#\u{1b}[0m");
    assert_eq!(shown.comma, "\u{1b}[34m,\u{1b}[0m");
    assert_eq!(shown.tags, vec!["\u{1b}[34mt\u{1b}[0m", "\u{1b}[34ms\u{1b}[0m"]);
    assert_eq!(
        bookmark.render(),
        "\u{1b}[36m7\u{1b}[0m. \u{1b}[32md\u{1b}[0m\n  \u{1b}[31m>\u{1b}[0m \u{1b}[33mu\u{1b}[0m\n\u{1b}[31m#\u{1b}[0m \u{1b}[34mt\u{1b}[0m\u{1b}[34m,\u{1b}[0m\u{1b}[34ms\u{1b}[0m"
    );
    colored::control::unset_override();
}
