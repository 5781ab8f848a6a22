use marcador::bookmark::{signed_decimal_string, Bookmark, Shown};
use marcador::bookmark_proxy::{
    editable_content, editor_command, editor_variable, parse_edited, Update,
};
use marcador::models::{Bookmarks, Tags};

fn sample(tags: &[&str]) -> Bookmark {
    let row = Bookmarks {
        id: 7,
        url: "https://example.org".to_string(),
        description: "An example".to_string(),
    };
    let tags: Vec<Tags> = tags
        .iter()
        .enumerate()
        .map(|(i, t)| Tags { id: i as i32 + 1, tag: t.to_string() })
        .collect();
    Bookmark::new(&row, &tags)
}

fn pieces(tags: &[&str]) -> Shown {
    Shown {
        id: "7".to_string(),
        description: "An example".to_string(),
        arrow: ">".to_string(),
        url: "https://example.org".to_string(),
        hash: "#".to_string(),
        tags: tags.iter().map(|t| t.to_string()).collect(),
        comma: ",".to_string(),
    }
}

#[test]
fn new_copies_row_and_tags() {
    let bookmark = sample(&["rust", "verus"]);
    assert_eq!(bookmark.bookmark.id, 7);
    assert_eq!(bookmark.bookmark.url, "https://example.org");
    assert_eq!(bookmark.bookmark.description, "An example");
    assert_eq!(bookmark.tags.len(), 2);
    assert_eq!(bookmark.tags[0].tag, "rust");
    assert_eq!(bookmark.tags[1].id, 2);
    let copy = bookmark.clone();
    assert_eq!(copy.bookmark.url, bookmark.bookmark.url);
    assert_eq!(copy.tags.len(), 2);
    assert_eq!(copy.tags[1].tag, "verus");
}

#[test]
fn layout_without_tags() {
    assert_eq!(pieces(&[]).layout(), "7. An example\n  > https://example.org");
}

#[test]
fn layout_with_tags() {
    assert_eq!(pieces(&["rust"]).layout(), "7. An example\n  > https://example.org\n# rust");
    assert_eq!(
        pieces(&["rust", "verus", "smt"]).layout(),
        "7. An example\n  > https://example.org\n# rust,verus,smt"
    );
}

#[test]
fn layout_keeps_the_pieces_as_shown() {
    let mut shown = pieces(&["a", "b"]);
    shown.id = "\u{1b}[36m7\u{1b}[0m".to_string();
    shown.comma = "\u{1b}[34m,\u{1b}[0m".to_string();
    assert_eq!(
        shown.layout(),
        "\u{1b}[36m7\u{1b}[0m. An example\n  > https://example.org\n# a\u{1b}[34m,\u{1b}[0mb"
    );
}

#[test]
fn shown_pieces_are_plain_or_colored() {
    let bookmark = sample(&["rust", "verus"]);
    let shown = bookmark.shown();
    let check = |piece: &str, text: &str, code: &str| {
        let colored = format!("\u{1b}[{}m{}\u{1b}[0m", code, text);
        assert!(piece == text || piece == colored, "{:?} for {:?}", piece, text);
    };
    check(&shown.id, "7", "36");
    check(&shown.description, "An example", "32");
    check(&shown.arrow, ">", "31");
    check(&shown.url, "https://example.org", "33");
    check(&shown.hash, "#", "31");
    check(&shown.comma, ",", "34");
    assert_eq!(shown.tags.len(), 2);
    check(&shown.tags[0], "rust", "34");
    check(&shown.tags[1], "verus", "34");
}

#[test]
fn render_is_the_layout_of_the_shown_pieces() {
    let bookmark = sample(&["rust", "verus"]);
    assert_eq!(bookmark.render(), bookmark.shown().layout());
    let bare = sample(&[]);
    let text = bare.render();
    assert!(text.contains("An example"));
    assert!(!text.contains('#'));
}

#[test]
fn signed_numbers() {
    assert_eq!(signed_decimal_string(0), "0");
    assert_eq!(signed_decimal_string(42), "42");
    assert_eq!(signed_decimal_string(-42), "-42");
    assert_eq!(signed_decimal_string(i32::MAX), i32::MAX.to_string());
    assert_eq!(signed_decimal_string(i32::MIN), i32::MIN.to_string());
}

#[test]
fn editor_variable_follows_the_flag() {
    assert_eq!(editor_variable(None), "EDITOR");
    assert_eq!(editor_variable(Some(false)), "EDITOR");
    assert_eq!(editor_variable(Some(true)), "VISUAL");
}

#[test]
fn editor_command_splits_at_spaces() {
    let command = editor_command("vim", "/tmp/editable");
    assert_eq!(command.program, "vim");
    assert_eq!(command.args, vec!["/tmp/editable"]);

    let command = editor_command("code --wait -n", "/tmp/editable");
    assert_eq!(command.program, "code");
    assert_eq!(command.args, vec!["--wait", "-n", "/tmp/editable"]);

    let command = editor_command("a  b", "f");
    assert_eq!(command.program, "a");
    assert_eq!(command.args, vec!["", "b", "f"]);

    let command = editor_command("", "f");
    assert_eq!(command.program, "");
    assert_eq!(command.args, vec!["f"]);
}

#[test]
fn editable_content_has_three_sections() {
    assert_eq!(
        editable_content(&sample(&["rust", "verus"])),
        "# Description:\nAn example\n\n# Url:\nhttps://example.org\n\n# Tags:\nrust,verus"
    );
    assert_eq!(
        editable_content(&sample(&[])),
        "# Description:\nAn example\n\n# Url:\nhttps://example.org\n\n# Tags:\n"
    );
    assert_eq!(
        editable_content(&sample(&["one"])),
        "# Description:\nAn example\n\n# Url:\nhttps://example.org\n\n# Tags:\none"
    );
}

#[test]
fn edited_text_with_tags() {
    let text = "# Description:\nNew words\n\n# Url:\nhttps://new.example\n\n# Tags:\na,b,,c\n";
    let edited = parse_edited(text).unwrap();
    assert_eq!(edited.description, "New words");
    assert_eq!(edited.url, "https://new.example");
    assert_eq!(edited.tags, Some(vec!["a".to_string(), "b".to_string(), String::new(), "c".to_string()]));
    let updates = edited.updates();
    assert_eq!(updates.len(), 3);
    assert!(matches!(&updates[0], Update::Url(u) if u == "https://new.example"));
    assert!(matches!(&updates[1], Update::Description(d) if d == "New words"));
    assert!(matches!(&updates[2], Update::Tags(t) if t.len() == 4));
}

#[test]
fn edited_text_without_tags() {
    let text = "# Description:\nNew words\n\n# Url:\nhttps://new.example\n\n# Tags:\n";
    let edited = parse_edited(text).unwrap();
    assert_eq!(edited.description, "New words");
    assert_eq!(edited.url, "https://new.example");
    assert!(edited.tags.is_none());
    let updates = edited.updates();
    assert_eq!(updates.len(), 2);
    assert!(matches!(&updates[0], Update::Url(_)));
    assert!(matches!(&updates[1], Update::Description(_)));
}

#[test]
fn edited_text_of_other_lengths() {
    assert!(parse_edited("").is_none());
    assert!(parse_edited("a\nb\nc\nd").is_none());
    let five = parse_edited("a\nb\nc\nd\ne").unwrap();
    assert_eq!(five.description, "b");
    assert_eq!(five.url, "e");
    assert!(five.tags.is_none());
    let nine = parse_edited("1\n2\n3\n4\n5\n6\n7\n8\n9\n").unwrap();
    assert_eq!(nine.description, "2");
    assert_eq!(nine.url, "5");
    assert!(nine.tags.is_none());
    let windows = parse_edited("h\r\ndesc\r\n\r\nh\r\nurl\r\n\r\nh\r\nx,y\r\n").unwrap();
    assert_eq!(windows.description, "desc");
    assert_eq!(windows.url, "url");
    assert_eq!(windows.tags, Some(vec!["x".to_string(), "y".to_string()]));
}

#[test]
fn what_is_shown_is_read_back() {
    let bookmark = sample(&["rust", "verus"]);
    let edited = parse_edited(&editable_content(&bookmark)).unwrap();
    assert_eq!(edited.description, "An example");
    assert_eq!(edited.url, "https://example.org");
    assert_eq!(edited.tags, Some(vec!["rust".to_string(), "verus".to_string()]));
}
