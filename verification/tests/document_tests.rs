use finalyst::helper::ToDocument;

#[test]
fn string_renders_as_itself() {
    let s = "<p>Analysis</p>".to_string();
    assert_eq!(s.to_document(), "<p>Analysis</p>");
}

#[test]
fn lines_render_with_one_trailing_newline_each() {
    let lines = vec!["a".to_string(), "b".to_string()];
    assert_eq!(lines.to_document(), "a\nb\n");
}

#[test]
fn no_lines_render_as_the_empty_document() {
    let lines: Vec<String> = Vec::new();
    assert_eq!(lines.to_document(), "");
}

#[test]
fn empty_lines_still_take_their_newline() {
    let lines = vec!["".to_string(), "x".to_string(), "".to_string()];
    assert_eq!(lines.to_document(), "\nx\n\n");
}
