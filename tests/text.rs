use lyon_deck_toolbox::text::{render_description, slug};

#[test]
fn slug_lowercases_and_strips_spaces() {
    assert_eq!(slug("CryoUtilities"), "cryoutilities");
    assert_eq!(slug("My Tool"), "mytool");
}

#[test]
fn slug_is_idempotent() {
    for title in ["CryoUtilities", "My Tool", "  Deck  Tools 2 ", "rwfus", ""] {
        let once = slug(title);
        assert_eq!(slug(&once), once);
    }
}

#[test]
fn slug_of_empty_and_spaces_only_is_empty() {
    assert_eq!(slug(""), "");
    assert_eq!(slug("   "), "");
}

#[test]
fn slug_changes_only_ascii_letters() {
    assert_eq!(slug("Émile Tool-2_X"), "Émiletool-2_x");
}

#[test]
fn description_escaped_line_break_becomes_real() {
    let shown = render_description("Line1\\nLine2");
    assert_eq!(shown, "Line1\nLine2");
    assert_eq!(shown.lines().count(), 2);
}

#[test]
fn description_without_escapes_is_unchanged() {
    assert_eq!(render_description("plain text \\ n"), "plain text \\ n");
    assert_eq!(render_description(""), "");
}

#[test]
fn description_escapes_read_left_to_right() {
    assert_eq!(render_description("a\\\\nb"), "a\\\nb");
    assert_eq!(render_description("\\n\\n"), "\n\n");
    assert_eq!(render_description("end\\"), "end\\");
}
