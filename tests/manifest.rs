use lyon_deck_toolbox::manifest::{parse, tool_from_entry, tools_from_yaml, Field, ParseError, Problem, Tool};

const TWO_TOOLS: &str = "\
- title: CryoUtilities
  description: Scripts and guide\\nto improve performance
  repo: https://github.com/CryoByte33/steam-deck-utilities
  needs_root: true
  note: Reboot afterwards
- title: Rwfus
  description: 'Line1\\nLine2'
  repo: https://x
  needs_root: false
";

#[test]
fn parse_keeps_every_entry_in_order() {
    let tools = parse(TWO_TOOLS).unwrap();
    assert_eq!(tools.len(), 2);
    assert_eq!(
        tools[0],
        Tool {
            title: "CryoUtilities".to_string(),
            description: "Scripts and guide\\nto improve performance".to_string(),
            repo: "https://github.com/CryoByte33/steam-deck-utilities".to_string(),
            needs_root: true,
            note: Some("Reboot afterwards".to_string()),
        }
    );
    assert_eq!(tools[1].title, "Rwfus");
    assert_eq!(tools[1].description, "Line1\\nLine2");
    assert_eq!(tools[1].repo, "https://x");
    assert!(!tools[1].needs_root);
    assert_eq!(tools[1].note, None);
}

#[test]
fn parse_empty_list_gives_no_tools() {
    assert_eq!(parse("[]"), Ok(Vec::new()));
}

#[test]
fn parse_missing_needs_root_is_malformed() {
    let text = "- title: A\n  description: d\n  repo: r\n";
    assert_eq!(
        parse(text),
        Err(ParseError::Malformed(Problem::MissingField { entry: 0, field: Field::NeedsRoot }))
    );
}

#[test]
fn parse_reports_first_problem() {
    let text = "- {title: A, description: d, repo: r, needs_root: true}\n- {description: d, needs_root: 3}\n";
    assert_eq!(
        parse(text),
        Err(ParseError::Malformed(Problem::MissingField { entry: 1, field: Field::Title }))
    );
}

#[test]
fn parse_wrong_type_is_malformed() {
    let text = "- {title: A, description: d, repo: r, needs_root: yes please}\n";
    assert_eq!(
        parse(text),
        Err(ParseError::Malformed(Problem::WrongType { entry: 0, field: Field::NeedsRoot }))
    );
    let text = "- {title: A, description: d, repo: r, needs_root: false, note: [1]}\n";
    assert_eq!(
        parse(text),
        Err(ParseError::Malformed(Problem::WrongType { entry: 0, field: Field::Note }))
    );
}

#[test]
fn parse_ignores_unknown_fields_and_null_note() {
    let text = "- {title: A, description: d, repo: r, needs_root: false, note: null, stars: 5}\n";
    let tools = parse(text).unwrap();
    assert_eq!(tools.len(), 1);
    assert_eq!(tools[0].note, None);
}

#[test]
fn parse_document_that_is_not_a_list() {
    assert_eq!(parse("title: A\n"), Err(ParseError::Malformed(Problem::NotAList)));
}

#[test]
fn parse_entry_that_is_not_a_mapping() {
    let text = "- {title: A, description: d, repo: r, needs_root: true}\n- just text\n";
    assert_eq!(parse(text), Err(ParseError::Malformed(Problem::NotAMapping { entry: 1 })));
}

#[test]
fn parse_syntax_error() {
    let r = parse("- [unclosed\n");
    assert!(matches!(r, Err(ParseError::Malformed(Problem::Syntax(m))) if !m.is_empty()));
}

#[test]
fn tools_from_decoded_document() {
    let doc: serde_yaml::Value = serde_yaml::from_str(TWO_TOOLS).unwrap();
    let tools = tools_from_yaml(&doc).unwrap();
    assert_eq!(tools, parse(TWO_TOOLS).unwrap());
    let entry: serde_yaml::Value =
        serde_yaml::from_str("{title: T, description: D, repo: R, needs_root: true}").unwrap();
    let tool = tool_from_entry(3, &entry).unwrap();
    assert_eq!(tool.title, "T");
    assert!(tool.needs_root);
    let bad: serde_yaml::Value = serde_yaml::from_str("{title: T}").unwrap();
    assert_eq!(
        tool_from_entry(3, &bad),
        Err(Problem::MissingField { entry: 3, field: Field::Description })
    );
}
