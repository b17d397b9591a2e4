use cargo_depcription::parse_manifest::{extract, get_decors, parse_comments};

fn some(text: &str) -> Option<String> {
    Some(text.to_string())
}

#[test]
fn leading_section_line_gives_the_section_and_no_comment() {
    let parsed = extract(&some("# Networking"), &some(""));
    assert_eq!(parsed.section, some("Networking"));
    assert_eq!(parsed.comment, None);
}

#[test]
fn trailing_text_alone_is_the_comment() {
    let parsed = extract(&some(""), &some("do the thing"));
    assert_eq!(parsed.section, None);
    assert_eq!(parsed.comment, some("do the thing"));
}

#[test]
fn escaped_line_contributes_nothing() {
    assert_eq!(parse_comments(some("!skip-lint")), (None, None));
    assert_eq!(parse_comments(some("#!skip-lint")), (None, None));
    assert_eq!(parse_comments(some("##!skip-lint")), (None, None));
    assert_eq!(
        parse_comments(some("# first\n#!skip-lint\n# second")),
        (some("first"), None)
    );
    assert_eq!(
        parse_comments(some("#one\n#!skip-lint\n#two")),
        (None, some("one two"))
    );
    assert_eq!(parse_comments(some("#one\n#two")), (None, some("one two")));
}

#[test]
fn escape_counts_before_trimming_only() {
    assert_eq!(parse_comments(some("# !kept")), (some("!kept"), None));
    assert_eq!(parse_comments(some("## !kept")), (None, some("!kept")));
    assert_eq!(parse_comments(some("a\n !kept")), (None, some("a !kept")));
}

#[test]
fn both_sides_repeat_the_leading_text() {
    assert_eq!(get_decors(&some(" #a "), &some(" #b ")), some("#a\n#a"));
    let parsed = extract(&some("#why"), &some("#ignored"));
    assert_eq!(parsed.section, None);
    assert_eq!(parsed.comment, some("why why"));
    let parsed = extract(&some("# Tools"), &some("#ignored"));
    assert_eq!(parsed.section, some("Tools"));
    assert_eq!(parsed.comment, None);
}

#[test]
fn annotation_is_the_side_that_is_left() {
    assert_eq!(get_decors(&None, &None), None);
    assert_eq!(get_decors(&some(""), &None), None);
    assert_eq!(get_decors(&None, &some(" \n\t")), None);
    assert_eq!(get_decors(&some("  "), &some("\n")), None);
    assert_eq!(get_decors(&some(" a "), &None), some("a"));
    assert_eq!(get_decors(&some(" a "), &some("  ")), some("a"));
    assert_eq!(get_decors(&None, &some(" b\n")), some("b"));
    assert_eq!(get_decors(&some("\n"), &some(" b\n")), some("b"));
    assert_eq!(get_decors(&some("a\nb"), &some("c")), some("a\nb\na\nb"));
}

#[test]
fn no_annotation_gives_nothing() {
    assert_eq!(parse_comments(None), (None, None));
    assert_eq!(parse_comments(some("")), (None, None));
    let parsed = extract(&None, &None);
    assert_eq!(parsed.section, None);
    assert_eq!(parsed.comment, None);
}

#[test]
fn first_section_line_wins() {
    assert_eq!(
        parse_comments(some("# One\n# Two\n## why")),
        (some("One"), some("why"))
    );
    assert_eq!(parse_comments(some("## why\n# Late")), (some("Late"), some("why")));
}

#[test]
fn section_line_is_judged_by_its_trimmed_form() {
    assert_eq!(parse_comments(some("x\n   # Indented  \ny")), (some("Indented"), some("x y")));
    assert_eq!(parse_comments(some("#   Wide   ")), (some("Wide"), None));
    assert_eq!(parse_comments(some("a\n# \nb")), (None, some("a  b")));
    assert_eq!(parse_comments(some("#")), (None, some("")));
}

#[test]
fn comment_lines_are_stripped_trimmed_and_joined() {
    assert_eq!(
        parse_comments(some("## HTTP #client#\r\n##   with TLS  \n\n#end")),
        (None, some("HTTP client with TLS  end"))
    );
    assert_eq!(parse_comments(some("plain")), (None, some("plain")));
    assert_eq!(parse_comments(some("##")), (None, some("")));
}
