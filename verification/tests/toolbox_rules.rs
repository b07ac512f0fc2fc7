use agentai::tool::toolbox::{
    char_is_mark, check_names, description, doc_line, first_duplicate, params_type_name,
    DefinitionError,
};

fn lines(lines: &[&str]) -> Vec<String> {
    lines.iter().map(|line| line.to_string()).collect()
}

#[test]
fn the_text_of_a_line_is_what_stands_behind_the_marks() {
    assert_eq!(doc_line(" Use this tool."), "Use this tool.");
    assert_eq!(doc_line("/// Use this tool.  "), "Use this tool.");
    assert_eq!(doc_line("  /** Use * this / tool */"), "Use * this / tool */");
    assert_eq!(doc_line(" * / *"), "");
    assert_eq!(doc_line(""), "");
    assert_eq!(doc_line("a/b"), "a/b");
    for line in [" Use this tool.", "/// x ", " * / *", "", "  // a * b //  ", "\t*\u{a0}x"] {
        let expected = line
            .trim()
            .trim_start_matches(|c: char| c == '/' || c == '*' || c.is_whitespace());
        assert_eq!(doc_line(line), expected);
    }
    assert!(char_is_mark('/') && char_is_mark('*') && char_is_mark(' ') && char_is_mark('\n'));
    assert!(!char_is_mark('a') && !char_is_mark('\\') && !char_is_mark('-'));
}

#[test]
fn a_description_is_the_documentation_line_by_line() {
    assert_eq!(
        description(&lines(&[
            " Use this tool to answer questions like: \"What time is it?\".",
            " It returns the time in `HH:MM:SS` format.",
        ])),
        Some(
            "Use this tool to answer questions like: \"What time is it?\".\n\
             It returns the time in `HH:MM:SS` format."
                .to_string()
        )
    );
    assert_eq!(description(&lines(&[" one"])), Some("one".to_string()));
    assert_eq!(
        description(&lines(&["", " first", "", " second", ""])),
        Some("first\n\nsecond".to_string())
    );
}

#[test]
fn documentation_without_text_gives_no_description() {
    assert_eq!(description(&lines(&[])), None);
    assert_eq!(description(&lines(&[""])), None);
    assert_eq!(description(&lines(&[" ", "///", " * "])), None);
}

#[test]
fn the_parameters_of_a_function_are_named_after_it() {
    assert_eq!(params_type_name("get_day_of_week"), "GetDayOfWeekParams");
    assert_eq!(params_type_name("web_fetch"), "WebFetchParams");
    assert_eq!(params_type_name("x"), "XParams");
    assert_eq!(params_type_name(""), "Params");
}

#[test]
fn the_first_name_that_repeats_an_earlier_one_is_found() {
    assert_eq!(first_duplicate(&lines(&[])), None);
    assert_eq!(first_duplicate(&lines(&["a"])), None);
    assert_eq!(first_duplicate(&lines(&["a", "b", "c"])), None);
    assert_eq!(first_duplicate(&lines(&["a", "a"])), Some(1));
    assert_eq!(first_duplicate(&lines(&["a", "b", "c", "b", "a"])), Some(3));
    assert_eq!(first_duplicate(&lines(&["a", "b", "a", "b"])), Some(2));
    assert_eq!(first_duplicate(&lines(&["a", "A", ""])), None);
}

#[test]
fn a_toolbox_needs_tools_with_different_names() {
    assert_eq!(check_names(&lines(&["get_today_date", "get_current_time"])), Ok(()));
    assert_eq!(check_names(&lines(&[])), Err(DefinitionError::Empty));
    assert_eq!(
        check_names(&lines(&["a", "b", "b", "a"])),
        Err(DefinitionError::Duplicate("b".to_string()))
    );
    assert_eq!(
        DefinitionError::Duplicate("b".to_string()).message(),
        "Duplicate tool name found: b"
    );
    assert_eq!(DefinitionError::Empty.message(), "No #[tool] definition in impl block");
}
