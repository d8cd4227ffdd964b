use batgpt::model::{Exercise, ParseError};
use batgpt::page::{exercise_from, extract_exercise, first_text, join, text_of_first, trim};

fn page(statement: &str, starter: &str) -> String {
    format!(
        "<html><body><div class=\"max2\">{}</div><div id=\"ace_div\">{}</div></body></html>",
        statement, starter
    )
}

#[test]
fn trim_removes_white_space_at_both_ends() {
    assert_eq!(trim("  \n\tabc def \r\n"), "abc def");
}

#[test]
fn trim_keeps_text_without_surrounding_white_space() {
    assert_eq!(trim("abc"), "abc");
    assert_eq!(trim("a b"), "a b");
}

#[test]
fn trim_of_white_space_only_is_empty() {
    assert_eq!(trim(" \t\n "), "");
    assert_eq!(trim(""), "");
}

#[test]
fn trim_knows_white_space_beyond_ascii() {
    assert_eq!(trim("\u{a0}\u{3000}x\u{2003}y\u{2028}"), "x\u{2003}y");
}

#[test]
fn trim_counts_characters_not_bytes() {
    assert_eq!(trim(" é…ü "), "é…ü");
}

#[test]
fn trim_agrees_with_std_on_samples() {
    for s in ["", " ", "a", " a", "a ", "  a  b  ", "\n\n", "\u{85}z\u{85}", "x\u{200b}"] {
        assert_eq!(trim(s), s.trim());
    }
}

#[test]
fn first_text_finds_a_class() {
    let markup = "<p class=\"a\"> one </p><p class=\"a\">two</p>";
    assert_eq!(first_text(markup, ".a"), Some("one".to_string()));
}

#[test]
fn first_text_takes_the_whole_text_of_the_node() {
    let markup = "<div id=\"d\">head <b>bold</b> tail</div>";
    assert_eq!(first_text(markup, "#d"), Some("head bold tail".to_string()));
}

#[test]
fn first_text_descends_into_children() {
    let markup = "<div id=\"d\"><span><i>deep</i></span>after</div>";
    assert_eq!(first_text(markup, "#d"), Some("deepafter".to_string()));
}

#[test]
fn first_text_trims_the_whole_not_each_part() {
    let markup = "<div id=\"d\">  a  <b> b </b>  c  </div>";
    assert_eq!(first_text(markup, "#d"), Some("a   b   c".to_string()));
}

#[test]
fn first_text_leaves_later_matches_out() {
    let markup = "<p class=\"a\">one <i>1</i></p><p class=\"a\">two <i>2</i></p>";
    assert_eq!(first_text(markup, ".a"), Some("one 1".to_string()));
}

#[test]
fn join_puts_the_texts_one_after_the_other() {
    let texts = vec!["Given ".to_string(), "3".to_string(), " ints".to_string()];
    assert_eq!(join(&texts), "Given 3 ints");
    assert_eq!(join(&vec!["only".to_string()]), "only");
    assert_eq!(join(&vec![]), "");
    assert_eq!(join(&vec![String::new(), "é".to_string(), String::new()]), "é");
}

#[test]
fn white_space_is_the_listed_set_for_every_character() {
    let listed = |n: u32| {
        (0x09..=0x0D).contains(&n)
            || n == 0x20
            || n == 0x85
            || n == 0xA0
            || n == 0x1680
            || (0x2000..=0x200A).contains(&n)
            || n == 0x2028
            || n == 0x2029
            || n == 0x202F
            || n == 0x205F
            || n == 0x3000
    };
    let mut buffer = String::new();
    for n in 0..=0x10FFFF_u32 {
        if let Some(c) = char::from_u32(n) {
            buffer.clear();
            buffer.push(c);
            assert_eq!(trim(&buffer).is_empty(), listed(n), "U+{:04X}", n);
        }
    }
}

#[test]
fn statement_with_nested_markup_is_read_whole() {
    let markup = "<div class='max2'>Given <b>3</b> ints</div>\
                  <div id='ace_div'>public int sum3(...)</div>";
    assert_eq!(
        extract_exercise(markup),
        Ok(Exercise {
            statement: "Given 3 ints".to_string(),
            starter: "public int sum3(...)".to_string(),
        })
    );
}

#[test]
fn first_text_of_no_match_is_none() {
    assert_eq!(first_text("<p>text</p>", ".missing"), None);
}

#[test]
fn first_text_of_an_element_without_text_is_empty() {
    assert_eq!(first_text("<div id=\"d\"></div>", "#d"), Some(String::new()));
    assert_eq!(first_text("<div id=\"d\"><br></div>", "#d"), Some(String::new()));
    assert_eq!(first_text("<div id=\"d\"> \n </div>", "#d"), Some(String::new()));
}

#[test]
fn first_text_with_a_rejected_selector_is_none() {
    assert_eq!(first_text("<p>text</p>", "p[["), None);
}

#[test]
fn first_text_differs_from_the_markup() {
    let markup = "<p id=\"x\">inner</p>";
    let found = first_text(markup, "#x");
    assert_eq!(found, Some("inner".to_string()));
    assert_ne!(found, Some(markup.to_string()));
}

#[test]
fn extract_reads_statement_and_starter_code() {
    let markup = page("\n  Given 3 ints, return their sum.  \n", " public int sum3(int a, int b, int c) {\n}\n ");
    assert_eq!(
        extract_exercise(&markup),
        Ok(Exercise {
            statement: "Given 3 ints, return their sum.".to_string(),
            starter: "public int sum3(int a, int b, int c) {\n}".to_string(),
        })
    );
}

#[test]
fn extract_takes_the_first_matching_nodes() {
    let markup = "<div class=\"max2\">first</div><div class=\"max2\">second</div>\
                  <div id=\"ace_div\">code</div>";
    assert_eq!(
        extract_exercise(markup),
        Ok(Exercise { statement: "first".to_string(), starter: "code".to_string() })
    );
}

#[test]
fn extract_without_statement_node_is_a_parse_error() {
    let markup = "<html><body><div id=\"ace_div\">code</div></body></html>";
    assert_eq!(extract_exercise(markup), Err(ParseError::MissingStatement));
}

#[test]
fn extract_without_starter_code_node_is_a_parse_error() {
    let markup = "<html><body><div class=\"max2\">statement</div></body></html>";
    assert_eq!(extract_exercise(markup), Err(ParseError::MissingStarterCode));
}

#[test]
fn extract_without_both_nodes_reports_the_statement() {
    assert_eq!(extract_exercise("<html></html>"), Err(ParseError::MissingStatement));
    assert_eq!(extract_exercise(""), Err(ParseError::MissingStatement));
}

#[test]
fn extract_with_an_empty_statement_node_gives_an_empty_statement() {
    let markup = "<div class=\"max2\"></div><div id=\"ace_div\">code</div>";
    assert_eq!(
        extract_exercise(markup),
        Ok(Exercise { statement: String::new(), starter: "code".to_string() })
    );
}

#[test]
fn extract_decodes_character_references() {
    let markup = page("a &lt; b &amp;&amp; c", "if (a &gt; 0) {}");
    assert_eq!(
        extract_exercise(&markup),
        Ok(Exercise { statement: "a < b && c".to_string(), starter: "if (a > 0) {}".to_string() })
    );
}

fn texts(items: &[&str]) -> Vec<String> {
    items.iter().map(|s| s.to_string()).collect()
}

#[test]
fn text_of_first_joins_and_trims_the_first_match() {
    let found = vec![texts(&[" Given ", "3", " ints\n"]), texts(&["other"])];
    assert_eq!(text_of_first(Some(found)), Some("Given 3 ints".to_string()));
}

#[test]
fn text_of_first_of_a_match_without_text_is_empty() {
    assert_eq!(text_of_first(Some(vec![texts(&[])])), Some(String::new()));
    assert_eq!(text_of_first(Some(vec![texts(&[" ", "\n"])])), Some(String::new()));
}

#[test]
fn text_of_first_of_no_match_is_none() {
    assert_eq!(text_of_first(Some(vec![])), None);
    assert_eq!(text_of_first(None), None);
}

#[test]
fn exercise_from_needs_both_texts() {
    let some = |s: &str| Some(s.to_string());
    assert_eq!(
        exercise_from(some("s"), some("c")),
        Ok(Exercise { statement: "s".to_string(), starter: "c".to_string() })
    );
    assert_eq!(exercise_from(None, some("c")), Err(ParseError::MissingStatement));
    assert_eq!(exercise_from(some("s"), None), Err(ParseError::MissingStarterCode));
    assert_eq!(exercise_from(None, None), Err(ParseError::MissingStatement));
    assert_eq!(
        exercise_from(some(""), some("")),
        Ok(Exercise { statement: String::new(), starter: String::new() })
    );
}
