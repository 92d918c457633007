use gptxt::synth::{add_serializer, build_prompt, finish_candidate, input_lines, SYSTEM_MESSAGE};

#[test]
fn one_line_json_appends_compact_serialisation() {
    let p = finish_candidate("  result = data.split()\n\n", true, true);
    assert_eq!(
        p,
        "result = data.split()\nimport json; result = json.dumps(result, separators=(',', ':'))"
    );
    let last = p.lines().last().unwrap();
    assert!(last.contains("separators=(',', ':')"));
}

#[test]
fn json_appends_default_serialisation() {
    let p = finish_candidate("result = 1", true, false);
    assert_eq!(p, "result = 1\nimport json; result = json.dumps(result)");
}

#[test]
fn plain_candidate_is_only_trimmed() {
    assert_eq!(finish_candidate("\n\t result = data \n", false, false), "result = data");
}

#[test]
fn serializer_on_untrimmed_text() {
    assert_eq!(add_serializer(String::from(" x "), false, false), " x ");
    assert_eq!(
        add_serializer(String::from("x"), false, true),
        "x\nimport json; result = json.dumps(result, separators=(',', ':'))"
    );
}

#[test]
fn prompt_without_preview() {
    let p = build_prompt("uppercase the text", None, "hello");
    assert_eq!(p, format!("{}\n# uppercase the text:", SYSTEM_MESSAGE));
}

#[test]
fn prompt_with_preview_of_two_lines() {
    let p = build_prompt("count words", Some(2), "one\r\ntwo\nthree\n");
    assert_eq!(
        p,
        format!(
            "{}\n# First 2 lines of `data`:\n#>one\n#>two\n\n# count words:",
            SYSTEM_MESSAGE
        )
    );
}

#[test]
fn preview_of_more_lines_than_the_input_has() {
    let p = build_prompt("t", Some(10), "a\nb");
    assert_eq!(p, format!("{}\n# First 10 lines of `data`:\n#>a\n#>b\n\n# t:", SYSTEM_MESSAGE));
}

#[test]
fn preview_of_zero_lines() {
    let p = build_prompt("t", Some(0), "a\nb");
    assert_eq!(p, format!("{}\n# First 0 lines of `data`:\n\n\n# t:", SYSTEM_MESSAGE));
}

#[test]
fn input_lines_match_std_lines() {
    for text in ["", "a", "a\n", "a\r\nb", "\n\nx\n", "a\r", "x\ny\r\n"] {
        for n in 0..4usize {
            let expected: Vec<String> = text.lines().take(n).map(String::from).collect();
            assert_eq!(input_lines(text, n), expected, "text {:?}, n {}", text, n);
        }
    }
}

#[test]
fn large_line_count_in_heading() {
    let p = build_prompt("t", Some(65535), "");
    assert!(p.contains("# First 65535 lines of `data`:\n\n"));
}

#[test]
fn unicode_white_space_is_trimmed() {
    assert_eq!(finish_candidate("\u{3000}\u{a0}result = data\u{2028}\u{85}", false, false), "result = data");
    assert_eq!(finish_candidate("\u{200b}x", false, false), "\u{200b}x");
}
