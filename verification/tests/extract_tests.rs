use reds_playground::extract::extract_message_code;

/// What the extraction promises, phrased with the standard library's own
/// trimming chain.
fn std_chain<'a>(content: &'a str, command: &str) -> &'a str {
    content
        .trim()
        .trim_start_matches('~')
        .trim_start_matches(command)
        .trim()
        .trim_start_matches("```swift")
        .trim_matches('`')
}

#[test]
fn extract_eval_expression() {
    assert_eq!(extract_message_code("~eval ``1 + 1``", "eval"), "1 + 1");
}

#[test]
fn extract_run_code_block() {
    let content = "~run ```swift\nfunc Main() { FTLog(\"Hello\"); }\n```";
    assert_eq!(
        extract_message_code(content, "run"),
        "\nfunc Main() { FTLog(\"Hello\"); }\n"
    );
}

#[test]
fn extract_bare_snippet() {
    assert_eq!(
        extract_message_code("~compile func Main() {}", "compile"),
        "func Main() {}"
    );
}

#[test]
fn extract_empty_message() {
    assert_eq!(extract_message_code("", "eval"), "");
}

#[test]
fn extract_only_fences() {
    assert_eq!(extract_message_code("~eval ``````", "eval"), "");
}

#[test]
fn extract_repeated_prefixes() {
    assert_eq!(extract_message_code("~~~evalevaleval x", "eval"), "x");
    assert_eq!(extract_message_code("~eval evala", "eval"), "evala");
}

#[test]
fn extract_unicode_whitespace() {
    assert_eq!(
        extract_message_code("\u{a0}~eval `1`\u{3000}", "eval"),
        "1"
    );
}

#[test]
fn extract_agrees_with_std_trimming() {
    let cases: [(&str, &str); 8] = [
        ("~eval ``1 + 1``", "eval"),
        ("  ~run ```swift\nfunc Main() {}\n```  ", "run"),
        ("~compile func Main() {}", "compile"),
        ("", "eval"),
        ("~~~~eval ````x````", "eval"),
        ("~eval ```swift```swift`y`", "eval"),
        ("\t~run\nrun\n", "run"),
        ("~eval `\u{2028}2 + 2\u{2028}`", "eval"),
    ];
    for (content, command) in cases {
        assert_eq!(
            extract_message_code(content, command),
            std_chain(content, command)
        );
    }
}
