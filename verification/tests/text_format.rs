use peekaboox::selector::debug_text;

fn quoted(text: &str) -> String {
    let chars: Vec<char> = text.chars().collect();
    debug_text(&chars)
}

#[test]
fn quoting_matches_debug_formatting_of_ascii_text() {
    for text in [
        "plain",
        "say \"hi\"",
        "back\\slash",
        "tab\tnew\nline\rreturn",
        "nul\0",
        "escape\u{1b}[0m",
        "bell\u{7}",
        "delete\u{7f}",
        "\u{1}\u{1f}",
    ] {
        assert_eq!(quoted(text), format!("{text:?}"));
    }
}

#[test]
fn quoted_text_escapes_as_debug_does() {
    let samples = [
        "plain",
        "quote \" and 'single'",
        "back\\slash",
        "tab\tnew\nline\r",
        "\u{0}\u{1}\u{1f}\u{7f}",
        "caf\u{e9}",
        "next\u{85}line",
        "soft\u{ad}hyphen",
        "e\u{301}",
        "\u{301}start",
        "\u{200b}zero width",
        "emoji \u{1f600}",
        "\u{feff}bom",
        "\u{e000}private",
    ];
    for sample in samples {
        let chars: Vec<char> = sample.chars().collect();
        assert_eq!(
            peekaboox::selector::debug_text(&chars),
            format!("{sample:?}"),
            "sample {sample:?}"
        );
    }
}
